//! The configuration of the task lines, and the cell that holds the value in
//! force.

use vstd::prelude::*;

verus! {

/// How task lines are drawn.
///
/// A draft is made with [`ConfigBuilder::new`], changed with
/// [`ConfigBuilder::color`] and [`ConfigBuilder::duration`], and put in force
/// with [`ConfigBuilder::apply`].
#[derive(Clone, Copy, Debug, PartialEq, Eq, Structural)]
pub struct ConfigBuilder {
    /// Whether the status word (`RUNNING`, `DONE`) is written in color.
    pub color: bool,
    /// Whether the `DONE` line tells how long the task took.
    pub duration: bool,
}

/// Why a configuration could not be put in force.
#[derive(Clone, Copy, Debug, PartialEq, Eq, Structural)]
pub enum ConfigError {
    /// The cell is poisoned: an earlier holder failed while it held it.
    Lock,
}

/// The cell that holds the configuration in force.
///
/// A cell starts out healthy, with the default configuration. A healthy cell
/// takes a new value as a whole. A poisoned cell refuses every read and
/// every write, keeps the value it had, and never becomes healthy again.
#[derive(Debug)]
pub struct ConfigCell {
    current: ConfigBuilder,
    poisoned: bool,
}

/// What contracts say of a cell: the value it holds, and whether it is
/// poisoned.
pub struct CellState {
    pub config: ConfigBuilder,
    pub poisoned: bool,
}

impl CellState {
    /// The state of a new cell.
    pub open spec fn initial() -> CellState {
        CellState { config: ConfigBuilder::initial(), poisoned: false }
    }

    /// What a read of a cell in this state gives.
    pub open spec fn snapshot(self) -> Result<ConfigBuilder, ConfigError> {
        if self.poisoned {
            Err(ConfigError::Lock)
        } else {
            Ok(self.config)
        }
    }

    /// What applying a draft to a cell in this state returns.
    pub open spec fn apply_outcome(self) -> Result<(), ConfigError> {
        if self.poisoned {
            Err(ConfigError::Lock)
        } else {
            Ok(())
        }
    }

    /// The state after `draft` was applied.
    pub open spec fn apply(self, draft: ConfigBuilder) -> CellState {
        if self.poisoned {
            self
        } else {
            CellState { config: draft, poisoned: false }
        }
    }

    /// The state after the cell was poisoned.
    pub open spec fn poison(self) -> CellState {
        CellState { config: self.config, poisoned: true }
    }
}

impl View for ConfigCell {
    type V = CellState;

    closed spec fn view(&self) -> CellState {
        CellState { config: self.current, poisoned: self.poisoned }
    }
}

impl ConfigBuilder {
    /// The default configuration: color and duration both on.
    pub open spec fn initial() -> ConfigBuilder {
        ConfigBuilder { color: true, duration: true }
    }

    /// A draft with the default values.
    pub fn new() -> (draft: Self)
        ensures
            draft == Self::initial(),
    {
        ConfigBuilder { color: true, duration: true }
    }

    /// The same draft with `color` set to `enabled`.
    pub fn color(self, enabled: bool) -> (draft: Self)
        ensures
            draft == (ConfigBuilder { color: enabled, duration: self.duration }),
    {
        ConfigBuilder { color: enabled, duration: self.duration }
    }

    /// The same draft with `duration` set to `enabled`.
    pub fn duration(self, enabled: bool) -> (draft: Self)
        ensures
            draft == (ConfigBuilder { color: self.color, duration: enabled }),
    {
        ConfigBuilder { color: self.color, duration: enabled }
    }

    /// Puts this draft in force in `cell`, replacing the whole value at once.
    ///
    /// Fails with [`ConfigError::Lock`] exactly when the cell is poisoned, and
    /// then leaves the cell as it was.
    pub fn apply(self, cell: &mut ConfigCell) -> (outcome: Result<(), ConfigError>)
        ensures
            outcome == old(cell)@.apply_outcome(),
            final(cell)@ == old(cell)@.apply(self),
    {
        if cell.poisoned {
            Err(ConfigError::Lock)
        } else {
            cell.current = self;
            Ok(())
        }
    }
}

impl Default for ConfigBuilder {
    fn default() -> (draft: Self)
        ensures
            draft == Self::initial(),
    {
        ConfigBuilder { color: true, duration: true }
    }
}

impl ConfigCell {
    /// A healthy cell that holds the default configuration.
    pub fn new() -> (cell: Self)
        ensures
            cell@ == CellState::initial(),
    {
        ConfigCell { current: ConfigBuilder::new(), poisoned: false }
    }

    /// Whether the cell is poisoned.
    pub fn is_poisoned(&self) -> (poisoned: bool)
        ensures
            poisoned == self@.poisoned,
    {
        self.poisoned
    }

    /// Poisons the cell. The value it holds stays as it is.
    pub fn poison(&mut self)
        ensures
            final(self)@ == old(self)@.poison(),
    {
        self.poisoned = true;
    }

    /// The configuration in force, as one whole value.
    ///
    /// Fails with [`ConfigError::Lock`] exactly when the cell is poisoned.
    pub fn snapshot(&self) -> (outcome: Result<ConfigBuilder, ConfigError>)
        ensures
            outcome == self@.snapshot(),
    {
        if self.poisoned {
            Err(ConfigError::Lock)
        } else {
            Ok(self.current)
        }
    }
}

/// Applying the same draft a second time changes nothing: the cell is in the
/// state that the first application left, and the second application
/// returns what the first returned.
pub proof fn lemma_apply_is_idempotent(state: CellState, draft: ConfigBuilder)
    ensures
        state.apply(draft).apply(draft) == state.apply(draft),
        state.apply(draft).apply_outcome() == state.apply_outcome(),
{
}

/// A draft that was applied with success is what the next read gives, whole.
pub proof fn lemma_applied_draft_is_read(state: CellState, draft: ConfigBuilder)
    requires
        state.apply_outcome() is Ok,
    ensures
        state.apply(draft).snapshot() == Ok::<ConfigBuilder, ConfigError>(draft),
{
}

/// After a cell was poisoned, applying a draft fails with the lock error,
/// and so does a read. The cell stays as the poisoning left it.
pub proof fn lemma_poisoned_cell_refuses(state: CellState, draft: ConfigBuilder)
    ensures
        state.poison().apply_outcome() == Err::<(), ConfigError>(ConfigError::Lock),
        state.poison().snapshot() == Err::<ConfigBuilder, ConfigError>(ConfigError::Lock),
        state.poison().apply(draft) == state.poison(),
{
}

/// Poison is for good: neither applying a draft nor poisoning again makes a
/// poisoned cell healthy.
pub proof fn lemma_poison_is_permanent(state: CellState, draft: ConfigBuilder)
    requires
        state.poisoned,
    ensures
        state.apply(draft).poisoned,
        state.poison().poisoned,
{
}

} // verus!
