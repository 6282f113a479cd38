//! Status lines around a unit of work: a `RUNNING` line before it starts and
//! a `DONE` line, with the elapsed time where that is wanted, once it has
//! finished.
//!
//! [`task`] runs the work and hands the lines to a writer of the caller's
//! choice; [`task_into`] writes them to a [`LineSink`], and says which lines
//! it wrote. How the lines look is set by a [`ConfigBuilder`]; the value in
//! force for a whole program lives in a [`ConfigCell`]. The elapsed time is
//! put into words by [`util::format_duration`].

mod clock;
pub mod config;
pub mod sink;
pub mod style;
pub mod task;
pub mod util;

pub use crate::config::CellState;
pub use crate::config::ConfigBuilder;
pub use crate::config::ConfigCell;
pub use crate::config::ConfigError;
pub use crate::sink::LineSink;
pub use crate::sink::Transcript;
pub use crate::task::task;
pub use crate::task::task_into;
