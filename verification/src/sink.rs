//! Where the lines of a task go.

use vstd::prelude::*;

verus! {

/// A place that lines are written to, one after another.
pub trait LineSink {
    /// Every line written so far, oldest first, each without its line break.
    spec fn written(&self) -> Seq<Seq<char>>;

    /// Writes `line` after the lines written so far.
    fn write_line(&mut self, line: &str)
        ensures
            final(self).written() == old(self).written().push(line@),
    ;
}

/// A sink that keeps the lines it is handed.
#[derive(Debug)]
pub struct Transcript {
    lines: Vec<String>,
}

impl Transcript {
    /// A transcript without lines.
    pub fn new() -> (transcript: Self)
        ensures
            transcript.written() == Seq::<Seq<char>>::empty(),
    {
        Transcript { lines: Vec::new() }
    }

    /// The lines written, oldest first.
    pub fn into_lines(self) -> (lines: Vec<String>)
        ensures
            lines@.map_values(|line: String| line@) == self.written(),
    {
        self.lines
    }
}

impl LineSink for Transcript {
    closed spec fn written(&self) -> Seq<Seq<char>> {
        self.lines@.map_values(|line: String| line@)
    }

    fn write_line(&mut self, line: &str) {
        let owned = line.to_owned();
        self.lines.push(owned);
        assert(self.lines@.map_values(|line: String| line@) =~= old(self).lines@.map_values(
            |line: String| line@,
        ).push(line@));
    }
}

} // verus!
