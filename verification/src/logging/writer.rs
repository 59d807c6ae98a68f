use vstd::prelude::*;

use crate::error::JfResult;

verus! {

/// A line on its way to a log writer.
pub struct LogMessage {
    pub line: String,
}

/// The standard output of the process as the destination of log lines.
pub struct JfStdout;

impl JfStdout {
    pub fn new() -> (res: Self) {
        JfStdout
    }
}

/// A log writer that keeps the lines written to it, in order.
///
/// A clone is a copy: it starts with the lines written so far, and lines
/// written to it later do not show in the value it was cloned from. Lines
/// shared between clones would need shared mutable state, and what such
/// state holds cannot be stated here without tracked ghost state.
#[derive(Clone)]
pub struct MockLogWriter {
    lines: Vec<String>,
}

impl View for MockLogWriter {
    type V = Seq<Seq<char>>;

    closed spec fn view(&self) -> Seq<Seq<char>> {
        self.lines.deep_view()
    }
}

impl MockLogWriter {
    pub fn new() -> (res: Self)
        ensures
            res@ == Seq::<Seq<char>>::empty(),
    {
        MockLogWriter { lines: Vec::new() }
    }

    /// Keeps `line` after the lines written before it. It never fails.
    pub fn write(&mut self, line: &str) -> (res: JfResult<()>)
        ensures
            res is Ok,
            final(self)@ == old(self)@.push(line@),
    {
        let ghost before = self.lines.deep_view();
        self.lines.push(String::from_str(line));
        assert(self.lines.deep_view() =~= before.push(line@));
        Ok(())
    }

    /// The lines written so far, in order.
    pub fn lines(&self) -> (res: Vec<String>)
        ensures
            res.deep_view() == self@,
    {
        crate::job::params::clone_strings(&self.lines)
    }
}

} // verus!
