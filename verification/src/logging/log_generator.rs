use vstd::prelude::*;

use super::log_level::{level_short, LogLevel};

verus! {

/// The text of a log line after its time stamp: `[X] message`, where `X` is
/// the level's tag.
pub open spec fn log_line(level: LogLevel, message: Seq<char>) -> Seq<char> {
    "["@ + level_short(level) + "] "@ + message
}

/// Turns a message of a level into a log line, after an optional time stamp.
///
/// The stamp is text that the caller supplies (the program reads the local
/// time of day from the clock); without one the line starts at its tag.
pub struct LogGenerator {
    log_level: LogLevel,
    message: String,
    stamp: String,
}

impl LogGenerator {
    pub closed spec fn level_view(&self) -> LogLevel {
        self.log_level
    }

    pub closed spec fn message_view(&self) -> Seq<char> {
        self.message@
    }

    pub closed spec fn stamp_view(&self) -> Seq<char> {
        self.stamp@
    }

    /// A generator of `message` at `log_level`, with no time stamp.
    pub fn new(log_level: LogLevel, message: String) -> (res: Self)
        ensures
            res.level_view() == log_level,
            res.message_view() == message@,
            res.stamp_view() == Seq::<char>::empty(),
    {
        LogGenerator { log_level, message, stamp: String::new() }
    }

    /// The same generator, with `stamp` put before the line.
    pub fn with_stamp(self, stamp: String) -> (res: Self)
        ensures
            res.level_view() == self.level_view(),
            res.message_view() == self.message_view(),
            res.stamp_view() == stamp@,
    {
        LogGenerator { stamp, ..self }
    }

    /// The log line: the stamp, then `[X] message`.
    pub fn gen(self) -> (res: String)
        ensures
            res@ == self.stamp_view() + log_line(self.level_view(), self.message_view()),
    {
        let res = self.stamp.concat("[").concat(self.log_level.short()).concat("] ").concat(
            self.message.as_str(),
        );
        assert(res@ =~= self.stamp_view() + log_line(self.level_view(), self.message_view()));
        res
    }
}

} // verus!
