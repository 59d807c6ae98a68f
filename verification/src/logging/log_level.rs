use vstd::prelude::*;

verus! {

/// How much a logger lets through, from nothing to everything.
#[derive(Clone, Copy, Debug, PartialEq, Eq, Structural)]
pub enum LogLevel {
    /// No log output.
    Silent,
    Error,
    Warn,
    Info,
    Debug,
}

/// The place of a level in the order `Silent < Error < Warn < Info < Debug`.
pub open spec fn level_rank(level: LogLevel) -> nat {
    match level {
        LogLevel::Silent => 0,
        LogLevel::Error => 1,
        LogLevel::Warn => 2,
        LogLevel::Info => 3,
        LogLevel::Debug => 4,
    }
}

/// The one-letter tag of a level in a log line.
pub open spec fn level_short(level: LogLevel) -> Seq<char> {
    match level {
        LogLevel::Silent => "N"@,
        LogLevel::Error => "E"@,
        LogLevel::Warn => "W"@,
        LogLevel::Info => "I"@,
        LogLevel::Debug => "D"@,
    }
}

/// The name by which a level is given on the command line.
pub open spec fn level_name(level: LogLevel) -> Seq<char> {
    match level {
        LogLevel::Silent => "none"@,
        LogLevel::Error => "error"@,
        LogLevel::Warn => "warn"@,
        LogLevel::Info => "info"@,
        LogLevel::Debug => "debug"@,
    }
}

/// `c` with an ASCII capital letter turned into its small letter.
pub open spec fn ascii_lower(c: char) -> char {
    if 65 <= (c as u32) <= 90 {
        ((c as u32) + 32) as char
    } else {
        c
    }
}

/// Whether `input` names the value `name`: exactly, or, when `ignore_case`,
/// up to the case of ASCII letters.
pub open spec fn value_matches(name: Seq<char>, input: Seq<char>, ignore_case: bool) -> bool {
    if ignore_case {
        name.len() == input.len() && forall|i: int|
            0 <= i < name.len() ==> ascii_lower(#[trigger] name[i]) == ascii_lower(input[i])
    } else {
        name == input
    }
}

/// The levels in the order in which a name is tried against them.
pub open spec fn level_at(i: nat) -> LogLevel {
    if i == 0 {
        LogLevel::Silent
    } else if i == 1 {
        LogLevel::Error
    } else if i == 2 {
        LogLevel::Warn
    } else if i == 3 {
        LogLevel::Info
    } else {
        LogLevel::Debug
    }
}

/// clap's `PossibleValue::matches`, for a possible value named `name` that has
/// no aliases. With clap's `unicode` feature off, as here, it compares `input`
/// with `name` exactly, or, when `ignore_case`, with `str::eq_ignore_ascii_case`,
/// which compares the two strings character by character up to ASCII case.
#[verifier::external_body]
fn possible_value_matches(name: &'static str, input: &str, ignore_case: bool) -> (res: bool)
    ensures
        res == value_matches(name@, input@, ignore_case),
{
    clap::builder::PossibleValue::new(name).matches(input, ignore_case)
}

impl LogLevel {
    pub fn short(&self) -> (res: &'static str)
        ensures
            res@ == level_short(*self),
    {
        match self {
            LogLevel::Silent => "N",
            LogLevel::Error => "E",
            LogLevel::Warn => "W",
            LogLevel::Info => "I",
            LogLevel::Debug => "D",
        }
    }

    /// The name by which the level is given on the command line.
    pub fn name(&self) -> (res: &'static str)
        ensures
            res@ == level_name(*self),
    {
        match self {
            LogLevel::Silent => "none",
            LogLevel::Error => "error",
            LogLevel::Warn => "warn",
            LogLevel::Info => "info",
            LogLevel::Debug => "debug",
        }
    }

    pub fn rank(&self) -> (res: u8)
        ensures
            res == level_rank(*self),
    {
        match self {
            LogLevel::Silent => 0,
            LogLevel::Error => 1,
            LogLevel::Warn => 2,
            LogLevel::Info => 3,
            LogLevel::Debug => 4,
        }
    }

    /// Whether a logger at this level lets a message of level `level` through:
    /// when `level` comes no later than this one in the order of levels.
    pub fn allows(&self, level: LogLevel) -> (res: bool)
        ensures
            res == (level_rank(level) <= level_rank(*self)),
    {
        level.rank() <= self.rank()
    }

    /// Parses a level from its name, as clap parses a value of the
    /// command line: the first level, in the order of levels, whose name
    /// matches `input`.
    pub fn from_str(input: &str, ignore_case: bool) -> (res: Result<LogLevel, String>)
        ensures
            match res {
                Ok(level) => value_matches(level_name(level), input@, ignore_case) && forall|
                    l: LogLevel,
                | level_rank(l) < level_rank(level) ==> !value_matches(
                    level_name(l),
                    input@,
                    ignore_case,
                ),
                Err(msg) => (forall|l: LogLevel|
                    !value_matches(#[trigger] level_name(l), input@, ignore_case)) && msg@
                    == "invalid variant: "@ + input@,
            },
    {
        let levels = [LogLevel::Silent, LogLevel::Error, LogLevel::Warn, LogLevel::Info, LogLevel::Debug];
        let mut i: usize = 0;
        while i < 5
            invariant
                0 <= i <= 5,
                levels@ == seq![LogLevel::Silent, LogLevel::Error, LogLevel::Warn, LogLevel::Info, LogLevel::Debug],
                forall|l: LogLevel|
                    level_rank(l) < i ==> !value_matches(#[trigger] level_name(l), input@, ignore_case),
            decreases 5 - i,
        {
            let level = levels[i];
            assert(level_rank(level) == i);
            if possible_value_matches(level.name(), input, ignore_case) {
                return Ok(level);
            }
            i = i + 1;
        }
        Err(String::from_str("invalid variant: ").concat(input))
    }
}

impl Default for LogLevel {
    /// `Info`.
    fn default() -> (res: Self)
        ensures
            res == LogLevel::Info,
    {
        LogLevel::Info
    }
}

/// Whether a logger at level `logger` lets a message of level `message` through.
pub open spec fn lets_through(logger: LogLevel, message: LogLevel) -> bool {
    level_rank(message) <= level_rank(logger)
}

/// Raising a logger's level never holds back a message that it let through.
pub proof fn lemma_lets_through_monotone(low: LogLevel, high: LogLevel, message: LogLevel)
    requires
        level_rank(low) <= level_rank(high),
        lets_through(low, message),
    ensures
        lets_through(high, message),
{
}

/// A logger at level `logger` lets through exactly the messages of the
/// levels from `Error` up to its own: none at `Silent`, every level at
/// `Debug`.
pub proof fn lemma_lets_through_prefix(logger: LogLevel)
    ensures
        forall|i: nat|
            1 <= i <= 4 ==> (lets_through(logger, #[trigger] level_at(i)) <==> i <= level_rank(
                logger,
            )),
        logger == LogLevel::Silent ==> forall|m: LogLevel|
            m != LogLevel::Silent ==> !#[trigger] lets_through(logger, m),
        logger == LogLevel::Debug ==> forall|m: LogLevel| #[trigger] lets_through(logger, m),
{
    assert forall|i: nat| 1 <= i <= 4 implies (lets_through(logger, #[trigger] level_at(i))
        <==> i <= level_rank(logger)) by {
        assert(level_rank(level_at(i)) == i);
    }
}

/// Every level is parsed back from its own name, with or without regard to
/// case.
pub proof fn lemma_name_parses_back(level: LogLevel, ignore_case: bool)
    ensures
        value_matches(level_name(level), level_name(level), ignore_case),
        forall|l: LogLevel|
            level_rank(l) < level_rank(level) ==> !value_matches(
                #[trigger] level_name(l),
                level_name(level),
                ignore_case,
            ),
{
    reveal_strlit("none");
    reveal_strlit("error");
    reveal_strlit("warn");
    reveal_strlit("info");
    reveal_strlit("debug");
    assert forall|l: LogLevel| level_rank(l) < level_rank(level) implies !value_matches(
        #[trigger] level_name(l),
        level_name(level),
        ignore_case,
    ) by {
        let a = level_name(l);
        let b = level_name(level);
        assert(a[0] != b[0]);
        assert(ascii_lower(a[0]) == a[0]);
        assert(ascii_lower(b[0]) == b[0]);
    }
}

} // verus!
