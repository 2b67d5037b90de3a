//! Severities and the threshold derived from them.

use crate::text::same_text;
use vstd::prelude::*;

verus! {

/// Importance of a log record, most severe first.
#[derive(Clone, Copy, PartialEq, Eq, Structural, Debug)]
pub enum Level {
    Error,
    Warn,
    Info,
    Debug,
    Trace,
}

/// A process-wide threshold: `Off` lets nothing through, every other value
/// lets through the level of the same name and all more severe ones.
#[derive(Clone, Copy, PartialEq, Eq, Structural, Debug)]
pub enum LevelFilter {
    Off,
    Error,
    Warn,
    Info,
    Debug,
    Trace,
}

impl Level {
    /// Position in the severity order: `Error` is 1 and `Trace` is 5, so a
    /// smaller rank means a more severe level.
    pub open spec fn rank(self) -> int {
        match self {
            Level::Error => 1,
            Level::Warn => 2,
            Level::Info => 3,
            Level::Debug => 4,
            Level::Trace => 5,
        }
    }

    /// The upper-case name that appears in rendered lines.
    pub open spec fn name(self) -> Seq<char> {
        match self {
            Level::Error => "ERROR"@,
            Level::Warn => "WARN"@,
            Level::Info => "INFO"@,
            Level::Debug => "DEBUG"@,
            Level::Trace => "TRACE"@,
        }
    }

    /// The level selected by a configuration token. Tokens are lower case
    /// and matched exactly; anything else selects nothing.
    pub open spec fn from_token(token: Seq<char>) -> Option<Level> {
        if token == "error"@ {
            Some(Level::Error)
        } else if token == "warn"@ {
            Some(Level::Warn)
        } else if token == "info"@ {
            Some(Level::Info)
        } else if token == "debug"@ {
            Some(Level::Debug)
        } else if token == "trace"@ {
            Some(Level::Trace)
        } else {
            None
        }
    }

    /// The threshold that admits exactly the levels at least as severe as
    /// this one.
    pub open spec fn filter(self) -> LevelFilter {
        match self {
            Level::Error => LevelFilter::Error,
            Level::Warn => LevelFilter::Warn,
            Level::Info => LevelFilter::Info,
            Level::Debug => LevelFilter::Debug,
            Level::Trace => LevelFilter::Trace,
        }
    }

    pub fn ordinal(self) -> (r: u8)
        ensures
            r == self.rank(),
    {
        match self {
            Level::Error => 1,
            Level::Warn => 2,
            Level::Info => 3,
            Level::Debug => 4,
            Level::Trace => 5,
        }
    }

    pub fn as_str(self) -> (r: &'static str)
        ensures
            r@ == self.name(),
    {
        match self {
            Level::Error => "ERROR",
            Level::Warn => "WARN",
            Level::Info => "INFO",
            Level::Debug => "DEBUG",
            Level::Trace => "TRACE",
        }
    }

    pub fn parse(token: &str) -> (r: Option<Level>)
        ensures
            r == Level::from_token(token@),
    {
        if same_text(token, "error") {
            Some(Level::Error)
        } else if same_text(token, "warn") {
            Some(Level::Warn)
        } else if same_text(token, "info") {
            Some(Level::Info)
        } else if same_text(token, "debug") {
            Some(Level::Debug)
        } else if same_text(token, "trace") {
            Some(Level::Trace)
        } else {
            None
        }
    }

    pub fn to_level_filter(self) -> (r: LevelFilter)
        ensures
            r == self.filter(),
            r.rank() == self.rank(),
    {
        match self {
            Level::Error => LevelFilter::Error,
            Level::Warn => LevelFilter::Warn,
            Level::Info => LevelFilter::Info,
            Level::Debug => LevelFilter::Debug,
            Level::Trace => LevelFilter::Trace,
        }
    }
}

impl LevelFilter {
    /// Position in the threshold order: `Off` is 0, and each other value
    /// has the rank of the level it is named after.
    pub open spec fn rank(self) -> int {
        match self {
            LevelFilter::Off => 0,
            LevelFilter::Error => 1,
            LevelFilter::Warn => 2,
            LevelFilter::Info => 3,
            LevelFilter::Debug => 4,
            LevelFilter::Trace => 5,
        }
    }

    /// Whether records of `level` pass this threshold.
    pub open spec fn admits(self, level: Level) -> bool {
        level.rank() <= self.rank()
    }

    pub fn ordinal(self) -> (r: u8)
        ensures
            r == self.rank(),
    {
        match self {
            LevelFilter::Off => 0,
            LevelFilter::Error => 1,
            LevelFilter::Warn => 2,
            LevelFilter::Info => 3,
            LevelFilter::Debug => 4,
            LevelFilter::Trace => 5,
        }
    }

    pub fn allows(self, level: Level) -> (r: bool)
        ensures
            r == self.admits(level),
    {
        level.ordinal() <= self.ordinal()
    }
}

} // verus!
