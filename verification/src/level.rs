//! Severity levels and level thresholds.
//!
//! A `Level` names the severity of one log statement; a `LevelFilter` is a
//! threshold a sink is configured with. Lower numeric rank means more severe,
//! so `Error` is always "more included" than `Trace` at the same threshold:
//! a statement passes a threshold exactly when its rank is at most the
//! threshold's rank, and `Off` admits nothing.

use vstd::prelude::*;

verus! {

/// Severity of a single log statement, most severe first.
#[derive(Copy, Clone, Debug, PartialEq, Eq, Structural)]
pub enum Level {
    Error,
    Warn,
    Info,
    Debug,
    Trace,
}

/// Threshold a sink is configured with; `Off` admits nothing.
#[derive(Copy, Clone, Debug, PartialEq, Eq, Structural)]
pub enum LevelFilter {
    Off,
    Error,
    Warn,
    Info,
    Debug,
    Trace,
}

/// Numeric rank of a level: 1 (most severe) up to 5.
pub open spec fn level_rank(l: Level) -> int {
    match l {
        Level::Error => 1,
        Level::Warn => 2,
        Level::Info => 3,
        Level::Debug => 4,
        Level::Trace => 5,
    }
}

/// Numeric rank of a threshold: 0 (`Off`, admits nothing) up to 5.
pub open spec fn filter_rank(f: LevelFilter) -> int {
    match f {
        LevelFilter::Off => 0,
        LevelFilter::Error => 1,
        LevelFilter::Warn => 2,
        LevelFilter::Info => 3,
        LevelFilter::Debug => 4,
        LevelFilter::Trace => 5,
    }
}

/// A statement of severity `l` passes threshold `f` iff its rank is at most
/// the threshold's rank.
pub open spec fn level_passes(l: Level, f: LevelFilter) -> bool {
    level_rank(l) <= filter_rank(f)
}

/// The threshold that admits exactly `l` and everything more severe.
pub open spec fn spec_level_to_filter(l: Level) -> LevelFilter {
    match l {
        Level::Error => LevelFilter::Error,
        Level::Warn => LevelFilter::Warn,
        Level::Info => LevelFilter::Info,
        Level::Debug => LevelFilter::Debug,
        Level::Trace => LevelFilter::Trace,
    }
}

impl Level {
    /// The threshold that admits exactly this level and everything more severe.
    pub fn to_filter(self) -> (r: LevelFilter)
        ensures
            r == spec_level_to_filter(self),
            filter_rank(r) == level_rank(self),
    {
        match self {
            Level::Error => LevelFilter::Error,
            Level::Warn => LevelFilter::Warn,
            Level::Info => LevelFilter::Info,
            Level::Debug => LevelFilter::Debug,
            Level::Trace => LevelFilter::Trace,
        }
    }

    /// Upper-case name of the level, as it appears in formatted output.
    pub fn as_str(self) -> (r: &'static str)
        ensures
            r@ == spec_level_name(self),
    {
        match self {
            Level::Error => "ERROR",
            Level::Warn => "WARN",
            Level::Info => "INFO",
            Level::Debug => "DEBUG",
            Level::Trace => "TRACE",
        }
    }

    /// Whether this statement passes the given threshold.
    pub fn passes(self, f: LevelFilter) -> (r: bool)
        ensures
            r == level_passes(self, f),
    {
        match (self, f) {
            (_, LevelFilter::Trace) => true,
            (Level::Error, LevelFilter::Error) => true,
            (Level::Error, LevelFilter::Warn) => true,
            (Level::Error, LevelFilter::Info) => true,
            (Level::Error, LevelFilter::Debug) => true,
            (Level::Warn, LevelFilter::Warn) => true,
            (Level::Warn, LevelFilter::Info) => true,
            (Level::Warn, LevelFilter::Debug) => true,
            (Level::Info, LevelFilter::Info) => true,
            (Level::Info, LevelFilter::Debug) => true,
            (Level::Debug, LevelFilter::Debug) => true,
            _ => false,
        }
    }
}

/// Upper-case name of each level.
pub open spec fn spec_level_name(l: Level) -> Seq<char> {
    match l {
        Level::Error => "ERROR"@,
        Level::Warn => "WARN"@,
        Level::Info => "INFO"@,
        Level::Debug => "DEBUG"@,
        Level::Trace => "TRACE"@,
    }
}

} // verus!
