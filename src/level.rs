use vstd::prelude::*;

verus! {

/// Severity of a log record, from the most severe (`Error`) to the most verbose (`Trace`).
#[derive(Clone, Copy, Debug, PartialEq, Eq, Hash, Structural)]
pub enum Level {
    Error,
    Warn,
    Info,
    Debug,
    Trace,
}

/// A driver's threshold: the most verbose level it accepts. `Off` means "no filtering".
#[derive(Clone, Copy, Debug, PartialEq, Eq, Hash, Structural)]
pub enum LevelFilter {
    Off,
    Error,
    Warn,
    Info,
    Debug,
    Trace,
}

impl Level {
    /// Position of the level on the verbosity scale: `Error` is 1, `Trace` is 5.
    pub open spec fn rank(self) -> nat {
        match self {
            Level::Error => 1,
            Level::Warn => 2,
            Level::Info => 3,
            Level::Debug => 4,
            Level::Trace => 5,
        }
    }

    /// The upper-case name that records are rendered with.
    pub open spec fn name(self) -> Seq<char> {
        match self {
            Level::Error => "ERROR"@,
            Level::Warn => "WARN"@,
            Level::Info => "INFO"@,
            Level::Debug => "DEBUG"@,
            Level::Trace => "TRACE"@,
        }
    }

    pub fn as_str(&self) -> (r: &'static str)
        ensures
            r@ == self.name(),
    {
        match self {
            Level::Error => "ERROR",
            Level::Warn => "WARN",
            Level::Info => "INFO",
            Level::Debug => "DEBUG",
            Level::Trace => "TRACE",
        }
    }

    pub fn to_string(&self) -> (r: String)
        ensures
            r@ == self.name(),
    {
        self.as_str().to_string()
    }
}

impl LevelFilter {
    /// Position of the threshold on the verbosity scale: `Off` is 0, `Trace` is 5.
    pub open spec fn rank(self) -> nat {
        match self {
            LevelFilter::Off => 0,
            LevelFilter::Error => 1,
            LevelFilter::Warn => 2,
            LevelFilter::Info => 3,
            LevelFilter::Debug => 4,
            LevelFilter::Trace => 5,
        }
    }

    /// A threshold admits a level when it is `Off` (no filtering) or when the level
    /// is at most as verbose as the threshold.
    pub open spec fn spec_admits(self, level: Level) -> bool {
        self == LevelFilter::Off || level.rank() <= self.rank()
    }

    pub fn admits(&self, level: Level) -> (r: bool)
        ensures
            r == self.spec_admits(level),
    {
        match self {
            LevelFilter::Off => true,
            LevelFilter::Error => matches!(level, Level::Error),
            LevelFilter::Warn => matches!(level, Level::Error | Level::Warn),
            LevelFilter::Info => !matches!(level, Level::Debug | Level::Trace),
            LevelFilter::Debug => !matches!(level, Level::Trace),
            LevelFilter::Trace => true,
        }
    }
}

} // verus!
