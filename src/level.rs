use vstd::prelude::*;

verus! {

/// The severity of a log message, from least to most severe.
#[derive(Clone, Copy, PartialEq, Eq, Structural, PartialOrd, Ord, Debug)]
pub enum Level {
    /// Very low-level, verbose output for debugging.
    Trace,
    /// Debugging information.
    Debug,
    /// General information about normal operation.
    Info,
    /// Something unexpected happened, but the program can continue.
    Warn,
    /// An error occurred, but the program can still run.
    Error,
    /// A critical error after which the program cannot continue.
    Fatal,
}

impl Level {
    /// The position of the level in the order of severity.
    pub open spec fn rank(self) -> nat {
        match self {
            Level::Trace => 0,
            Level::Debug => 1,
            Level::Info => 2,
            Level::Warn => 3,
            Level::Error => 4,
            Level::Fatal => 5,
        }
    }

    /// The upper-case name of the level.
    pub open spec fn name(self) -> Seq<char> {
        match self {
            Level::Trace => "TRACE"@,
            Level::Debug => "DEBUG"@,
            Level::Info => "INFO"@,
            Level::Warn => "WARN"@,
            Level::Error => "ERROR"@,
            Level::Fatal => "FATAL"@,
        }
    }

    /// The ANSI escape sequence that colours output of this level.
    pub open spec fn color(self) -> Seq<char> {
        match self {
            Level::Trace => "\x1B[37m"@,
            Level::Debug => "\x1B[36m"@,
            Level::Info => "\x1B[32m"@,
            Level::Warn => "\x1B[33m"@,
            Level::Error => "\x1B[31m"@,
            Level::Fatal => "\x1B[35m"@,
        }
    }

    /// The position of the level in the order of severity.
    pub fn severity(&self) -> (r: u8)
        ensures
            r as nat == self.rank(),
    {
        match self {
            Level::Trace => 0,
            Level::Debug => 1,
            Level::Info => 2,
            Level::Warn => 3,
            Level::Error => 4,
            Level::Fatal => 5,
        }
    }

    /// Returns the string representation of the level (e.g. "INFO").
    pub fn as_str(&self) -> (r: &'static str)
        ensures
            r@ == self.name(),
    {
        match self {
            Level::Trace => {
                proof { reveal_strlit("TRACE"); }
                "TRACE"
            },
            Level::Debug => {
                proof { reveal_strlit("DEBUG"); }
                "DEBUG"
            },
            Level::Info => {
                proof { reveal_strlit("INFO"); }
                "INFO"
            },
            Level::Warn => {
                proof { reveal_strlit("WARN"); }
                "WARN"
            },
            Level::Error => {
                proof { reveal_strlit("ERROR"); }
                "ERROR"
            },
            Level::Fatal => {
                proof { reveal_strlit("FATAL"); }
                "FATAL"
            },
        }
    }

    /// Returns the ANSI colour code for this level: white, cyan, green,
    /// yellow, red and magenta, from `Trace` to `Fatal`.
    pub fn color_code(&self) -> (r: &'static str)
        ensures
            r@ == self.color(),
    {
        match self {
            Level::Trace => {
                proof { reveal_strlit("\x1B[37m"); }
                "\x1B[37m"
            },
            Level::Debug => {
                proof { reveal_strlit("\x1B[36m"); }
                "\x1B[36m"
            },
            Level::Info => {
                proof { reveal_strlit("\x1B[32m"); }
                "\x1B[32m"
            },
            Level::Warn => {
                proof { reveal_strlit("\x1B[33m"); }
                "\x1B[33m"
            },
            Level::Error => {
                proof { reveal_strlit("\x1B[31m"); }
                "\x1B[31m"
            },
            Level::Fatal => {
                proof { reveal_strlit("\x1B[35m"); }
                "\x1B[35m"
            },
        }
    }

    /// Returns the ANSI code that resets the colour.
    pub fn reset_code(&self) -> (r: &'static str)
        ensures
            r@ == "\x1B[0m"@,
    {
        proof { reveal_strlit("\x1B[0m"); }
        "\x1B[0m"
    }
}

/// Whether a message of `level` clears `threshold`.
pub open spec fn enabled(level: Level, threshold: Level) -> bool {
    level.rank() >= threshold.rank()
}

/// Whether a message of `level` clears `threshold`.
pub fn is_enabled(level: Level, threshold: Level) -> (r: bool)
    ensures
        r == enabled(level, threshold),
{
    level.severity() >= threshold.severity()
}

} // verus!
