use vstd::prelude::*;
use core::cmp::Ordering;

verus! {

/// Severity of a record, in increasing order of importance.
#[derive(Debug, Clone, Copy, PartialEq, Eq, Structural)]
pub enum LogLevel {
    Verbose,
    Debug,
    Info,
    Warning,
    Error,
    Fatal,
    Fixed,
}

impl LogLevel {
    /// Position of the level in the total order `Verbose < Debug < ... < Fixed`.
    pub open spec fn rank(self) -> nat {
        match self {
            LogLevel::Verbose => 0,
            LogLevel::Debug => 1,
            LogLevel::Info => 2,
            LogLevel::Warning => 3,
            LogLevel::Error => 4,
            LogLevel::Fatal => 5,
            LogLevel::Fixed => 6,
        }
    }

    /// The label, right-aligned to seven columns.
    pub open spec fn label_text(self) -> Seq<char> {
        match self {
            LogLevel::Verbose => "VERBOSE"@,
            LogLevel::Debug => "  DEBUG"@,
            LogLevel::Info => "   INFO"@,
            LogLevel::Warning => "WARNING"@,
            LogLevel::Error => "  ERROR"@,
            LogLevel::Fatal => "  FATAL"@,
            LogLevel::Fixed => "  FIXED"@,
        }
    }

    /// The ANSI escape sequence that starts the level's color.
    pub open spec fn color_text(self) -> Seq<char> {
        match self {
            LogLevel::Verbose => "\x1b[90m"@,
            LogLevel::Debug => "\x1b[96m"@,
            LogLevel::Info => "\x1b[92m"@,
            LogLevel::Warning => "\x1b[93m"@,
            LogLevel::Error => "\x1b[91m"@,
            LogLevel::Fatal => "\x1b[95m"@,
            LogLevel::Fixed => "\x1b[97m"@,
        }
    }

    /// The icon glyph of the level.
    pub open spec fn icon_text(self) -> Seq<char> {
        match self {
            LogLevel::Verbose => "💬"@,
            LogLevel::Debug => "🐞"@,
            LogLevel::Info => "ℹ️"@,
            LogLevel::Warning => "⚠️"@,
            LogLevel::Error => "❌"@,
            LogLevel::Fatal => "💀"@,
            LogLevel::Fixed => "✅"@,
        }
    }

    /// The level's position in the total order, as a number.
    pub fn rank_of(&self) -> (r: u8)
        ensures
            r as nat == self.rank(),
    {
        match self {
            LogLevel::Verbose => 0,
            LogLevel::Debug => 1,
            LogLevel::Info => 2,
            LogLevel::Warning => 3,
            LogLevel::Error => 4,
            LogLevel::Fatal => 5,
            LogLevel::Fixed => 6,
        }
    }

    /// Whether `self` is at least as severe as `threshold`.
    pub fn at_least(&self, threshold: &LogLevel) -> (r: bool)
        ensures
            r == (self.rank() >= threshold.rank()),
    {
        *self >= *threshold
    }

    /// The fixed-width label used in output lines.
    pub fn label(&self) -> (r: &'static str)
        ensures
            r@ == self.label_text(),
    {
        match self {
            LogLevel::Verbose => "VERBOSE",
            LogLevel::Debug => "  DEBUG",
            LogLevel::Info => "   INFO",
            LogLevel::Warning => "WARNING",
            LogLevel::Error => "  ERROR",
            LogLevel::Fatal => "  FATAL",
            LogLevel::Fixed => "  FIXED",
        }
    }

    /// The label as an owned string.
    pub fn to_string(&self) -> (r: String)
        ensures
            r@ == self.label_text(),
    {
        String::from_str(self.label())
    }

    /// The ANSI color escape sequence of the level.
    pub fn color(&self) -> (r: &'static str)
        ensures
            r@ == self.color_text(),
    {
        match self {
            LogLevel::Verbose => "\x1b[90m",
            LogLevel::Debug => "\x1b[96m",
            LogLevel::Info => "\x1b[92m",
            LogLevel::Warning => "\x1b[93m",
            LogLevel::Error => "\x1b[91m",
            LogLevel::Fatal => "\x1b[95m",
            LogLevel::Fixed => "\x1b[97m",
        }
    }

    /// The icon glyph of the level.
    pub fn icon(&self) -> (r: &'static str)
        ensures
            r@ == self.icon_text(),
    {
        match self {
            LogLevel::Verbose => "💬",
            LogLevel::Debug => "🐞",
            LogLevel::Info => "ℹ️",
            LogLevel::Warning => "⚠️",
            LogLevel::Error => "❌",
            LogLevel::Fatal => "💀",
            LogLevel::Fixed => "✅",
        }
    }
}

impl PartialOrd for LogLevel {
    fn partial_cmp(&self, other: &LogLevel) -> Option<Ordering> {
        let a = self.rank_of();
        let b = other.rank_of();
        if a < b {
            Some(Ordering::Less)
        } else if a > b {
            Some(Ordering::Greater)
        } else {
            Some(Ordering::Equal)
        }
    }
}

/// Levels compare by their rank.
impl vstd::std_specs::cmp::PartialOrdSpecImpl for LogLevel {
    open spec fn obeys_partial_cmp_spec() -> bool {
        true
    }

    open spec fn partial_cmp_spec(&self, other: &LogLevel) -> Option<Ordering> {
        if self.rank() < other.rank() {
            Some(Ordering::Less)
        } else if self.rank() > other.rank() {
            Some(Ordering::Greater)
        } else {
            Some(Ordering::Equal)
        }
    }
}

} // verus!
