//! Severity levels and their labels.

use vstd::prelude::*;

verus! {

/// How grave a logged message is.
#[derive(Clone, Copy, Debug, PartialEq, Eq, Structural)]
pub enum Severity {
    Info,
    Warning,
    Error,
}

impl Severity {
    /// The level that a code selects: 0 is `Info`, 1 is `Warning`, and every
    /// other code is `Error`.
    pub open spec fn of_code(code: u8) -> Severity {
        if code == 0 {
            Severity::Info
        } else if code == 1 {
            Severity::Warning
        } else {
            Severity::Error
        }
    }

    /// The text that stands for the level in a log line.
    pub open spec fn label_text(self) -> Seq<char> {
        match self {
            Severity::Info => "INFO"@,
            Severity::Warning => "WARNING"@,
            Severity::Error => "ERROR"@,
        }
    }

    /// Reads a severity code. No code is rejected: whatever is neither 0 nor
    /// 1 counts as an error.
    pub fn from_code(code: u8) -> (level: Severity)
        ensures
            level == Severity::of_code(code),
            code == 0 <==> level == Severity::Info,
            code == 1 <==> level == Severity::Warning,
            code >= 2 <==> level == Severity::Error,
    {
        if code == 0 {
            Severity::Info
        } else if code == 1 {
            Severity::Warning
        } else {
            Severity::Error
        }
    }

    /// The label of the level, in capitals.
    pub fn label(self) -> (text: &'static str)
        ensures
            text@ == self.label_text(),
    {
        match self {
            Severity::Info => "INFO",
            Severity::Warning => "WARNING",
            Severity::Error => "ERROR",
        }
    }
}

/// The label that a severity code puts into a log line.
pub open spec fn level_label(code: u8) -> Seq<char> {
    Severity::of_code(code).label_text()
}

/// The label for a severity code: `INFO` for 0, `WARNING` for 1, `ERROR` for
/// every other code.
pub fn level_name(level: u8) -> (name: &'static str)
    ensures
        name@ == level_label(level),
        level == 0 ==> name@ == "INFO"@,
        level == 1 ==> name@ == "WARNING"@,
        level >= 2 ==> name@ == "ERROR"@,
{
    Severity::from_code(level).label()
}

/// The three labels differ from one another, so a label tells which level
/// was logged.
pub proof fn label_tells_level(a: Severity, b: Severity)
    ensures
        a.label_text() == b.label_text() <==> a == b,
{
    reveal_strlit("INFO");
    reveal_strlit("WARNING");
    reveal_strlit("ERROR");
    if a != b {
        assert(a.label_text().len() != b.label_text().len());
    }
}

} // verus!
