//! Output relay: tagging the supervised process's output for the logging
//! sink.
//!
//! Two background listeners, one per stream, drain the child's standard
//! output and standard error line by line. Reading the streams is the
//! hosting application's work; how each line is tagged and rendered is
//! decided here: info severity for standard output, warning severity for
//! standard error, and a fixed source label in the rendered form. The text
//! itself is forwarded unchanged.

use vstd::prelude::*;

verus! {

/// Which output stream of the child a line was read from.
#[derive(Clone, Copy, Debug, PartialEq, Eq, Structural)]
pub enum StreamKind {
    Stdout,
    Stderr,
}

/// The severity a relayed line is logged under.
#[derive(Clone, Copy, Debug, PartialEq, Eq, Structural)]
pub enum LogSeverity {
    Info,
    Warn,
}

/// The severity for each stream: standard output is informational,
/// standard error is a warning.
pub open spec fn spec_relay_severity(kind: StreamKind) -> LogSeverity {
    match kind {
        StreamKind::Stdout => LogSeverity::Info,
        StreamKind::Stderr => LogSeverity::Warn,
    }
}

/// One line of child output, tagged for the logging sink.
pub struct RelayedLine {
    pub severity: LogSeverity,
    pub text: String,
}

/// Tag one line read from a child stream. The text is the line itself,
/// unchanged.
pub fn relay_line(kind: StreamKind, line: String) -> (r: RelayedLine)
    ensures
        r.severity == spec_relay_severity(kind),
        r.text@ == line@,
{
    let severity = match kind {
        StreamKind::Stdout => LogSeverity::Info,
        StreamKind::Stderr => LogSeverity::Warn,
    };
    RelayedLine { severity, text: line }
}

impl RelayedLine {
    /// The rendered form handed to the logging sink: the fixed source
    /// label, then the line.
    pub fn rendered(&self) -> (s: String)
        ensures
            s@ == "[Python] "@ + self.text@,
    {
        let mut s = String::from_str("[Python] ");
        s.append(self.text.as_str());
        s
    }
}

} // verus!
