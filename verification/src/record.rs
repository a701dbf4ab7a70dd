use vstd::prelude::*;
use crate::severity::Severity;

verus! {

/// One log record, as handed over by the logging facade: a severity, the
/// module path it came from, an optional source file and line, and the
/// message already rendered to text. Records are transient — one per log
/// call, never stored.
pub struct Record {
    /// The record's severity.
    pub level: Severity,
    /// The module path (target) of the originating code unit.
    pub target: String,
    /// The source file, when the facade captured one.
    pub file: Option<String>,
    /// The source line, when the facade captured one.
    pub line: Option<u32>,
    /// The message, rendered to text.
    pub message: String,
}

} // verus!
