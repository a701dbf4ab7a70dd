use vstd::prelude::*;

verus! {

/// Ordered log severity: `Trace < Debug < Info < Warn < Error`.
#[derive(Clone, Copy, PartialEq, Eq, Structural, Debug)]
pub enum Severity {
    /// The finest-grained level.
    Trace,
    /// Diagnostic detail.
    Debug,
    /// Ordinary progress reports.
    Info,
    /// Something suspicious.
    Warn,
    /// Something went wrong.
    Error,
}

impl Severity {
    /// Numeric rank of a severity, respecting the order
    /// `Trace < Debug < Info < Warn < Error`.
    pub open spec fn rank(self) -> int {
        match self {
            Severity::Trace => 0,
            Severity::Debug => 1,
            Severity::Info => 2,
            Severity::Warn => 3,
            Severity::Error => 4,
        }
    }

    /// Whether a record of severity `self` reaches the minimum severity
    /// `min`. The minimum itself is emitted.
    pub open spec fn spec_passes(self, min: Severity) -> bool {
        self.rank() >= min.rank()
    }

    /// The level text that appears in a rendered line: the upper-case name
    /// of the severity.
    pub open spec fn spec_text(self) -> Seq<char> {
        match self {
            Severity::Trace => "TRACE"@,
            Severity::Debug => "DEBUG"@,
            Severity::Info => "INFO"@,
            Severity::Warn => "WARN"@,
            Severity::Error => "ERROR"@,
        }
    }

    /// Severity gate: a record is emitted only when its severity is at least
    /// the configured minimum.
    pub fn passes(self, min: Severity) -> (r: bool)
        ensures
            r == self.spec_passes(min),
    {
        self.exec_rank() >= min.exec_rank()
    }

    /// The upper-case name of the severity, as it appears in a rendered line.
    pub fn as_str(self) -> (r: &'static str)
        ensures
            r@ == self.spec_text(),
    {
        match self {
            Severity::Trace => "TRACE",
            Severity::Debug => "DEBUG",
            Severity::Info => "INFO",
            Severity::Warn => "WARN",
            Severity::Error => "ERROR",
        }
    }

    fn exec_rank(self) -> (r: u8)
        ensures
            r as int == self.rank(),
    {
        match self {
            Severity::Trace => 0,
            Severity::Debug => 1,
            Severity::Info => 2,
            Severity::Warn => 3,
            Severity::Error => 4,
        }
    }
}

} // verus!
