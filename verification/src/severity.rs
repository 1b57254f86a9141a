use vstd::prelude::*;

verus! {

/// The ordered severity scale. `Error` is the most severe, `Trace` the
/// least; the sink emits nothing below `Info`.
#[derive(Clone, Copy, Debug, PartialEq, Eq, Structural)]
pub enum Severity {
    Error,
    Warn,
    Info,
    Debug,
    Trace,
}

impl Severity {
    /// Numeric encoding of the scale: a lower number is a higher severity.
    pub open spec fn spec_rank(self) -> u8 {
        match self {
            Severity::Error => 1,
            Severity::Warn => 2,
            Severity::Info => 3,
            Severity::Debug => 4,
            Severity::Trace => 5,
        }
    }

    /// Whether a record of this severity passes the sink's fixed `Info`
    /// threshold.
    pub open spec fn spec_enabled(self) -> bool {
        self.spec_rank() <= Severity::Info.spec_rank()
    }

    /// The textual rendering of the severity, as it stands at the head of
    /// an emitted line.
    pub open spec fn spec_name(self) -> Seq<char> {
        match self {
            Severity::Error => "ERROR"@,
            Severity::Warn => "WARN"@,
            Severity::Info => "INFO"@,
            Severity::Debug => "DEBUG"@,
            Severity::Trace => "TRACE"@,
        }
    }

    /// The severity's place on the numeric scale.
    pub fn rank(self) -> (r: u8)
        ensures
            r == self.spec_rank(),
    {
        match self {
            Severity::Error => 1,
            Severity::Warn => 2,
            Severity::Info => 3,
            Severity::Debug => 4,
            Severity::Trace => 5,
        }
    }

    /// The sink's enablement predicate: true exactly for `Error`, `Warn`
    /// and `Info`, the severities at or above the fixed threshold.
    pub fn is_enabled(self) -> (r: bool)
        ensures
            r == self.spec_enabled(),
            r <==> (self is Error || self is Warn || self is Info),
    {
        self.rank() <= Severity::Info.rank()
    }

    /// The severity's name, exactly as an emitted line renders it.
    pub fn name(self) -> (r: &'static str)
        ensures
            r@ == self.spec_name(),
    {
        match self {
            Severity::Error => "ERROR",
            Severity::Warn => "WARN",
            Severity::Info => "INFO",
            Severity::Debug => "DEBUG",
            Severity::Trace => "TRACE",
        }
    }
}

} // verus!
