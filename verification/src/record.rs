use crate::severity::Severity;
use vstd::prelude::*;

verus! {

/// One structured log record: a severity level, the emitting category, and
/// a fully rendered message body. The sink consumes each record
/// synchronously and retains nothing.
pub struct LogRecord {
    pub level: Severity,
    pub target: String,
    pub message: String,
}

impl LogRecord {
    /// Packs the three projections of a record.
    pub fn new(level: Severity, target: String, message: String) -> (r: LogRecord)
        ensures
            r.level == level,
            r.target@ == target@,
            r.message@ == message@,
    {
        LogRecord { level, target, message }
    }
}

} // verus!
