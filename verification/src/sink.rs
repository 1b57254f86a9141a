use crate::record::LogRecord;
use crate::severity::Severity;
use vstd::prelude::*;

verus! {

/// The exact text an enabled record contributes to the file:
/// `<SEVERITY> - <TARGET>: <MESSAGE>` followed by a newline.
pub open spec fn spec_line(level: Severity, target: Seq<char>, message: Seq<char>) -> Seq<char> {
    level.spec_name() + " - "@ + target + ": "@ + message + "\n"@
}

/// What one log call does to the file contents: it appends the record's
/// line when the record passes the threshold, and nothing otherwise.
pub open spec fn spec_log_effect(
    contents: Seq<char>,
    level: Severity,
    target: Seq<char>,
    message: Seq<char>,
) -> Seq<char> {
    if level.spec_enabled() {
        contents + spec_line(level, target, message)
    } else {
        contents
    }
}

/// Formats one record as the single line the sink appends for it.
pub fn format_line(record: &LogRecord) -> (r: String)
    ensures
        r@ == spec_line(record.level, record.target@, record.message@),
{
    let mut line = String::new();
    line.append(record.level.name());
    line.append(" - ");
    line.append(record.target.as_str());
    line.append(": ");
    line.append(record.message.as_str());
    line.append("\n");
    proof {
        assert(line@ =~= spec_line(record.level, record.target@, record.message@));
    }
    line
}

/// The emit decision: an enabled record yields exactly its formatted line,
/// a filtered record yields nothing to append.
pub fn render_record(record: &LogRecord) -> (r: Option<String>)
    ensures
        match r {
            Some(line) => record.level.spec_enabled() && line@ == spec_line(
                record.level,
                record.target@,
                record.message@,
            ),
            None => !record.level.spec_enabled(),
        },
{
    if record.level.is_enabled() {
        Some(format_line(record))
    } else {
        None
    }
}

/// Append-only law: one log call never disturbs the bytes already in the
/// file; whatever the record, the prior contents stay as an unchanged
/// prefix of the new contents.
pub proof fn lemma_log_append_only(
    contents: Seq<char>,
    level: Severity,
    target: Seq<char>,
    message: Seq<char>,
)
    ensures
        spec_log_effect(contents, level, target, message).len() >= contents.len(),
        spec_log_effect(contents, level, target, message).subrange(0, contents.len() as int)
            == contents,
{
    assert(spec_log_effect(contents, level, target, message).subrange(
        0,
        contents.len() as int,
    ) =~= contents);
}


} // verus!
