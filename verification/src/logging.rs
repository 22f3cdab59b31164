//! Diagnostics collected while formatting: an append-only list of
//! per-line records, with no effect on the produced text.

use vstd::prelude::*;

verus! {

/// How important a log record is.
#[derive(Clone, Copy, Debug, PartialEq, Eq, Structural)]
pub enum Severity {
    /// Step-by-step information, only recorded when tracing is on.
    Trace,
    /// A recoverable problem in the input, corrected locally.
    Warn,
}

/// One diagnostic record about one line of one file.
#[derive(Debug)]
pub struct Log {
    /// Importance of the record.
    pub severity: Severity,
    /// Name of the file the line belongs to.
    pub file: String,
    /// Line number in the output being produced.
    pub linum_new: usize,
    /// Line number in the file as it was read.
    pub linum_old: usize,
    /// The text of the line concerned.
    pub line: String,
    /// What happened.
    pub message: String,
}

/// The record `g` carries exactly these fields.
pub open spec fn log_matches(
    g: Log,
    severity: Severity,
    file: Seq<char>,
    linum_new: int,
    linum_old: int,
    line: Seq<char>,
    message: Seq<char>,
) -> bool {
    &&& g.severity == severity
    &&& g.file@ == file
    &&& g.linum_new == linum_new
    &&& g.linum_old == linum_old
    &&& g.line@ == line
    &&& g.message@ == message
}

/// Append one record about a line to the log collection.
pub fn record_line_log(
    logs: &mut Vec<Log>,
    severity: Severity,
    file: &str,
    linum_new: usize,
    linum_old: usize,
    line: &str,
    message: &str,
)
    ensures
        final(logs)@.len() == old(logs)@.len() + 1,
        final(logs)@.subrange(0, old(logs)@.len() as int) == old(logs)@,
        log_matches(
            final(logs)@.last(),
            severity,
            file@,
            linum_new as int,
            linum_old as int,
            line@,
            message@,
        ),
{
    let entry = Log {
        severity,
        file: file.to_owned(),
        linum_new,
        linum_old,
        line: line.to_owned(),
        message: message.to_owned(),
    };
    logs.push(entry);
    proof {
        assert(logs@.subrange(0, old(logs)@.len() as int) =~= old(logs)@);
    }
}

} // verus!
