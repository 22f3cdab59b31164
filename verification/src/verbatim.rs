//! Tracking verbatim-like regions: a depth counter for the verbatim
//! family of environments and the derived flag that suppresses all
//! reformatting of the lines lying strictly inside such a region.

use vstd::prelude::*;

use crate::logging::log_matches;
use crate::logging::record_line_log;
use crate::logging::Log;
use crate::logging::Severity;
use crate::markers::contains_env_begin;
use crate::markers::contains_env_end;
use crate::markers::is_verbatim_begin;
use crate::markers::is_verbatim_end;
use crate::markers::spec_contains_env_begin;
use crate::markers::spec_contains_env_end;
use crate::markers::spec_is_verbatim_begin;
use crate::markers::spec_is_verbatim_end;
use crate::scan::str_to_chars;
use crate::State;

verus! {

/// State of the verbatim tracker after a line.
#[derive(Clone, Copy, Debug)]
pub struct Verbatim {
    /// Net number of verbatim environments entered so far.
    pub actual: i64,
    /// Whether the line lies strictly inside a verbatim region.
    pub visual: bool,
}

impl Verbatim {
    /// Tracker state before the first line: outside any region.
    pub fn new() -> (r: Self)
        ensures
            r.actual == 0,
            r.visual == false,
    {
        Self { actual: 0, visual: false }
    }
}

/// Net change of the verbatim depth contributed by this line: one more
/// on a verbatim opening, one less on a verbatim closing.
pub open spec fn spec_verbatim_diff(s: Seq<char>) -> int {
    if spec_contains_env_begin(s) && spec_is_verbatim_begin(s) {
        1
    } else if spec_contains_env_end(s) && spec_is_verbatim_end(s) {
        -1
    } else {
        0
    }
}

/// Net change of the verbatim depth contributed by `line`.
pub fn get_verbatim_diff(line: &str) -> (d: i64)
    ensures
        d as int == spec_verbatim_diff(line@),
{
    let v = str_to_chars(line);
    if contains_env_begin(&v) && is_verbatim_begin(&v) {
        1
    } else if contains_env_end(&v) && is_verbatim_end(&v) {
        -1
    } else {
        0
    }
}

/// The verbatim state after `line`: the depth after the line's own
/// change, and the suppression flag, true only when the region was open
/// both before and after the line. A depth that goes negative is logged
/// when `warn` is set, and deliberately not clamped.
pub fn get_verbatim(
    line: &str,
    state: &State,
    logs: &mut Vec<Log>,
    file: &str,
    warn: bool,
) -> (r: Verbatim)
    requires
        i64::MIN < state.verbatim.actual < i64::MAX,
    ensures
        r.actual as int == state.verbatim.actual + spec_verbatim_diff(line@),
        r.visual == (r.actual > 0 && state.verbatim.actual > 0),
        (warn && state.verbatim.actual + spec_verbatim_diff(line@) < 0) ==> (final(logs)@.len()
            == old(logs)@.len() + 1 && final(logs)@.subrange(0, old(logs)@.len() as int) == old(
            logs,
        )@ && log_matches(
            final(logs)@.last(),
            Severity::Warn,
            file@,
            state.linum_new as int,
            state.linum_old as int,
            line@,
            "Verbatim count is negative."@,
        )),
        !(warn && state.verbatim.actual + spec_verbatim_diff(line@) < 0) ==> final(logs)@ == old(
            logs,
        )@,
{
    let diff = get_verbatim_diff(line);
    let actual = state.verbatim.actual + diff;
    let visual = actual > 0 && state.verbatim.actual > 0;

    if warn && (actual < 0) {
        record_line_log(
            logs,
            Severity::Warn,
            file,
            state.linum_new,
            state.linum_old,
            line,
            "Verbatim count is negative.",
        );
    }

    Verbatim { actual, visual }
}

} // verus!
