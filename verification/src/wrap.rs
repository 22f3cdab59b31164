//! Wrapping long lines: deciding whether a line needs wrapping, finding
//! the best breakpoint by accumulated display width, and splitting the
//! line into a head and a continuation.

use vstd::prelude::*;

use crate::comments::find_comment_index;
use crate::comments::spec_comment_index;
use crate::logging::log_matches;
use crate::logging::record_line_log;
use crate::logging::Log;
use crate::logging::Severity;
use crate::scan::str_to_chars;
use crate::Cli;
use crate::State;

verus! {

/// What `unicode_width` answers for one character.
pub uninterp spec fn char_width(c: char) -> Option<usize>;

/// Relies on `unicode_width::UnicodeWidthChar::width`: the displayed
/// width of `c` in columns, or `None` for a control character. A pure
/// table lookup, a function of the character alone.
#[verifier::external_body]
fn display_width(c: char) -> (r: Option<usize>)
    ensures
        r == char_width(c),
{
    unicode_width::UnicodeWidthChar::width(c)
}

/// Display width counted while scanning for a breakpoint: a character
/// without a defined width counts as zero columns.
pub open spec fn width_of(c: char) -> int {
    match char_width(c) {
        Some(w) => w as int,
        None => 0,
    }
}

/// Whether a line must be wrapped: wrapping is enabled, the line lies in
/// no suppressing region, and its character count exceeds the budget.
pub open spec fn spec_needs_wrap(s: Seq<char>, keep: bool, suppressed: bool, wrap: int) -> bool {
    !keep && !suppressed && s.len() > wrap
}

/// Check if a line needs wrapping.
pub fn needs_wrap(line: &str, state: &State, args: &Cli) -> (b: bool)
    ensures
        b == spec_needs_wrap(
            line@,
            args.keep,
            state.verbatim.visual || state.ignore.visual,
            args.wrap as int,
        ),
{
    !args.keep && !state.verbatim.visual && !state.ignore.visual && (line.unicode_len()
        > args.wrap)
}

/// Wrapping is idempotent: once a line is at or under the wrap width,
/// it no longer needs wrapping, so the wrapper is not invoked on it
/// again.
pub proof fn lemma_wrap_is_idempotent(s: Seq<char>, keep: bool, suppressed: bool, wrap: int)
    requires
        s.len() <= wrap,
    ensures
        !spec_needs_wrap(s, keep, suppressed, wrap),
{
}

/// The breakpoint search from position `i` on, carrying the width
/// accumulated so far, whether a breakable character has been passed,
/// and the candidate found so far: the scan stops as soon as the
/// accumulated width exceeds the soft minimum and some candidate
/// exists, and a candidate is an unescaped space after some non-space,
/// non-comment-marker character.
pub open spec fn wrap_rec(
    s: Seq<char>,
    wrap_min: int,
    i: int,
    width: int,
    after_char: bool,
    wp: Option<int>,
) -> Option<int>
    decreases s.len() - i,
{
    if i < 0 || i >= s.len() {
        wp
    } else {
        let w2 = width + width_of(s[i]);
        if w2 > wrap_min && wp is Some {
            wp
        } else {
            let cand = s[i] == ' ' && (i == 0 || s[i - 1] != '\\');
            let wp2 = if cand && after_char {
                Some(i)
            } else {
                wp
            };
            let ac2 = if !cand && s[i] != '%' {
                true
            } else {
                after_char
            };
            wrap_rec(s, wrap_min, i + 1, w2, ac2, wp2)
        }
    }
}

/// The breakpoint the wrapper chooses on `s`, if any.
pub open spec fn spec_wrap_point(s: Seq<char>, wrap_min: int) -> Option<int> {
    wrap_rec(s, wrap_min, 0, 0, false, None)
}

/// A chosen breakpoint always lies on an unescaped space within the
/// line.
pub proof fn lemma_wrap_rec_props(
    s: Seq<char>,
    wrap_min: int,
    i: int,
    width: int,
    after_char: bool,
    wp: Option<int>,
)
    requires
        0 <= i <= s.len(),
        (wp matches Some(q) ==> 0 <= q < s.len() && s[q] == ' '),
    ensures
        (wrap_rec(s, wrap_min, i, width, after_char, wp) matches Some(p) ==> 0 <= p < s.len()
            && s[p] == ' '),
    decreases s.len() - i,
{
    if i < s.len() {
        let w2 = width + width_of(s[i]);
        if !(w2 > wrap_min && wp is Some) {
            let cand = s[i] == ' ' && (i == 0 || s[i - 1] != '\\');
            let wp2 = if cand && after_char {
                Some(i)
            } else {
                wp
            };
            let ac2 = if !cand && s[i] != '%' {
                true
            } else {
                after_char
            };
            lemma_wrap_rec_props(s, wrap_min, i + 1, w2, ac2, wp2);
        }
    }
}

proof fn lemma_scan_breaks_at_first_candidate(s: Seq<char>, wrap_min: int, c: int, i: int)
    requires
        forall|k: int| 0 <= k < s.len() ==> width_of(#[trigger] s[k]) == 1,
        0 < c < s.len(),
        s[c] == ' ',
        s[c - 1] != '\\',
        forall|j: int| 0 <= j < c ==> s[j] != ' ' && s[j] != '%',
        c + 1 > wrap_min,
        0 <= i <= c,
    ensures
        wrap_rec(s, wrap_min, i, i, i > 0, None) == Some(c),
    decreases c - i,
{
    if i < c {
        lemma_scan_breaks_at_first_candidate(s, wrap_min, c, i + 1);
    } else {
        assert(wrap_rec(s, wrap_min, c, c, true, None) == wrap_rec(
            s,
            wrap_min,
            c + 1,
            c + 1,
            true,
            Some(c),
        ));
        if c + 1 < s.len() {
            assert(wrap_rec(s, wrap_min, c + 1, c + 1, true, Some(c)) == Some(c));
        }
    }
}

/// A long line of one-column characters whose first break candidate is
/// an unescaped space at index 75, past the soft minimum of 70: the
/// wrapper breaks exactly at that space, so with a hard budget of 80
/// the head is the 75 characters before it, the continuation prefix is
/// empty (the line has no comment), and the 14 characters after it
/// form the non-empty tail.
pub proof fn lemma_wrap_breaks_at_soft_minimum(s: Seq<char>)
    requires
        s.len() == 90,
        forall|k: int| 0 <= k < s.len() ==> width_of(#[trigger] s[k]) == 1,
        forall|k: int| 0 <= k < s.len() ==> s[k] != '%',
        s[75] == ' ',
        s[74] != '\\',
        forall|j: int| 0 <= j < 75 ==> s[j] != ' ',
    ensures
        spec_wrap_point(s, 70) == Some(75int),
        spec_comment_index(s) == s.len(),
        s.subrange(0, 75).len() == 75,
        s.subrange(76, s.len() as int).len() == 14,
{
    lemma_scan_breaks_at_first_candidate(s, 70, 75, 0);
    crate::comments::lemma_no_comment(s);
}

/// Find the best breakpoint of a long line: the last unescaped space
/// found before the accumulated display width passes the soft minimum.
/// A character without a defined display width counts as zero columns.
pub fn find_wrap_point(line: &str, args: &Cli) -> (r: Option<usize>)
    ensures
        (match r {
            Some(p) => Some(p as int) == spec_wrap_point(line@, args.wrap_min as int) && p
                < line@.len() && line@[p as int] == ' ',
            None => spec_wrap_point(line@, args.wrap_min as int) is None,
        }),
{
    let v = str_to_chars(line);
    let n = v.len();
    let mut wrap_point: Option<usize> = None;
    let ghost mut wpg: Option<int> = None;
    let mut after_char: bool = false;
    let mut line_width: u128 = 0;
    let wrap_min = args.wrap_min as u128;

    let mut i: usize = 0;
    while i < n
        invariant
            n == v@.len(),
            v@ == line@,
            wrap_min == args.wrap_min as u128,
            0 <= i <= n,
            line_width as int <= i as int * 0xffff_ffff_ffff_ffff,
            spec_wrap_point(line@, args.wrap_min as int) == wrap_rec(
                line@,
                args.wrap_min as int,
                i as int,
                line_width as int,
                after_char,
                wpg,
            ),
            (match wrap_point {
                Some(q) => wpg == Some(q as int),
                None => wpg is None,
            }),
            (wpg matches Some(q) ==> 0 <= q < i && line@[q] == ' '),
        decreases n - i,
    {
        let c = v[i];
        let dw: usize = match display_width(c) {
            Some(w) => w,
            None => 0,
        };
        proof {
            assert(dw as int <= 0xffff_ffff_ffff_ffff);
            assert(line_width as int + dw as int <= (i + 1) as int * 0xffff_ffff_ffff_ffff);
            assert((i + 1) as int * 0xffff_ffff_ffff_ffff <= 0xffff_ffff_ffff_ffff
                * 0xffff_ffff_ffff_ffff) by (nonlinear_arith)
                requires
                    i + 1 <= 0xffff_ffff_ffff_ffff,
            ;
        }
        line_width = line_width + dw as u128;
        if line_width > wrap_min && wrap_point.is_some() {
            proof {
                lemma_wrap_rec_props(
                    line@,
                    args.wrap_min as int,
                    i as int,
                    (line_width - dw) as int,
                    after_char,
                    wpg,
                );
            }
            return wrap_point;
        }
        let cand = c == ' ' && (i == 0 || v[i - 1] != '\\');
        if cand {
            if after_char {
                wrap_point = Some(i);
                proof {
                    wpg = Some(i as int);
                }
            }
        } else if c != '%' {
            after_char = true;
        }
        i = i + 1;
    }
    wrap_point
}

/// Wrap a long line into a head, a continuation prefix, and the rest:
/// the head is the text before the breakpoint, the prefix is the
/// comment continuation marker when the break falls inside a comment,
/// and the rest is the text after the breakpoint's space. A line whose
/// only breakpoint lies beyond the hard budget, or that has no
/// breakpoint at all, is logged as unwrappable and left unmodified.
pub fn apply_wrap<'a>(
    line: &'a str,
    state: &State,
    file: &str,
    args: &Cli,
    logs: &mut Vec<Log>,
) -> (r: Option<[&'a str; 3]>)
    ensures
        (r is Some <==> (spec_wrap_point(line@, args.wrap_min as int) matches Some(p) && p
            <= args.wrap as int)),
        (r matches Some(arr) ==> spec_wrap_point(line@, args.wrap_min as int) matches Some(p) && {
            &&& arr[0]@ == line@.subrange(0, p)
            &&& arr[1]@ == (if spec_comment_index(line@) < line@.len() && p > spec_comment_index(
                line@,
            ) {
                "% "@
            } else {
                ""@
            })
            &&& arr[2]@ == line@.subrange(p + 1, line@.len() as int)
            &&& arr[0]@ + seq![' '] + arr[2]@ == line@
        }),
        final(logs)@.len() == old(logs)@.len() + (if args.trace {
            1int
        } else {
            0
        }) + (if (spec_wrap_point(line@, args.wrap_min as int) matches Some(p) && p
            <= args.wrap as int) {
            0int
        } else {
            1
        }),
        final(logs)@.subrange(0, old(logs)@.len() as int) == old(logs)@,
        args.trace ==> log_matches(
            final(logs)@[old(logs)@.len() as int],
            Severity::Trace,
            file@,
            state.linum_new as int,
            state.linum_old as int,
            line@,
            "Wrapping long line."@,
        ),
        !(spec_wrap_point(line@, args.wrap_min as int) matches Some(p) && p <= args.wrap as int)
            ==> log_matches(
            final(logs)@.last(),
            Severity::Warn,
            file@,
            state.linum_new as int,
            state.linum_old as int,
            line@,
            "Line cannot be wrapped."@,
        ),
{
    if args.trace {
        record_line_log(
            logs,
            Severity::Trace,
            file,
            state.linum_new,
            state.linum_old,
            line,
            "Wrapping long line.",
        );
    }
    let ghost logs_after_trace: Seq<Log> = logs@;

    let wrap_point = find_wrap_point(line, args);
    let comment_index = find_comment_index(line);

    let wrappable = match wrap_point {
        Some(p) => p <= args.wrap,
        None => false,
    };
    if !wrappable {
        record_line_log(
            logs,
            Severity::Warn,
            file,
            state.linum_new,
            state.linum_old,
            line,
            "Line cannot be wrapped.",
        );
        proof {
            assert(logs@.subrange(0, old(logs)@.len() as int) =~= logs_after_trace.subrange(
                0,
                old(logs)@.len() as int,
            ));
            if args.trace {
                assert(logs@[old(logs)@.len() as int] == logs@.subrange(
                    0,
                    logs_after_trace.len() as int,
                )[old(logs)@.len() as int]);
            }
        }
        return None;
    }

    match wrap_point {
        Some(p) => {
            let n = line.unicode_len();
            let this_line = line.substring_char(0, p);
            let next_line_start = match comment_index {
                Some(c) => {
                    if p > c {
                        "% "
                    } else {
                        ""
                    }
                },
                None => "",
            };
            let next_line = line.substring_char(p + 1, n);
            proof {
                assert(line@.subrange(0, p as int) + seq![line@[p as int]] + line@.subrange(
                    p + 1,
                    line@.len() as int,
                ) =~= line@);
            }
            Some([this_line, next_line_start, next_line])
        },
        None => None,
    }
}

} // verus!
