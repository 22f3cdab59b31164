//! Tracking indentation across lines: the authoritative nesting depth
//! carried forward, and the transient visual depth used to render each
//! line, both computed from delimiter counts and structural markers.

use vstd::prelude::*;

use crate::comments::find_comment_index;
use crate::comments::remove_comment;
use crate::comments::lemma_comment_index_range;
use crate::comments::spec_strip_comment;
use crate::logging::log_matches;
use crate::logging::record_line_log;
use crate::logging::Log;
use crate::logging::Severity;
use crate::markers::contains_doc_begin;
use crate::markers::contains_doc_end;
use crate::markers::contains_env_begin;
use crate::markers::contains_env_end;
use crate::markers::contains_item_sub;
use crate::markers::is_list_begin;
use crate::markers::is_list_end;
use crate::markers::spec_contains_doc_begin;
use crate::markers::spec_contains_doc_end;
use crate::markers::spec_contains_env_begin;
use crate::markers::spec_contains_env_end;
use crate::markers::spec_contains_item_sub;
use crate::markers::spec_has_item_marker;
use crate::markers::spec_is_list_begin;
use crate::markers::spec_is_list_end;
use crate::pattern::pattern_matches_line;
use crate::pattern::Pattern;
use crate::scan::first_content;
use crate::scan::first_content_index;
use crate::scan::str_to_chars;
use crate::Cli;
use crate::State;

verus! {

/// Indentation state of a line.
#[derive(Clone, Copy, Debug)]
pub struct Indent {
    /// The indentation level carried forward to the next line.
    pub actual: i64,
    /// The indentation level used to render this line.
    pub visual: i64,
}

impl Indent {
    /// Indentation state before the first line: no indentation.
    pub fn new() -> (r: Self)
        ensures
            r.actual == 0,
            r.visual == 0,
    {
        Self { actual: 0, visual: 0 }
    }
}

/// Whether `c` opens a delimiter group.
pub open spec fn is_open_delim(c: char) -> bool {
    c == '{' || c == '(' || c == '['
}

/// Whether `c` closes a delimiter group.
pub open spec fn is_close_delim(c: char) -> bool {
    c == '}' || c == ')' || c == ']'
}

/// Number of opening delimiters in `s`.
pub open spec fn open_count(s: Seq<char>) -> int
    decreases s.len(),
{
    if s.len() == 0 {
        0
    } else {
        open_count(s.drop_last()) + if is_open_delim(s.last()) {
            1int
        } else {
            0
        }
    }
}

/// Number of closing delimiters in `s`.
pub open spec fn close_count(s: Seq<char>) -> int
    decreases s.len(),
{
    if s.len() == 0 {
        0
    } else {
        close_count(s.drop_last()) + if is_close_delim(s.last()) {
            1int
        } else {
            0
        }
    }
}

/// Largest running excess of closing over opening delimiters reached
/// while scanning `s` from position `i`, starting from balance `cumul`
/// and maximum `acc` so far.
pub open spec fn back_scan(s: Seq<char>, i: int, cumul: int, acc: int) -> int
    decreases s.len() - i,
{
    if i < 0 || i >= s.len() {
        acc
    } else {
        let c2 = cumul + (if is_close_delim(s[i]) {
            1int
        } else {
            0
        }) - (if is_open_delim(s[i]) {
            1int
        } else {
            0
        });
        back_scan(s, i + 1, c2, if c2 > acc {
            c2
        } else {
            acc
        })
    }
}

/// Largest running excess of closing over opening delimiters over the
/// prefixes of `s`: how much shallower the line itself should render.
pub open spec fn spec_delim_back(s: Seq<char>) -> int {
    back_scan(s, 0, 0, 0)
}

/// Net indentation change contributed by the line `s` with
/// classification `p`, applied going forward: one level per environment
/// opened or closed (two for list environments, none for the document
/// environment, which is never indented), plus the line's delimiter
/// balance, which counts on every line.
pub open spec fn spec_indent_diff(s: Seq<char>, p: Pattern) -> int {
    let env_term: int = if p.contains_env_begin && spec_contains_env_begin(s) {
        if spec_contains_doc_begin(s) {
            0
        } else if spec_is_list_begin(s) {
            2
        } else {
            1
        }
    } else if p.contains_env_end && spec_contains_env_end(s) {
        if spec_contains_doc_end(s) {
            0
        } else if spec_is_list_end(s) {
            -2
        } else {
            -1
        }
    } else {
        0
    };
    env_term + open_count(s) - close_count(s)
}

/// Transient dedent used only to render the line `s`: its largest
/// prefix excess of closing delimiters, one more on an environment
/// close (exactly two on a list close, none on the document close), and
/// one more on an item, whose continuation should render deeper.
pub open spec fn spec_indent_back(s: Seq<char>, p: Pattern) -> int {
    let item_extra: int = if p.contains_item && spec_contains_item_sub(s) {
        1
    } else {
        0
    };
    if p.contains_env_end && spec_contains_env_end(s) {
        if spec_contains_doc_end(s) {
            0
        } else if spec_is_list_end(s) {
            2
        } else {
            spec_delim_back(s) + 1 + item_extra
        }
    } else {
        spec_delim_back(s) + item_extra
    }
}

/// The two counts are bounded by the length of the line.
pub proof fn lemma_count_bounds(s: Seq<char>)
    ensures
        0 <= open_count(s) <= s.len(),
        0 <= close_count(s) <= s.len(),
    decreases s.len(),
{
    if s.len() > 0 {
        lemma_count_bounds(s.drop_last());
    }
}

proof fn lemma_back_scan_bounds(s: Seq<char>, i: int, cumul: int, acc: int)
    requires
        0 <= i <= s.len(),
        cumul <= i,
        0 <= acc <= s.len(),
    ensures
        acc <= back_scan(s, i, cumul, acc) <= s.len(),
    decreases s.len() - i,
{
    if i < s.len() {
        let c2 = cumul + (if is_close_delim(s[i]) {
            1int
        } else {
            0
        }) - (if is_open_delim(s[i]) {
            1int
        } else {
            0
        });
        lemma_back_scan_bounds(s, i + 1, c2, if c2 > acc {
            c2
        } else {
            acc
        });
    }
}

/// The transient dedent lies between zero and the line length plus two.
pub proof fn lemma_back_bounds(s: Seq<char>, p: Pattern)
    ensures
        0 <= spec_indent_back(s, p) <= s.len() + 2,
{
    lemma_back_scan_bounds(s, 0, 0, 0);
}

/// The net indentation change is bounded by the line length plus two.
pub proof fn lemma_diff_bounds(s: Seq<char>, p: Pattern)
    ensures
        -(s.len() + 2) <= spec_indent_diff(s, p) <= s.len() + 2,
{
    lemma_count_bounds(s);
}

proof fn lemma_no_delims_counts(s: Seq<char>)
    requires
        forall|k: int| 0 <= k < s.len() ==> !is_open_delim(#[trigger] s[k]) && !is_close_delim(s[k]),
    ensures
        open_count(s) == 0,
        close_count(s) == 0,
    decreases s.len(),
{
    if s.len() > 0 {
        assert(forall|k: int|
            0 <= k < s.drop_last().len() ==> #[trigger] s.drop_last()[k] == s[k]);
        lemma_no_delims_counts(s.drop_last());
    }
}

proof fn lemma_no_delims_back(s: Seq<char>, i: int, cumul: int, acc: int)
    requires
        0 <= i <= s.len(),
        forall|k: int| i <= k < s.len() ==> !is_open_delim(#[trigger] s[k]) && !is_close_delim(
            s[k],
        ),
    ensures
        back_scan(s, i, cumul, acc) == (if i >= s.len() {
            acc
        } else if cumul > acc {
            cumul
        } else {
            acc
        }),
    decreases s.len() - i,
{
    if i < s.len() {
        lemma_no_delims_back(s, i + 1, cumul, if cumul > acc {
            cumul
        } else {
            acc
        });
    }
}

/// A line whose content carries no structural marker and no delimiter
/// leaves the carried depth unchanged and renders at exactly the
/// previous depth, without any clamping.
pub proof fn lemma_plain_line_keeps_depth(line: Seq<char>, p: Pattern, prev: int)
    requires
        prev >= 0,
        !spec_contains_env_begin(spec_strip_comment(line)),
        !spec_contains_env_end(spec_strip_comment(line)),
        !spec_contains_item_sub(spec_strip_comment(line)),
        forall|k: int|
            0 <= k < spec_strip_comment(line).len() ==> !is_open_delim(
                #[trigger] spec_strip_comment(line)[k],
            ) && !is_close_delim(spec_strip_comment(line)[k]),
    ensures
        spec_next_indent_actual(line, p, prev) == prev,
        spec_next_indent_visual(line, p, prev) == prev,
        !spec_indent_is_negative(line, p, prev),
{
    let t = spec_strip_comment(line);
    lemma_no_delims_counts(t);
    lemma_no_delims_back(t, 0, 0, 0);
}

/// Opening an environment on one line and closing the same environment
/// on a following line returns the carried depth to its pre-opening
/// value: the two lines' net changes cancel, whatever depth the pair
/// started from, provided each line's own delimiters are balanced.
pub proof fn lemma_env_pair_round_trip(
    s1: Seq<char>,
    p1: Pattern,
    s2: Seq<char>,
    p2: Pattern,
    prev: int,
)
    requires
        pattern_matches_line(p1, s1),
        pattern_matches_line(p2, s2),
        spec_contains_env_begin(s1),
        !spec_contains_doc_begin(s1),
        open_count(s1) == close_count(s1),
        spec_contains_env_end(s2),
        !spec_contains_env_begin(s2),
        !spec_contains_doc_end(s2),
        open_count(s2) == close_count(s2),
        spec_is_list_begin(s1) <==> spec_is_list_end(s2),
    ensures
        spec_indent_diff(s1, p1) + spec_indent_diff(s2, p2) == 0,
        prev + spec_indent_diff(s1, p1) + spec_indent_diff(s2, p2) == prev,
{
}

/// A list environment's begin and end lines contribute two levels each
/// way, a net-zero round trip, and an item line between them renders
/// exactly one level deeper than either boundary line renders,
/// provided none of the three lines closes a group it did not open.
pub proof fn lemma_list_env_indent(
    s1: Seq<char>,
    p1: Pattern,
    s2: Seq<char>,
    p2: Pattern,
    s3: Seq<char>,
    p3: Pattern,
    prev: int,
)
    requires
        pattern_matches_line(p1, s1),
        pattern_matches_line(p2, s2),
        pattern_matches_line(p3, s3),
        spec_contains_env_begin(s1),
        !spec_contains_doc_begin(s1),
        spec_is_list_begin(s1),
        open_count(s1) == close_count(s1),
        !spec_contains_env_end(s1),
        !spec_contains_item_sub(s1),
        spec_delim_back(s1) == 0,
        spec_contains_env_end(s2),
        !spec_contains_env_begin(s2),
        !spec_contains_doc_end(s2),
        spec_is_list_end(s2),
        open_count(s2) == close_count(s2),
        spec_contains_item_sub(s3),
        spec_has_item_marker(s3),
        !spec_contains_env_end(s3),
        spec_delim_back(s3) == 0,
    ensures
        spec_indent_diff(s1, p1) == 2,
        spec_indent_diff(s2, p2) == -2,
        spec_indent_diff(s1, p1) + spec_indent_diff(s2, p2) == 0,
        spec_indent_back(s1, p1) == 0,
        spec_indent_back(s2, p2) == 2,
        spec_indent_back(s3, p3) == 1,
        (prev + spec_indent_diff(s1, p1)) - spec_indent_back(s3, p3) == (prev - spec_indent_back(
            s1,
            p1,
        )) + 1,
        (prev + spec_indent_diff(s1, p1)) - spec_indent_back(s3, p3) == ((prev + spec_indent_diff(
            s1,
            p1,
        )) - spec_indent_back(s2, p2)) + 1,
{
}

/// Number of opening delimiters in `v`.
pub fn count_opens(v: &Vec<char>) -> (c: usize)
    ensures
        c as int == open_count(v@),
        c <= v@.len(),
{
    let n = v.len();
    let mut c: usize = 0;
    for i in 0..n
        invariant
            n == v@.len(),
            c as int == open_count(v@.subrange(0, i as int)),
            c <= i,
    {
        let ch = v[i];
        if ch == '{' || ch == '(' || ch == '[' {
            c = c + 1;
        }
        proof {
            assert(v@.subrange(0, i + 1).drop_last() =~= v@.subrange(0, i as int));
            assert(v@.subrange(0, i + 1).last() == v@[i as int]);
        }
    }
    proof {
        assert(v@.subrange(0, n as int) =~= v@);
    }
    c
}

/// Number of closing delimiters in `v`.
pub fn count_closes(v: &Vec<char>) -> (c: usize)
    ensures
        c as int == close_count(v@),
        c <= v@.len(),
{
    let n = v.len();
    let mut c: usize = 0;
    for i in 0..n
        invariant
            n == v@.len(),
            c as int == close_count(v@.subrange(0, i as int)),
            c <= i,
    {
        let ch = v[i];
        if ch == '}' || ch == ')' || ch == ']' {
            c = c + 1;
        }
        proof {
            assert(v@.subrange(0, i + 1).drop_last() =~= v@.subrange(0, i as int));
            assert(v@.subrange(0, i + 1).last() == v@[i as int]);
        }
    }
    proof {
        assert(v@.subrange(0, n as int) =~= v@);
    }
    c
}

/// Total indentation change due to the current line, applied going
/// forward.
pub fn get_diff(line: &str, pattern: &Pattern) -> (d: i64)
    requires
        line@.len() + 2 <= i64::MAX,
    ensures
        d as int == spec_indent_diff(line@, *pattern),
{
    let v = str_to_chars(line);
    let mut base: i64 = 0;

    if pattern.contains_env_begin && contains_env_begin(&v) {
        if !contains_doc_begin(&v) {
            base = 1;
            if is_list_begin(&v) {
                base = 2;
            }
        }
    } else if pattern.contains_env_end && contains_env_end(&v) {
        if !contains_doc_end(&v) {
            base = -1;
            if is_list_end(&v) {
                base = -2;
            }
        }
    }

    let opens = count_opens(&v);
    let closes = count_closes(&v);
    base + opens as i64 - closes as i64
}

/// Transient dedent used only to render the current line.
pub fn get_back(line: &str, pattern: &Pattern) -> (b: i64)
    requires
        line@.len() + 2 <= i64::MAX,
    ensures
        b as int == spec_indent_back(line@, *pattern),
{
    let v = str_to_chars(line);
    let n = v.len();
    let mut back: i64 = 0;
    let mut cumul: i64 = 0;

    let mut i: usize = 0;
    while i < n
        invariant
            n == v@.len(),
            n + 2 <= i64::MAX,
            0 <= i <= n,
            -(i as int) <= cumul as int <= i as int,
            0 <= back as int <= i as int,
            back_scan(v@, 0, 0, 0) == back_scan(v@, i as int, cumul as int, back as int),
        decreases n - i,
    {
        let ch = v[i];
        if ch == '{' || ch == '(' || ch == '[' {
            cumul = cumul - 1;
        } else if ch == '}' || ch == ')' || ch == ']' {
            cumul = cumul + 1;
        }
        if cumul > back {
            back = cumul;
        }
        i = i + 1;
    }

    if pattern.contains_env_end && contains_env_end(&v) {
        if contains_doc_end(&v) {
            return 0;
        }
        if is_list_end(&v) {
            return 2;
        }
        back = back + 1;
    }

    if pattern.contains_item && contains_item_sub(&v) {
        back = back + 1;
    }

    back
}

/// `u` concatenated `n` times.
pub open spec fn repeat_str(u: Seq<char>, n: nat) -> Seq<char>
    decreases n,
{
    if n == 0 {
        Seq::empty()
    } else {
        repeat_str(u, (n - 1) as nat) + u
    }
}

/// The carried indentation depth after a line: the previous depth plus
/// the line's net change, computed on the comment-stripped text, and
/// clamped to zero.
pub open spec fn spec_next_indent_actual(line: Seq<char>, p: Pattern, prev: int) -> int {
    let a2 = prev + spec_indent_diff(spec_strip_comment(line), p);
    if a2 < 0 {
        0
    } else {
        a2
    }
}

/// The depth a line renders at: the previous carried depth minus the
/// line's transient dedent, computed on the comment-stripped text, and
/// clamped to zero.
pub open spec fn spec_next_indent_visual(line: Seq<char>, p: Pattern, prev: int) -> int {
    let v2 = prev - spec_indent_back(spec_strip_comment(line), p);
    if v2 < 0 {
        0
    } else {
        v2
    }
}

/// The line's computed depths were negative before clamping, which is
/// logged as unbalanced input.
pub open spec fn spec_indent_is_negative(line: Seq<char>, p: Pattern, prev: int) -> bool {
    prev + spec_indent_diff(spec_strip_comment(line), p) < 0 || prev - spec_indent_back(
        spec_strip_comment(line),
        p,
    ) < 0
}

/// The text a line is rewritten to: empty for a blank line, otherwise
/// the indentation unit repeated `visual` times `tab` times, followed by
/// the line's content with its leading whitespace removed.
pub open spec fn spec_rendered_line(
    line: Seq<char>,
    indent_unit: Seq<char>,
    visual: int,
    tab: int,
) -> Seq<char> {
    let fc = first_content(line);
    if fc == line.len() {
        Seq::empty()
    } else {
        repeat_str(indent_unit, (visual * tab) as nat) + line.subrange(fc, line.len() as int)
    }
}

/// Indentation state of the current line, computed from the previous
/// state: the new carried depth, and the visual depth the line renders
/// at.
pub fn get_indent(line: &str, prev_indent: &Indent, pattern: &Pattern) -> (r: Indent)
    requires
        line@.len() + 2 <= i64::MAX,
        0 <= prev_indent.actual,
        prev_indent.actual + line@.len() + 2 <= i64::MAX,
    ensures
        r.actual as int == prev_indent.actual + spec_indent_diff(line@, *pattern),
        r.visual as int == prev_indent.actual - spec_indent_back(line@, *pattern),
{
    proof {
        lemma_diff_bounds(line@, *pattern);
        lemma_back_bounds(line@, *pattern);
    }
    let diff = get_diff(line, pattern);
    let back = get_back(line, pattern);
    let actual = prev_indent.actual + diff;
    let visual = prev_indent.actual - back;
    Indent { actual, visual }
}

/// Recompute and apply the correct indentation of a line: the depths
/// are computed on the comment-stripped text, negative depths are
/// logged and clamped to zero, the new state is stored, and the line is
/// re-rendered from its visual depth. Blank lines render empty.
pub fn apply_indent(
    line: &str,
    state: &mut State,
    logs: &mut Vec<Log>,
    file: &str,
    args: &Cli,
    pattern: &Pattern,
    indent_char: &str,
) -> (r: String)
    requires
        line@.len() + 2 <= i64::MAX,
        0 <= old(state).indent.actual,
        old(state).indent.actual + line@.len() + 2 <= i64::MAX,
        old(state).indent.actual <= usize::MAX,
        old(state).indent.actual * args.tab <= usize::MAX,
    ensures
        final(state).indent.actual as int == spec_next_indent_actual(
            line@,
            *pattern,
            old(state).indent.actual as int,
        ),
        final(state).indent.visual as int == spec_next_indent_visual(
            line@,
            *pattern,
            old(state).indent.actual as int,
        ),
        final(state).verbatim == old(state).verbatim,
        final(state).ignore == old(state).ignore,
        final(state).linum_old == old(state).linum_old,
        final(state).linum_new == old(state).linum_new,
        r@ == spec_rendered_line(
            line@,
            indent_char@,
            spec_next_indent_visual(line@, *pattern, old(state).indent.actual as int),
            args.tab as int,
        ),
        final(logs)@.len() == old(logs)@.len() + (if args.trace {
            1int
        } else {
            0
        }) + (if spec_indent_is_negative(line@, *pattern, old(state).indent.actual as int) {
            1int
        } else {
            0
        }),
        final(logs)@.subrange(0, old(logs)@.len() as int) == old(logs)@,
        args.trace ==> log_matches(
            final(logs)@[old(logs)@.len() as int],
            Severity::Trace,
            file@,
            old(state).linum_new as int,
            old(state).linum_old as int,
            line@,
            "Calculated indent."@,
        ),
        spec_indent_is_negative(line@, *pattern, old(state).indent.actual as int)
            ==> log_matches(
            final(logs)@.last(),
            Severity::Warn,
            file@,
            old(state).linum_new as int,
            old(state).linum_old as int,
            line@,
            "Indent is negative."@,
        ),
{
    let ghost prev: int = state.indent.actual as int;

    // The depths are computed on the line without its comment.
    let comment_index = find_comment_index(line);
    let line_strip = remove_comment(line, comment_index);
    proof {
        lemma_comment_index_range(line@);
        assert(line_strip@ == spec_strip_comment(line@));
        assert(line_strip@.len() <= line@.len());
    }
    let ind = get_indent(line_strip, &state.indent, pattern);

    if args.trace {
        record_line_log(
            logs,
            Severity::Trace,
            file,
            state.linum_new,
            state.linum_old,
            line,
            "Calculated indent.",
        );
    }

    let ghost logs_after_trace: Seq<Log> = logs@;

    if (ind.visual < 0) || (ind.actual < 0) {
        record_line_log(
            logs,
            Severity::Warn,
            file,
            state.linum_new,
            state.linum_old,
            line,
            "Indent is negative.",
        );
        proof {
            assert(logs@.subrange(0, old(logs)@.len() as int) =~= logs_after_trace.subrange(
                0,
                old(logs)@.len() as int,
            ));
            if args.trace {
                assert(logs@[old(logs)@.len() as int] == logs@.subrange(
                    0,
                    logs_after_trace.len() as int,
                )[old(logs)@.len() as int]);
            }
        }
    }

    let actual = if ind.actual < 0 {
        0
    } else {
        ind.actual
    };
    let visual = if ind.visual < 0 {
        0
    } else {
        ind.visual
    };
    state.indent = Indent { actual, visual };

    // Re-render the line at its visual depth.
    let v = str_to_chars(line);
    let n = v.len();
    let fc = first_content_index(&v);
    if fc == n {
        return String::new();
    }

    proof {
        lemma_back_bounds(spec_strip_comment(line@), *pattern);
    }
    let visual_width = visual as usize;
    proof {
        let ghost cap: int = old(state).indent.actual as int;
        assert(visual_width * args.tab <= cap * args.tab) by (nonlinear_arith)
            requires
                0 <= visual_width <= cap,
                0 <= args.tab,
        ;
    }
    let n_indent_chars = visual_width * args.tab;
    let mut new_line = String::new();
    for k in 0..n_indent_chars
        invariant
            new_line@ == repeat_str(indent_char@, k as nat),
    {
        new_line.append(indent_char);
        proof {
            assert(new_line@ == repeat_str(indent_char@, (k + 1) as nat));
        }
    }
    let trimmed = line.substring_char(fc, n);
    new_line.append(trimmed);
    new_line
}

} // verus!
