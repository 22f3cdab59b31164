//! Whole-text substitutions and the environment splitter: collapsing
//! runs of blank lines, expanding tabs, stripping trailing spaces, and
//! moving structural markers onto lines of their own.

use vstd::prelude::*;

use crate::comments::find_comment_index;
use crate::comments::spec_comment_index;
use crate::logging::log_matches;
use crate::logging::record_line_log;
use crate::logging::Log;
use crate::logging::Severity;
use crate::markers::find_marker_index;
use crate::markers::lemma_find_marker_range;
use crate::markers::spec_has_shared_marker;
use crate::markers::split_point;
use crate::pattern::Pattern;
use crate::scan::chars_to_string;
use crate::scan::first_content;
use crate::scan::first_content_index;
use crate::scan::str_to_chars;
use crate::Cli;
use crate::State;

verus! {

/// The text from position `i` on with every run of three or more line
/// breaks shortened to two, where `run` counts the line breaks ending
/// just before `i` (capped at two).
pub open spec fn collapse_rec(s: Seq<char>, i: int, run: int) -> Seq<char>
    decreases s.len() - i,
{
    if i < 0 || i >= s.len() {
        Seq::empty()
    } else if s[i] == '\n' {
        if run >= 2 {
            collapse_rec(s, i + 1, run)
        } else {
            seq!['\n'] + collapse_rec(s, i + 1, run + 1)
        }
    } else {
        seq![s[i]] + collapse_rec(s, i + 1, 0)
    }
}

/// The text with every run of three or more line breaks shortened to
/// exactly two, so that at most one blank line remains.
pub open spec fn spec_collapse_newlines(s: Seq<char>) -> Seq<char> {
    collapse_rec(s, 0, 0)
}

/// Remove multiple line breaks.
pub fn remove_extra_newlines(text: &str) -> (r: String)
    ensures
        r@ == spec_collapse_newlines(text@),
{
    let v = str_to_chars(text);
    let n = v.len();
    let mut out: Vec<char> = Vec::new();
    let mut run: usize = 0;
    let mut i: usize = 0;
    while i < n
        invariant
            n == v@.len(),
            v@ == text@,
            0 <= i <= n,
            run <= 2,
            spec_collapse_newlines(text@) == out@ + collapse_rec(text@, i as int, run as int),
        decreases n - i,
    {
        let c = v[i];
        if c == '\n' {
            if run < 2 {
                out.push('\n');
                run = run + 1;
            }
        } else {
            out.push(c);
            run = 0;
        }
        i = i + 1;
    }
    chars_to_string(&out)
}

/// A sequence of `tab` spaces.
pub open spec fn spaces(tab: int) -> Seq<char> {
    Seq::new(tab as nat, |k: int| ' ')
}

/// The text from position `i` on with every tab character replaced by
/// `tab` spaces.
pub open spec fn tab_rec(s: Seq<char>, i: int, tab: int) -> Seq<char>
    decreases s.len() - i,
{
    if i < 0 || i >= s.len() {
        Seq::empty()
    } else if s[i] == '\t' {
        spaces(tab) + tab_rec(s, i + 1, tab)
    } else {
        seq![s[i]] + tab_rec(s, i + 1, tab)
    }
}

/// The text with every tab character expanded to the configured number
/// of spaces.
pub open spec fn spec_expand_tabs(s: Seq<char>, tab: int) -> Seq<char> {
    tab_rec(s, 0, tab)
}

/// Replace tabs with spaces.
pub fn remove_tabs(text: &str, args: &Cli) -> (r: String)
    ensures
        r@ == spec_expand_tabs(text@, args.tab as int),
{
    let v = str_to_chars(text);
    let n = v.len();
    let mut out: Vec<char> = Vec::new();
    let mut i: usize = 0;
    while i < n
        invariant
            n == v@.len(),
            v@ == text@,
            0 <= i <= n,
            spec_expand_tabs(text@, args.tab as int) == out@ + tab_rec(
                text@,
                i as int,
                args.tab as int,
            ),
        decreases n - i,
    {
        let c = v[i];
        if c == '\t' {
            let ghost out_before: Seq<char> = out@;
            let mut k: usize = 0;
            while k < args.tab
                invariant
                    0 <= k <= args.tab,
                    out@ == out_before + Seq::new(k as nat, |q: int| ' '),
                decreases args.tab - k,
            {
                out.push(' ');
                proof {
                    assert(out@ =~= out_before + Seq::new((k + 1) as nat, |q: int| ' '));
                }
                k = k + 1;
            }
            proof {
                assert(out@ =~= out_before + spaces(args.tab as int));
            }
        } else {
            out.push(c);
        }
        i = i + 1;
    }
    chars_to_string(&out)
}

/// The space at position `i` stands in a run of spaces that reaches a
/// line break, so it is removed when trailing spaces are stripped.
pub open spec fn is_trail_space(s: Seq<char>, i: int) -> bool {
    &&& 0 <= i < s.len()
    &&& s[i] == ' '
    &&& exists|j: int|
        i < j < s.len() && #[trigger] s[j] == '\n' && (forall|k: int| i < k < j ==> s[k] == ' ')
}

/// The text from position `i` on with its trailing spaces removed.
pub open spec fn trail_rec(s: Seq<char>, i: int) -> Seq<char>
    decreases s.len() - i,
{
    if i < 0 || i >= s.len() {
        Seq::empty()
    } else if is_trail_space(s, i) {
        trail_rec(s, i + 1)
    } else {
        seq![s[i]] + trail_rec(s, i + 1)
    }
}

/// The text with every run of spaces that ends at a line break removed.
pub open spec fn spec_strip_trailing(s: Seq<char>) -> Seq<char> {
    trail_rec(s, 0)
}

/// Whether position `i` starts in a run of spaces that reaches a line
/// break.
fn is_trail_space_exec(v: &Vec<char>, i: usize) -> (b: bool)
    requires
        i < v@.len(),
    ensures
        b == is_trail_space(v@, i as int),
{
    let n = v.len();
    if v[i] != ' ' {
        return false;
    }
    let mut j: usize = i + 1;
    while j < n && v[j] == ' '
        invariant
            n == v@.len(),
            i < j <= n,
            forall|k: int| i < k < j ==> v@[k] == ' ',
        decreases n - j,
    {
        j = j + 1;
    }
    if j < n && v[j] == '\n' {
        proof {
            assert(is_trail_space(v@, i as int)) by {
                assert(i < j < v@.len() && v@[j as int] == '\n' && (forall|k: int|
                    i < k < j ==> v@[k] == ' '));
            }
        }
        true
    } else {
        proof {
            assert forall|jj: int|
                i < jj < v@.len() && #[trigger] v@[jj] == '\n' implies !(forall|k: int|
                i < k < jj ==> v@[k] == ' ') by {
                if jj < j {
                    assert(v@[jj] == ' ');
                    assert(false);
                } else if jj == j {
                    assert(false);
                } else {
                    assert(!(forall|k: int| i < k < jj ==> v@[k] == ' ')) by {
                        assert(i < j < jj && !(v@[j as int] == ' '));
                    }
                }
            }
        }
        false
    }
}

/// Remove trailing spaces from line endings.
pub fn remove_trailing_spaces(text: &str) -> (r: String)
    ensures
        r@ == spec_strip_trailing(text@),
{
    let v = str_to_chars(text);
    let n = v.len();
    let mut out: Vec<char> = Vec::new();
    let mut i: usize = 0;
    while i < n
        invariant
            n == v@.len(),
            v@ == text@,
            0 <= i <= n,
            spec_strip_trailing(text@) == out@ + trail_rec(text@, i as int),
        decreases n - i,
    {
        if !is_trail_space_exec(&v, i) {
            out.push(v[i]);
        }
        i = i + 1;
    }
    chars_to_string(&out)
}

/// Check if an environment should be split onto a new line: the line is
/// in no suppressing region, carries a structural marker, and some
/// non-whitespace content precedes a marker on the same line.
pub fn needs_env_new_line(line: &str, state: &State, pattern: &Pattern) -> (b: bool)
    ensures
        b == (!state.verbatim.visual && !state.ignore.visual && (pattern.contains_env_begin
            || pattern.contains_env_end || pattern.contains_item) && spec_has_shared_marker(
            line@,
        )),
{
    if state.verbatim.visual || state.ignore.visual {
        return false;
    }
    if !(pattern.contains_env_begin || pattern.contains_env_end || pattern.contains_item) {
        return false;
    }
    let v = str_to_chars(line);
    let n = v.len();
    let fc = first_content_index(&v);
    if fc == n {
        return false;
    }
    let j = find_marker_index(&v, fc + 1);
    j < n
}

/// Ensure LaTeX environments begin on new lines: split the line just
/// before the first marker that has content before it, into the content
/// and the marker onward. A marker that starts inside a comment is not
/// split: the line is returned unchanged, with no second part. The
/// leading whitespace of the first part is dropped; the indentation
/// pass re-creates it.
pub fn put_env_new_line<'a>(
    line: &'a str,
    state: &State,
    file: &str,
    args: &Cli,
    logs: &mut Vec<Log>,
) -> (r: (&'a str, Option<&'a str>))
    requires
        spec_has_shared_marker(line@),
    ensures
        (if spec_comment_index(line@) < line@.len() && split_point(line@) > spec_comment_index(
            line@,
        ) {
            r.0@ == line@ && r.1 is None
        } else {
            r.0@ == line@.subrange(first_content(line@), split_point(line@)) && (match r.1 {
                Some(rest) => rest@ == line@.subrange(split_point(line@), line@.len() as int),
                None => false,
            })
        }),
        final(logs)@.len() == old(logs)@.len() + (if args.trace {
            1int
        } else {
            0
        }),
        final(logs)@.subrange(0, old(logs)@.len() as int) == old(logs)@,
        args.trace ==> log_matches(
            final(logs)@.last(),
            Severity::Trace,
            file@,
            state.linum_new as int,
            state.linum_old as int,
            line@,
            "Placing environment on new line."@,
        ),
{
    if args.trace {
        record_line_log(
            logs,
            Severity::Trace,
            file,
            state.linum_new,
            state.linum_old,
            line,
            "Placing environment on new line.",
        );
    }

    let comment_index = find_comment_index(line);

    let v = str_to_chars(line);
    let n = v.len();
    let fc = first_content_index(&v);
    proof {
        lemma_find_marker_range(line@, fc + 1);
    }
    let j = find_marker_index(&v, fc + 1);

    let split_inside_comment = match comment_index {
        Some(c) => j > c,
        None => false,
    };
    if split_inside_comment {
        (line, None)
    } else {
        let prev = line.substring_char(fc, j);
        let rest = line.substring_char(j, n);
        (prev, Some(rest))
    }
}

} // verus!
