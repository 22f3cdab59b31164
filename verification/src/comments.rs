//! Locating the unescaped comment marker of a line and stripping the
//! comment, so that indentation and splitting decisions are taken on the
//! line's real content only.

use vstd::prelude::*;

use crate::scan::str_to_chars;

verus! {

/// Position of the first `%` at or after `i` that is not escaped, where
/// `esc` says whether position `i` is preceded by an odd number of
/// backslashes; `s.len()` if there is none.
pub open spec fn comment_from(s: Seq<char>, i: int, esc: bool) -> int
    decreases s.len() - i,
{
    if i < 0 || i >= s.len() {
        s.len() as int
    } else if s[i] == '%' && !esc {
        i
    } else {
        comment_from(s, i + 1, s[i] == '\\' && !esc)
    }
}

/// Position of the line's first unescaped `%`, or the line's length if
/// the line has no comment.
pub open spec fn spec_comment_index(s: Seq<char>) -> int {
    comment_from(s, 0, false)
}

/// The line's content before its comment: the whole line if there is no
/// comment.
pub open spec fn spec_strip_comment(s: Seq<char>) -> Seq<char> {
    s.subrange(0, spec_comment_index(s))
}

proof fn lemma_comment_from_range(s: Seq<char>, i: int, esc: bool)
    requires
        0 <= i <= s.len(),
    ensures
        i <= comment_from(s, i, esc) <= s.len(),
        comment_from(s, i, esc) < s.len() ==> s[comment_from(s, i, esc)] == '%',
    decreases s.len() - i,
{
    if i < s.len() && !(s[i] == '%' && !esc) {
        lemma_comment_from_range(s, i + 1, s[i] == '\\' && !esc);
    }
}

/// The position of the comment index is in range, and points at a `%`
/// when there is a comment.
pub proof fn lemma_comment_index_range(s: Seq<char>)
    ensures
        0 <= spec_comment_index(s) <= s.len(),
        spec_comment_index(s) < s.len() ==> s[spec_comment_index(s)] == '%',
{
    lemma_comment_from_range(s, 0, false);
}

proof fn lemma_comment_from_absent(s: Seq<char>, i: int, esc: bool)
    requires
        0 <= i <= s.len(),
        forall|k: int| i <= k < s.len() ==> s[k] != '%',
    ensures
        comment_from(s, i, esc) == s.len(),
    decreases s.len() - i,
{
    if i < s.len() {
        lemma_comment_from_absent(s, i + 1, s[i] == '\\' && !esc);
    }
}

/// A line without a `%` character has no comment.
pub proof fn lemma_no_comment(s: Seq<char>)
    requires
        forall|k: int| 0 <= k < s.len() ==> s[k] != '%',
    ensures
        spec_comment_index(s) == s.len(),
{
    lemma_comment_from_absent(s, 0, false);
}

/// Index of the first unescaped `%` on the line, or `None` if the line
/// has no comment.
pub fn find_comment_index(line: &str) -> (r: Option<usize>)
    ensures
        (match r {
            Some(c) => c as int == spec_comment_index(line@) && c < line@.len(),
            None => spec_comment_index(line@) == line@.len(),
        }),
{
    let v = str_to_chars(line);
    let n = v.len();
    let mut esc: bool = false;
    let mut i: usize = 0;
    while i < n
        invariant
            n == v@.len(),
            v@ == line@,
            0 <= i <= n,
            spec_comment_index(line@) == comment_from(line@, i as int, esc),
        decreases n - i,
    {
        if v[i] == '%' && !esc {
            return Some(i);
        }
        esc = v[i] == '\\' && !esc;
        i = i + 1;
    }
    None
}

/// The line's content before the comment at `comment_index`, or the
/// whole line when there is none.
pub fn remove_comment<'a>(line: &'a str, comment_index: Option<usize>) -> (r: &'a str)
    requires
        (match comment_index {
            Some(c) => c <= line@.len(),
            None => true,
        }),
    ensures
        r@ == (match comment_index {
            Some(c) => line@.subrange(0, c as int),
            None => line@,
        }),
{
    match comment_index {
        Some(c) => line.substring_char(0, c),
        None => line,
    }
}

} // verus!
