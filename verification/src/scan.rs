//! Character-level scanning primitives: substring search, whitespace and
//! letter classification, and conversions between strings and character
//! vectors. All contracts are stated over `Seq<char>` views.

use vstd::prelude::*;

verus! {

/// The characters of `pat` occur in `s` starting at position `i`.
pub open spec fn sub_at(s: Seq<char>, pat: Seq<char>, i: int) -> bool {
    0 <= i && i + pat.len() <= s.len() && s.subrange(i, i + pat.len() as int) == pat
}

/// The characters of `pat` occur somewhere in `s`.
pub open spec fn has_sub(s: Seq<char>, pat: Seq<char>) -> bool {
    exists|i: int| #[trigger] sub_at(s, pat, i)
}

/// Whitespace, as recognised when looking for a line's first content
/// character: the characters with the Unicode `White_Space` property,
/// the same set that `char::is_whitespace` accepts.
pub open spec fn spec_is_space(c: char) -> bool {
    ||| c == ' '
    ||| c == '\t'
    ||| c == '\n'
    ||| c == '\r'
    ||| c == '\u{b}'
    ||| c == '\u{c}'
    ||| c == '\u{85}'
    ||| c == '\u{a0}'
    ||| c == '\u{1680}'
    ||| ('\u{2000}' <= c && c <= '\u{200a}')
    ||| c == '\u{2028}'
    ||| c == '\u{2029}'
    ||| c == '\u{202f}'
    ||| c == '\u{205f}'
    ||| c == '\u{3000}'
}

/// Whether `c` is an ASCII letter.
pub open spec fn spec_is_letter(c: char) -> bool {
    ('a' <= c && c <= 'z') || ('A' <= c && c <= 'Z')
}

/// Index of the first character of `s` from position `i` on that is not
/// whitespace, or `s.len()` if there is none.
pub open spec fn first_content_from(s: Seq<char>, i: int) -> int
    decreases s.len() - i,
{
    if i < 0 || i >= s.len() {
        s.len() as int
    } else if spec_is_space(s[i]) {
        first_content_from(s, i + 1)
    } else {
        i
    }
}

/// Index of the first non-whitespace character of `s`, or `s.len()`.
pub open spec fn first_content(s: Seq<char>) -> int {
    first_content_from(s, 0)
}

pub fn is_space(c: char) -> (b: bool)
    ensures
        b == spec_is_space(c),
{
    c == ' ' || c == '\t' || c == '\n' || c == '\r' || c == '\u{b}' || c == '\u{c}'
        || c == '\u{85}' || c == '\u{a0}' || c == '\u{1680}' || ('\u{2000}' <= c
        && c <= '\u{200a}') || c == '\u{2028}' || c == '\u{2029}' || c == '\u{202f}'
        || c == '\u{205f}' || c == '\u{3000}'
}

pub fn is_letter(c: char) -> (b: bool)
    ensures
        b == spec_is_letter(c),
{
    ('a' <= c && c <= 'z') || ('A' <= c && c <= 'Z')
}

/// The characters of a string slice, in order, as a vector.
pub fn str_to_chars(s: &str) -> (r: Vec<char>)
    ensures
        r@ == s@,
{
    let n = s.unicode_len();
    let mut r: Vec<char> = Vec::new();
    for i in 0..n
        invariant
            n == s@.len(),
            r@ =~= s@.subrange(0, i as int),
    {
        r.push(s.get_char(i));
        proof {
            assert(r@ =~= s@.subrange(0, i + 1 as int));
        }
    }
    proof {
        assert(s@.subrange(0, n as int) =~= s@);
    }
    r
}

/// Relies on `String`'s `FromIterator<char>` implementation: collecting
/// characters yields the string of exactly those characters in order.
/// vstd gives no specification for building a `String` character by
/// character, so this conversion is the one trusted step.
#[verifier::external_body]
pub fn chars_to_string(v: &Vec<char>) -> (r: String)
    ensures
        r@ == v@,
{
    v.iter().collect()
}

/// Position of the first non-whitespace character of `line`, or its
/// length if the line is blank.
pub fn first_content_index(line: &Vec<char>) -> (r: usize)
    ensures
        r as int == first_content(line@),
        r <= line@.len(),
{
    let n = line.len();
    for i in 0..n
        invariant
            n == line@.len(),
            first_content(line@) == first_content_from(line@, i as int),
            forall|k: int| 0 <= k < i ==> spec_is_space(line@[k]),
    {
        if !is_space(line[i]) {
            return i;
        }
    }
    n
}

/// The characters of `pat` occur in `s` starting at position `i`.
pub fn match_at(s: &Vec<char>, pat: &Vec<char>, i: usize) -> (b: bool)
    requires
        i + pat@.len() <= s@.len(),
    ensures
        b == sub_at(s@, pat@, i as int),
{
    let n = s.len();
    let m = pat.len();
    for j in 0..m
        invariant
            n == s@.len(),
            m == pat@.len(),
            i + m <= n,
            forall|k: int| 0 <= k < j ==> s@[i + k] == pat@[k],
    {
        if s[i + j] != pat[j] {
            proof {
                assert(s@.subrange(i as int, i + pat@.len() as int)[j as int] == s@[i + j]);
            }
            return false;
        }
    }
    proof {
        assert(s@.subrange(i as int, i + pat@.len() as int) =~= pat@);
    }
    true
}

/// The characters of `pat` occur somewhere in `s`.
pub fn contains_chars(s: &Vec<char>, pat: &Vec<char>) -> (b: bool)
    ensures
        b == has_sub(s@, pat@),
{
    let n = s.len();
    let m = pat.len();
    if m > n {
        proof {
            assert(forall|i: int| #[trigger] sub_at(s@, pat@, i) ==> false);
        }
        return false;
    }
    if m == 0 {
        proof {
            assert(s@.subrange(0, 0) =~= pat@);
            assert(sub_at(s@, pat@, 0));
        }
        return true;
    }
    let end = n - m;
    let mut i: usize = 0;
    while i <= end
        invariant
            n == s@.len(),
            m == pat@.len(),
            1 <= m <= n,
            end == n - m,
            i <= end + 1,
            forall|k: int| 0 <= k < i ==> !sub_at(s@, pat@, k),
        decreases end + 1 - i,
    {
        if match_at(s, pat, i) {
            return true;
        }
        i = i + 1;
    }
    proof {
        assert(forall|k: int| #[trigger] sub_at(s@, pat@, k) ==> 0 <= k < i);
    }
    false
}

} // verus!
