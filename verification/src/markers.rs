//! The fixed grammar of recognised LaTeX markers: environment delimiters,
//! items, sectioning commands, math-mode delimiters, and the closed lists
//! of list, verbatim and math environment names.

use vstd::prelude::*;

use crate::scan::contains_chars;
use crate::scan::first_content;
use crate::scan::first_content_index;
use crate::scan::has_sub;
use crate::scan::is_letter;
use crate::scan::match_at;
use crate::scan::spec_is_letter;
use crate::scan::str_to_chars;
use crate::scan::sub_at;

verus! {

/// The line contains a `\begin{` environment opening.
pub open spec fn spec_contains_env_begin(s: Seq<char>) -> bool {
    has_sub(s, "\\begin{"@)
}

/// The line contains an `\end{` environment closing.
pub open spec fn spec_contains_env_end(s: Seq<char>) -> bool {
    has_sub(s, "\\end{"@)
}

/// The line contains the opening of the document environment.
pub open spec fn spec_contains_doc_begin(s: Seq<char>) -> bool {
    has_sub(s, "\\begin{document}"@)
}

/// The line contains the closing of the document environment.
pub open spec fn spec_contains_doc_end(s: Seq<char>) -> bool {
    has_sub(s, "\\end{document}"@)
}

/// The line contains `\item` as a plain substring.
pub open spec fn spec_contains_item_sub(s: Seq<char>) -> bool {
    has_sub(s, "\\item"@)
}

/// An `\item` command starts at position `j`: the marker characters
/// occur there and are not continued by a further letter.
pub open spec fn item_at(s: Seq<char>, j: int) -> bool {
    &&& sub_at(s, "\\item"@, j)
    &&& (j + "\\item"@.len() == s.len() || !spec_is_letter(s[j + "\\item"@.len() as int]))
}

/// The line contains an `\item` command.
pub open spec fn spec_has_item_marker(s: Seq<char>) -> bool {
    exists|j: int| #[trigger] item_at(s, j)
}

/// The line contains a sectioning command: `\section`, `\subsection`,
/// `\subsubsection`, `\chapter` or `\part`, starred or not, with its
/// opening brace.
pub open spec fn spec_has_sectioning(s: Seq<char>) -> bool {
    ||| has_sub(s, "\\section{"@)
    ||| has_sub(s, "\\section*{"@)
    ||| has_sub(s, "\\subsection{"@)
    ||| has_sub(s, "\\subsection*{"@)
    ||| has_sub(s, "\\subsubsection{"@)
    ||| has_sub(s, "\\subsubsection*{"@)
    ||| has_sub(s, "\\chapter{"@)
    ||| has_sub(s, "\\chapter*{"@)
    ||| has_sub(s, "\\part{"@)
    ||| has_sub(s, "\\part*{"@)
}

/// The line contains some structural marker: an environment delimiter,
/// an item, or a sectioning command.
pub open spec fn spec_contains_splitting(s: Seq<char>) -> bool {
    ||| spec_contains_env_begin(s)
    ||| spec_contains_env_end(s)
    ||| spec_has_item_marker(s)
    ||| spec_has_sectioning(s)
}

/// The line starts, after optional whitespace, with an inline or display
/// math opening delimiter.
pub open spec fn spec_opens_math_delim(s: Seq<char>) -> bool {
    ||| sub_at(s, "\\("@, first_content(s))
    ||| sub_at(s, "\\["@, first_content(s))
}

/// The line starts, after optional whitespace, with an inline or display
/// math closing delimiter.
pub open spec fn spec_closes_math_delim(s: Seq<char>) -> bool {
    ||| sub_at(s, "\\)"@, first_content(s))
    ||| sub_at(s, "\\]"@, first_content(s))
}

/// The line opens one of the list environments, whose items get one
/// extra level of indentation.
pub open spec fn spec_is_list_begin(s: Seq<char>) -> bool {
    ||| has_sub(s, "\\begin{itemize}"@)
    ||| has_sub(s, "\\begin{enumerate}"@)
    ||| has_sub(s, "\\begin{description}"@)
    ||| has_sub(s, "\\begin{inlineroman}"@)
    ||| has_sub(s, "\\begin{inventory}"@)
}

/// The line closes one of the list environments.
pub open spec fn spec_is_list_end(s: Seq<char>) -> bool {
    ||| has_sub(s, "\\end{itemize}"@)
    ||| has_sub(s, "\\end{enumerate}"@)
    ||| has_sub(s, "\\end{description}"@)
    ||| has_sub(s, "\\end{inlineroman}"@)
    ||| has_sub(s, "\\end{inventory}"@)
}

/// The line opens one of the verbatim-family environments, whose literal
/// contents are never reformatted.
pub open spec fn spec_is_verbatim_begin(s: Seq<char>) -> bool {
    ||| has_sub(s, "\\begin{verbatim}"@)
    ||| has_sub(s, "\\begin{Verbatim}"@)
    ||| has_sub(s, "\\begin{lstlisting}"@)
    ||| has_sub(s, "\\begin{minted}"@)
    ||| has_sub(s, "\\begin{comment}"@)
}

/// The line closes one of the verbatim-family environments.
pub open spec fn spec_is_verbatim_end(s: Seq<char>) -> bool {
    ||| has_sub(s, "\\end{verbatim}"@)
    ||| has_sub(s, "\\end{Verbatim}"@)
    ||| has_sub(s, "\\end{lstlisting}"@)
    ||| has_sub(s, "\\end{minted}"@)
    ||| has_sub(s, "\\end{comment}"@)
}

/// The line contains a `\begin{...}` that names one of the math or
/// tabular environments.
pub open spec fn spec_opens_math_env(s: Seq<char>) -> bool {
    ||| has_sub(s, "\\begin{equation}"@)
    ||| has_sub(s, "\\begin{equation*}"@)
    ||| has_sub(s, "\\begin{align}"@)
    ||| has_sub(s, "\\begin{align*}"@)
    ||| has_sub(s, "\\begin{tabular}"@)
    ||| has_sub(s, "\\begin{tabular*}"@)
}

/// The line contains an `\end{...}` that names one of the math or
/// tabular environments.
pub open spec fn spec_closes_math_env(s: Seq<char>) -> bool {
    ||| has_sub(s, "\\end{equation}"@)
    ||| has_sub(s, "\\end{equation*}"@)
    ||| has_sub(s, "\\end{align}"@)
    ||| has_sub(s, "\\end{align*}"@)
    ||| has_sub(s, "\\end{tabular}"@)
    ||| has_sub(s, "\\end{tabular*}"@)
}

/// The line mentions one of the math or tabular environment names.
pub open spec fn spec_has_math_name(s: Seq<char>) -> bool {
    ||| has_sub(s, "equation"@)
    ||| has_sub(s, "equation*"@)
    ||| has_sub(s, "align"@)
    ||| has_sub(s, "align*"@)
    ||| has_sub(s, "tabular"@)
    ||| has_sub(s, "tabular*"@)
}

/// A marker that the environment splitter acts on starts at `j`: an
/// environment delimiter or an item command.
pub open spec fn marker_at(s: Seq<char>, j: int) -> bool {
    ||| sub_at(s, "\\begin{"@, j)
    ||| sub_at(s, "\\end{"@, j)
    ||| item_at(s, j)
}

/// Position of the first marker at or after `j`, or `s.len()` if there
/// is none.
pub open spec fn find_marker_from(s: Seq<char>, j: int) -> int
    decreases s.len() - j,
{
    if j < 0 || j >= s.len() {
        s.len() as int
    } else if marker_at(s, j) {
        j
    } else {
        find_marker_from(s, j + 1)
    }
}

/// The first marker position found from `j` lies between `j` and the
/// line's length, and carries a marker when it is within the line.
pub proof fn lemma_find_marker_range(s: Seq<char>, j: int)
    requires
        0 <= j,
    ensures
        find_marker_from(s, j) <= s.len(),
        j <= s.len() ==> j <= find_marker_from(s, j),
        find_marker_from(s, j) < s.len() ==> marker_at(s, find_marker_from(s, j)),
    decreases s.len() - j,
{
    if j < s.len() && !marker_at(s, j) {
        lemma_find_marker_range(s, j + 1);
    }
}

/// Position where the environment splitter cuts the line: the first
/// marker that has the line's first content character strictly before
/// it, or `s.len()` if no such marker exists.
pub open spec fn split_point(s: Seq<char>) -> int {
    find_marker_from(s, first_content(s) + 1)
}

/// The line has a marker with content before it, so the splitter applies.
pub open spec fn spec_has_shared_marker(s: Seq<char>) -> bool {
    split_point(s) < s.len()
}

/// The text contains the marker that opens the document body, or the
/// directive that declares a preamble.
pub open spec fn spec_contains_preamble(t: Seq<char>) -> bool {
    has_sub(t, "\\begin{document}"@) || has_sub(t, "%! tex-fmt: preamble"@)
}

/// Whether `v` contains the characters of `lit` as a substring.
pub fn contains_lit(v: &Vec<char>, lit: &str) -> (b: bool)
    ensures
        b == has_sub(v@, lit@),
{
    let p = str_to_chars(lit);
    contains_chars(v, &p)
}

pub fn contains_env_begin(v: &Vec<char>) -> (b: bool)
    ensures
        b == spec_contains_env_begin(v@),
{
    contains_lit(v, "\\begin{")
}

pub fn contains_env_end(v: &Vec<char>) -> (b: bool)
    ensures
        b == spec_contains_env_end(v@),
{
    contains_lit(v, "\\end{")
}

pub fn contains_doc_begin(v: &Vec<char>) -> (b: bool)
    ensures
        b == spec_contains_doc_begin(v@),
{
    contains_lit(v, "\\begin{document}")
}

pub fn contains_doc_end(v: &Vec<char>) -> (b: bool)
    ensures
        b == spec_contains_doc_end(v@),
{
    contains_lit(v, "\\end{document}")
}

pub fn contains_item_sub(v: &Vec<char>) -> (b: bool)
    ensures
        b == spec_contains_item_sub(v@),
{
    contains_lit(v, "\\item")
}

/// An `\item` command starts at position `j` of `v`.
pub fn item_marker_at(v: &Vec<char>, j: usize) -> (b: bool)
    requires
        j <= v@.len(),
    ensures
        b == item_at(v@, j as int),
{
    let n = v.len();
    let p = str_to_chars("\\item");
    let m = p.len();
    if n - j < m {
        return false;
    }
    if !match_at(v, &p, j) {
        return false;
    }
    j + m == n || !is_letter(v[j + m])
}

pub fn has_item_marker(v: &Vec<char>) -> (b: bool)
    ensures
        b == spec_has_item_marker(v@),
{
    let n = v.len();
    for j in 0..n
        invariant
            n == v@.len(),
            forall|k: int| 0 <= k < j ==> !item_at(v@, k),
    {
        if item_marker_at(v, j) {
            return true;
        }
    }
    proof {
        reveal_strlit("\\item");
        assert(forall|k: int| #[trigger] item_at(v@, k) ==> 0 <= k < n);
    }
    false
}

pub fn has_sectioning(v: &Vec<char>) -> (b: bool)
    ensures
        b == spec_has_sectioning(v@),
{
    contains_lit(v, "\\section{") || contains_lit(v, "\\section*{")
        || contains_lit(v, "\\subsection{") || contains_lit(v, "\\subsection*{")
        || contains_lit(v, "\\subsubsection{") || contains_lit(v, "\\subsubsection*{")
        || contains_lit(v, "\\chapter{") || contains_lit(v, "\\chapter*{")
        || contains_lit(v, "\\part{") || contains_lit(v, "\\part*{")
}

pub fn contains_splitting_marker(v: &Vec<char>) -> (b: bool)
    ensures
        b == spec_contains_splitting(v@),
{
    contains_env_begin(v) || contains_env_end(v) || has_item_marker(v) || has_sectioning(v)
}

pub fn opens_math_delim(v: &Vec<char>) -> (b: bool)
    ensures
        b == spec_opens_math_delim(v@),
{
    let n = v.len();
    let i = first_content_index(v);
    let p_open = str_to_chars("\\(");
    if n - i >= p_open.len() && match_at(v, &p_open, i) {
        return true;
    }
    let p_disp = str_to_chars("\\[");
    n - i >= p_disp.len() && match_at(v, &p_disp, i)
}

pub fn closes_math_delim(v: &Vec<char>) -> (b: bool)
    ensures
        b == spec_closes_math_delim(v@),
{
    let n = v.len();
    let i = first_content_index(v);
    let p_close = str_to_chars("\\)");
    if n - i >= p_close.len() && match_at(v, &p_close, i) {
        return true;
    }
    let p_disp = str_to_chars("\\]");
    n - i >= p_disp.len() && match_at(v, &p_disp, i)
}

pub fn is_list_begin(v: &Vec<char>) -> (b: bool)
    ensures
        b == spec_is_list_begin(v@),
{
    contains_lit(v, "\\begin{itemize}") || contains_lit(v, "\\begin{enumerate}")
        || contains_lit(v, "\\begin{description}") || contains_lit(v, "\\begin{inlineroman}")
        || contains_lit(v, "\\begin{inventory}")
}

pub fn is_list_end(v: &Vec<char>) -> (b: bool)
    ensures
        b == spec_is_list_end(v@),
{
    contains_lit(v, "\\end{itemize}") || contains_lit(v, "\\end{enumerate}")
        || contains_lit(v, "\\end{description}") || contains_lit(v, "\\end{inlineroman}")
        || contains_lit(v, "\\end{inventory}")
}

pub fn is_verbatim_begin(v: &Vec<char>) -> (b: bool)
    ensures
        b == spec_is_verbatim_begin(v@),
{
    contains_lit(v, "\\begin{verbatim}") || contains_lit(v, "\\begin{Verbatim}")
        || contains_lit(v, "\\begin{lstlisting}") || contains_lit(v, "\\begin{minted}")
        || contains_lit(v, "\\begin{comment}")
}

pub fn is_verbatim_end(v: &Vec<char>) -> (b: bool)
    ensures
        b == spec_is_verbatim_end(v@),
{
    contains_lit(v, "\\end{verbatim}") || contains_lit(v, "\\end{Verbatim}")
        || contains_lit(v, "\\end{lstlisting}") || contains_lit(v, "\\end{minted}")
        || contains_lit(v, "\\end{comment}")
}

pub fn opens_math_env(v: &Vec<char>) -> (b: bool)
    ensures
        b == spec_opens_math_env(v@),
{
    contains_lit(v, "\\begin{equation}") || contains_lit(v, "\\begin{equation*}")
        || contains_lit(v, "\\begin{align}") || contains_lit(v, "\\begin{align*}")
        || contains_lit(v, "\\begin{tabular}") || contains_lit(v, "\\begin{tabular*}")
}

pub fn closes_math_env(v: &Vec<char>) -> (b: bool)
    ensures
        b == spec_closes_math_env(v@),
{
    contains_lit(v, "\\end{equation}") || contains_lit(v, "\\end{equation*}")
        || contains_lit(v, "\\end{align}") || contains_lit(v, "\\end{align*}")
        || contains_lit(v, "\\end{tabular}") || contains_lit(v, "\\end{tabular*}")
}

pub fn has_math_name(v: &Vec<char>) -> (b: bool)
    ensures
        b == spec_has_math_name(v@),
{
    contains_lit(v, "equation") || contains_lit(v, "equation*") || contains_lit(v, "align")
        || contains_lit(v, "align*") || contains_lit(v, "tabular") || contains_lit(v, "tabular*")
}

/// A marker that the environment splitter acts on starts at `j` of `v`.
pub fn marker_at_exec(v: &Vec<char>, j: usize) -> (b: bool)
    requires
        j <= v@.len(),
    ensures
        b == marker_at(v@, j as int),
{
    let n = v.len();
    let p_begin = str_to_chars("\\begin{");
    let mb = p_begin.len();
    if n - j >= mb && match_at(v, &p_begin, j) {
        return true;
    }
    let p_end = str_to_chars("\\end{");
    let me = p_end.len();
    if n - j >= me && match_at(v, &p_end, j) {
        return true;
    }
    item_marker_at(v, j)
}

/// Position of the first marker at or after `start`, or the line's
/// length if there is none.
pub fn find_marker_index(v: &Vec<char>, start: usize) -> (r: usize)
    ensures
        r as int == find_marker_from(v@, start as int),
        r <= v@.len(),
{
    let n = v.len();
    if start >= n {
        return n;
    }
    let mut j: usize = start;
    while j < n
        invariant
            n == v@.len(),
            start <= j <= n,
            find_marker_from(v@, start as int) == find_marker_from(v@, j as int),
        decreases n - j,
    {
        if marker_at_exec(v, j) {
            return j;
        }
        j = j + 1;
    }
    n
}

/// Whether the text contains the `\begin{document}` marker or the
/// preamble directive, either of which shows that the file carries
/// preamble content.
pub fn contains_preamble(text: &str) -> (b: bool)
    ensures
        b == spec_contains_preamble(text@),
{
    let v = str_to_chars(text);
    contains_lit(&v, "\\begin{document}") || contains_lit(&v, "%! tex-fmt: preamble")
}

} // verus!
