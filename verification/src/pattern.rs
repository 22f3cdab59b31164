//! Classifying a line in one pass: which structural markers it contains
//! and whether it opens or closes math mode, recorded once so that later
//! stages need not rescan the line.

use vstd::prelude::*;

use crate::markers::contains_env_begin;
use crate::markers::contains_env_end;
use crate::markers::contains_item_sub;
use crate::markers::contains_splitting_marker;
use crate::markers::closes_math_delim;
use crate::markers::closes_math_env;
use crate::markers::has_math_name;
use crate::markers::opens_math_delim;
use crate::markers::opens_math_env;
use crate::markers::spec_closes_math_delim;
use crate::markers::spec_closes_math_env;
use crate::markers::spec_contains_env_begin;
use crate::markers::spec_contains_env_end;
use crate::markers::spec_contains_item_sub;
use crate::markers::spec_contains_splitting;
use crate::markers::spec_has_math_name;
use crate::markers::spec_opens_math_delim;
use crate::markers::spec_opens_math_env;
use crate::scan::str_to_chars;

verus! {

/// Which patterns a line contains, recorded to avoid recomputing.
pub struct Pattern {
    /// Whether a begin environment pattern is present.
    pub contains_env_begin: bool,
    /// Whether an end environment pattern is present.
    pub contains_env_end: bool,
    /// Whether an item pattern is present.
    pub contains_item: bool,
    /// Whether a splitting pattern is present.
    pub contains_splitting: bool,
    /// Whether the line opens a math environment.
    pub opens_math_environment: bool,
    /// Whether the line closes a math environment.
    pub closes_math_environment: bool,
}

/// The classification `p` is the one that a single scan of the line `s`
/// produces.
pub open spec fn pattern_matches_line(p: Pattern, s: Seq<char>) -> bool {
    &&& p.contains_env_begin == spec_contains_env_begin(s)
    &&& p.contains_env_end == spec_contains_env_end(s)
    &&& p.contains_item == (spec_contains_splitting(s) && spec_contains_item_sub(s))
    &&& p.contains_splitting == spec_contains_splitting(s)
    &&& p.opens_math_environment == (spec_opens_math_delim(s) || spec_opens_math_env(s))
    &&& p.closes_math_environment == (spec_closes_math_delim(s) || spec_closes_math_env(s))
}

impl Pattern {
    /// Scan a line once and record which patterns it contains.
    pub fn new(s: &str) -> (p: Pattern)
        ensures
            pattern_matches_line(p, s@),
    {
        let v = str_to_chars(s);
        let splitting = contains_splitting_marker(&v);
        let env_begin = splitting && contains_env_begin(&v);
        let env_end = splitting && contains_env_end(&v);
        let item = splitting && contains_item_sub(&v);
        let opens = opens_math_delim(&v) || opens_math_env(&v);
        let closes = closes_math_delim(&v) || closes_math_env(&v);
        Pattern {
            contains_env_begin: env_begin,
            contains_env_end: env_end,
            contains_item: item,
            contains_splitting: splitting,
            opens_math_environment: opens,
            closes_math_environment: closes,
        }
    }

    /// Whether the line mentions one of the known math or tabular
    /// environment names. Meaningful on lines that already contain an
    /// environment delimiter.
    pub fn contains_math_env_name(s: &str) -> (b: bool)
        ensures
            b == spec_has_math_name(s@),
    {
        let v = str_to_chars(s);
        has_math_name(&v)
    }
}

} // verus!
