//! A single-pass reformatter for LaTeX source text: it recomputes each
//! line's indentation, splits structural markers onto their own lines,
//! and wraps lines that exceed a configured width, while suppressing all
//! of these transformations inside verbatim-like regions.

use vstd::prelude::*;

pub mod comments;
pub mod indent;
pub mod logging;
pub mod markers;
pub mod pattern;
pub mod scan;
pub mod subs;
pub mod verbatim;
pub mod wrap;

use crate::indent::Indent;
use crate::verbatim::Verbatim;

verus! {

/// Read-only configuration for the formatting pipeline.
pub struct Cli {
    /// Hard width budget for wrapping, in display columns.
    pub wrap: usize,
    /// Soft minimum width before a breakpoint is accepted.
    pub wrap_min: usize,
    /// Number of columns of one indentation level.
    pub tab: usize,
    /// Disable line wrapping entirely.
    pub keep: bool,
    /// Emit trace-level log entries.
    pub trace: bool,
}

/// Mutable state carried through a document, line by line.
pub struct State {
    /// Indentation state after the lines seen so far.
    pub indent: Indent,
    /// Verbatim-region state after the lines seen so far.
    pub verbatim: Verbatim,
    /// State of the generically ignored regions, tracked in the same
    /// shape as the verbatim regions.
    pub ignore: Verbatim,
    /// Current line number in the file as it was read.
    pub linum_old: usize,
    /// Current line number in the output being produced.
    pub linum_new: usize,
}

impl State {
    /// The state at the start of a document: no nesting, no suppressed
    /// region, both line counters at the first line.
    pub fn new() -> (r: Self)
        ensures
            r.indent.actual == 0,
            r.indent.visual == 0,
            r.verbatim.actual == 0,
            r.verbatim.visual == false,
            r.ignore.actual == 0,
            r.ignore.visual == false,
            r.linum_old == 1,
            r.linum_new == 1,
    {
        Self {
            indent: Indent::new(),
            verbatim: Verbatim::new(),
            ignore: Verbatim::new(),
            linum_old: 1,
            linum_new: 1,
        }
    }
}

} // verus!
