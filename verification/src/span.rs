//! Source locations.

use vstd::prelude::*;

verus! {

/// A region of the source text, as a pair of positions handed in by the host.
///
/// The library never interprets the two numbers; it only carries them from the
/// tokens it reads to the diagnostics it reports.
#[derive(Clone, Copy, Debug, PartialEq, Eq, Structural)]
pub struct Span {
    pub start: u64,
    pub end: u64,
}

impl Span {
    /// The region from `start` to `end`.
    pub fn new(start: u64, end: u64) -> (span: Span)
        ensures
            span == (Span { start, end }),
    {
        Span { start, end }
    }
}

} // verus!
