//! Source positions.

use vstd::prelude::*;

verus! {

/// A region of the source text, from the offset `lo` up to the offset `hi`.
/// The library compares positions and hands them on; it never computes with
/// one.
#[derive(Clone, Copy, Debug, PartialEq, Eq, Structural)]
pub struct Span {
    pub lo: usize,
    pub hi: usize,
}

impl Span {
    /// The position of text that stands nowhere in the source: the empty
    /// range at offset zero.
    pub open spec fn spec_nowhere() -> Span {
        Span { lo: 0, hi: 0 }
    }

    /// The position given to expressions that the compiler itself builds.
    #[verifier::when_used_as_spec(spec_nowhere)]
    pub fn nowhere() -> (span: Span)
        ensures
            span == Span::spec_nowhere(),
    {
        Span { lo: 0, hi: 0 }
    }
}

} // verus!
