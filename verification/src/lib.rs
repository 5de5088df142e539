//! Semantic-conformance checking and diagnostic reporting for a compiler's
//! semantic-analysis phase.
//!
//! The crate validates implementations of interfaces ("traits") against the
//! interface's declared function signatures, resolves method calls to the
//! applicable implementation(s), checks type agreement across control-flow
//! merge points, and records every problem as an immutable finding in an
//! ordered, append-only collection.

pub mod compatibility;
pub mod conformance;
pub mod context;
pub mod diagnostic;
pub mod ids;
pub mod render;
pub mod resolution;

use vstd::prelude::*;

verus! {

/// A half-open byte range `[start, end)` inside a source file.
#[derive(Clone, Copy, Debug, PartialEq, Eq, Hash, Structural)]
pub struct TextSpan {
    pub start: usize,
    pub end: usize,
}

impl TextSpan {
    /// The zero-width span sitting immediately after this span.
    pub fn after(self) -> (r: TextSpan)
        ensures
            r.start == self.end,
            r.end == self.end,
    {
        TextSpan { start: self.end, end: self.end }
    }
}

} // verus!
