//! Widget positioning vocabulary.

use vstd::prelude::*;

verus! {

/// Unit of absolute widget space (relative to the window).
#[derive(Debug, Clone, Copy, PartialEq, Eq, PartialOrd, Ord, Hash, Structural)]
pub struct AbsoluteUnit;

/// Unit of relative widget space (relative to the parent).
#[derive(Debug, Clone, Copy, PartialEq, Eq, PartialOrd, Ord, Hash, Structural)]
pub struct RelativeUnit;

/// A point (or rectangle) that can be either relative or absolute.
#[derive(Debug, Clone, Copy, PartialEq)]
pub enum Agnostic<R, A> {
    Relative(R),
    Absolute(A),
}

} // verus!
