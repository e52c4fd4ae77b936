//! The failures that the library reports in-band.
use vstd::prelude::*;

verus! {

/// The kinds of failure.  `OutOfBounds` is returned as an error; the other
/// kinds name conditions that show as an empty `Option` or as a primitive
/// that is skipped.
#[derive(Clone, Copy, Debug, PartialEq, Eq, Structural)]
pub enum Error {
    /// An argument failed a validation at the boundary of the library: a
    /// vertex count that is no multiple of three, a pixel buffer of the wrong
    /// size, a registry that is full.
    OutOfBounds,
    /// A triangle without area; the rasterizer skips it.
    DegenerateInput,
    /// No texture has the identifier or name asked for.
    TextureNotFound,
    /// A matrix whose determinant rounds to zero has no inverse.
    NumericDegeneracy,
}

} // verus!
