//! The rectangle of the screen that normalized coordinates are mapped to.
use vstd::prelude::*;

verus! {

/// A rectangle of `w` by `h` pixels with its corner at `(x, y)`.
#[derive(Clone, Copy, Debug, PartialEq, Eq, Structural)]
pub struct Viewport {
    pub x: i32,
    pub y: i32,
    pub w: u32,
    pub h: u32,
}

} // verus!
