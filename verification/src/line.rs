//! A segment of the wireframe, ready for the line rasterizer.
use crate::fixed::Fixed;
use crate::scanline::{spec_step, vertex_step};
use crate::shader::Vertex;
use vstd::prelude::*;

verus! {

/// A segment with what is added to its start from one pixel to the next.
#[derive(Clone, Copy, Debug)]
pub struct Line {
    pub start: Vertex,
    pub end: Vertex,
    pub step: Vertex,
}

/// The length of the segment along its major axis: the larger of the
/// horizontal and the vertical distance of its ends.
pub open spec fn major_length(start: Vertex, end: Vertex) -> Fixed {
    let dx = end.position.x.minus(start.position.x).spec_abs();
    let dy = end.position.y.minus(start.position.y).spec_abs();
    if dx@ >= dy@ {
        dx
    } else {
        dy
    }
}

/// The segment from `start` to `end` with its step.
pub open spec fn spec_line(start: Vertex, end: Vertex) -> Line {
    Line { start, end, step: spec_step(start, end, major_length(start, end)) }
}

impl Line {
    /// The segment from `start` to `end`.  Its step divides the difference
    /// of the two ends by the length along the major axis, so that one step
    /// moves one pixel along that axis.
    pub fn new(start: Vertex, end: Vertex) -> (r: Line)
        ensures
            r == spec_line(start, end),
    {
        let dx = (end.position.x - start.position.x).abs();
        let dy = (end.position.y - start.position.y).abs();
        let length = if dx.raw >= dy.raw {
            dx
        } else {
            dy
        };
        Line { start, end, step: vertex_step(&start, &end, length) }
    }
}

} // verus!
