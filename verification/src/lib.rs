//! A software rasterizer over fixed-point arithmetic.
//!
//! Indexed triangles go through a programmable vertex stage, model and view
//! transforms, face culling, frustum discard, a cut at the near plane,
//! projection and viewport mapping, and are filled with a depth test and
//! perspective-correct attributes by one of two rasterizers: scanlines over
//! trapezoids, or barycentric weights over the bounding box.  The result is
//! a packed RGB byte buffer.
//!
//! Every number is a [`fixed::Fixed`], a signed number with sixteen
//! fractional bits.  Arithmetic is total: results are rounded toward zero
//! and clamped to the range.  What decides the shape of the picture (the
//! facing of a triangle, the side of a frustum plane, whether a pixel lies
//! in a triangle, on which side of a trapezoid the long edge runs) is
//! computed exactly on the raw integers, so that rounding never turns such
//! a decision around.
//!
//! The contracts say what every function computes, over the spec functions
//! that stand beside it; the proof functions state what holds of several
//! functions together.
pub mod camera;
pub mod cpu_renderer;
pub mod error;
pub mod fixed;
pub mod image;
pub mod line;
pub mod math;
pub mod model;
pub mod obj_loader;
pub mod renderer;
pub mod scanline;
pub mod scene;
pub mod shader;
pub mod texture;
