//! The parts of the pipeline that do not depend on the back-end: pipeline
//! state, face culling, texture sampling, and the line rasterizer with its
//! clipping.
pub mod bresenham;
pub mod clip;
pub mod cull;
pub mod interface;
pub mod line_raster;
pub mod sample;
pub mod viewport;

pub use bresenham::Bresenham;
pub use clip::{cohen_sutherland_line_clip, compute_outcode};
pub use cull::{should_cull, FaceCull, FrontFace};
pub use interface::RendererInterface;
pub use line_raster::rasterize_line;
pub use sample::texture_sample;
pub use viewport::Viewport;
