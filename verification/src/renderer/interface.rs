//! What every back-end offers to its host.
use crate::camera::Camera;
use crate::error::Error;
use crate::math::matrix::Mat4;
use crate::math::vector::Vec4;
use crate::renderer::cull::{FaceCull, FrontFace};
use crate::shader::{Shader, Uniforms, Vertex};
use crate::texture::TextureStorage;
use vstd::prelude::*;

verus! {

/// A renderer as its host sees it.  What drawing does to the canvas is said
/// by each back-end for itself; here stands what holds of all of them.
pub trait RendererInterface {
    /// The shader that the renderer runs.
    type Stages: Shader;

    /// Whether the renderer is fit to be drawn with.  Every renderer that
    /// the library builds is, and every operation keeps it so.
    open spec fn ready(&self) -> bool {
        true
    }

    /// Whether the renderer takes the vertex stream: whether no triangle
    /// of it would be cut at the near plane a second time.
    open spec fn accepts(&self, model: Mat4, vertices: Seq<Vertex>, textures: TextureStorage) -> bool {
        true
    }

    /// Width of the canvas, in pixels.  A renderer that does not say leaves
    /// it open.
    open spec fn canva_width(&self) -> u32 {
        arbitrary()
    }

    /// Height of the canvas, in pixels.
    open spec fn canva_height(&self) -> u32 {
        arbitrary()
    }

    /// The bytes of the canvas.
    open spec fn rendered_image(&self) -> Seq<u8> {
        arbitrary()
    }

    /// Writes `color` to every pixel.
    fn clear(&mut self, color: &Vec4)
        requires
            old(self).ready(),
        ensures
            final(self).ready(),
            final(self).canva_width() == old(self).canva_width(),
            final(self).canva_height() == old(self).canva_height(),
    ;

    /// Forgets every depth.
    fn clear_depth(&mut self)
        requires
            old(self).ready(),
        ensures
            final(self).ready(),
            final(self).canva_width() == old(self).canva_width(),
            final(self).canva_height() == old(self).canva_height(),
            final(self).rendered_image() == old(self).rendered_image(),
    ;

    fn get_canva_width(&self) -> (r: u32)
        ensures
            r == self.canva_width(),
    ;

    fn get_canva_height(&self) -> (r: u32)
        ensures
            r == self.canva_height(),
    ;

    /// Draws the triangles of the vertex stream; a stream whose length is no
    /// multiple of three is refused with `OutOfBounds` and leaves the canvas
    /// as it is.  The stream must be one that the renderer takes.
    fn draw_triangle(
        &mut self,
        model: &Mat4,
        vertices: &[Vertex],
        texture_storage: &TextureStorage,
    ) -> (r: Result<(), Error>)
        requires
            old(self).ready(),
            old(self).accepts(*model, vertices@, *texture_storage),
        ensures
            final(self).ready(),
            final(self).canva_width() == old(self).canva_width(),
            final(self).canva_height() == old(self).canva_height(),
            r is Ok <==> vertices@.len() % 3 == 0,
            r is Err ==> r->Err_0 == Error::OutOfBounds && final(self).rendered_image() == old(
                self,
            ).rendered_image(),
    ;

    /// The bytes of the canvas: red, green and blue for each pixel, row by
    /// row from the top left.
    fn get_rendered_image(&self) -> (r: &[u8])
        ensures
            r@ == self.rendered_image(),
    ;

    fn get_shader(&mut self) -> (r: &mut Self::Stages)
        ensures
            final(self).ready() == old(self).ready(),
            final(self).rendered_image() == old(self).rendered_image(),
    ;

    fn get_uniforms(&mut self) -> (r: &mut Uniforms)
        ensures
            final(self).ready() == old(self).ready(),
            final(self).rendered_image() == old(self).rendered_image(),
    ;

    fn get_camera(&mut self) -> (r: &mut Camera)
        ensures
            final(self).ready() == old(self).ready(),
            final(self).rendered_image() == old(self).rendered_image(),
    ;

    fn set_camera(&mut self, camera: Camera)
        ensures
            final(self).ready() == old(self).ready(),
            final(self).rendered_image() == old(self).rendered_image(),
    ;

    fn set_front_face(&mut self, front_face: FrontFace)
        ensures
            final(self).ready() == old(self).ready(),
            final(self).rendered_image() == old(self).rendered_image(),
    ;

    fn get_front_face(&self) -> FrontFace;

    fn set_face_cull(&mut self, cull: FaceCull)
        ensures
            final(self).ready() == old(self).ready(),
            final(self).rendered_image() == old(self).rendered_image(),
    ;

    fn get_face_cull(&self) -> FaceCull;

    fn enable_framework(&mut self)
        ensures
            final(self).ready() == old(self).ready(),
            final(self).rendered_image() == old(self).rendered_image(),
    ;

    fn disable_framework(&mut self)
        ensures
            final(self).ready() == old(self).ready(),
            final(self).rendered_image() == old(self).rendered_image(),
    ;

    fn toggle_framework(&mut self)
        ensures
            final(self).ready() == old(self).ready(),
            final(self).rendered_image() == old(self).rendered_image(),
    ;
}

} // verus!
