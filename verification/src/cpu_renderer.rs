//! The renderer and its two rasterizers.
use crate::camera::Camera;
use crate::error::Error;
use crate::fixed::Fixed;
use crate::image::{ColorAttachment, DepthAttachment};
use crate::math::matrix::Mat4;
use crate::math::vector::Vec4;
use crate::renderer::cull::{FaceCull, FrontFace};
use crate::renderer::interface::RendererInterface;
use crate::renderer::viewport::Viewport;
use crate::scanline::spec_face;
use crate::shader::{DefaultShader, Shader, Uniforms, Vertex};
use crate::texture::TextureStorage;
use fragment::{frame_of, targets_wf, Frame};
use pipeline::{
    cut_once, face_to_screen, is_cut_once, lemma_identity_cut_once, reenter, spec_face_to_screen, spec_reenter, spec_view_stage,
    view_stage, ViewSpace,
};
use screen::{rasterize_screen, spec_rasterize_screen};
use vstd::prelude::*;

pub mod aabb;
pub mod fill;
pub mod fragment;
pub mod offscreen;
pub mod order;
pub mod pipeline;
pub mod screen;

verus! {

/// What a draw reads besides the attachments.
pub struct Settings<S> {
    pub shader: S,
    pub uniforms: Uniforms,
    pub camera: Camera,
    pub viewport: Viewport,
    pub front_face: FrontFace,
    pub cull: FaceCull,
    pub wireframe: bool,
}

/// The frame after a triangle of view space is taken to the screen and
/// drawn, by the rasterizer that the projection of the camera is made for.
pub open spec fn spec_draw_view<S: Shader>(
    frame: Frame,
    settings: Settings<S>,
    textures: TextureStorage,
    v: [Vertex; 3],
) -> Frame {
    spec_rasterize_screen(
        frame,
        settings.shader,
        settings.uniforms,
        textures,
        settings.wireframe,
        settings.camera.spec_frustum().spec_backend(),
        spec_face_to_screen(settings.camera.spec_frustum(), settings.viewport, v),
    )
}

/// The frame after a triangle that the cut at the near plane made is
/// drawn.  It goes through the stages once more, from the model transform
/// on, and is drawn unless it is dropped on that way.  It is not cut a
/// second time: `stream_cut_once` keeps streams with such a triangle from
/// being drawn, and here nothing is drawn of it.
#[verifier::opaque]
pub open spec fn spec_draw_cut<S: Shader>(
    frame: Frame,
    settings: Settings<S>,
    textures: TextureStorage,
    model: Mat4,
    cut: [Vertex; 3],
) -> Frame {
    match spec_reenter(settings.camera, settings.front_face, settings.cull, model, cut) {
        ViewSpace::Visible(face) => spec_draw_view(frame, settings, textures, face),
        _ => frame,
    }
}

/// The frame after one triangle of the vertex stream is drawn.  The
/// triangles that a cut at the near plane makes go through the stages once
/// more, the first before the second.
#[verifier::opaque]
pub open spec fn spec_draw_one<S: Shader>(
    frame: Frame,
    settings: Settings<S>,
    textures: TextureStorage,
    model: Mat4,
    v: [Vertex; 3],
) -> Frame {
    match spec_view_stage(
        settings.shader,
        settings.uniforms,
        textures,
        settings.camera,
        settings.front_face,
        settings.cull,
        model,
        v,
    ) {
        ViewSpace::Discarded => frame,
        ViewSpace::Visible(face) => spec_draw_view(frame, settings, textures, face),
        ViewSpace::NearSplit(first, second) => {
            let after = spec_draw_cut(frame, settings, textures, model, first);
            match second {
                Some(face) => spec_draw_cut(after, settings, textures, model, face),
                None => after,
            }
        },
    }
}

/// Whether every triangle of the vertex stream is cut at the near plane at
/// most once.  A stream with a triangle that would be cut a second time is
/// not to be drawn.
pub open spec fn stream_cut_once<S: Shader>(
    settings: Settings<S>,
    textures: TextureStorage,
    model: Mat4,
    vertices: Seq<Vertex>,
) -> bool {
    forall|i: int|
        0 <= i < vertices.len() / 3 ==> cut_once(
            settings.shader,
            settings.uniforms,
            textures,
            settings.camera,
            settings.front_face,
            settings.cull,
            model,
            #[trigger] triangle_at(vertices, i),
        )
}

/// Where the model matrix and the view matrix of the camera are both the
/// identity, no triangle of any stream is cut a second time.
pub proof fn lemma_identity_stream_cut_once<S: Shader>(
    settings: Settings<S>,
    textures: TextureStorage,
    vertices: Seq<Vertex>,
)
    requires
        settings.camera.spec_view_mat() == Mat4::spec_identity(),
    ensures
        stream_cut_once(settings, textures, Mat4::spec_identity(), vertices),
{
    assert forall|i: int| 0 <= i < vertices.len() / 3 implies cut_once(
        settings.shader,
        settings.uniforms,
        textures,
        settings.camera,
        settings.front_face,
        settings.cull,
        Mat4::spec_identity(),
        #[trigger] triangle_at(vertices, i),
    ) by {
        lemma_identity_cut_once(
            settings.shader,
            settings.uniforms,
            textures,
            settings.camera,
            settings.front_face,
            settings.cull,
            triangle_at(vertices, i),
        );
    }
}

/// Triangle `i` of the vertex stream.
pub open spec fn triangle_at(vertices: Seq<Vertex>, i: int) -> [Vertex; 3] {
    spec_face(vertices[3 * i], vertices[3 * i + 1], vertices[3 * i + 2])
}

/// The frame after the triangles from `i` on are drawn, in their order.
pub open spec fn spec_draw_from<S: Shader>(
    frame: Frame,
    settings: Settings<S>,
    textures: TextureStorage,
    model: Mat4,
    vertices: Seq<Vertex>,
    i: int,
) -> Frame
    decreases vertices.len() / 3 - i,
{
    if i < 0 || i >= vertices.len() / 3 {
        frame
    } else {
        spec_draw_from(
            spec_draw_one(frame, settings, textures, model, triangle_at(vertices, i)),
            settings,
            textures,
            model,
            vertices,
            i + 1,
        )
    }
}

/// Drawing from triangle `i` on is drawing triangle `i` and then from the
/// next one on; drawing from the end on changes nothing.
pub proof fn lemma_draw_from_unfolds<S: Shader>(
    frame: Frame,
    settings: Settings<S>,
    textures: TextureStorage,
    model: Mat4,
    vertices: Seq<Vertex>,
    i: int,
)
    ensures
        0 <= i < vertices.len() / 3 ==> spec_draw_from(
            frame,
            settings,
            textures,
            model,
            vertices,
            i,
        ) == spec_draw_from(
            spec_draw_one(frame, settings, textures, model, triangle_at(vertices, i)),
            settings,
            textures,
            model,
            vertices,
            i + 1,
        ),
        i >= vertices.len() / 3 ==> spec_draw_from(frame, settings, textures, model, vertices, i)
            == frame,
{
}

/// The renderer: the two attachments, the camera, the shader with its
/// uniforms, and the state of the fixed stages.
pub struct Renderer<S: Shader> {
    color_attachment: ColorAttachment,
    depth_attachment: DepthAttachment,
    camera: Camera,
    viewport: Viewport,
    shader: S,
    uniforms: Uniforms,
    front_face: FrontFace,
    cull: FaceCull,
    cliped_triangles: Vec<Vertex>,
    enable_framework: bool,
}

impl Renderer<DefaultShader> {
    /// A renderer of `w` by `h` pixels with the default shader: clockwise
    /// fronts, no culling, filled triangles, a viewport over the whole
    /// canvas, a black colour attachment and the largest depth everywhere.
    pub fn new(w: u32, h: u32, camera: Camera) -> (r: Renderer<DefaultShader>)
        requires
            w * h * 3 <= usize::MAX,
        ensures
            r.wf(),
            r.spec_frame().width == w,
            r.spec_frame().height == h,
            forall|i: int| 0 <= i < r.spec_frame().color.len() ==> r.spec_frame().color[i] == 0u8,
            forall|i: int|
                0 <= i < r.spec_frame().depth.len() ==> r.spec_frame().depth[i]@ == 2147483647,
            r.spec_settings().camera == camera,
            r.spec_settings().viewport == (Viewport { x: 0, y: 0, w, h }),
            r.spec_settings().front_face == FrontFace::CW,
            r.spec_settings().cull == FaceCull::Nothing,
            r.spec_settings().wireframe == false,
            r.spec_settings().uniforms.is_empty(),
    {
        Renderer::with_shader(w, h, camera, DefaultShader {})
    }
}

impl<S: Shader> Renderer<S> {
    /// Whether the two attachments are of one size and no cut triangle
    /// waits to be drawn.
    pub closed spec fn wf(&self) -> bool {
        &&& targets_wf(&self.color_attachment, &self.depth_attachment)
        &&& self.cliped_triangles@.len() == 0
    }

    /// The content of the two attachments.
    pub closed spec fn spec_frame(&self) -> Frame {
        frame_of(&self.color_attachment, &self.depth_attachment)
    }

    /// What a draw reads besides the attachments.
    pub closed spec fn spec_settings(&self) -> Settings<S> {
        Settings {
            shader: self.shader,
            uniforms: self.uniforms,
            camera: self.camera,
            viewport: self.viewport,
            front_face: self.front_face,
            cull: self.cull,
            wireframe: self.enable_framework,
        }
    }

    /// The size of the frame is the size of a canvas, and a renderer that
    /// is fit to be drawn with holds three bytes and one depth for each pixel.
    pub proof fn lemma_frame_size(&self)
        ensures
            0 <= self.spec_frame().width <= u32::MAX,
            0 <= self.spec_frame().height <= u32::MAX,
            self.wf() ==> self.spec_frame().wf(),
    {
    }

    /// A renderer of `w` by `h` pixels with the given shader.  The numbers
    /// of the library reach up to 32767; what lies beyond that column or row
    /// of a larger canvas is not reached.
    pub fn with_shader(w: u32, h: u32, camera: Camera, shader: S) -> (r: Renderer<S>)
        requires
            w * h * 3 <= usize::MAX,
        ensures
            r.wf(),
            r.spec_frame().width == w,
            r.spec_frame().height == h,
            forall|i: int| 0 <= i < r.spec_frame().color.len() ==> r.spec_frame().color[i] == 0u8,
            forall|i: int|
                0 <= i < r.spec_frame().depth.len() ==> r.spec_frame().depth[i]@ == 2147483647,
            r.spec_settings().shader == shader,
            r.spec_settings().camera == camera,
            r.spec_settings().viewport == (Viewport { x: 0, y: 0, w, h }),
            r.spec_settings().front_face == FrontFace::CW,
            r.spec_settings().cull == FaceCull::Nothing,
            r.spec_settings().wireframe == false,
            r.spec_settings().uniforms.is_empty(),
    {
        assert(w * h <= w * h * 3) by (nonlinear_arith);
        Renderer {
            color_attachment: ColorAttachment::new(w, h),
            depth_attachment: DepthAttachment::new(w, h),
            camera,
            viewport: Viewport { x: 0, y: 0, w, h },
            shader,
            uniforms: Uniforms::default(),
            front_face: FrontFace::CW,
            cull: FaceCull::Nothing,
            cliped_triangles: Vec::new(),
            enable_framework: false,
        }
    }

    /// Writes `color` to every pixel; the depths stay.  Each channel is
    /// stored as `c * 255` rounded toward zero and clamped to a byte.
    pub fn clear(&mut self, color: &Vec4)
        requires
            old(self).wf(),
        ensures
            final(self).wf(),
            final(self).spec_settings() == old(self).spec_settings(),
            final(self).spec_frame().width == old(self).spec_frame().width,
            final(self).spec_frame().height == old(self).spec_frame().height,
            final(self).spec_frame().depth == old(self).spec_frame().depth,
            forall|x: int, y: int|
                0 <= x < final(self).spec_frame().width && 0 <= y < final(self).spec_frame().height
                    ==> #[trigger] final(self).spec_frame().pixel(x, y)
                    == ColorAttachment::bytes_of(*color),
    {
        self.color_attachment.clear(color);
        assert forall|x: int, y: int|
            0 <= x < self.spec_frame().width && 0 <= y < self.spec_frame().height implies #[trigger] self.spec_frame().pixel(
            x,
            y,
        ) == ColorAttachment::bytes_of(*color) by {
            assert(self.color_attachment.pixel(x, y) == ColorAttachment::bytes_of(*color));
        }
    }

    /// Writes the smallest number to every depth; the colours stay.
    pub fn clear_depth(&mut self)
        requires
            old(self).wf(),
        ensures
            final(self).wf(),
            final(self).spec_settings() == old(self).spec_settings(),
            final(self).spec_frame().width == old(self).spec_frame().width,
            final(self).spec_frame().height == old(self).spec_frame().height,
            final(self).spec_frame().color == old(self).spec_frame().color,
            forall|i: int|
                0 <= i < final(self).spec_frame().depth.len() ==> final(self).spec_frame().depth[i]@
                    == -2147483648,
    {
        self.depth_attachment.clear(Fixed::min_value());
    }

    pub fn get_canva_width(&self) -> (r: u32)
        ensures
            r == self.spec_frame().width,
    {
        self.color_attachment.width()
    }

    pub fn get_canva_height(&self) -> (r: u32)
        ensures
            r == self.spec_frame().height,
    {
        self.color_attachment.height()
    }

    /// The bytes of the colour attachment: red, green and blue for each
    /// pixel, row by row from the top left.
    pub fn get_rendered_image(&self) -> (r: &[u8])
        ensures
            r@ == self.spec_frame().color,
            self.wf() ==> r@.len() == 3 * self.spec_frame().width * self.spec_frame().height,
    {
        assert(self.wf() ==> self.spec_frame().color.len() == self.spec_frame().width
            * self.spec_frame().height * 3);
        assert(3 * self.spec_frame().width * self.spec_frame().height == self.spec_frame().width
            * self.spec_frame().height * 3) by (nonlinear_arith);
        self.color_attachment.data().as_slice()
    }

    /// The shader, to be read or replaced.
    pub fn get_shader(&mut self) -> (r: &mut S)
        ensures
            *r == old(self).spec_settings().shader,
            final(self).spec_settings() == (Settings {
                shader: *final(r),
                ..old(self).spec_settings()
            }),
            final(self).spec_frame() == old(self).spec_frame(),
            final(self).wf() == old(self).wf(),
    {
        &mut self.shader
    }

    /// The uniforms, to be read or changed.
    pub fn get_uniforms(&mut self) -> (r: &mut Uniforms)
        ensures
            *r == old(self).spec_settings().uniforms,
            final(self).spec_settings() == (Settings {
                uniforms: *final(r),
                ..old(self).spec_settings()
            }),
            final(self).spec_frame() == old(self).spec_frame(),
            final(self).wf() == old(self).wf(),
    {
        &mut self.uniforms
    }

    /// The camera, to be read or moved.
    pub fn get_camera(&mut self) -> (r: &mut Camera)
        ensures
            *r == old(self).spec_settings().camera,
            final(self).spec_settings() == (Settings {
                camera: *final(r),
                ..old(self).spec_settings()
            }),
            final(self).spec_frame() == old(self).spec_frame(),
            final(self).wf() == old(self).wf(),
    {
        &mut self.camera
    }

    pub fn set_camera(&mut self, camera: Camera)
        ensures
            final(self).spec_settings() == (Settings { camera, ..old(self).spec_settings() }),
            final(self).spec_frame() == old(self).spec_frame(),
            final(self).wf() == old(self).wf(),
    {
        self.camera = camera;
    }

    pub fn set_front_face(&mut self, front_face: FrontFace)
        ensures
            final(self).spec_settings() == (Settings { front_face, ..old(self).spec_settings() }),
            final(self).spec_frame() == old(self).spec_frame(),
            final(self).wf() == old(self).wf(),
    {
        self.front_face = front_face;
    }

    pub fn get_front_face(&self) -> (r: FrontFace)
        ensures
            r == self.spec_settings().front_face,
    {
        self.front_face
    }

    pub fn set_face_cull(&mut self, cull: FaceCull)
        ensures
            final(self).spec_settings() == (Settings { cull, ..old(self).spec_settings() }),
            final(self).spec_frame() == old(self).spec_frame(),
            final(self).wf() == old(self).wf(),
    {
        self.cull = cull;
    }

    pub fn get_face_cull(&self) -> (r: FaceCull)
        ensures
            r == self.spec_settings().cull,
    {
        self.cull
    }

    /// Turns the wireframe mode on: triangles are drawn as their three edges.
    pub fn enable_framework(&mut self)
        ensures
            final(self).spec_settings() == (Settings {
                wireframe: true,
                ..old(self).spec_settings()
            }),
            final(self).spec_frame() == old(self).spec_frame(),
            final(self).wf() == old(self).wf(),
    {
        self.enable_framework = true;
    }

    /// Turns the wireframe mode off: triangles are filled.
    pub fn disable_framework(&mut self)
        ensures
            final(self).spec_settings() == (Settings {
                wireframe: false,
                ..old(self).spec_settings()
            }),
            final(self).spec_frame() == old(self).spec_frame(),
            final(self).wf() == old(self).wf(),
    {
        self.enable_framework = false;
    }

    /// Turns the wireframe mode on where it is off, and off where it is on.
    pub fn toggle_framework(&mut self)
        ensures
            final(self).spec_settings() == (Settings {
                wireframe: !old(self).spec_settings().wireframe,
                ..old(self).spec_settings()
            }),
            final(self).spec_frame() == old(self).spec_frame(),
            final(self).wf() == old(self).wf(),
    {
        self.enable_framework = !self.enable_framework;
    }

    /// Whether the attachments are of one size; cut triangles may wait.
    closed spec fn targets_ready(&self) -> bool {
        targets_wf(&self.color_attachment, &self.depth_attachment)
    }

    /// Draws a triangle of view space: it is projected, mapped to the
    /// viewport and rasterized.
    fn draw_view(&mut self, vertices: &[Vertex; 3], texture_storage: &TextureStorage)
        requires
            old(self).targets_ready(),
        ensures
            final(self).targets_ready(),
            final(self).cliped_triangles@ == old(self).cliped_triangles@,
            final(self).spec_settings() == old(self).spec_settings(),
            final(self).spec_frame().width == old(self).spec_frame().width,
            final(self).spec_frame().height == old(self).spec_frame().height,
            final(self).spec_frame() == spec_draw_view(
                old(self).spec_frame(),
                old(self).spec_settings(),
                *texture_storage,
                *vertices,
            ),
    {
        let on_screen = face_to_screen(self.camera.get_frustum(), &self.viewport, vertices);
        rasterize_screen(
            &mut self.color_attachment,
            &mut self.depth_attachment,
            &self.shader,
            &self.uniforms,
            texture_storage,
            self.enable_framework,
            self.camera.get_frustum().backend(),
            &on_screen,
        );
    }

    /// Draws the waiting cut triangle `k`: it goes through the stages once
    /// more, from the model transform on.
    fn draw_cut(&mut self, model: &Mat4, k: usize, texture_storage: &TextureStorage)
        requires
            old(self).targets_ready(),
            3 * k + 3 <= old(self).cliped_triangles@.len(),
        ensures
            final(self).targets_ready(),
            final(self).cliped_triangles@ == old(self).cliped_triangles@,
            final(self).spec_settings() == old(self).spec_settings(),
            final(self).spec_frame().width == old(self).spec_frame().width,
            final(self).spec_frame().height == old(self).spec_frame().height,
            final(self).spec_frame() == spec_draw_cut(
                old(self).spec_frame(),
                old(self).spec_settings(),
                *texture_storage,
                *model,
                triangle_at(old(self).cliped_triangles@, k as int),
            ),
    {
        proof {
            reveal(spec_draw_cut);
            assert(self.cliped_triangles.len() == self.cliped_triangles@.len());
        }
        let cut = [
            self.cliped_triangles[k * 3],
            self.cliped_triangles[1 + k * 3],
            self.cliped_triangles[2 + k * 3],
        ];
        assert(cut =~= triangle_at(self.cliped_triangles@, k as int));
        match reenter(&self.camera, self.front_face, self.cull, model, &cut) {
            ViewSpace::Visible(face) => {
                self.draw_view(&face, texture_storage);
            },
            _ => {},
        }
    }

    /// Puts the three vertices of a cut triangle behind those that wait.
    fn queue_cut(&mut self, cut: &[Vertex; 3])
        ensures
            final(self).cliped_triangles@ == old(self).cliped_triangles@.push(cut[0]).push(
                cut[1],
            ).push(cut[2]),
            final(self).targets_ready() == old(self).targets_ready(),
            final(self).spec_settings() == old(self).spec_settings(),
            final(self).spec_frame() == old(self).spec_frame(),
    {
        self.cliped_triangles.push(cut[0]);
        self.cliped_triangles.push(cut[1]);
        self.cliped_triangles.push(cut[2]);
    }

    /// Draws the cut triangles that wait, in their order, and empties the
    /// queue.
    fn draw_queued(&mut self, model: &Mat4, texture_storage: &TextureStorage)
        requires
            old(self).targets_ready(),
            old(self).cliped_triangles@.len() == 3 || old(self).cliped_triangles@.len() == 6,
        ensures
            final(self).wf(),
            final(self).spec_settings() == old(self).spec_settings(),
            final(self).spec_frame().width == old(self).spec_frame().width,
            final(self).spec_frame().height == old(self).spec_frame().height,
            final(self).spec_frame() == ({
                let first = spec_draw_cut(
                    old(self).spec_frame(),
                    old(self).spec_settings(),
                    *texture_storage,
                    *model,
                    triangle_at(old(self).cliped_triangles@, 0),
                );
                if old(self).cliped_triangles@.len() == 6 {
                    spec_draw_cut(
                        first,
                        old(self).spec_settings(),
                        *texture_storage,
                        *model,
                        triangle_at(old(self).cliped_triangles@, 1),
                    )
                } else {
                    first
                }
            }),
    {
        let count = self.cliped_triangles.len() / 3;
        let mut k: usize = 0;
        while k < count
            invariant
                self.targets_ready(),
                self.cliped_triangles@ == old(self).cliped_triangles@,
                self.spec_settings() == old(self).spec_settings(),
                self.spec_frame().width == old(self).spec_frame().width,
                self.spec_frame().height == old(self).spec_frame().height,
                1 <= count <= 2,
                count * 3 == self.cliped_triangles@.len(),
                k <= count,
                k == 0 ==> self.spec_frame() == old(self).spec_frame(),
                k >= 1 ==> self.spec_frame() == spec_draw_cut(
                    if k == 1 {
                        old(self).spec_frame()
                    } else {
                        spec_draw_cut(
                            old(self).spec_frame(),
                            old(self).spec_settings(),
                            *texture_storage,
                            *model,
                            triangle_at(old(self).cliped_triangles@, 0),
                        )
                    },
                    old(self).spec_settings(),
                    *texture_storage,
                    *model,
                    triangle_at(old(self).cliped_triangles@, k - 1),
                ),
            decreases count - k,
        {
            self.draw_cut(model, k, texture_storage);
            k += 1;
        }
        self.cliped_triangles.clear();
    }

    /// Draws one triangle of the vertex stream.
    fn rasterize_trianlge(
        &mut self,
        model: &Mat4,
        vertices: &[Vertex; 3],
        texture_storage: &TextureStorage,
    )
        requires
            old(self).wf(),
        ensures
            final(self).wf(),
            final(self).spec_settings() == old(self).spec_settings(),
            final(self).spec_frame().width == old(self).spec_frame().width,
            final(self).spec_frame().height == old(self).spec_frame().height,
            final(self).spec_frame() == spec_draw_one(
                old(self).spec_frame(),
                old(self).spec_settings(),
                *texture_storage,
                *model,
                *vertices,
            ),
    {
        proof {
            reveal(spec_draw_one);
        }
        let staged = view_stage(
            &self.shader,
            &self.uniforms,
            texture_storage,
            &self.camera,
            self.front_face,
            self.cull,
            model,
            vertices,
        );
        match staged {
            ViewSpace::Discarded => {},
            ViewSpace::Visible(face) => {
                self.draw_view(&face, texture_storage);
            },
            ViewSpace::NearSplit(first, second) => {
                self.queue_cut(&first);
                assert(triangle_at(self.cliped_triangles@, 0) =~= first);
                match second {
                    Some(face) => {
                        self.queue_cut(&face);
                        assert(triangle_at(self.cliped_triangles@, 0) =~= first);
                        assert(triangle_at(self.cliped_triangles@, 1) =~= face);
                    },
                    None => {},
                }
                self.draw_queued(model, texture_storage);
            },
        }
    }

    /// Whether every triangle of the vertex stream is cut at the near plane
    /// at most once, so that the stream can be drawn.
    pub fn cuts_once(&self, model: &Mat4, vertices: &[Vertex], texture_storage: &TextureStorage) -> (r:
        bool)
        ensures
            r == stream_cut_once(self.spec_settings(), *texture_storage, *model, vertices@),
    {
        let count = vertices.len() / 3;
        let mut i: usize = 0;
        while i < count
            invariant
                count == vertices@.len() / 3,
                vertices@.len() <= usize::MAX,
                i <= count,
                forall|j: int|
                    0 <= j < i ==> cut_once(
                        self.shader,
                        self.uniforms,
                        *texture_storage,
                        self.camera,
                        self.front_face,
                        self.cull,
                        *model,
                        #[trigger] triangle_at(vertices@, j),
                    ),
            decreases count - i,
        {
            let triangle = [vertices[i * 3], vertices[1 + i * 3], vertices[2 + i * 3]];
            assert(triangle =~= triangle_at(vertices@, i as int));
            if !is_cut_once(
                &self.shader,
                &self.uniforms,
                texture_storage,
                &self.camera,
                self.front_face,
                self.cull,
                model,
                &triangle,
            ) {
                return false;
            }
            i += 1;
        }
        true
    }

    /// Draws the triangles of the vertex stream, three vertices each, in
    /// their order.  A stream whose length is no multiple of three is
    /// refused with `OutOfBounds`, and nothing is drawn.  A triangle that
    /// the cut at the near plane makes must not be cut again on its second
    /// way through the stages: a stream with such a triangle is not to be
    /// drawn.
    pub fn draw_triangle(
        &mut self,
        model: &Mat4,
        vertices: &[Vertex],
        texture_storage: &TextureStorage,
    ) -> (r: Result<(), Error>)
        requires
            old(self).wf(),
            stream_cut_once(old(self).spec_settings(), *texture_storage, *model, vertices@),
        ensures
            final(self).wf(),
            final(self).spec_settings() == old(self).spec_settings(),
            final(self).spec_frame().width == old(self).spec_frame().width,
            final(self).spec_frame().height == old(self).spec_frame().height,
            r is Ok <==> vertices@.len() % 3 == 0,
            r is Err ==> r->Err_0 == Error::OutOfBounds && final(self).spec_frame() == old(
                self,
            ).spec_frame(),
            r is Ok ==> final(self).spec_frame() == spec_draw_from(
                old(self).spec_frame(),
                old(self).spec_settings(),
                *texture_storage,
                *model,
                vertices@,
                0,
            ),
    {
        if vertices.len() % 3 != 0 {
            return Err(Error::OutOfBounds);
        }
        let count = vertices.len() / 3;
        let mut i: usize = 0;
        while i < count
            invariant
                self.wf(),
                self.spec_settings() == old(self).spec_settings(),
                self.spec_frame().width == old(self).spec_frame().width,
                self.spec_frame().height == old(self).spec_frame().height,
                count * 3 == vertices@.len() <= usize::MAX,
                i <= count,
                spec_draw_from(
                    self.spec_frame(),
                    old(self).spec_settings(),
                    *texture_storage,
                    *model,
                    vertices@,
                    i as int,
                ) == spec_draw_from(
                    old(self).spec_frame(),
                    old(self).spec_settings(),
                    *texture_storage,
                    *model,
                    vertices@,
                    0,
                ),
            decreases count - i,
        {
            let triangle = [vertices[i * 3], vertices[1 + i * 3], vertices[2 + i * 3]];
            proof {
                assert(triangle =~= triangle_at(vertices@, i as int));
                lemma_draw_from_unfolds(
                    self.spec_frame(),
                    old(self).spec_settings(),
                    *texture_storage,
                    *model,
                    vertices@,
                    i as int,
                );
            }
            self.rasterize_trianlge(model, &triangle, texture_storage);
            i += 1;
        }
        proof {
            lemma_draw_from_unfolds(
                self.spec_frame(),
                old(self).spec_settings(),
                *texture_storage,
                *model,
                vertices@,
                i as int,
            );
        }
        Ok(())
    }
}

impl<S: Shader> RendererInterface for Renderer<S> {
    type Stages = S;

    open spec fn ready(&self) -> bool {
        self.wf()
    }

    open spec fn accepts(&self, model: Mat4, vertices: Seq<Vertex>, textures: TextureStorage) -> bool {
        stream_cut_once(self.spec_settings(), textures, model, vertices)
    }

    open spec fn canva_width(&self) -> u32 {
        self.spec_frame().width as u32
    }

    open spec fn canva_height(&self) -> u32 {
        self.spec_frame().height as u32
    }

    open spec fn rendered_image(&self) -> Seq<u8> {
        self.spec_frame().color
    }

    fn clear(&mut self, color: &Vec4)
        ensures
            final(self).spec_settings() == old(self).spec_settings(),
            final(self).spec_frame().depth == old(self).spec_frame().depth,
            forall|x: int, y: int|
                0 <= x < final(self).spec_frame().width && 0 <= y < final(self).spec_frame().height
                    ==> #[trigger] final(self).spec_frame().pixel(x, y)
                    == ColorAttachment::bytes_of(*color),
    {
        proof {
            self.lemma_frame_size();
        }
        Renderer::clear(self, color)
    }

    fn clear_depth(&mut self)
        ensures
            final(self).spec_settings() == old(self).spec_settings(),
            forall|i: int|
                0 <= i < final(self).spec_frame().depth.len() ==> final(self).spec_frame().depth[i]@
                    == -2147483648,
    {
        proof {
            self.lemma_frame_size();
        }
        Renderer::clear_depth(self)
    }

    fn get_canva_width(&self) -> (r: u32) {
        Renderer::get_canva_width(self)
    }

    fn get_canva_height(&self) -> (r: u32) {
        Renderer::get_canva_height(self)
    }

    fn draw_triangle(
        &mut self,
        model: &Mat4,
        vertices: &[Vertex],
        texture_storage: &TextureStorage,
    ) -> (r: Result<(), Error>)
        ensures
            final(self).spec_settings() == old(self).spec_settings(),
            r is Ok ==> final(self).spec_frame() == spec_draw_from(
                old(self).spec_frame(),
                old(self).spec_settings(),
                *texture_storage,
                *model,
                vertices@,
                0,
            ),
    {
        proof {
            self.lemma_frame_size();
        }
        let r = Renderer::draw_triangle(self, model, vertices, texture_storage);
        proof {
            self.lemma_frame_size();
        }
        r
    }

    fn get_rendered_image(&self) -> (r: &[u8]) {
        Renderer::get_rendered_image(self)
    }

    fn get_shader(&mut self) -> (r: &mut S)
        ensures
            *r == old(self).spec_settings().shader,
            final(self).spec_settings() == (Settings {
                shader: *final(r),
                ..old(self).spec_settings()
            }),
    {
        Renderer::get_shader(self)
    }

    fn get_uniforms(&mut self) -> (r: &mut Uniforms)
        ensures
            *r == old(self).spec_settings().uniforms,
            final(self).spec_settings() == (Settings {
                uniforms: *final(r),
                ..old(self).spec_settings()
            }),
    {
        Renderer::get_uniforms(self)
    }

    fn get_camera(&mut self) -> (r: &mut Camera)
        ensures
            *r == old(self).spec_settings().camera,
            final(self).spec_settings() == (Settings {
                camera: *final(r),
                ..old(self).spec_settings()
            }),
    {
        Renderer::get_camera(self)
    }

    fn set_camera(&mut self, camera: Camera)
        ensures
            final(self).spec_settings() == (Settings { camera, ..old(self).spec_settings() }),
    {
        Renderer::set_camera(self, camera)
    }

    fn set_front_face(&mut self, front_face: FrontFace)
        ensures
            final(self).spec_settings() == (Settings { front_face, ..old(self).spec_settings() }),
    {
        Renderer::set_front_face(self, front_face)
    }

    fn get_front_face(&self) -> (r: FrontFace)
        ensures
            r == self.spec_settings().front_face,
    {
        Renderer::get_front_face(self)
    }

    fn set_face_cull(&mut self, cull: FaceCull)
        ensures
            final(self).spec_settings() == (Settings { cull, ..old(self).spec_settings() }),
    {
        Renderer::set_face_cull(self, cull)
    }

    fn get_face_cull(&self) -> (r: FaceCull)
        ensures
            r == self.spec_settings().cull,
    {
        Renderer::get_face_cull(self)
    }

    fn enable_framework(&mut self)
        ensures
            final(self).spec_settings() == (Settings {
                wireframe: true,
                ..old(self).spec_settings()
            }),
    {
        Renderer::enable_framework(self)
    }

    fn disable_framework(&mut self)
        ensures
            final(self).spec_settings() == (Settings {
                wireframe: false,
                ..old(self).spec_settings()
            }),
    {
        Renderer::disable_framework(self)
    }

    fn toggle_framework(&mut self)
        ensures
            final(self).spec_settings() == (Settings {
                wireframe: !old(self).spec_settings().wireframe,
                ..old(self).spec_settings()
            }),
    {
        Renderer::toggle_framework(self)
    }
}

} // verus!
