//! The last step of either rasterizer: the depth test and the write of one
//! fragment.
//!
//! A depth is the view-space `z` of a fragment, which is nearer the larger
//! it is.  A fragment passes where the stored depth is not above its own; a
//! cleared cell holds the smallest number, below every depth.  Of two
//! fragments with the same depth the later one is kept.
use crate::fixed::Fixed;
use crate::image::{byte_index, cell_index, lemma_index_in_range, ColorAttachment, DepthAttachment};
use crate::math::vector::Vec4;
use crate::shader::{divide_attributes, Attributes, Shader, Uniforms, Vertex};
use crate::texture::TextureStorage;
use vstd::prelude::*;

verus! {

/// What the two attachments hold: the bytes of the colours, the depths, and
/// the size that they share.
pub struct Frame {
    pub color: Seq<u8>,
    pub depth: Seq<Fixed>,
    pub width: int,
    pub height: int,
}

/// Whether the two attachments are of one size and hold what their size asks for.
pub open spec fn targets_wf(color: &ColorAttachment, depth: &DepthAttachment) -> bool {
    &&& color.wf()
    &&& depth.wf()
    &&& color.spec_width() == depth.spec_width()
    &&& color.spec_height() == depth.spec_height()
}

/// The content of the two attachments.
pub open spec fn frame_of(color: &ColorAttachment, depth: &DepthAttachment) -> Frame {
    Frame {
        color: color@,
        depth: depth@,
        width: color.spec_width() as int,
        height: color.spec_height() as int,
    }
}

impl Frame {
    /// The frame with `color` and the depth `z` written to pixel `(x, y)`.
    pub open spec fn put(self, x: int, y: int, z: Fixed, color: Vec4) -> Frame {
        Frame {
            color: ColorAttachment::spec_set(self.color, self.width, x, y, color),
            depth: self.depth.update(cell_index(self.width, x, y), z),
            ..self
        }
    }

    /// The depth stored for pixel `(x, y)`.
    pub open spec fn depth_at(self, x: int, y: int) -> Fixed {
        self.depth[cell_index(self.width, x, y)]
    }

    /// The three bytes stored for pixel `(x, y)`.
    pub open spec fn pixel(self, x: int, y: int) -> (u8, u8, u8) {
        let i = byte_index(self.width, x, y);
        (self.color[i], self.color[i + 1], self.color[i + 2])
    }

    /// Whether the frame holds three bytes and one depth for each of its pixels.
    pub open spec fn wf(self) -> bool {
        &&& 0 <= self.width
        &&& 0 <= self.height
        &&& self.color.len() == self.width * self.height * 3
        &&& self.depth.len() == self.width * self.height
    }

    /// The frame after the depth test of a fragment with the depth `z` at
    /// pixel `(x, y)`: the fragment is written where the stored depth is not
    /// above `z`.
    pub open spec fn put_tested(self, x: int, y: int, z: Fixed, color: Vec4) -> Frame {
        if self.depth_at(x, y)@ <= z@ {
            self.put(x, y, z, color)
        } else {
            self
        }
    }
}

/// The depth of a fragment: the reciprocal of the interpolated reciprocal depth.
pub open spec fn fragment_depth(vertex: Vertex) -> Fixed {
    Fixed { raw: 65536 }.over(vertex.position.z)
}

/// The attributes that the fragment stage sees: the interpolated ones
/// divided by the interpolated reciprocal depth.
pub open spec fn fragment_attributes(vertex: Vertex) -> Attributes {
    vertex.attributes.map(|a: Fixed| a.over(vertex.position.z))
}

/// The frame after the fragment of `vertex` at pixel `(x, y)`: where it
/// passes the depth test, the colour that the fragment stage gives to its
/// attributes is written, and its depth is stored.
pub open spec fn spec_fragment<S: Shader>(
    frame: Frame,
    shader: S,
    uniforms: Uniforms,
    textures: TextureStorage,
    x: int,
    y: int,
    vertex: Vertex,
) -> Frame {
    frame.put_tested(
        x,
        y,
        fragment_depth(vertex),
        shader.pixel_shading(fragment_attributes(vertex), uniforms, textures),
    )
}

/// Tests the fragment of `vertex` at pixel `(x, y)` against the stored depth
/// and, where it passes, shades and writes it.
pub fn shade_fragment<S: Shader>(
    color_attachment: &mut ColorAttachment,
    depth_attachment: &mut DepthAttachment,
    shader: &S,
    uniforms: &Uniforms,
    texture_storage: &TextureStorage,
    x: u32,
    y: u32,
    vertex: &Vertex,
)
    requires
        targets_wf(old(color_attachment), old(depth_attachment)),
        x < old(color_attachment).spec_width(),
        y < old(color_attachment).spec_height(),
    ensures
        targets_wf(final(color_attachment), final(depth_attachment)),
        frame_of(final(color_attachment), final(depth_attachment)) == spec_fragment(
            frame_of(old(color_attachment), old(depth_attachment)),
            *shader,
            *uniforms,
            *texture_storage,
            x as int,
            y as int,
            *vertex,
        ),
        frame_of(final(color_attachment), final(depth_attachment)).width == frame_of(
            old(color_attachment),
            old(depth_attachment),
        ).width,
        frame_of(final(color_attachment), final(depth_attachment)).height == frame_of(
            old(color_attachment),
            old(depth_attachment),
        ).height,
{
    let rhw = vertex.position.z;
    let z = Fixed::one() / rhw;
    if depth_attachment.get(x, y).raw <= z.raw {
        let mut attr = vertex.attributes;
        divide_attributes(&mut attr, rhw);
        let color = shader.call_pixel_shading(&attr, uniforms, texture_storage);
        color_attachment.set(x, y, &color);
        depth_attachment.set(x, y, z);
    }
}

/// Of two fragments at one pixel with different depths, the nearer one is
/// kept whichever is drawn first: the two orders give the same frame, and
/// where the nearer fragment passes the depth test the pixel shows its colour.
pub proof fn lemma_nearer_fragment_wins(
    frame: Frame,
    x: int,
    y: int,
    near_z: Fixed,
    near_color: Vec4,
    far_z: Fixed,
    far_color: Vec4,
)
    requires
        frame.wf(),
        0 <= x < frame.width,
        0 <= y < frame.height,
        near_z@ > far_z@,
    ensures
        frame.put_tested(x, y, near_z, near_color).put_tested(x, y, far_z, far_color)
            == frame.put_tested(x, y, far_z, far_color).put_tested(x, y, near_z, near_color),
        frame.depth_at(x, y)@ <= near_z@ ==> {
            let after = frame.put_tested(x, y, near_z, near_color).put_tested(
                x,
                y,
                far_z,
                far_color,
            );
            &&& after.pixel(x, y) == ColorAttachment::bytes_of(near_color)
            &&& after.depth_at(x, y) == near_z
        },
{
    lemma_index_in_range(frame.width, frame.height, x, y);
    let i = byte_index(frame.width, x, y);
    let near_first = frame.put_tested(x, y, near_z, near_color).put_tested(x, y, far_z, far_color);
    let far_first = frame.put_tested(x, y, far_z, far_color).put_tested(x, y, near_z, near_color);
    assert(near_first.color =~= far_first.color);
    assert(near_first.depth =~= far_first.depth);
}

} // verus!
