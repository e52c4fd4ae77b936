//! Filling a screen-space triangle over its bounding box.
//!
//! Every pixel of the bounding box of the triangle, clipped to the screen,
//! is tested: where it lies in the triangle, its depth and attributes are
//! blended from the three vertices with perspective-correct weights, and the
//! fragment goes through the same depth test as with the scanline
//! rasterizer.
use crate::cpu_renderer::fragment::{frame_of, targets_wf, Frame};
use crate::cpu_renderer::offscreen::beside_screen;
use crate::cpu_renderer::pipeline::number_of;
use crate::fixed::{ceil_raw, floor_raw, Fixed};
use crate::cpu_renderer::order::{lemma_pixels_apart, Fragment};
use crate::image::{lemma_index_in_range, ColorAttachment, DepthAttachment};
use crate::math::barycentric::{area_raw, edge_raw, in_triangle, weight_raw, Barycentric};
use crate::math::vector::Vec2;
use crate::shader::{
    attributes_foreach, interp_attributes, Attributes, Shader, Uniforms, Vertex,
};
use crate::texture::TextureStorage;
use vstd::prelude::*;

verus! {

/// The places of the three vertices on the screen.
pub open spec fn corners(v: [Vertex; 3]) -> [Vec2; 3] {
    [v[0].position.xy(), v[1].position.xy(), v[2].position.xy()]
}

/// The point that stands for the pixel `(x, y)`.
pub open spec fn pixel_point(x: int, y: int) -> Vec2 {
    Vec2 { x: number_of(x), y: number_of(y) }
}

/// The three weights of the point `p` in the triangle.
pub open spec fn weights(v: [Vertex; 3], p: Vec2) -> (Fixed, Fixed, Fixed) {
    let c = corners(v);
    let area = area_raw(c, p);
    (
        Fixed::of_raw(weight_raw(edge_raw(c[1], c[2], p), area)),
        Fixed::of_raw(weight_raw(edge_raw(c[2], c[0], p), area)),
        Fixed::of_raw(weight_raw(edge_raw(c[0], c[1], p), area)),
    )
}

/// The reciprocal of the depth at the point with the weights `w`:
/// `alpha / z0 + beta / z1 + gamma / z2`.
pub open spec fn inverse_depth(v: [Vertex; 3], w: (Fixed, Fixed, Fixed)) -> Fixed {
    w.0.over(v[0].position.z).plus(w.1.over(v[1].position.z)).plus(w.2.over(v[2].position.z))
}

/// The attributes of one vertex times its weight over its depth.
pub open spec fn weighted(a: Attributes, w: Fixed, z: Fixed) -> Attributes {
    a.map(|x: Fixed| x.times(w).over(z))
}

/// The attributes at a point with the weights `w` and the depth `z`:
/// `(alpha * a0 / z0 + beta * a1 / z1 + gamma * a2 / z2) * z`.
#[verifier::opaque]
pub open spec fn corrected_attributes(v: [Vertex; 3], w: (Fixed, Fixed, Fixed), z: Fixed) -> Attributes {
    weighted(v[0].attributes, w.0, v[0].position.z).zip(
        weighted(v[1].attributes, w.1, v[1].position.z),
        |a: Fixed, b: Fixed| a.plus(b),
    ).zip(weighted(v[2].attributes, w.2, v[2].position.z), |a: Fixed, b: Fixed| a.plus(b)).map(
        |s: Fixed| s.times(z),
    )
}

/// The frame after the pixel `(x, y)` is tested against the triangle.
pub open spec fn spec_aabb_pixel<S: Shader>(
    frame: Frame,
    shader: S,
    uniforms: Uniforms,
    textures: TextureStorage,
    v: [Vertex; 3],
    x: int,
    y: int,
) -> Frame {
    let p = pixel_point(x, y);
    if in_triangle(corners(v), p) {
        let w = weights(v, p);
        let z = Fixed { raw: 65536 }.over(inverse_depth(v, w));
        frame.put_tested(
            x,
            y,
            z,
            shader.pixel_shading(corrected_attributes(v, w, z), uniforms, textures),
        )
    } else {
        frame
    }
}

/// The frame after the pixels from `(x, y)` down to `(x, last)` are tested.
pub open spec fn spec_aabb_column<S: Shader>(
    frame: Frame,
    shader: S,
    uniforms: Uniforms,
    textures: TextureStorage,
    v: [Vertex; 3],
    x: int,
    y: int,
    last: int,
) -> Frame
    decreases last - y + 1,
{
    if y > last {
        frame
    } else {
        spec_aabb_column(
            spec_aabb_pixel(frame, shader, uniforms, textures, v, x, y),
            shader,
            uniforms,
            textures,
            v,
            x,
            y + 1,
            last,
        )
    }
}

/// The frame after the columns from `x` to `last` are tested, each from the
/// row `top` to the row `bottom`.
pub open spec fn spec_aabb_columns<S: Shader>(
    frame: Frame,
    shader: S,
    uniforms: Uniforms,
    textures: TextureStorage,
    v: [Vertex; 3],
    x: int,
    last: int,
    top: int,
    bottom: int,
) -> Frame
    decreases last - x + 1,
{
    if x > last {
        frame
    } else {
        spec_aabb_columns(
            spec_aabb_column(frame, shader, uniforms, textures, v, x, top, bottom),
            shader,
            uniforms,
            textures,
            v,
            x + 1,
            last,
            top,
            bottom,
        )
    }
}

/// The smallest of three raw values.
pub open spec fn min3(a: int, b: int, c: int) -> int {
    if a <= b && a <= c {
        a
    } else if b <= c {
        b
    } else {
        c
    }
}

/// The largest of three raw values.
pub open spec fn max3(a: int, b: int, c: int) -> int {
    if a >= b && a >= c {
        a
    } else if b >= c {
        b
    } else {
        c
    }
}

/// The first column, or row, of the bounding box on the screen.
pub open spec fn box_first(a: Fixed, b: Fixed, c: Fixed) -> int {
    let first = ceil_raw(min3(a@, b@, c@));
    if first < 0 {
        0
    } else {
        first
    }
}

/// The last column, or row, of the bounding box on a screen with `size` of them.
pub open spec fn box_last(a: Fixed, b: Fixed, c: Fixed, size: int) -> int {
    let last = floor_raw(max3(a@, b@, c@));
    if last > size - 1 {
        size - 1
    } else {
        last
    }
}

/// The frame after the triangle is filled over its bounding box.
pub open spec fn spec_fill_aabb<S: Shader>(
    frame: Frame,
    shader: S,
    uniforms: Uniforms,
    textures: TextureStorage,
    v: [Vertex; 3],
) -> Frame {
    spec_aabb_columns(
        frame,
        shader,
        uniforms,
        textures,
        v,
        box_first(v[0].position.x, v[1].position.x, v[2].position.x),
        box_last(v[0].position.x, v[1].position.x, v[2].position.x, frame.width),
        box_first(v[0].position.y, v[1].position.y, v[2].position.y),
        box_last(v[0].position.y, v[1].position.y, v[2].position.y, frame.height),
    )
}

fn weigh(x: Fixed, w: Fixed, z: Fixed) -> (r: Fixed)
    ensures
        r == x.times(w).over(z),
{
    x * w / z
}

fn total(a: Fixed, b: Fixed, t: Fixed) -> (r: Fixed)
    ensures
        r == a.plus(b),
{
    a + b
}

fn scale(x: Fixed, k: Fixed) -> (r: Fixed)
    ensures
        r == x.times(k),
{
    x * k
}

fn weigh_attributes(a: &Attributes, w: Fixed, z: Fixed) -> (r: Attributes)
    ensures
        r == weighted(*a, w, z),
{
    let mut r = *a;
    let f = |x: Fixed| -> (o: Fixed)
        ensures
            o == x.times(w).over(z),
        { weigh(x, w, z) };
    attributes_foreach(&mut r, f);
    proof {
        let g = |x: Fixed| x.times(w).over(z);
        assert(r == a.map(g));
    }
    r
}

fn add_attributes(a: &Attributes, b: &Attributes) -> (r: Attributes)
    ensures
        r == a.zip(*b, |a: Fixed, b: Fixed| a.plus(b)),
{
    let r = interp_attributes(a, b, total, Fixed::zero());
    proof {
        let g = |a: Fixed, b: Fixed| a.plus(b);
        assert(r == a.zip(*b, g));
    }
    r
}

/// The attributes at a point of the triangle with the given weights and depth.
pub fn get_corrected_attribute(
    z: Fixed,
    vertices: &[Vertex; 3],
    alpha: Fixed,
    beta: Fixed,
    gamma: Fixed,
) -> (r: Attributes)
    ensures
        r == corrected_attributes(*vertices, (alpha, beta, gamma), z),
{
    proof {
        reveal(corrected_attributes);
    }
    let first = weigh_attributes(&vertices[0].attributes, alpha, vertices[0].position.z);
    let second = weigh_attributes(&vertices[1].attributes, beta, vertices[1].position.z);
    let third = weigh_attributes(&vertices[2].attributes, gamma, vertices[2].position.z);
    let mut r = add_attributes(&add_attributes(&first, &second), &third);
    let f = |x: Fixed| -> (o: Fixed)
        ensures
            o == x.times(z),
        { scale(x, z) };
    let ghost before = r;
    attributes_foreach(&mut r, f);
    proof {
        let g = |s: Fixed| s.times(z);
        assert(r == before.map(g));
    }
    r
}

fn number(v: u32) -> (r: Fixed)
    ensures
        r == number_of(v as int),
{
    Fixed::from_u32(v)
}

fn aabb_pixel<S: Shader>(
    color_attachment: &mut ColorAttachment,
    depth_attachment: &mut DepthAttachment,
    shader: &S,
    uniforms: &Uniforms,
    texture_storage: &TextureStorage,
    vertices: &[Vertex; 3],
    x: u32,
    y: u32,
)
    requires
        targets_wf(old(color_attachment), old(depth_attachment)),
        x < old(color_attachment).spec_width(),
        y < old(color_attachment).spec_height(),
    ensures
        targets_wf(final(color_attachment), final(depth_attachment)),
        frame_of(final(color_attachment), final(depth_attachment)) == spec_aabb_pixel(
            frame_of(old(color_attachment), old(depth_attachment)),
            *shader,
            *uniforms,
            *texture_storage,
            *vertices,
            x as int,
            y as int,
        ),
        final(color_attachment).spec_width() == old(color_attachment).spec_width(),
        final(color_attachment).spec_height() == old(color_attachment).spec_height(),
{
    let p = Vec2 { x: number(x), y: number(y) };
    let places = [
        vertices[0].position.truncated_to_vec2(),
        vertices[1].position.truncated_to_vec2(),
        vertices[2].position.truncated_to_vec2(),
    ];
    assert(places =~= corners(*vertices));
    let barycentric = Barycentric::new(&p, &places);
    if barycentric.is_valid() {
        let alpha = barycentric.alpha();
        let beta = barycentric.beta();
        let gamma = barycentric.gamma();
        let inv_z = alpha / vertices[0].position.z + beta / vertices[1].position.z + gamma
            / vertices[2].position.z;
        let z = Fixed::one() / inv_z;
        if depth_attachment.get(x, y).raw <= z.raw {
            let attr = get_corrected_attribute(z, vertices, alpha, beta, gamma);
            let color = shader.call_pixel_shading(&attr, uniforms, texture_storage);
            color_attachment.set(x, y, &color);
            depth_attachment.set(x, y, z);
        }
    }
}

fn smallest(a: Fixed, b: Fixed, c: Fixed) -> (r: Fixed)
    ensures
        r@ == min3(a@, b@, c@),
{
    if a.raw <= b.raw && a.raw <= c.raw {
        a
    } else if b.raw <= c.raw {
        b
    } else {
        c
    }
}

fn largest(a: Fixed, b: Fixed, c: Fixed) -> (r: Fixed)
    ensures
        r@ == max3(a@, b@, c@),
{
    if a.raw >= b.raw && a.raw >= c.raw {
        a
    } else if b.raw >= c.raw {
        b
    } else {
        c
    }
}

fn first_of_box(a: Fixed, b: Fixed, c: Fixed) -> (r: i64)
    ensures
        r == box_first(a, b, c),
        0 <= r <= 32768,
{
    let first = smallest(a, b, c).ceil();
    if first < 0 {
        0
    } else {
        first as i64
    }
}

fn last_of_box(a: Fixed, b: Fixed, c: Fixed, size: u32) -> (r: i64)
    ensures
        r == box_last(a, b, c, size as int),
        -32768 <= r < size,
{
    let last = largest(a, b, c).floor() as i64;
    if last > size as i64 - 1 {
        size as i64 - 1
    } else {
        last
    }
}

/// Fills the screen-space triangle over its bounding box.  A triangle
/// without area leaves the attachments as they are.
pub fn fill_aabb<S: Shader>(
    color_attachment: &mut ColorAttachment,
    depth_attachment: &mut DepthAttachment,
    shader: &S,
    uniforms: &Uniforms,
    texture_storage: &TextureStorage,
    vertices: &[Vertex; 3],
)
    requires
        targets_wf(old(color_attachment), old(depth_attachment)),
    ensures
        targets_wf(final(color_attachment), final(depth_attachment)),
        frame_of(final(color_attachment), final(depth_attachment)) == spec_fill_aabb(
            frame_of(old(color_attachment), old(depth_attachment)),
            *shader,
            *uniforms,
            *texture_storage,
            *vertices,
        ),
        final(color_attachment).spec_width() == old(color_attachment).spec_width(),
        final(color_attachment).spec_height() == old(color_attachment).spec_height(),
{
    let width = color_attachment.width();
    let height = color_attachment.height();
    let left = first_of_box(vertices[0].position.x, vertices[1].position.x, vertices[2].position.x);
    let right = last_of_box(
        vertices[0].position.x,
        vertices[1].position.x,
        vertices[2].position.x,
        width,
    );
    let top = first_of_box(vertices[0].position.y, vertices[1].position.y, vertices[2].position.y);
    let bottom = last_of_box(
        vertices[0].position.y,
        vertices[1].position.y,
        vertices[2].position.y,
        height,
    );
    let mut x: i64 = left;
    while x <= right
        invariant
            targets_wf(color_attachment, depth_attachment),
            color_attachment.spec_width() == old(color_attachment).spec_width() == width,
            color_attachment.spec_height() == old(color_attachment).spec_height() == height,
            0 <= x,
            right < width,
            0 <= top,
            bottom < height,
            spec_aabb_columns(
                frame_of(color_attachment, depth_attachment),
                *shader,
                *uniforms,
                *texture_storage,
                *vertices,
                x as int,
                right as int,
                top as int,
                bottom as int,
            ) == spec_aabb_columns(
                frame_of(old(color_attachment), old(depth_attachment)),
                *shader,
                *uniforms,
                *texture_storage,
                *vertices,
                left as int,
                right as int,
                top as int,
                bottom as int,
            ),
        decreases right - x + 1,
    {
        let ghost column_start = frame_of(color_attachment, depth_attachment);
        let mut y: i64 = top;
        while y <= bottom
            invariant
                targets_wf(color_attachment, depth_attachment),
                color_attachment.spec_width() == old(color_attachment).spec_width() == width,
                color_attachment.spec_height() == old(color_attachment).spec_height() == height,
                0 <= x <= right < width,
                0 <= y,
                0 <= top,
                bottom < height,
                spec_aabb_column(
                    frame_of(color_attachment, depth_attachment),
                    *shader,
                    *uniforms,
                    *texture_storage,
                    *vertices,
                    x as int,
                    y as int,
                    bottom as int,
                ) == spec_aabb_column(
                    column_start,
                    *shader,
                    *uniforms,
                    *texture_storage,
                    *vertices,
                    x as int,
                    top as int,
                    bottom as int,
                ),
            decreases bottom - y + 1,
        {
            aabb_pixel(
                color_attachment,
                depth_attachment,
                shader,
                uniforms,
                texture_storage,
                vertices,
                x as u32,
                y as u32,
            );
            y += 1;
        }
        x += 1;
    }
}

/// Columns without a row, or no column at all, leave the frame as it is.
pub proof fn lemma_empty_box<S: Shader>(
    frame: Frame,
    shader: S,
    uniforms: Uniforms,
    textures: TextureStorage,
    v: [Vertex; 3],
    x: int,
    last: int,
    top: int,
    bottom: int,
)
    requires
        x > last || top > bottom,
    ensures
        spec_aabb_columns(frame, shader, uniforms, textures, v, x, last, top, bottom) == frame,
    decreases last - x + 1,
{
    if x <= last {
        assert(spec_aabb_column(frame, shader, uniforms, textures, v, x, top, bottom) == frame);
        lemma_empty_box(frame, shader, uniforms, textures, v, x + 1, last, top, bottom);
    }
}

/// Filling a triangle beside the screen over its bounding box leaves the
/// frame as it is.
pub proof fn lemma_aabb_beside_screen<S: Shader>(
    frame: Frame,
    shader: S,
    uniforms: Uniforms,
    textures: TextureStorage,
    v: [Vertex; 3],
)
    requires
        0 <= frame.width,
        0 <= frame.height,
        beside_screen(v, frame.width, frame.height),
    ensures
        spec_fill_aabb(frame, shader, uniforms, textures, v) == frame,
{
    let left = box_first(v[0].position.x, v[1].position.x, v[2].position.x);
    let right = box_last(v[0].position.x, v[1].position.x, v[2].position.x, frame.width);
    let top = box_first(v[0].position.y, v[1].position.y, v[2].position.y);
    let bottom = box_last(v[0].position.y, v[1].position.y, v[2].position.y, frame.height);
    let width = frame.width;
    let height = frame.height;
    let low_x = min3(v[0].position.x@, v[1].position.x@, v[2].position.x@);
    let low_y = min3(v[0].position.y@, v[1].position.y@, v[2].position.y@);
    if low_x >= width * 65536 {
        assert((low_x + 65535) / 65536 >= width) by (nonlinear_arith)
            requires
                low_x >= width * 65536,
        ;
    }
    if low_y > (height - 1) * 65536 {
        assert((low_y + 65535) / 65536 >= height) by (nonlinear_arith)
            requires
                low_y > (height - 1) * 65536,
        ;
    }
    assert(left > right || top > bottom);
    lemma_empty_box(frame, shader, uniforms, textures, v, left, right, top, bottom);
}

/// Whether the two frames hold the same at the pixel `(x, y)`.
pub open spec fn same_at(a: Frame, b: Frame, x: int, y: int) -> bool {
    a.pixel(x, y) == b.pixel(x, y) && a.depth_at(x, y) == b.depth_at(x, y)
}

/// Testing a pixel against the triangle keeps the frame well-formed and
/// changes nothing at any other pixel, and nothing at all where the pixel
/// does not lie in the triangle.
pub proof fn lemma_aabb_pixel_changes<S: Shader>(
    frame: Frame,
    shader: S,
    uniforms: Uniforms,
    textures: TextureStorage,
    v: [Vertex; 3],
    px: int,
    py: int,
    x: int,
    y: int,
)
    requires
        frame.wf(),
        0 <= px < frame.width,
        0 <= py < frame.height,
        0 <= x < frame.width,
        0 <= y < frame.height,
    ensures
        spec_aabb_pixel(frame, shader, uniforms, textures, v, px, py).wf(),
        spec_aabb_pixel(frame, shader, uniforms, textures, v, px, py).width == frame.width,
        spec_aabb_pixel(frame, shader, uniforms, textures, v, px, py).height == frame.height,
        (px != x || py != y || !in_triangle(corners(v), pixel_point(x, y))) ==> same_at(
            spec_aabb_pixel(frame, shader, uniforms, textures, v, px, py),
            frame,
            x,
            y,
        ),
{
    let p = pixel_point(px, py);
    if in_triangle(corners(v), p) {
        let w = weights(v, p);
        let z = Fixed { raw: 65536 }.over(inverse_depth(v, w));
        let color = shader.pixel_shading(corrected_attributes(v, w, z), uniforms, textures);
        let fragment = Fragment { x: px, y: py, z, color };
        assert(spec_aabb_pixel(frame, shader, uniforms, textures, v, px, py) == frame.apply(
            fragment,
        ));
        lemma_apply_elsewhere(frame, fragment, x, y);
    }
}

/// A fragment on a well-formed frame leaves it well-formed and of its size,
/// and changes nothing at any other pixel.
pub proof fn lemma_apply_elsewhere(frame: Frame, p: Fragment, x: int, y: int)
    requires
        frame.wf(),
        frame.holds(p),
        0 <= x < frame.width,
        0 <= y < frame.height,
    ensures
        frame.apply(p).wf(),
        frame.apply(p).width == frame.width,
        frame.apply(p).height == frame.height,
        (p.x != x || p.y != y) ==> same_at(frame.apply(p), frame, x, y),
{
    lemma_index_in_range(frame.width, frame.height, p.x, p.y);
    lemma_index_in_range(frame.width, frame.height, x, y);
    if p.x != x || p.y != y {
        lemma_pixels_apart(frame.width, frame.height, p.x, p.y, x, y);
    }
}

/// Testing a column of pixels changes nothing at a pixel that does not lie
/// in the triangle.
pub proof fn lemma_aabb_column_changes<S: Shader>(
    frame: Frame,
    shader: S,
    uniforms: Uniforms,
    textures: TextureStorage,
    v: [Vertex; 3],
    px: int,
    py: int,
    last: int,
    x: int,
    y: int,
)
    requires
        frame.wf(),
        0 <= px < frame.width,
        0 <= py,
        last < frame.height,
        0 <= x < frame.width,
        0 <= y < frame.height,
        !in_triangle(corners(v), pixel_point(x, y)),
    ensures
        spec_aabb_column(frame, shader, uniforms, textures, v, px, py, last).wf(),
        spec_aabb_column(frame, shader, uniforms, textures, v, px, py, last).width == frame.width,
        spec_aabb_column(frame, shader, uniforms, textures, v, px, py, last).height
            == frame.height,
        same_at(spec_aabb_column(frame, shader, uniforms, textures, v, px, py, last), frame, x, y),
    decreases last - py + 1,
{
    if py <= last {
        lemma_aabb_pixel_changes(frame, shader, uniforms, textures, v, px, py, x, y);
        lemma_aabb_column_changes(
            spec_aabb_pixel(frame, shader, uniforms, textures, v, px, py),
            shader,
            uniforms,
            textures,
            v,
            px,
            py + 1,
            last,
            x,
            y,
        );
    }
}

/// Testing columns of pixels changes nothing at a pixel that does not lie
/// in the triangle.
pub proof fn lemma_aabb_columns_change<S: Shader>(
    frame: Frame,
    shader: S,
    uniforms: Uniforms,
    textures: TextureStorage,
    v: [Vertex; 3],
    px: int,
    last: int,
    top: int,
    bottom: int,
    x: int,
    y: int,
)
    requires
        frame.wf(),
        0 <= px,
        last < frame.width,
        0 <= top,
        bottom < frame.height,
        0 <= x < frame.width,
        0 <= y < frame.height,
        !in_triangle(corners(v), pixel_point(x, y)),
    ensures
        same_at(
            spec_aabb_columns(frame, shader, uniforms, textures, v, px, last, top, bottom),
            frame,
            x,
            y,
        ),
    decreases last - px + 1,
{
    if px <= last {
        lemma_aabb_column_changes(frame, shader, uniforms, textures, v, px, top, bottom, x, y);
        lemma_aabb_columns_change(
            spec_aabb_column(frame, shader, uniforms, textures, v, px, top, bottom),
            shader,
            uniforms,
            textures,
            v,
            px + 1,
            last,
            top,
            bottom,
            x,
            y,
        );
    }
}

/// The bounding-box rasterizer writes inside the triangle only: a pixel
/// whose point does not lie in the triangle keeps its colour and its depth.
/// A triangle in which no pixel of the screen lies writes nothing.
pub proof fn lemma_aabb_writes_inside<S: Shader>(
    frame: Frame,
    shader: S,
    uniforms: Uniforms,
    textures: TextureStorage,
    v: [Vertex; 3],
    x: int,
    y: int,
)
    requires
        frame.wf(),
        0 <= x < frame.width,
        0 <= y < frame.height,
        !in_triangle(corners(v), pixel_point(x, y)),
    ensures
        same_at(spec_fill_aabb(frame, shader, uniforms, textures, v), frame, x, y),
{
    lemma_aabb_columns_change(
        frame,
        shader,
        uniforms,
        textures,
        v,
        box_first(v[0].position.x, v[1].position.x, v[2].position.x),
        box_last(v[0].position.x, v[1].position.x, v[2].position.x, frame.width),
        box_first(v[0].position.y, v[1].position.y, v[2].position.y),
        box_last(v[0].position.y, v[1].position.y, v[2].position.y, frame.height),
        x,
        y,
    );
}

/// Whether no pixel of a screen of `width` by `height` pixels lies in the
/// triangle.
pub open spec fn misses_screen(v: [Vertex; 3], width: int, height: int) -> bool {
    forall|x: int, y: int|
        0 <= x < width && 0 <= y < height ==> !in_triangle(corners(v), #[trigger] pixel_point(x, y))
}

/// A column of the screen none of whose pixels lies in the triangle is left
/// as it is.
pub proof fn lemma_aabb_column_misses<S: Shader>(
    frame: Frame,
    shader: S,
    uniforms: Uniforms,
    textures: TextureStorage,
    v: [Vertex; 3],
    x: int,
    y: int,
    last: int,
)
    requires
        0 <= x < frame.width,
        0 <= y,
        last < frame.height,
        misses_screen(v, frame.width, frame.height),
    ensures
        spec_aabb_column(frame, shader, uniforms, textures, v, x, y, last) == frame,
    decreases last - y + 1,
{
    if y <= last {
        assert(!in_triangle(corners(v), pixel_point(x, y)));
        lemma_aabb_column_misses(frame, shader, uniforms, textures, v, x, y + 1, last);
    }
}

/// Columns of the screen none of whose pixels lies in the triangle are left
/// as they are.
pub proof fn lemma_aabb_columns_miss<S: Shader>(
    frame: Frame,
    shader: S,
    uniforms: Uniforms,
    textures: TextureStorage,
    v: [Vertex; 3],
    x: int,
    last: int,
    top: int,
    bottom: int,
)
    requires
        0 <= x,
        last < frame.width,
        0 <= top,
        bottom < frame.height,
        misses_screen(v, frame.width, frame.height),
    ensures
        spec_aabb_columns(frame, shader, uniforms, textures, v, x, last, top, bottom) == frame,
    decreases last - x + 1,
{
    if x <= last {
        lemma_aabb_column_misses(frame, shader, uniforms, textures, v, x, top, bottom);
        lemma_aabb_columns_miss(frame, shader, uniforms, textures, v, x + 1, last, top, bottom);
    }
}

/// A triangle in which no pixel of the screen lies, wherever its vertices
/// are, is filled over its bounding box without a pixel written: the frame
/// stays as it is.
pub proof fn lemma_aabb_misses_screen<S: Shader>(
    frame: Frame,
    shader: S,
    uniforms: Uniforms,
    textures: TextureStorage,
    v: [Vertex; 3],
)
    requires
        misses_screen(v, frame.width, frame.height),
    ensures
        spec_fill_aabb(frame, shader, uniforms, textures, v) == frame,
{
    lemma_aabb_columns_miss(
        frame,
        shader,
        uniforms,
        textures,
        v,
        box_first(v[0].position.x, v[1].position.x, v[2].position.x),
        box_last(v[0].position.x, v[1].position.x, v[2].position.x, frame.width),
        box_first(v[0].position.y, v[1].position.y, v[2].position.y),
        box_last(v[0].position.y, v[1].position.y, v[2].position.y, frame.height),
    );
}

} // verus!
