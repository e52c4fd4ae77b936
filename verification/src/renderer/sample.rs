//! Nearest-neighbour sampling of a texture.
use crate::fixed::Fixed;
use crate::math::vector::{Vec2, Vec4};
use crate::texture::Texture;
use vstd::prelude::*;

verus! {

/// The column, or row, that the coordinate `u` names in a texture with
/// `size` of them: `u * (size - 1)` rounded down, and zero for a negative `u`.
pub open spec fn sample_index(u: Fixed, size: int) -> int {
    if u@ <= 0 {
        0
    } else {
        (u@ * (size - 1)) / 65536
    }
}

fn index_of(u: Fixed, size: u32) -> (r: u32)
    requires
        u@ <= 65536,
        size > 0,
    ensures
        r == sample_index(u, size as int),
        r < size,
{
    if u.raw <= 0 {
        0
    } else {
        let last: i64 = size as i64 - 1;
        assert(0 <= u.raw as int * last <= 65536 * last) by (nonlinear_arith)
            requires
                0 < u.raw <= 65536,
                0 <= last,
        ;
        let scaled: i64 = u.raw as i64 * last;
        (scaled / 65536) as u32
    }
}

/// The colour of the texture at the coordinates `texcoord`, which run from
/// zero to one over the image: the pixel in column `u * (width - 1)` and row
/// `v * (height - 1)`, both rounded down.  Coordinates are neither wrapped
/// nor clamped at one; a negative coordinate counts as zero.
pub fn texture_sample(texture: &Texture, texcoord: &Vec2) -> (r: Vec4)
    requires
        texture.spec_width() > 0,
        texture.spec_height() > 0,
        texcoord.x@ <= 65536,
        texcoord.y@ <= 65536,
    ensures
        r == texture.spec_get(
            sample_index(texcoord.x, texture.spec_width() as int),
            sample_index(texcoord.y, texture.spec_height() as int),
        ),
{
    let x = index_of(texcoord.x, texture.width());
    let y = index_of(texcoord.y, texture.height());
    texture.get(x, y)
}

} // verus!
