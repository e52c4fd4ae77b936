//! Decoded images and the registry that hands them out by identifier or name.
//!
//! A texture holds four bytes for each pixel: red, green, blue and alpha, row
//! by row from the top left.  The registry numbers the textures in the order
//! in which they were loaded, from zero.  Image files are decoded by the
//! `image` crate.
use crate::error::Error;
use crate::fixed::Fixed;
use crate::math::vector::Vec4;
use std::collections::HashMap;
use vstd::prelude::*;

verus! {

broadcast use vstd::std_specs::hash::group_hash_axioms;

/// The number that stands for the byte `d` of a colour channel: `d / 255`,
/// rounded up, so that quantizing it gives `d` back.
pub open spec fn texel_raw(d: int) -> int {
    (d * 65536 + 254) / 255
}

/// Quantizing the number of a byte gives the byte back.
pub proof fn lemma_texel_round_trip(d: int)
    requires
        0 <= d <= 255,
    ensures
        crate::image::quantize_raw(texel_raw(d)) == d,
{
    let t = texel_raw(d);
    assert(d * 65536 <= t * 255 <= d * 65536 + 254) by (nonlinear_arith)
        requires
            t == (d * 65536 + 254) / 255,
    ;
    assert((t * 255) / 65536 == d) by (nonlinear_arith)
        requires
            d * 65536 <= t * 255 <= d * 65536 + 254,
    ;
}

fn texel(d: u8) -> (r: Fixed)
    ensures
        r@ == texel_raw(d as int),
{
    Fixed::from_raw(((d as i32) * 65536 + 254) / 255)
}

/// The error of the `image` crate, `image::ImageError`; the library looks
/// at none of its content and hands it on.
#[verifier::external_type_specification]
#[verifier::external_body]
pub struct ExImageError(image::ImageError);

/// Decodes the bytes of an image file as `image::open` does for the file
/// itself: `image::ImageFormat::from_path` takes the format from the
/// extension of `filename`, `image::load_from_memory_with_format` decodes the
/// bytes in that format, and the image is converted to four bytes for each
/// pixel.  Nothing is claimed of what comes back: a decoder may differ from
/// one machine to the next in the last bit of a channel.
#[verifier::external_body]
fn decode(bytes: &[u8], filename: &str) -> (r: Result<(Vec<u8>, u32, u32), image::ImageError>) {
    let format = image::ImageFormat::from_path(filename)?;
    let image = image::load_from_memory_with_format(bytes, format)?.into_rgba8();
    let (width, height) = (image.width(), image.height());
    Ok((image.into_raw(), width, height))
}

/// Why an image file could not be added to the registry.
#[derive(Debug)]
pub enum LoadError {
    /// The `image` crate could not tell the format or decode the bytes; its
    /// error is handed on.
    Decode(image::ImageError),
    /// The identifiers are used up, or the decoded image has not four bytes
    /// for each pixel.
    OutOfBounds,
}

/// A decoded image with its identifier and name.
pub struct Texture {
    pixels: Vec<u8>,
    width: u32,
    height: u32,
    id: u32,
    name: String,
}

impl Texture {
    #[verifier::type_invariant]
    closed spec fn inv(self) -> bool {
        self.pixels@.len() == self.width * self.height * 4
    }

    pub closed spec fn spec_id(&self) -> u32 {
        self.id
    }

    pub closed spec fn spec_width(&self) -> u32 {
        self.width
    }

    pub closed spec fn spec_height(&self) -> u32 {
        self.height
    }

    pub closed spec fn spec_name(&self) -> Seq<char> {
        self.name@
    }

    /// The bytes of the image.
    pub closed spec fn spec_pixels(&self) -> Seq<u8> {
        self.pixels@
    }

    /// The colour of pixel `(x, y)`.
    pub open spec fn spec_get(&self, x: int, y: int) -> Vec4 {
        let i = (x + y * self.spec_width()) * 4;
        Vec4 {
            x: Fixed::of_raw(texel_raw(self.spec_pixels()[i] as int)),
            y: Fixed::of_raw(texel_raw(self.spec_pixels()[i + 1] as int)),
            z: Fixed::of_raw(texel_raw(self.spec_pixels()[i + 2] as int)),
            w: Fixed::of_raw(texel_raw(self.spec_pixels()[i + 3] as int)),
        }
    }

    /// A texture of `width` by `height` pixels over the decoded bytes
    /// `pixels`.  It fails with `OutOfBounds` exactly when `pixels` does not
    /// hold four bytes for each pixel.
    pub fn load(pixels: Vec<u8>, width: u32, height: u32, id: u32, name: &str) -> (r: Result<
        Texture,
        Error,
    >)
        ensures
            r is Ok <==> pixels@.len() == width * height * 4,
            r is Err ==> r->Err_0 == Error::OutOfBounds,
            r is Ok ==> {
                let t = r->Ok_0;
                &&& t.spec_pixels() == pixels@
                &&& t.spec_width() == width
                &&& t.spec_height() == height
                &&& t.spec_id() == id
                &&& t.spec_name() == name@
            },
    {
        assert(0 <= width * height <= 0xffff_ffff * 0xffff_ffff) by (nonlinear_arith)
            requires
                0 <= width <= 0xffff_ffff,
                0 <= height <= 0xffff_ffff,
        ;
        let size: u128 = width as u128 * height as u128 * 4;
        if pixels.len() as u128 != size {
            return Err(Error::OutOfBounds);
        }
        Ok(Texture { pixels, width, height, id, name: name.to_owned() })
    }

    pub fn id(&self) -> (r: u32)
        ensures
            r == self.spec_id(),
    {
        self.id
    }

    pub fn width(&self) -> (r: u32)
        ensures
            r == self.spec_width(),
    {
        self.width
    }

    pub fn height(&self) -> (r: u32)
        ensures
            r == self.spec_height(),
    {
        self.height
    }

    pub fn name(&self) -> (r: &str)
        ensures
            r@ == self.spec_name(),
    {
        self.name.as_str()
    }

    /// The colour of pixel `(x, y)`: each channel is its byte over 255.
    pub fn get(&self, x: u32, y: u32) -> (r: Vec4)
        requires
            x < self.spec_width(),
            y < self.spec_height(),
        ensures
            r == self.spec_get(x as int, y as int),
            0 <= r.x@ <= 65536,
            0 <= r.y@ <= 65536,
            0 <= r.z@ <= 65536,
            0 <= r.w@ <= 65536,
    {
        proof {
            use_type_invariant(self);
            crate::image::lemma_index_in_range(
                self.width as int,
                self.height as int,
                x as int,
                y as int,
            );
            assert(self.pixels.len() == self.pixels@.len());
            assert((x + y * self.width) * 4 + 4 <= self.width * self.height * 4) by (nonlinear_arith)
                requires
                    0 <= x + y * self.width < self.width * self.height,
            ;
        }
        let i: usize = (x as usize + y as usize * self.width as usize) * 4;
        Vec4 {
            x: texel(self.pixels[i]),
            y: texel(self.pixels[i + 1]),
            z: texel(self.pixels[i + 2]),
            w: texel(self.pixels[i + 3]),
        }
    }
}

/// The registry of textures: a map from identifier to texture.  The
/// identifiers in use are those below `cur_id`.  A name is looked up by going
/// through the identifiers from the newest to the oldest.
pub struct TextureStorage {
    cur_id: u32,
    images: HashMap<u32, Texture>,
}

impl TextureStorage {
    #[verifier::type_invariant]
    closed spec fn inv(self) -> bool {
        &&& forall|k: u32| self.images@.contains_key(k) <==> k < self.cur_id
        &&& forall|k: u32| k < self.cur_id ==> (#[trigger] self.images@[k]).id == k
    }

    /// The textures in the order in which they were loaded.
    pub closed spec fn spec_textures(&self) -> Seq<Texture> {
        Seq::new(self.cur_id as nat, |i: int| self.images@[i as u32])
    }

    /// Number of textures loaded so far, which is the next identifier.
    pub open spec fn spec_len(&self) -> nat {
        self.spec_textures().len()
    }

    /// Whether `id` is the newest texture named `name`.
    pub open spec fn is_newest_named(&self, id: int, name: Seq<char>) -> bool {
        &&& 0 <= id < self.spec_len()
        &&& self.spec_textures()[id].spec_name() == name
        &&& forall|j: int|
            id < j < self.spec_len() ==> (#[trigger] self.spec_textures()[j]).spec_name() != name
    }

    /// Whether no texture is named `name`.
    pub open spec fn none_named(&self, name: Seq<char>) -> bool {
        forall|j: int|
            0 <= j < self.spec_len() ==> (#[trigger] self.spec_textures()[j]).spec_name() != name
    }

    /// An empty registry.
    pub fn new() -> (r: TextureStorage)
        ensures
            r.spec_len() == 0,
    {
        TextureStorage { cur_id: 0, images: HashMap::new() }
    }

    /// Whether `after` is `before` with one more texture, which holds the
    /// given image under the name `name` and has the identifier `id`.
    pub open spec fn added(
        before: TextureStorage,
        after: TextureStorage,
        id: u32,
        pixels: Seq<u8>,
        width: u32,
        height: u32,
        name: Seq<char>,
    ) -> bool {
        let t = after.spec_textures().last();
        &&& id == before.spec_len()
        &&& after.spec_len() == before.spec_len() + 1
        &&& after.spec_textures().drop_last() == before.spec_textures()
        &&& t.spec_pixels() == pixels
        &&& t.spec_width() == width
        &&& t.spec_height() == height
        &&& t.spec_id() == id
        &&& t.spec_name() == name
    }

    /// Decodes the bytes `encoded` of the image file `filename`, whose
    /// extension names the format, and adds the image under the next
    /// identifier, which it returns.  Which image the decoder makes of the
    /// bytes is not stated: on success the registry has grown by some image
    /// of four bytes for each pixel, under `name`.  It fails with the
    /// decoder's error where the bytes cannot be decoded, and with
    /// `OutOfBounds` where the identifiers are used up; a failure changes
    /// nothing.
    pub fn load(&mut self, encoded: &[u8], filename: &str, name: &str) -> (r: Result<
        u32,
        LoadError,
    >)
        ensures
            r is Err ==> final(self).spec_textures() == old(self).spec_textures(),
            old(self).spec_len() >= u32::MAX ==> r is Err,
            r is Ok ==> exists|p: Seq<u8>, w: u32, h: u32|
                p.len() == w * h * 4 && #[trigger] Self::added(
                    *old(self),
                    *final(self),
                    r->Ok_0,
                    p,
                    w,
                    h,
                    name@,
                ),
    {
        match decode(encoded, filename) {
            Ok((pixels, width, height)) => {
                let ghost p = pixels@;
                match self.load_pixels(pixels, width, height, name) {
                    Ok(id) => {
                        let r: Result<u32, LoadError> = Ok(id);
                        assert(p.len() == width * height * 4 && Self::added(
                            *old(self),
                            *self,
                            r->Ok_0,
                            p,
                            width,
                            height,
                            name@,
                        ));
                        r
                    },
                    Err(_) => Err(LoadError::OutOfBounds),
                }
            },
            Err(e) => Err(LoadError::Decode(e)),
        }
    }

    /// Adds the decoded image under the next identifier and returns that
    /// identifier.  It fails with `OutOfBounds`, and changes nothing, when
    /// `pixels` does not hold four bytes for each pixel or when the
    /// identifiers are used up.
    pub fn load_pixels(&mut self, pixels: Vec<u8>, width: u32, height: u32, name: &str) -> (r:
        Result<u32, Error>)
        ensures
            r is Ok <==> pixels@.len() == width * height * 4 && old(self).spec_len() < u32::MAX,
            r is Err ==> r->Err_0 == Error::OutOfBounds && final(self).spec_textures() == old(
                self,
            ).spec_textures(),
            r is Ok ==> Self::added(
                *old(self),
                *final(self),
                r->Ok_0,
                pixels@,
                width,
                height,
                name@,
            ),
    {
        proof {
            use_type_invariant(&*self);
        }
        let id = self.cur_id;
        if id == u32::MAX {
            return Err(Error::OutOfBounds);
        }
        match Texture::load(pixels, width, height, id, name) {
            Ok(texture) => {
                let mut taken = TextureStorage::new();
                std::mem::swap(self, &mut taken);
                let TextureStorage { cur_id, mut images } = taken;
                images.insert(id, texture);
                *self = TextureStorage { cur_id: cur_id + 1, images };
                assert(self.spec_textures().drop_last() =~= old(self).spec_textures());
                Ok(id)
            },
            Err(e) => Err(e),
        }
    }

    /// The texture with identifier `id`, if one was loaded.
    pub fn get_by_id(&self, id: u32) -> (r: Option<&Texture>)
        ensures
            r is Some <==> id < self.spec_len(),
            r is Some ==> *r->Some_0 == self.spec_textures()[id as int] && r->Some_0.spec_id() == id,
    {
        proof {
            use_type_invariant(self);
        }
        self.images.get(&id)
    }

    /// The identifier of the newest texture named `name`.
    pub fn get_id(&self, name: &str) -> (r: Option<u32>)
        ensures
            match r {
                Some(id) => self.is_newest_named(id as int, name@),
                None => self.none_named(name@),
            },
    {
        proof {
            use_type_invariant(self);
        }
        let wanted = name.to_owned();
        let mut i: u32 = self.cur_id;
        while i > 0
            invariant
                i <= self.spec_len(),
                self.spec_len() == self.cur_id,
                wanted@ == name@,
                forall|j: int|
                    i <= j < self.spec_len() ==> (#[trigger] self.spec_textures()[j]).spec_name()
                        != name@,
            decreases i,
        {
            i -= 1;
            match self.get_by_id(i) {
                Some(texture) => {
                    if texture.name == wanted {
                        return Some(i);
                    }
                },
                None => {},
            }
        }
        None
    }

    /// The newest texture named `name`.
    pub fn get_by_name(&self, name: &str) -> (r: Option<&Texture>)
        ensures
            match r {
                Some(t) => exists|id: int|
                    self.is_newest_named(id, name@) && *t == #[trigger] self.spec_textures()[id],
                None => self.none_named(name@),
            },
    {
        match self.get_id(name) {
            Some(id) => {
                let r = self.get_by_id(id);
                assert(self.is_newest_named(id as int, name@));
                r
            },
            None => None,
        }
    }
}

impl Default for TextureStorage {
    fn default() -> (r: TextureStorage)
        ensures
            r.spec_len() == 0,
    {
        TextureStorage::new()
    }
}

} // verus!
