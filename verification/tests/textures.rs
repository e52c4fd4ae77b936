use rs_cpurenderer::error::Error;
use rs_cpurenderer::fixed::Fixed;
use rs_cpurenderer::image::quantize;
use rs_cpurenderer::math::{Vec2, Vec4};
use rs_cpurenderer::renderer::texture_sample;
use rs_cpurenderer::texture::{LoadError, Texture, TextureStorage};

fn fx(v: f64) -> Fixed {
    Fixed::from_raw((v * 65536.0) as i32)
}

/// A 2 by 2 image: red, green, blue, white.
fn checker() -> Vec<u8> {
    vec![255, 0, 0, 255, 0, 255, 0, 255, 0, 0, 255, 255, 255, 255, 255, 128]
}

#[test]
fn load_checks_the_size() {
    let t = Texture::load(checker(), 2, 2, 7, "checker").unwrap();
    assert_eq!(t.id(), 7);
    assert_eq!(t.width(), 2);
    assert_eq!(t.height(), 2);
    assert_eq!(t.name(), "checker");
    assert_eq!(Texture::load(checker(), 2, 3, 0, "x").err(), Some(Error::OutOfBounds));
    assert_eq!(Texture::load(vec![], 1, 1, 0, "x").err(), Some(Error::OutOfBounds));
    assert!(Texture::load(vec![], 0, 5, 0, "empty").is_ok());
}

#[test]
fn get_divides_by_255() {
    let t = Texture::load(checker(), 2, 2, 0, "checker").unwrap();
    let one = Fixed::one();
    let zero = Fixed::zero();
    assert_eq!(t.get(0, 0), Vec4::new(one, zero, zero, one));
    assert_eq!(t.get(1, 0), Vec4::new(zero, one, zero, one));
    assert_eq!(t.get(0, 1), Vec4::new(zero, zero, one, one));
    // 128 / 255, rounded up
    assert_eq!(t.get(1, 1), Vec4::new(one, one, one, Fixed::from_raw(32897)));
}

#[test]
fn a_texel_quantizes_to_its_byte() {
    for d in 0..=255u8 {
        let t = Texture::load(vec![d, d, d, d], 1, 1, 0, "one").unwrap();
        let c = t.get(0, 0);
        assert_eq!(quantize(c.x), d);
        assert_eq!(quantize(c.w), d);
    }
}

#[test]
fn storage_numbers_textures_from_zero() {
    let mut storage = TextureStorage::default();
    assert!(storage.get_by_id(0).is_none());
    assert_eq!(storage.load_pixels(checker(), 2, 2, "a"), Ok(0));
    assert_eq!(storage.load_pixels(vec![1, 2, 3, 4], 1, 1, "b"), Ok(1));
    assert_eq!(storage.get_by_id(0).unwrap().name(), "a");
    assert_eq!(storage.get_by_id(1).unwrap().name(), "b");
    assert_eq!(storage.get_by_id(1).unwrap().id(), 1);
    assert!(storage.get_by_id(2).is_none());
}

#[test]
fn a_failed_load_changes_nothing() {
    let mut storage = TextureStorage::new();
    assert_eq!(storage.load_pixels(vec![0; 3], 1, 1, "bad"), Err(Error::OutOfBounds));
    assert!(storage.get_by_name("bad").is_none());
    assert_eq!(storage.load_pixels(vec![0; 4], 1, 1, "good"), Ok(0));
}

#[test]
fn the_newest_texture_of_a_name_is_found() {
    let mut storage = TextureStorage::default();
    storage.load_pixels(vec![10, 0, 0, 0], 1, 1, "wall").unwrap();
    storage.load_pixels(vec![20, 0, 0, 0], 1, 1, "floor").unwrap();
    storage.load_pixels(vec![30, 0, 0, 0], 1, 1, "wall").unwrap();
    assert_eq!(storage.get_id("wall"), Some(2));
    assert_eq!(storage.get_id("floor"), Some(1));
    assert_eq!(storage.get_id("roof"), None);
    assert_eq!(storage.get_by_name("wall").unwrap().id(), 2);
    assert_eq!(quantize(storage.get_by_name("wall").unwrap().get(0, 0).x), 30);
    assert!(storage.get_by_name("roof").is_none());
    // the older one is still there under its identifier
    assert_eq!(quantize(storage.get_by_id(0).unwrap().get(0, 0).x), 10);
}

#[test]
fn sampling_takes_the_nearest_pixel_below() {
    // 4 by 1: the columns hold 0, 1, 2, 3 in their red channel
    let pixels = vec![0, 0, 0, 0, 1, 0, 0, 0, 2, 0, 0, 0, 3, 0, 0, 0];
    let t = Texture::load(pixels, 4, 1, 0, "ramp").unwrap();
    let red = |u: f64| quantize(texture_sample(&t, &Vec2::new(fx(u), fx(0.0))).x);
    assert_eq!(red(0.0), 0);
    assert_eq!(red(0.3), 0);
    assert_eq!(red(0.34), 1);
    assert_eq!(red(0.67), 2);
    assert_eq!(red(0.99), 2);
    assert_eq!(red(1.0), 3);
    // below zero counts as zero
    assert_eq!(red(-0.5), 0);
}

#[test]
fn sampling_the_corners() {
    let t = Texture::load(checker(), 2, 2, 0, "checker").unwrap();
    let at = |u: f64, v: f64| texture_sample(&t, &Vec2::new(fx(u), fx(v)));
    assert_eq!(at(0.0, 0.0), t.get(0, 0));
    assert_eq!(at(1.0, 0.0), t.get(1, 0));
    assert_eq!(at(0.0, 1.0), t.get(0, 1));
    assert_eq!(at(1.0, 1.0), t.get(1, 1));
    assert_eq!(at(0.9, 0.9), t.get(0, 0));
}

/// A PNG file of 2 by 2 pixels: red, green, blue, and white that is half
/// transparent.
const SMALL_PNG: [u8; 76] = [
    137, 80, 78, 71, 13, 10, 26, 10, 0, 0, 0, 13, 73, 72, 68, 82, 0, 0, 0, 2, 0, 0, 0, 2, 8, 6, 0,
    0, 0, 114, 182, 13, 36, 0, 0, 0, 19, 73, 68, 65, 84, 120, 156, 99, 248, 207, 192, 240, 31, 12,
    129, 52, 8, 52, 0, 0, 73, 73, 9, 120, 40, 160, 219, 119, 0, 0, 0, 0, 73, 69, 78, 68, 174, 66,
    96, 130,
];

/// A PNG file of 3 by 1 pixels in shades of grey: 0, 128, 255.
const GREY_PNG: [u8; 69] = [
    137, 80, 78, 71, 13, 10, 26, 10, 0, 0, 0, 13, 73, 72, 68, 82, 0, 0, 0, 3, 0, 0, 0, 1, 8, 0, 0,
    0, 0, 62, 139, 75, 104, 0, 0, 0, 12, 73, 68, 65, 84, 120, 156, 99, 96, 104, 248, 15, 0, 2, 3,
    1, 128, 36, 97, 245, 151, 0, 0, 0, 0, 73, 69, 78, 68, 174, 66, 96, 130,
];

#[test]
fn an_image_file_is_decoded() {
    let mut storage = TextureStorage::default();
    assert_eq!(storage.load(&SMALL_PNG, "small.png", "small").ok(), Some(0));
    let t = storage.get_by_name("small").unwrap();
    assert_eq!((t.width(), t.height(), t.id()), (2, 2, 0));
    let bytes = |x: u32, y: u32| {
        let c = t.get(x, y);
        [quantize(c.x), quantize(c.y), quantize(c.z), quantize(c.w)]
    };
    assert_eq!(bytes(0, 0), [255, 0, 0, 255]);
    assert_eq!(bytes(1, 0), [0, 255, 0, 255]);
    assert_eq!(bytes(0, 1), [0, 0, 255, 255]);
    assert_eq!(bytes(1, 1), [255, 255, 255, 128]);
}

#[test]
fn a_grey_image_gets_four_bytes_for_each_pixel() {
    let mut storage = TextureStorage::default();
    storage.load_pixels(vec![0; 4], 1, 1, "first").unwrap();
    assert_eq!(storage.load(&GREY_PNG, "dir/grey.PNG", "grey").ok(), Some(1));
    let t = storage.get_by_id(1).unwrap();
    assert_eq!((t.width(), t.height()), (3, 1));
    for (x, shade) in [(0, 0), (1, 128), (2, 255)] {
        let c = t.get(x, 0);
        assert_eq!([quantize(c.x), quantize(c.y), quantize(c.z), quantize(c.w)], [shade, shade, shade, 255]);
    }
}

#[test]
fn bytes_that_are_no_image_are_refused() {
    let mut storage = TextureStorage::default();
    assert!(matches!(storage.load(&[], "empty.png", "empty"), Err(LoadError::Decode(_))));
    assert!(matches!(storage.load(b"not an image", "text.png", "text"), Err(LoadError::Decode(_))));
    // a file that is cut short
    assert!(matches!(storage.load(&SMALL_PNG[..40], "cut.png", "cut"), Err(LoadError::Decode(_))));
    assert!(storage.get_by_id(0).is_none());
    assert!(storage.get_id("cut").is_none());
    assert_eq!(storage.load(&SMALL_PNG, "small.png", "small").ok(), Some(0));
}

#[test]
fn the_file_name_gives_the_format() {
    let mut storage = TextureStorage::default();
    // no extension, an unknown one, and one of another format
    assert!(matches!(storage.load(&SMALL_PNG, "small", "a"), Err(LoadError::Decode(_))));
    assert!(matches!(storage.load(&SMALL_PNG, "small.text", "a"), Err(LoadError::Decode(_))));
    assert!(matches!(storage.load(&SMALL_PNG, "small.jpg", "a"), Err(LoadError::Decode(_))));
    assert!(storage.get_by_id(0).is_none());
    assert_eq!(storage.load(&SMALL_PNG, "small.png", "a").ok(), Some(0));
    assert_eq!(storage.get_by_name("a").unwrap().width(), 2);
}

#[test]
fn identifiers_count_the_images_that_were_added() {
    let mut storage = TextureStorage::new();
    for i in 0..20u32 {
        assert!(storage.get_by_id(i).is_none());
        assert_eq!(storage.load_pixels(vec![i as u8; 4], 1, 1, "same"), Ok(i));
        assert_eq!(storage.load_pixels(vec![0; 3], 1, 1, "bad"), Err(Error::OutOfBounds));
        assert_eq!(storage.get_id("same"), Some(i));
        assert_eq!(storage.get_by_id(i).unwrap().id(), i);
    }
    for i in 0..20u32 {
        assert_eq!(quantize(storage.get_by_id(i).unwrap().get(0, 0).x), i as u8);
    }
    assert_eq!(storage.get_id("bad"), None);
}
