use rs_cpurenderer::fixed::Fixed;
use rs_cpurenderer::image::{quantize, ColorAttachment, DepthAttachment};
use rs_cpurenderer::math::Vec4;

fn fx(v: f64) -> Fixed {
    Fixed::from_raw((v * 65536.0) as i32)
}

fn rgba(r: f64, g: f64, b: f64, a: f64) -> Vec4 {
    Vec4::new(fx(r), fx(g), fx(b), fx(a))
}

#[test]
fn clear_and_read() {
    let mut image = ColorAttachment::new(4, 4);
    image.clear(&rgba(1.0, 0.0, 0.0, 1.0));
    assert_eq!(image.data().len(), 3 * 4 * 4);
    assert_eq!(&image.data()[0..12], &[255, 0, 0, 255, 0, 0, 255, 0, 0, 255, 0, 0]);
    for pixel in image.data().chunks(3) {
        assert_eq!(pixel, &[255, 0, 0]);
    }
}

#[test]
fn clear_writes_the_quantized_colour_everywhere() {
    let mut image = ColorAttachment::new(5, 3);
    let color = rgba(0.5, 0.25, 0.999, 0.0);
    image.clear(&color);
    for pixel in image.data().chunks(3) {
        assert_eq!(pixel, &[127, 63, 254]);
    }
}

#[test]
fn quantization() {
    assert_eq!(quantize(fx(0.0)), 0);
    assert_eq!(quantize(fx(1.0)), 255);
    assert_eq!(quantize(fx(0.5)), 127);
    assert_eq!(quantize(fx(0.2)), 50);
    // out of range: clamped to a byte
    assert_eq!(quantize(fx(1.5)), 255);
    assert_eq!(quantize(fx(-0.5)), 0);
    assert_eq!(quantize(Fixed::max_value()), 255);
    assert_eq!(quantize(Fixed::min_value()), 0);
}

#[test]
fn a_new_colour_attachment_is_black() {
    let image = ColorAttachment::new(3, 2);
    assert_eq!(image.width(), 3);
    assert_eq!(image.height(), 2);
    assert_eq!(image.data(), &vec![0u8; 18]);
    let empty = ColorAttachment::new(0, 7);
    assert!(empty.data().is_empty());
}

#[test]
fn set_writes_one_pixel() {
    let mut image = ColorAttachment::new(3, 2);
    image.set(2, 1, &rgba(1.0, 0.5, 0.0, 1.0));
    let mut expected = vec![0u8; 18];
    expected[15] = 255;
    expected[16] = 127;
    assert_eq!(image.data(), &expected);
    image.set(0, 0, &rgba(0.0, 0.0, 1.0, 1.0));
    expected[2] = 255;
    assert_eq!(image.data(), &expected);
}

#[test]
fn in_box() {
    let image = ColorAttachment::new(3, 2);
    assert!(image.in_box(0, 0));
    assert!(image.in_box(2, 1));
    assert!(!image.in_box(3, 1));
    assert!(!image.in_box(2, 2));
    assert!(!image.in_box(-1, 0));
    assert!(!image.in_box(0, -1));
}

#[test]
fn depth_attachment() {
    let mut depth = DepthAttachment::new(3, 2);
    assert_eq!(depth.data(), &vec![Fixed::max_value(); 6]);
    depth.clear(Fixed::min_value());
    assert_eq!(depth.data(), &vec![Fixed::min_value(); 6]);
    depth.set(1, 1, fx(-3.0));
    assert_eq!(depth.get(1, 1), fx(-3.0));
    assert_eq!(depth.get(0, 1), Fixed::min_value());
    assert_eq!(depth.data()[4], fx(-3.0));
    assert!(depth.in_box(2, 1));
}
