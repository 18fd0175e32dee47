use raytrace::framebuf::Framebuf;
use raytrace::rgb::{RGB, RGBu8};

#[test]
fn rgb_new_sets_channels() {
    let c: RGBu8 = RGB::new(1, 2, 3);
    assert_eq!(c.r, 1);
    assert_eq!(c.g, 2);
    assert_eq!(c.b, 3);
}

#[test]
fn rgb_black_is_zero() {
    let c = RGB::black();
    assert!(c == RGB::new(0u8, 0u8, 0u8));
}

#[test]
fn rgb_generic_channel() {
    let c: RGB<u32> = RGB::new(70000, 0, 12);
    assert_eq!(c.r, 70000);
    assert_eq!(c.g, 0);
    assert_eq!(c.b, 12);
}

#[test]
fn framebuf_new_fills_with_init() {
    let fb = Framebuf::new(3, 2, RGB::new(9u8, 8u8, 7u8));
    assert_eq!(fb.width, 3);
    assert_eq!(fb.height, 2);
    assert_eq!(fb.buffer.len(), 6);
    for y in 0..2 {
        for x in 0..3 {
            assert!(fb.pixel(x, y) == RGB::new(9u8, 8u8, 7u8));
        }
    }
}

#[test]
fn framebuf_flat_ix_is_row_major() {
    let fb = Framebuf::new(4, 3, 0u8);
    assert_eq!(fb.flat_ix((0, 0)), 0);
    assert_eq!(fb.flat_ix((3, 0)), 3);
    assert_eq!(fb.flat_ix((0, 1)), 4);
    assert_eq!(fb.flat_ix((1, 2)), 9);
    assert_eq!(fb.flat_ix((3, 2)), 11);
}

#[test]
fn framebuf_set_pixel_roundtrip() {
    let mut fb = Framebuf::new(2, 2, RGB::black());
    fb.set_pixel(1, 0, RGB::new(5u8, 6u8, 7u8));
    assert!(fb.pixel(1, 0) == RGB::new(5u8, 6u8, 7u8));
    assert!(fb.pixel(0, 0) == RGB::black());
    assert!(fb.pixel(0, 1) == RGB::black());
    assert!(fb.pixel(1, 1) == RGB::black());
}
