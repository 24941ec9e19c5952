use screenshot_ocr::capture::{clamp_to_buffer, crop, Region, ScreenBuffer};
use screenshot_ocr::geometry::{Area, Position};

fn pos(x: i32, y: i32) -> Position {
    Position { x, y }
}

fn byte_at(x: usize, y: usize, k: usize) -> u8 {
    ((x * 3 + y * 7 + k * 11) % 256) as u8
}

fn patterned(width: u32, height: u32, n_channels: usize, padding: usize) -> ScreenBuffer {
    let rowstride = width as usize * n_channels + padding;
    let mut pixels = Vec::new();
    for y in 0..height as usize {
        for x in 0..width as usize {
            for k in 0..n_channels {
                pixels.push(byte_at(x, y, k));
            }
        }
        if y + 1 < height as usize {
            for _ in 0..padding {
                pixels.push(0xEE);
            }
        }
    }
    ScreenBuffer { width, height, rowstride, n_channels, pixels }
}

#[test]
fn crop_inside_buffer_is_exact() {
    let buffer = patterned(1920, 1080, 4, 0);
    let area = Area { start: pos(100, 100), end: pos(300, 250) };
    let img = crop(&buffer, &area).unwrap();
    assert_eq!(img.width, 200);
    assert_eq!(img.height, 150);
    assert_eq!(img.pixels.len(), 200 * 150 * 4);
    for r in 0..150usize {
        for c in 0..200usize {
            for k in 0..4usize {
                assert_eq!(img.pixels[(r * 200 + c) * 4 + k], byte_at(100 + c, 100 + r, k));
            }
        }
    }
}

#[test]
fn crop_beyond_bounds_is_clamped() {
    let buffer = patterned(1920, 1080, 4, 0);
    let area = Area { start: pos(1900, 1000), end: pos(2000, 1100) };
    assert_eq!(
        clamp_to_buffer(&area, 1920, 1080),
        Region { x: 1900, y: 1000, width: 20, height: 80 }
    );
    let img = crop(&buffer, &area).unwrap();
    assert_eq!(img.width, 20);
    assert_eq!(img.height, 80);
    assert_eq!(img.pixels.len(), 20 * 80 * 4);
    assert_eq!(img.pixels[0], byte_at(1900, 1000, 0));
    let last = img.pixels.len() - 2;
    assert_eq!(img.pixels[last], byte_at(1919, 1079, 2));
}

#[test]
fn crop_of_degenerate_rectangle_is_none() {
    let buffer = patterned(64, 48, 4, 0);
    for p in [pos(0, 0), pos(10, 10), pos(63, 47), pos(500, -3)] {
        let area = Area { start: p, end: p };
        assert!(crop(&buffer, &area).is_none());
    }
}

#[test]
fn crop_outside_screen_is_none() {
    let buffer = patterned(64, 48, 4, 0);
    let area = Area { start: pos(-50, -50), end: pos(-10, -10) };
    assert_eq!(clamp_to_buffer(&area, 64, 48), Region { x: 0, y: 0, width: 0, height: 0 });
    assert!(crop(&buffer, &area).is_none());
}

#[test]
fn crop_of_rgb_buffer_with_padding_is_opaque_rgba() {
    let buffer = patterned(10, 8, 3, 2);
    let area = Area { start: pos(9, 7), end: pos(6, 5) };
    let img = crop(&buffer, &area).unwrap();
    assert_eq!(img.width, 3);
    assert_eq!(img.height, 2);
    for r in 0..2usize {
        for c in 0..3usize {
            let at = (r * 3 + c) * 4;
            assert_eq!(img.pixels[at], byte_at(6 + c, 5 + r, 0));
            assert_eq!(img.pixels[at + 1], byte_at(6 + c, 5 + r, 1));
            assert_eq!(img.pixels[at + 2], byte_at(6 + c, 5 + r, 2));
            assert_eq!(img.pixels[at + 3], 255);
        }
    }
}

#[test]
fn well_formed_layouts_are_recognized() {
    assert!(patterned(10, 8, 3, 2).is_well_formed());
    assert!(patterned(10, 8, 4, 0).is_well_formed());
    let mut short = patterned(10, 8, 4, 0);
    short.pixels.pop();
    assert!(!short.is_well_formed());
    let mut two_channels = patterned(10, 8, 4, 0);
    two_channels.n_channels = 2;
    assert!(!two_channels.is_well_formed());
    let mut narrow = patterned(10, 8, 4, 0);
    narrow.rowstride = 39;
    assert!(!narrow.is_well_formed());
    let empty = ScreenBuffer { width: 0, height: 0, rowstride: 0, n_channels: 4, pixels: Vec::new() };
    assert!(empty.is_well_formed());
}
