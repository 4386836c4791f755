use wlvideo::gradient::{can_draw, gradient_pixel, push_word, redraw};

#[test]
fn corner_pixels_of_a_small_gradient() {
    assert_eq!(gradient_pixel(0, 0, 2, 2), 0xFFFF_0000);
    assert_eq!(gradient_pixel(1, 0, 2, 2), 0xFF7F_7F00);
    assert_eq!(gradient_pixel(0, 1, 2, 2), 0xFF7F_007F);
    assert_eq!(gradient_pixel(1, 1, 2, 2), 0xFF7F_7F7F);
}

#[test]
fn pixels_of_the_demo_window() {
    assert_eq!(gradient_pixel(0, 0, 640, 480), 0xFFFF_0000);
    // column 320: (320 * 255) / 640 = 127 from either side; line 120:
    // (360 * 255) / 480 = 191 from the bottom, (120 * 255) / 480 = 63 from the top
    assert_eq!(gradient_pixel(320, 120, 640, 480), 0xFF7F_7F3F);
    // column 639: (1 * 255) / 640 = 0 from the right, (639 * 255) / 640 = 254
    // from the left; line 479: (1 * 255) / 480 = 0 from the bottom
    assert_eq!(gradient_pixel(639, 479, 640, 480), 0xFF00_0000);
    assert_eq!(gradient_pixel(639, 0, 640, 480), 0xFF00_FE00);
    assert_eq!(gradient_pixel(0, 479, 640, 480), 0xFF00_00FE);
}

#[test]
fn single_pixel_gradient_is_red() {
    assert_eq!(gradient_pixel(0, 0, 1, 1), 0xFFFF_0000);
}

#[test]
fn wide_gradient_does_not_overflow() {
    // 0x1FFF_FFFF * 255 does not fit 32 bits
    assert_eq!(gradient_pixel(0, 0, 0x1FFF_FFFF, 1), 0xFFFF_0000);
    assert_eq!(gradient_pixel(0x1FFF_FFFE, 0, 0x1FFF_FFFF, 1), 0xFF00_FE00);
}

#[test]
fn every_pixel_is_opaque() {
    for y in 0..7 {
        for x in 0..5 {
            assert_eq!(gradient_pixel(x, y, 5, 7) >> 24, 0xFF);
        }
    }
}

#[test]
fn drawing_holds_the_pixels_in_native_order() {
    let drawing = redraw(2, 2);
    assert_eq!(drawing.pool_size, 16);
    assert_eq!(drawing.width, 2);
    assert_eq!(drawing.height, 2);
    assert_eq!(drawing.stride, 8);
    let mut expected: Vec<u8> = Vec::new();
    for pixel in [0xFFFF_0000u32, 0xFF7F_7F00, 0xFF7F_007F, 0xFF7F_7F7F] {
        expected.extend_from_slice(&pixel.to_ne_bytes());
    }
    assert_eq!(drawing.bytes, expected);
}

#[test]
fn drawing_bytes_are_the_channels_of_each_pixel() {
    let drawing = redraw(3, 2);
    assert_eq!(drawing.bytes.len(), 24);
    for (i, chunk) in drawing.bytes.chunks_exact(4).enumerate() {
        let pixel = gradient_pixel(i as u32 % 3, i as u32 / 3, 3, 2);
        let le = [pixel as u8, (pixel >> 8) as u8, (pixel >> 16) as u8, (pixel >> 24) as u8];
        let be = [le[3], le[2], le[1], le[0]];
        assert!(chunk == le || chunk == be);
        assert_ne!(le, be);
    }
}

#[test]
fn drawing_of_the_demo_window_has_four_bytes_per_pixel() {
    let drawing = redraw(640, 480);
    assert_eq!(drawing.pool_size, 1_228_800);
    assert_eq!(drawing.bytes.len(), 1_228_800);
    assert_eq!(drawing.width, 640);
    assert_eq!(drawing.height, 480);
    assert_eq!(drawing.stride, 2560);
    let last = gradient_pixel(639, 479, 640, 480).to_ne_bytes();
    assert_eq!(&drawing.bytes[1_228_796..], last);
}

#[test]
fn drawing_of_an_empty_window_is_empty() {
    let drawing = redraw(0, 0);
    assert_eq!(drawing.pool_size, 0);
    assert!(drawing.bytes.is_empty());
    let flat = redraw(5, 0);
    assert_eq!(flat.pool_size, 0);
    assert!(flat.bytes.is_empty());
    assert_eq!(flat.stride, 20);
    let thin = redraw(0, 9);
    assert!(thin.bytes.is_empty());
    assert_eq!(thin.height, 9);
}

#[test]
fn sizes_that_can_be_drawn() {
    assert!(can_draw(640, 480));
    assert!(can_draw(0, 0));
    assert!(can_draw(0, 0x7FFF_FFFF));
    assert!(can_draw(0x1FFF_FFFF, 1));
    assert!(can_draw(0x1FFF_FFFF, 2));
    assert!(can_draw(32768, 32767));
}

#[test]
fn sizes_that_cannot_be_drawn() {
    // the byte size does not fit 32 bits
    assert!(!can_draw(32768, 32768));
    assert!(!can_draw(0x1FFF_FFFF, 3));
    assert!(!can_draw(65536, 16384));
    // the stride does not fit a signed 32-bit number
    assert!(!can_draw(0x2000_0000, 0));
    assert!(!can_draw(u32::MAX, 0));
    // the height does not fit a signed 32-bit number
    assert!(!can_draw(0, 0x8000_0000));
    assert!(!can_draw(u32::MAX, u32::MAX));
}

#[test]
fn push_word_appends_four_bytes() {
    let mut buffer = vec![1u8, 2];
    push_word(&mut buffer, [3, 4, 5, 6]);
    assert_eq!(buffer, vec![1, 2, 3, 4, 5, 6]);
}
