use sundial::framebuffer::{Framebuffer, ROW_BYTES};
use sundial::surface::{Rect, Surface};
use sundial::theme::{Color, Theme};

#[test]
fn a_new_frame_is_all_zero() {
    let frame = Framebuffer::new();
    assert!(frame.bytes.iter().all(|byte| *byte == 0));
    assert_eq!(frame.get_pixel(0, 0), Some(Color::from_bits(0)));
    assert_eq!(frame.get_pixel(127, 249), Some(Color::from_bits(0)));
}

#[test]
fn color_keeps_two_bits() {
    assert_eq!(Color::from_bits(0).bits(), 0);
    assert_eq!(Color::from_bits(3).bits(), 3);
    assert_eq!(Color::from_bits(6).bits(), 2);
    assert_eq!(Color::from_bits(0xFD).bits(), 1);
}

#[test]
fn theme_hands_out_its_colours() {
    let theme = Theme { background: Color::from_bits(1), text: Color::from_bits(0) };
    assert_eq!(theme.background().bits(), 1);
    assert_eq!(theme.text().bits(), 0);
}

#[test]
fn pixels_are_packed_four_to_a_byte_leftmost_highest() {
    assert_eq!(ROW_BYTES, 32);
    let mut frame = Framebuffer::new();
    frame.set_pixel(0, 0, Color::from_bits(3));
    assert_eq!(frame.bytes[0], 0b1100_0000);
    frame.set_pixel(1, 0, Color::from_bits(1));
    assert_eq!(frame.bytes[0], 0b1101_0000);
    frame.set_pixel(2, 0, Color::from_bits(2));
    assert_eq!(frame.bytes[0], 0b1101_1000);
    frame.set_pixel(3, 0, Color::from_bits(1));
    assert_eq!(frame.bytes[0], 0b1101_1001);
    frame.set_pixel(5, 2, Color::from_bits(2));
    assert_eq!(frame.bytes[2 * 128 / 4 + 5 / 4], 0b0010_0000);
    frame.set_pixel(127, 249, Color::from_bits(3));
    assert_eq!(frame.bytes[7999], 0b0000_0011);
}

#[test]
fn every_pixel_reads_back_what_was_written() {
    let mut frame = Framebuffer::from_slice(&[0b0110_1100u8; 8000]).unwrap();
    for y in 0..250usize {
        for x in 0..128usize {
            for value in 0..4u8 {
                frame.set_pixel(x, y, Color::from_bits(value));
                assert_eq!(frame.get_pixel(x, y), Some(Color::from_bits(value)));
            }
        }
    }
}

#[test]
fn writing_a_pixel_leaves_its_neighbours() {
    let mut frame = Framebuffer::from_slice(&[0b0110_1100u8; 8000]).unwrap();
    let before = frame.clone();
    frame.set_pixel(6, 10, Color::from_bits(3));
    for y in 0..250usize {
        for x in 0..128usize {
            if (x, y) != (6, 10) {
                assert_eq!(frame.get_pixel(x, y), before.get_pixel(x, y));
            }
        }
    }
    assert_eq!(frame.get_pixel(6, 10), Some(Color::from_bits(3)));
}

#[test]
fn writing_twice_is_writing_once() {
    let mut once = Framebuffer::new();
    once.set_pixel(77, 123, Color::from_bits(2));
    let mut twice = once.clone();
    twice.set_pixel(77, 123, Color::from_bits(2));
    assert_eq!(once, twice);
    let mut other = Framebuffer::new();
    other.set_pixel(77, 123, Color::from_bits(1));
    other.set_pixel(77, 123, Color::from_bits(2));
    assert_eq!(once, other);
}

#[test]
fn pixels_off_the_panel_are_not_there() {
    let mut frame = Framebuffer::new();
    frame.set_pixel(128, 0, Color::from_bits(3));
    frame.set_pixel(0, 250, Color::from_bits(3));
    frame.set_pixel(usize::MAX, usize::MAX, Color::from_bits(3));
    assert_eq!(frame, Framebuffer::new());
    assert_eq!(frame.get_pixel(128, 0), None);
    assert_eq!(frame.get_pixel(0, 250), None);
}

#[test]
fn from_slice_keeps_the_bytes() {
    let mut bytes = vec![0u8; 8000];
    bytes[17] = 0xA7;
    let frame = Framebuffer::from_slice(&bytes).unwrap();
    assert_eq!(&frame.bytes[..], &bytes[..]);
}

#[test]
fn the_whole_panel_is_the_surface_of_a_frame() {
    let surface = Surface::new(Framebuffer::new());
    assert_eq!(surface.bounding_box(), Rect { x: 0, y: 0, width: 128, height: 250 });
    assert_eq!(surface.center(), (63, 124));
}

#[test]
fn a_window_is_clipped_to_the_panel() {
    let clip = |x, y, width, height| {
        Surface::window(Framebuffer::new(), Rect { x, y, width, height }).bounding_box()
    };
    assert_eq!(clip(10, 20, 30, 40), Rect { x: 10, y: 20, width: 30, height: 40 });
    assert_eq!(clip(-5, -5, 10, 10), Rect { x: 0, y: 0, width: 5, height: 5 });
    assert_eq!(clip(120, 240, 100, 100), Rect { x: 120, y: 240, width: 8, height: 10 });
    assert_eq!(clip(-10, -10, 1000, 1000), Rect { x: 0, y: 0, width: 128, height: 250 });
    let off = clip(500, 500, 10, 10);
    assert_eq!((off.width, off.height), (0, 0));
    let far = clip(i32::MAX, i32::MIN, u32::MAX, u32::MAX);
    assert_eq!(far.width, 0);
    let none = clip(5, 5, 0, 0);
    assert_eq!((none.x, none.y, none.width, none.height), (5, 5, 0, 0));
}

#[test]
fn the_middle_of_a_window() {
    let middle = |x, y, width, height| {
        Surface::window(Framebuffer::new(), Rect { x, y, width, height }).center()
    };
    assert_eq!(middle(10, 20, 5, 7), (12, 23));
    assert_eq!(middle(20, 30, 4, 8), (21, 33));
    assert_eq!(middle(20, 30, 1, 1), (20, 30));
    assert_eq!(middle(20, 30, 0, 0), (20, 30));
}

#[test]
fn fill_paints_the_whole_panel() {
    let mut surface = Surface::new(Framebuffer::new());
    surface.fill(Color::from_bits(1));
    assert!(surface.frame().bytes.iter().all(|byte| *byte == 0b0101_0101));
    surface.fill(Color::from_bits(2));
    assert!(surface.into_frame().bytes.iter().all(|byte| *byte == 0b1010_1010));
}

#[test]
fn fill_paints_the_window_only() {
    let area = Rect { x: 3, y: 2, width: 6, height: 4 };
    let mut surface = Surface::window(Framebuffer::new(), area);
    surface.fill(Color::from_bits(3));
    let frame = surface.into_frame();
    for y in 0..250usize {
        for x in 0..128usize {
            let inside = (3..9).contains(&x) && (2..6).contains(&y);
            let expected = if inside { 3 } else { 0 };
            assert_eq!(frame.get_pixel(x, y).unwrap().bits(), expected);
        }
    }
}

#[test]
fn stamp_paints_where_the_mask_has_ink() {
    let mut mask = Framebuffer::new();
    mask.set_pixel(4, 4, Color::from_bits(3));
    mask.set_pixel(5, 4, Color::from_bits(1));
    mask.set_pixel(100, 100, Color::from_bits(3));
    let area = Rect { x: 0, y: 0, width: 10, height: 10 };
    let mut surface = Surface::window(Framebuffer::from_slice(&[0x55u8; 8000]).unwrap(), area);
    surface.stamp(&mask, Color::from_bits(2));
    let frame = surface.into_frame();
    for y in 0..250usize {
        for x in 0..128usize {
            let inked = (x, y) == (4, 4) || (x, y) == (5, 4);
            let expected = if inked { 2 } else { 1 };
            assert_eq!(frame.get_pixel(x, y).unwrap().bits(), expected);
        }
    }
}
