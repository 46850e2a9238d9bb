use embedded_graphics::mono_font::ascii::FONT_8X13_BOLD;
use embedded_graphics::mono_font::MonoTextStyle;
use embedded_graphics::pixelcolor::raw::{LittleEndian, RawU2};
use embedded_graphics::pixelcolor::Gray2;
use embedded_graphics::prelude::{Dimensions, Point, Primitive};
use embedded_graphics::primitives::PrimitiveStyle;
use embedded_graphics::text::{Alignment, Baseline, Text, TextStyleBuilder};
use embedded_graphics::Drawable;
use sundial::framebuffer::Framebuffer;
use sundial::logic::{draw_frame, draw_reading, format_readout, DrawError, LINE_HEIGHT, TEXT_CAPACITY};
use sundial::moon::{Fraction, MoonReading, MILLION};
use sundial::rtclock::{InstantSecs, RealTimeClock};
use sundial::surface::{Rect, Surface};
use sundial::theme::{Color, Theme};

fn reading(phase: u32, illumination: u32, label: &str) -> MoonReading {
    MoonReading {
        phase: Fraction::from_millionths(phase).unwrap(),
        illumination: Fraction::from_millionths(illumination).unwrap(),
        label: String::from(label),
    }
}

fn theme() -> Theme {
    Theme { background: Color::from_bits(1), text: Color::from_bits(0) }
}

struct FixedClock(u64);

impl RealTimeClock for FixedClock {
    fn get_time(&self) -> InstantSecs {
        InstantSecs::from_ticks(self.0)
    }
}

/// The frame as the graphics library alone paints it.
fn reference_frame(text: &str, background: u8, ink: u8) -> Vec<u8> {
    let mut target = embedded_graphics::framebuffer::Framebuffer::<
        Gray2,
        RawU2,
        LittleEndian,
        128,
        250,
        8000,
    >::new();
    let area = target.bounding_box();
    area.into_styled(PrimitiveStyle::with_fill(Gray2::new(background))).draw(&mut target).unwrap();
    let style = MonoTextStyle::new(&FONT_8X13_BOLD, Gray2::new(ink));
    let layout =
        TextStyleBuilder::new().alignment(Alignment::Center).baseline(Baseline::Middle).build();
    let anchor = area.center() - Point::new(0, 13);
    Text::with_text_style(text, anchor, style, layout).draw(&mut target).unwrap();
    target.data().to_vec()
}

#[test]
fn constants_of_the_layout() {
    assert_eq!(TEXT_CAPACITY, 64);
    assert_eq!(LINE_HEIGHT, 13);
    assert_eq!(MILLION, 1_000_000);
}

#[test]
fn a_fraction_is_at_most_one() {
    assert!(Fraction::from_millionths(0).is_some());
    assert!(Fraction::from_millionths(1_000_000).is_some());
    assert!(Fraction::from_millionths(1_000_001).is_none());
    assert!(Fraction::from_millionths(u32::MAX).is_none());
    assert_eq!(Fraction::from_millionths(123_456).unwrap().millionths(), 123_456);
}

#[test]
fn percent_rounds_to_nearest_and_halves_up() {
    let percent = |millionths| Fraction::from_millionths(millionths).unwrap().percent();
    assert_eq!(percent(0), 0);
    assert_eq!(percent(4_999), 0);
    assert_eq!(percent(5_000), 1);
    assert_eq!(percent(14_999), 1);
    assert_eq!(percent(15_000), 2);
    assert_eq!(percent(25_000), 3);
    assert_eq!(percent(500_000), 50);
    assert_eq!(percent(994_999), 99);
    assert_eq!(percent(995_000), 100);
    assert_eq!(percent(1_000_000), 100);
}

#[test]
fn new_moon_reads_zero_percent() {
    let text = format_readout(&reading(0, 0, "New Moon"));
    assert_eq!(text, "Phase 00%\nIllum 00%\nNew Moon");
}

#[test]
fn full_moon_reads_one_hundred_percent() {
    let text = format_readout(&reading(500_000, 1_000_000, "Full Moon"));
    assert_eq!(text, "Phase 50%\nIllum 100%\nFull Moon");
}

#[test]
fn percentages_have_at_least_two_digits() {
    assert_eq!(format_readout(&reading(70_000, 34_000, "Waxing Crescent")), "Phase 07%\nIllum 03%\nWaxing Crescent");
    assert_eq!(format_readout(&reading(999_999, 99_000, "")), "Phase 100%\nIllum 10%\n");
    assert_eq!(format_readout(&reading(254_999, 995_000, "x")), "Phase 25%\nIllum 100%\nx");
}

#[test]
fn the_frame_is_what_the_graphics_library_paints() {
    let moon = reading(250_000, 500_000, "First Quarter");
    let mut surface = Surface::new(Framebuffer::from_slice(&[0xE4u8; 8000]).unwrap());
    assert_eq!(draw_reading(&mut surface, &theme(), &moon), Ok(()));
    let expected = reference_frame("Phase 25%\nIllum 50%\nFirst Quarter", 1, 0);
    assert_eq!(&surface.frame().bytes[..], &expected[..]);
}

#[test]
fn the_frame_has_text_on_background() {
    let moon = reading(0, 0, "New Moon");
    let colours = Theme { background: Color::from_bits(2), text: Color::from_bits(3) };
    let mut surface = Surface::new(Framebuffer::new());
    assert_eq!(draw_reading(&mut surface, &colours, &moon), Ok(()));
    let frame = surface.into_frame();
    let mut ink = 0;
    for y in 0..250usize {
        for x in 0..128usize {
            let value = frame.get_pixel(x, y).unwrap().bits();
            assert!(value == 2 || value == 3);
            if value == 3 {
                ink += 1;
                assert!((105..=143).contains(&y), "ink at row {}", y);
                assert!((24..104).contains(&x), "ink at column {}", x);
            }
        }
    }
    assert!(ink > 100);
    assert_eq!(&frame.bytes[..], &reference_frame("Phase 00%\nIllum 00%\nNew Moon", 2, 3)[..]);
}

#[test]
fn the_text_is_centred_on_the_middle_of_the_panel() {
    let moon = reading(0, 0, "New Moon");
    let mut surface = Surface::new(Framebuffer::new());
    let colours = Theme { background: Color::from_bits(0), text: Color::from_bits(3) };
    draw_reading(&mut surface, &colours, &moon).unwrap();
    let frame = surface.into_frame();
    let mut rows = Vec::new();
    let mut columns = Vec::new();
    for y in 0..250usize {
        for x in 0..128usize {
            if frame.get_pixel(x, y).unwrap().bits() != 0 {
                rows.push(y);
                columns.push(x);
            }
        }
    }
    let top = *rows.iter().min().unwrap() as i32;
    let bottom = *rows.iter().max().unwrap() as i32;
    let left = *columns.iter().min().unwrap() as i32;
    let right = *columns.iter().max().unwrap() as i32;
    assert!((top + bottom - 2 * 124).abs() <= 6, "rows {} to {}", top, bottom);
    assert!((left + right - 2 * 63).abs() <= 6, "columns {} to {}", left, right);
}

#[test]
fn a_text_of_sixty_four_bytes_fits_and_one_more_does_not() {
    let fits = "x".repeat(44);
    let long = "x".repeat(45);
    assert_eq!(format_readout(&reading(0, 0, &fits)).len(), 64);
    let mut surface = Surface::new(Framebuffer::new());
    assert_eq!(draw_reading(&mut surface, &theme(), &reading(0, 0, &fits)), Ok(()));
    let mut surface = Surface::new(Framebuffer::from_slice(&[0xE4u8; 8000]).unwrap());
    assert_eq!(
        draw_reading(&mut surface, &theme(), &reading(0, 0, &long)),
        Err(DrawError::TextOverflow)
    );
    assert!(surface.frame().bytes.iter().all(|byte| *byte == 0xE4));
}

#[test]
fn the_line_buffer_counts_bytes_not_characters() {
    let label = "\u{e9}".repeat(22);
    assert_eq!(format_readout(&reading(0, 0, &label)).len(), 64);
    let mut surface = Surface::new(Framebuffer::new());
    assert_eq!(draw_reading(&mut surface, &theme(), &reading(0, 0, &label)), Ok(()));
    let label = "\u{e9}".repeat(23);
    assert_eq!(format_readout(&reading(0, 0, &label)).chars().count(), 43);
    assert_eq!(
        draw_reading(&mut surface, &theme(), &reading(0, 0, &label)),
        Err(DrawError::TextOverflow)
    );
}

#[test]
fn a_surface_without_pixels_stays_as_it_is() {
    let moon = reading(0, 0, "New Moon");
    let before = Framebuffer::from_slice(&[0xE4u8; 8000]).unwrap();
    for area in [
        Rect { x: 0, y: 0, width: 0, height: 0 },
        Rect { x: 64, y: 125, width: 0, height: 10 },
        Rect { x: 64, y: 125, width: 10, height: 0 },
        Rect { x: 300, y: 300, width: 128, height: 250 },
    ] {
        let mut surface = Surface::window(before.clone(), area);
        assert_eq!(draw_reading(&mut surface, &theme(), &moon), Ok(()));
        assert_eq!(surface.into_frame(), before);
    }
}

#[test]
fn a_window_at_the_edge_is_painted_without_fault() {
    let moon = reading(0, 0, "New Moon");
    for area in [
        Rect { x: 0, y: 0, width: 128, height: 1 },
        Rect { x: 0, y: 249, width: 128, height: 1 },
        Rect { x: 127, y: 0, width: 1, height: 250 },
        Rect { x: 0, y: 0, width: 1, height: 1 },
    ] {
        let mut surface = Surface::window(Framebuffer::from_slice(&[0xFFu8; 8000]).unwrap(), area);
        assert_eq!(draw_reading(&mut surface, &theme(), &moon), Ok(()));
        let frame = surface.into_frame();
        for y in 0..250usize {
            for x in 0..128usize {
                let inside = (x as i32) >= area.x
                    && (x as i32) < area.x + area.width as i32
                    && (y as i32) >= area.y
                    && (y as i32) < area.y + area.height as i32;
                let value = frame.get_pixel(x, y).unwrap().bits();
                if inside {
                    assert!(value == 1 || value == 0);
                } else {
                    assert_eq!(value, 3);
                }
            }
        }
    }
}

#[test]
fn labels_of_any_characters_are_drawn() {
    for label in ["", "\n\n\n", "a\r\nb\r", "\u{1F311} \u{e9}t\u{e9}", "\t\u{0}\u{7f}", "%%\\"] {
        let moon = reading(123_456, 654_321, label);
        let mut surface = Surface::new(Framebuffer::new());
        assert_eq!(draw_reading(&mut surface, &theme(), &moon), Ok(()));
        let text = format!("Phase 12%\nIllum 65%\n{}", label);
        assert_eq!(&surface.frame().bytes[..], &reference_frame(&text, 1, 0)[..]);
    }
}

#[test]
fn a_window_is_painted_and_the_rest_is_left() {
    let moon = reading(500_000, 1_000_000, "Full Moon");
    let area = Rect { x: 16, y: 50, width: 96, height: 100 };
    let mut surface = Surface::window(Framebuffer::from_slice(&[0xFFu8; 8000]).unwrap(), area);
    assert_eq!(draw_reading(&mut surface, &theme(), &moon), Ok(()));
    assert_eq!(surface.center(), (63, 99));
    let frame = surface.into_frame();
    let mut ink = 0;
    for y in 0..250usize {
        for x in 0..128usize {
            let value = frame.get_pixel(x, y).unwrap().bits();
            if (16..112).contains(&x) && (50..150).contains(&y) {
                assert!(value == 1 || value == 0);
                if value == 0 {
                    ink += 1;
                }
            } else {
                assert_eq!(value, 3);
            }
        }
    }
    assert!(ink > 100);
}

#[test]
fn draw_frame_asks_the_clock_and_the_moon() {
    let clock = FixedClock(947_182_440);
    let mut asked = Vec::new();
    let asked_at = std::cell::RefCell::new(&mut asked);
    let mut surface = Surface::new(Framebuffer::new());
    let done = draw_frame(&mut surface, &theme(), &clock, |now: InstantSecs| {
        asked_at.borrow_mut().push(now.ticks());
        reading(0, 0, "New Moon")
    });
    assert_eq!(done, Ok(()));
    assert_eq!(asked, vec![947_182_440]);
    let mut expected = Surface::new(Framebuffer::new());
    draw_reading(&mut expected, &theme(), &reading(0, 0, "New Moon")).unwrap();
    assert_eq!(surface.into_frame(), expected.into_frame());
}

#[test]
fn draw_frame_at_full_moon() {
    let clock = FixedClock(948_458_040);
    let mut surface = Surface::new(Framebuffer::new());
    let done = draw_frame(&mut surface, &theme(), &clock, |_now: InstantSecs| {
        reading(500_000, 1_000_000, "Full Moon")
    });
    assert_eq!(done, Ok(()));
    let expected = reference_frame("Phase 50%\nIllum 100%\nFull Moon", 1, 0);
    assert_eq!(&surface.frame().bytes[..], &expected[..]);
}

#[test]
fn draw_frame_hands_on_the_overflow() {
    let clock = FixedClock(0);
    let mut surface = Surface::new(Framebuffer::new());
    let label = "x".repeat(60);
    let done = draw_frame(&mut surface, &theme(), &clock, |_now: InstantSecs| reading(0, 0, &label));
    assert_eq!(done, Err(DrawError::TextOverflow));
    assert_eq!(surface.into_frame(), Framebuffer::new());
}
