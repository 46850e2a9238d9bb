//! The renderer: what a frame shows, and how it is painted.
//!
//! A frame shows three lines of text on a plain background: the phase of
//! the lunar cycle in percent, the lit part of the disc in percent, and the
//! name of the phase. The lines are centred on the middle of the surface.

use vstd::prelude::*;
use vstd::string::*;
use core::fmt::Write;
use embedded_graphics::mono_font::ascii::FONT_8X13_BOLD;
use embedded_graphics::mono_font::MonoTextStyle;
use embedded_graphics::pixelcolor::raw::{LittleEndian, RawU2};
use embedded_graphics::pixelcolor::Gray2;
use embedded_graphics::prelude::Point;
use embedded_graphics::text::{Alignment, Baseline, Text, TextStyleBuilder};
use embedded_graphics::Drawable;
use crate::framebuffer::{in_frame, lemma_pixels_fix_bytes, pixel_of, Framebuffer};
use crate::jd79661::{BUFFER_LEN, HEIGHT, WIDTH};
use crate::moon::MoonReading;
use crate::rtclock::{InstantSecs, RealTimeClock};
use crate::surface::{Rect, Surface};
use crate::theme::Theme;

verus! {

/// Bytes in the line buffer that the text of a frame has to fit in.
pub const TEXT_CAPACITY: usize = 64;

/// Rows of pixels from one line of text to the next.
pub const LINE_HEIGHT: i32 = 13;

/// Why a frame was not painted.
#[derive(Clone, Copy, Debug, PartialEq, Eq)]
pub enum DrawError {
    /// The text of the frame is longer than the line buffer.
    TextOverflow,
}

/// The character of a decimal digit.
pub open spec fn digit(d: int) -> char {
    if d == 0 {
        '0'
    } else if d == 1 {
        '1'
    } else if d == 2 {
        '2'
    } else if d == 3 {
        '3'
    } else if d == 4 {
        '4'
    } else if d == 5 {
        '5'
    } else if d == 6 {
        '6'
    } else if d == 7 {
        '7'
    } else if d == 8 {
        '8'
    } else {
        '9'
    }
}

/// A percentage below 1000 in decimal digits, at least two of them.
pub open spec fn percent_text(percent: nat) -> Seq<char> {
    if percent >= 100 {
        seq![digit(percent as int / 100), digit(percent as int / 10 % 10), digit(percent as int % 10)]
    } else {
        seq![digit(percent as int / 10), digit(percent as int % 10)]
    }
}

/// The text of the frame that shows `reading`.
pub open spec fn readout(reading: MoonReading) -> Seq<char> {
    "Phase "@ + percent_text(reading.phase.percent_spec()) + "%\nIllum "@ + percent_text(
        reading.illumination.percent_spec(),
    ) + "%\n"@ + reading.label@
}

/// Whether a text fits in the line buffer.
pub open spec fn fits(text: Seq<char>) -> bool {
    vstd::utf8::encode_utf8(text).len() <= TEXT_CAPACITY
}

/// Where the first of the three lines of text is anchored, so that the
/// middle line stands on the middle of `area`.
pub open spec fn anchor(area: Rect) -> (int, int) {
    (area.center().0, area.center().1 - LINE_HEIGHT)
}

/// The pixels that a text covers when it is set in the bold 8 x 13 font,
/// each line centred on column `x`, the first line centred on row `y`: a
/// frame in which the covered pixels hold a value other than 0.
pub uninterp spec fn text_mask(text: Seq<char>, x: int, y: int) -> Seq<u8>;

/// The value of pixel (`x`, `y`) once the frame that shows `text` has been
/// painted in `theme` on `before`.
pub open spec fn painted(before: Surface, theme: Theme, text: Seq<char>, x: int, y: int) -> u8 {
    let at = anchor(before.area());
    if !before.area().contains(x, y) {
        before.pixel(x, y)
    } else if pixel_of(text_mask(text, at.0, at.1), x, y) != 0 {
        theme.text.value()
    } else {
        theme.background.value()
    }
}

/// Writes `text` to a line buffer of `capacity` bytes with
/// `format_no_std::WriteTo`, and hands back what the buffer then holds.
/// `WriteTo::write_str` copies the bytes of `text` and fails if they are
/// more than the buffer has room for; `WriteTo::as_str` gives the bytes
/// written. So the text comes back whole if it fits, and not at all if not.
#[verifier::external_body]
fn show(capacity: usize, text: &str) -> (shown: Option<String>)
    requires
        capacity <= TEXT_CAPACITY,
    ensures
        shown is Some <==> text.spec_bytes().len() <= capacity,
        shown matches Some(line) ==> line@ == text@,
{
    let mut buffer = vec![0u8; capacity];
    let mut line = format_no_std::WriteTo::new(&mut buffer);
    match line.write_str(text) {
        Ok(()) => line.as_str().map(String::from),
        Err(_) => None,
    }
}

/// Draws `text` with `embedded_graphics::text::Text` on an empty frame of
/// the panel's size and hands the frame back. The font is `FONT_8X13_BOLD`,
/// the lines are centred on `x`, the first line is centred on row `y`, and
/// the ink has pixel value 3. The result is a function of the three
/// arguments; the contract says no more of it than that.
#[verifier::external_body]
fn render_text(text: &str, x: i32, y: i32) -> (mask: Framebuffer)
    requires
        text.spec_bytes().len() <= TEXT_CAPACITY,
        0 <= x <= WIDTH,
        -LINE_HEIGHT <= y <= HEIGHT,
    ensures
        mask@ == text_mask(text@, x as int, y as int),
{
    let mut target = embedded_graphics::framebuffer::Framebuffer::<
        Gray2,
        RawU2,
        LittleEndian,
        WIDTH,
        HEIGHT,
        BUFFER_LEN,
    >::new();
    let ink = MonoTextStyle::new(&FONT_8X13_BOLD, Gray2::new(3));
    let layout = TextStyleBuilder::new().alignment(Alignment::Center).baseline(Baseline::Middle).build();
    let _ = Text::with_text_style(text, Point::new(x, y), ink, layout).draw(&mut target);
    Framebuffer { bytes: *target.data() }
}

/// The decimal digit `d` as a string.
fn digit_str(d: u32) -> (s: &'static str)
    requires
        d < 10,
    ensures
        s@ == seq![digit(d as int)],
{
    proof {
        reveal_strlit("0");
        reveal_strlit("1");
        reveal_strlit("2");
        reveal_strlit("3");
        reveal_strlit("4");
        reveal_strlit("5");
        reveal_strlit("6");
        reveal_strlit("7");
        reveal_strlit("8");
        reveal_strlit("9");
    }
    let s = match d {
        0 => "0",
        1 => "1",
        2 => "2",
        3 => "3",
        4 => "4",
        5 => "5",
        6 => "6",
        7 => "7",
        8 => "8",
        _ => "9",
    };
    assert(s@ =~= seq![digit(d as int)]);
    s
}

/// Appends a percentage to `text`, in at least two digits.
fn push_percent(text: &mut String, percent: u32)
    requires
        percent < 1000,
    ensures
        final(text)@ == old(text)@ + percent_text(percent as nat),
{
    if percent >= 100 {
        text.append(digit_str(percent / 100));
    }
    text.append(digit_str(percent / 10 % 10));
    text.append(digit_str(percent % 10));
    assert(text@ =~= old(text)@ + percent_text(percent as nat));
}

/// The text of the frame that shows `reading`: the phase and the lit part
/// in rounded percent, in at least two digits each, and the name of the
/// phase, on three lines.
pub fn format_readout(reading: &MoonReading) -> (text: String)
    ensures
        text@ == readout(*reading),
{
    let mut text = String::new();
    text.append("Phase ");
    push_percent(&mut text, reading.phase.percent());
    text.append("%\nIllum ");
    push_percent(&mut text, reading.illumination.percent());
    text.append("%\n");
    text.append(reading.label.as_str());
    assert(text@ =~= readout(*reading));
    text
}

/// Paints on `surface` the frame that shows `reading`: the whole surface in
/// the background colour of `theme`, and on it the text of the reading in
/// the text colour, centred on the middle of the surface.
///
/// The text has to fit in the line buffer. If it does not, nothing is
/// painted. Pixels outside the surface are never painted, so on a surface
/// without pixels the frame stays as it is.
pub fn draw_reading(surface: &mut Surface, theme: &Theme, reading: &MoonReading) -> (done: Result<
    (),
    DrawError,
>)
    ensures
        final(surface).area() == old(surface).area(),
        final(surface).bytes().len() == BUFFER_LEN,
        fits(readout(*reading)) ==> done is Ok && forall|x: int, y: int|
            in_frame(x, y) ==> #[trigger] final(surface).pixel(x, y) == painted(
                *old(surface),
                *theme,
                readout(*reading),
                x,
                y,
            ),
        !fits(readout(*reading)) ==> done == Err::<(), DrawError>(DrawError::TextOverflow)
            && final(surface).bytes() == old(surface).bytes(),
        old(surface).area().is_empty() ==> final(surface).bytes() == old(surface).bytes(),
{
    proof {
        surface.lemma_whole_frame();
    }
    let text = format_readout(reading);
    match show(TEXT_CAPACITY, text.as_str()) {
        None => Err(DrawError::TextOverflow),
        Some(line) => {
            surface.fill(theme.background());
            let ghost filled = *surface;
            let at = surface.center();
            let mask = render_text(line.as_str(), at.0, at.1 - LINE_HEIGHT);
            surface.stamp(&mask, theme.text());
            proof {
                if old(surface).area().is_empty() {
                    assert forall|x: int, y: int| in_frame(x, y) implies pixel_of(
                        surface.bytes(),
                        x,
                        y,
                    ) == pixel_of(old(surface).bytes(), x, y) by {
                        assert(surface.pixel(x, y) == filled.pixel(x, y));
                        assert(filled.pixel(x, y) == old(surface).pixel(x, y));
                    }
                    lemma_pixels_fix_bytes(surface.bytes(), old(surface).bytes());
                }
            }
            Ok(())
        },
    }
}

/// Paints on `surface` the frame for the present moment: reads the time
/// from `clock`, asks `moon` for the state of the moon at that time, and
/// paints the frame that shows it, as `draw_reading` does.
pub fn draw_frame<C: RealTimeClock, M: Fn(InstantSecs) -> MoonReading>(
    surface: &mut Surface,
    theme: &Theme,
    clock: &C,
    moon: M,
) -> (done: Result<(), DrawError>)
    requires
        forall|now: InstantSecs| call_requires(moon, (now,)),
    ensures
        final(surface).area() == old(surface).area(),
        final(surface).bytes().len() == BUFFER_LEN,
        old(surface).area().is_empty() ==> final(surface).bytes() == old(surface).bytes(),
        exists|now: InstantSecs, reading: MoonReading|
            #![trigger call_ensures(moon, (now,), reading)]
            call_ensures(moon, (now,), reading) && shows(
                *old(surface),
                *final(surface),
                *theme,
                reading,
                done,
            ),
{
    let now = clock.get_time();
    let reading = moon(now);
    let done = draw_reading(surface, theme, &reading);
    assert(call_ensures(moon, (now,), reading) && shows(
        *old(surface),
        *surface,
        *theme,
        reading,
        done,
    ));
    done
}

/// Whether `after` and `done` are what painting the frame that shows
/// `reading` makes of `before`.
pub open spec fn shows(
    before: Surface,
    after: Surface,
    theme: Theme,
    reading: MoonReading,
    done: Result<(), DrawError>,
) -> bool {
    if fits(readout(reading)) {
        done is Ok && forall|x: int, y: int|
            in_frame(x, y) ==> #[trigger] after.pixel(x, y) == painted(
                before,
                theme,
                readout(reading),
                x,
                y,
            )
    } else {
        done == Err::<(), DrawError>(DrawError::TextOverflow) && after.bytes() == before.bytes()
    }
}

} // verus!
