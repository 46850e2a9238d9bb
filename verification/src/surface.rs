//! The surface that a frame is painted on: a frame and the rectangle of it
//! that may be painted. Whatever is drawn, the pixels outside the rectangle
//! stay as they are.

use vstd::prelude::*;
use crate::framebuffer::{
    in_frame, lemma_pixel_apart, lemma_pixel_round_trip, pixel_of, Framebuffer,
};
use crate::jd79661::{BUFFER_LEN, HEIGHT, WIDTH};
use crate::theme::Color;

verus! {

/// A rectangle of pixels: its top left corner and its size.
#[derive(Clone, Copy, Debug, PartialEq, Eq)]
pub struct Rect {
    pub x: i32,
    pub y: i32,
    pub width: u32,
    pub height: u32,
}

impl Rect {
    /// Whether pixel (`px`, `py`) lies in the rectangle.
    pub open spec fn contains(self, px: int, py: int) -> bool {
        self.x <= px < self.x + self.width && self.y <= py < self.y + self.height
    }

    /// Whether the rectangle holds no pixel.
    pub open spec fn is_empty(self) -> bool {
        self.width == 0 || self.height == 0
    }

    /// The pixel in the middle of the rectangle; with an even width or
    /// height, the one left of or above the middle. The middle of an empty
    /// rectangle is its corner.
    pub open spec fn center(self) -> (int, int) {
        (
            self.x + (if self.width == 0 {
                0int
            } else {
                (self.width - 1) / 2
            }),
            self.y + (if self.height == 0 {
                0int
            } else {
                (self.height - 1) / 2
            }),
        )
    }

    /// The part of the rectangle that lies on the panel.
    pub open spec fn clipped(self) -> Rect {
        let left = clamp(self.x as int, WIDTH as int);
        let right = clamp(self.x + self.width, WIDTH as int);
        let top = clamp(self.y as int, HEIGHT as int);
        let bottom = clamp(self.y + self.height, HEIGHT as int);
        Rect {
            x: left as i32,
            y: top as i32,
            width: (right - left) as u32,
            height: (bottom - top) as u32,
        }
    }

    /// The whole panel.
    pub open spec fn panel() -> Rect {
        Rect { x: 0, y: 0, width: WIDTH as u32, height: HEIGHT as u32 }
    }
}

/// The number nearest to `value` from 0 to `limit`.
pub open spec fn clamp(value: int, limit: int) -> int {
    if value < 0 {
        0
    } else if value > limit {
        limit
    } else {
        value
    }
}

/// The part of a rectangle that lies on the panel holds the pixels of the
/// rectangle that the panel has, and no others.
pub proof fn lemma_clipped_contains(area: Rect, px: int, py: int)
    ensures
        area.clipped().contains(px, py) <==> area.contains(px, py) && in_frame(px, py),
{
}

/// A frame and the rectangle of it that may be painted.
pub struct Surface {
    frame: Framebuffer,
    left: usize,
    top: usize,
    width: usize,
    height: usize,
}

impl Surface {
    /// The bytes of the frame.
    pub closed spec fn bytes(&self) -> Seq<u8> {
        self.frame@
    }

    /// The rectangle that may be painted. It lies on the panel.
    pub closed spec fn area(&self) -> Rect {
        Rect {
            x: self.left as i32,
            y: self.top as i32,
            width: self.width as u32,
            height: self.height as u32,
        }
    }

    /// The value of pixel (`x`, `y`).
    pub open spec fn pixel(&self, x: int, y: int) -> u8 {
        pixel_of(self.bytes(), x, y)
    }

    #[verifier::type_invariant]
    spec fn on_panel(&self) -> bool {
        self.left + self.width <= WIDTH && self.top + self.height <= HEIGHT
    }

    /// The surface that is all of `frame`.
    pub fn new(frame: Framebuffer) -> (surface: Surface)
        ensures
            surface.bytes() == frame@,
            surface.area() == Rect::panel(),
    {
        Surface { frame, left: 0, top: 0, width: WIDTH, height: HEIGHT }
    }

    /// The surface that is the part of `frame` inside `area`. An `area`
    /// that misses the panel, or is empty, gives a surface without pixels.
    pub fn window(frame: Framebuffer, area: Rect) -> (surface: Surface)
        ensures
            surface.bytes() == frame@,
            surface.area() == area.clipped(),
    {
        let left = clamp_to(area.x as i64, WIDTH);
        let right = clamp_to(area.x as i64 + area.width as i64, WIDTH);
        let top = clamp_to(area.y as i64, HEIGHT);
        let bottom = clamp_to(area.y as i64 + area.height as i64, HEIGHT);
        Surface { frame, left, top, width: right - left, height: bottom - top }
    }

    /// The frame of a surface is a whole frame.
    pub proof fn lemma_whole_frame(&self)
        ensures
            self.bytes().len() == BUFFER_LEN,
    {
    }

    /// The pixel in the middle of the surface.
    pub fn center(&self) -> (middle: (i32, i32))
        ensures
            middle.0 == self.area().center().0,
            middle.1 == self.area().center().1,
            0 <= middle.0 <= WIDTH,
            0 <= middle.1 <= HEIGHT,
    {
        proof {
            use_type_invariant(self);
        }
        let across = if self.width == 0 {
            0
        } else {
            (self.width - 1) / 2
        };
        let down = if self.height == 0 {
            0
        } else {
            (self.height - 1) / 2
        };
        ((self.left + across) as i32, (self.top + down) as i32)
    }

    /// The rectangle that may be painted.
    pub fn bounding_box(&self) -> (area: Rect)
        ensures
            area == self.area(),
            0 <= area.x,
            0 <= area.y,
            area.x + area.width <= WIDTH,
            area.y + area.height <= HEIGHT,
    {
        proof {
            use_type_invariant(self);
        }
        Rect {
            x: self.left as i32,
            y: self.top as i32,
            width: self.width as u32,
            height: self.height as u32,
        }
    }

    /// The frame as it has been painted so far.
    pub fn frame(&self) -> (frame: &Framebuffer)
        ensures
            frame@ == self.bytes(),
    {
        &self.frame
    }

    /// Gives the frame back.
    pub fn into_frame(self) -> (frame: Framebuffer)
        ensures
            frame@ == self.bytes(),
    {
        self.frame
    }

    /// Paints every pixel of the surface in `color`.
    pub fn fill(&mut self, color: Color)
        ensures
            final(self).area() == old(self).area(),
            final(self).bytes().len() == BUFFER_LEN,
            forall|x: int, y: int|
                in_frame(x, y) ==> #[trigger] final(self).pixel(x, y) == (if old(self).area().contains(
                    x,
                    y,
                ) {
                    color.value()
                } else {
                    old(self).pixel(x, y)
                }),
    {
        proof {
            use_type_invariant(&*self);
        }
        paint(&mut self.frame, self.left, self.top, self.width, self.height, None, color);
    }

    /// Paints in `color` every pixel of the surface at which `mask` holds a
    /// value other than 0.
    pub fn stamp(&mut self, mask: &Framebuffer, color: Color)
        ensures
            final(self).area() == old(self).area(),
            final(self).bytes().len() == BUFFER_LEN,
            forall|x: int, y: int|
                in_frame(x, y) ==> #[trigger] final(self).pixel(x, y) == (if old(self).area().contains(
                    x,
                    y,
                ) && mask.pixel(x, y) != 0 {
                    color.value()
                } else {
                    old(self).pixel(x, y)
                }),
    {
        proof {
            use_type_invariant(&*self);
        }
        paint(&mut self.frame, self.left, self.top, self.width, self.height, Some(mask), color);
    }
}

/// `value` brought into the range from 0 to `limit`.
fn clamp_to(value: i64, limit: usize) -> (clamped: usize)
    requires
        limit <= 0x7fff_ffff,
    ensures
        clamped == clamp(value as int, limit as int),
{
    if value < 0 {
        0
    } else if value > limit as i64 {
        limit
    } else {
        value as usize
    }
}

/// Whether painting a rectangle through `mask` reaches pixel (`x`, `y`):
/// the pixel lies in the rectangle, and the mask, if there is one, holds a
/// value other than 0 at it.
pub open spec fn reached(
    left: int,
    top: int,
    width: int,
    height: int,
    mask: Option<&Framebuffer>,
    x: int,
    y: int,
) -> bool {
    left <= x < left + width && top <= y < top + height && (match mask {
        Some(m) => m.pixel(x, y) != 0,
        None => true,
    })
}

/// Paints in `color` the pixels of a rectangle of `frame`: all of them, or
/// with a mask those at which the mask holds a value other than 0.
fn paint(
    frame: &mut Framebuffer,
    left: usize,
    top: usize,
    width: usize,
    height: usize,
    mask: Option<&Framebuffer>,
    color: Color,
)
    requires
        left + width <= WIDTH,
        top + height <= HEIGHT,
    ensures
        forall|x: int, y: int|
            in_frame(x, y) ==> #[trigger] pixel_of(final(frame)@, x, y) == (if reached(
                left as int,
                top as int,
                width as int,
                height as int,
                mask,
                x,
                y,
            ) {
                color.value()
            } else {
                pixel_of(old(frame)@, x, y)
            }),
    no_unwind
{
    let ghost before = frame@;
    let value = color.bits();
    let mut y: usize = top;
    while y < top + height
        invariant
            left + width <= WIDTH,
            top + height <= HEIGHT,
            top <= y <= top + height,
            value == color.value(),
            value < 4,
            forall|a: int, b: int|
                in_frame(a, b) ==> #[trigger] pixel_of(frame@, a, b) == (if b < y && reached(
                    left as int,
                    top as int,
                    width as int,
                    height as int,
                    mask,
                    a,
                    b,
                ) {
                    value
                } else {
                    pixel_of(before, a, b)
                }),
        decreases top + height - y,
    {
        let mut x: usize = left;
        while x < left + width
            invariant
                left + width <= WIDTH,
                top + height <= HEIGHT,
                top <= y < top + height,
                left <= x <= left + width,
                value == color.value(),
                value < 4,
                forall|a: int, b: int|
                    in_frame(a, b) ==> #[trigger] pixel_of(frame@, a, b) == (if (b < y || (b == y
                        && a < x)) && reached(
                        left as int,
                        top as int,
                        width as int,
                        height as int,
                        mask,
                        a,
                        b,
                    ) {
                        value
                    } else {
                        pixel_of(before, a, b)
                    }),
            decreases left + width - x,
        {
            let inked = match mask {
                Some(m) => match m.get_pixel(x, y) {
                    Some(value) => value.bits() != 0,
                    None => false,
                },
                None => true,
            };
            if inked {
                let ghost earlier = frame@;
                frame.set_pixel(x, y, color);
                proof {
                    lemma_pixel_round_trip(earlier, x as int, y as int, value);
                    assert forall|a: int, b: int| in_frame(a, b) && (a != x || b != y) implies pixel_of(
                        frame@,
                        a,
                        b,
                    ) == pixel_of(earlier, a, b) by {
                        lemma_pixel_apart(earlier, x as int, y as int, value, a, b);
                    }
                }
            }
            x = x + 1;
        }
        y = y + 1;
    }
}

} // verus!
