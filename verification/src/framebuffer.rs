//! The frame as the panel takes it: two bits per pixel, four pixels in a
//! byte, rows from the top, the leftmost pixel of a byte in its highest bits.

use vstd::prelude::*;
use crate::jd79661::{BUFFER_LEN, HEIGHT, WIDTH};
use crate::theme::Color;

verus! {

/// Bytes in one row of the frame.
pub const ROW_BYTES: usize = 32;

/// Whether the panel has a pixel at column `x` of row `y`.
pub open spec fn in_frame(x: int, y: int) -> bool {
    0 <= x < WIDTH && 0 <= y < HEIGHT
}

/// The index of the byte that holds pixel (`x`, `y`).
pub open spec fn byte_index(x: int, y: int) -> int {
    y * WIDTH / 4 + x / 4
}

/// How far the bits of pixel (`x`, `y`) stand above the lowest bit of its byte.
pub open spec fn bit_shift(x: int) -> u8 {
    (6 - 2 * (x % 4)) as u8
}

/// The two bits of `byte` that stand `shift` above its lowest bit.
pub open spec fn field(byte: u8, shift: u8) -> u8 {
    (byte >> shift) & 3
}

/// `byte` with `value` in the two bits that stand `shift` above its lowest bit.
pub open spec fn with_field(byte: u8, shift: u8, value: u8) -> u8 {
    (byte & !(3u8 << shift)) | (value << shift)
}

/// The value of pixel (`x`, `y`) in a frame of these bytes.
pub open spec fn pixel_of(bytes: Seq<u8>, x: int, y: int) -> u8 {
    field(bytes[byte_index(x, y)], bit_shift(x))
}

/// These bytes with `value` written to pixel (`x`, `y`).
pub open spec fn with_pixel(bytes: Seq<u8>, x: int, y: int, value: u8) -> Seq<u8> {
    bytes.update(byte_index(x, y), with_field(bytes[byte_index(x, y)], bit_shift(x), value))
}

/// One frame of the panel.
#[derive(Clone, Debug, PartialEq, Eq)]
pub struct Framebuffer {
    pub bytes: [u8; BUFFER_LEN],
}

impl View for Framebuffer {
    type V = Seq<u8>;

    open spec fn view(&self) -> Seq<u8> {
        self.bytes@
    }
}

impl Framebuffer {
    /// The value of pixel (`x`, `y`).
    pub open spec fn pixel(&self, x: int, y: int) -> u8 {
        pixel_of(self@, x, y)
    }

    /// A frame with every pixel at value 0.
    pub fn new() -> (frame: Framebuffer)
        ensures
            forall|i: int| 0 <= i < BUFFER_LEN ==> frame@[i] == 0,
            forall|x: int, y: int| in_frame(x, y) ==> frame.pixel(x, y) == 0,
    {
        let frame = Framebuffer { bytes: [0u8; BUFFER_LEN] };
        assert forall|x: int, y: int| in_frame(x, y) implies frame.pixel(x, y) == 0 by {
            let shift = bit_shift(x);
            assert(field(0u8, shift) == 0) by (bit_vector);
        }
        frame
    }

    /// The frame that `bytes` holds, if `bytes` is a whole frame: a slice of
    /// any other length is no frame.
    pub fn from_slice(bytes: &[u8]) -> (frame: Option<Framebuffer>)
        ensures
            frame is Some <==> bytes@.len() == BUFFER_LEN,
            frame matches Some(f) ==> f@ == bytes@,
    {
        if bytes.len() != BUFFER_LEN {
            return None;
        }
        let mut frame = Framebuffer { bytes: [0u8; BUFFER_LEN] };
        let mut i: usize = 0;
        while i < BUFFER_LEN
            invariant
                i <= BUFFER_LEN,
                bytes@.len() == BUFFER_LEN,
                forall|j: int| 0 <= j < i ==> frame@[j] == bytes@[j],
            decreases BUFFER_LEN - i,
        {
            frame.bytes[i] = bytes[i];
            i = i + 1;
        }
        assert(frame@ =~= bytes@);
        Some(frame)
    }

    /// The value of pixel (`x`, `y`), if the panel has such a pixel.
    pub fn get_pixel(&self, x: usize, y: usize) -> (color: Option<Color>)
        ensures
            color is Some <==> in_frame(x as int, y as int),
            color matches Some(c) ==> c.value() == self.pixel(x as int, y as int),
        no_unwind
    {
        if x < WIDTH && y < HEIGHT {
            let index = y * ROW_BYTES + x / 4;
            let shift: u8 = 6 - 2 * ((x % 4) as u8);
            let byte = self.bytes[index];
            assert((byte >> shift) & 3 == ((byte >> shift) & 3) & 3) by (bit_vector);
            Some(Color::from_bits((byte >> shift) & 3))
        } else {
            None
        }
    }

    /// Writes `color` to pixel (`x`, `y`). Where the panel has no such pixel
    /// the frame stays as it is.
    pub fn set_pixel(&mut self, x: usize, y: usize, color: Color)
        ensures
            in_frame(x as int, y as int) ==> final(self)@ == with_pixel(
                old(self)@,
                x as int,
                y as int,
                color.value(),
            ),
            !in_frame(x as int, y as int) ==> final(self)@ == old(self)@,
        no_unwind
    {
        if x < WIDTH && y < HEIGHT {
            let index = y * ROW_BYTES + x / 4;
            let shift: u8 = 6 - 2 * ((x % 4) as u8);
            let byte = self.bytes[index];
            let bits = color.bits();
            self.bytes[index] = (byte & !(3u8 << shift)) | (bits << shift);
            assert(self@ =~= with_pixel(old(self)@, x as int, y as int, color.value()));
        }
    }
}

/// Reading a pixel after writing it gives what was written.
pub proof fn lemma_pixel_round_trip(bytes: Seq<u8>, x: int, y: int, value: u8)
    requires
        bytes.len() == BUFFER_LEN,
        in_frame(x, y),
        value < 4,
    ensures
        pixel_of(with_pixel(bytes, x, y, value), x, y) == value,
{
    let byte = bytes[byte_index(x, y)];
    let shift = bit_shift(x);
    assert(field(with_field(byte, shift, value), shift) == value) by (bit_vector)
        requires
            shift == 0 || shift == 2 || shift == 4 || shift == 6,
            value < 4,
    ;
}

/// Writing a pixel leaves every other pixel of the frame as it was.
pub proof fn lemma_pixel_apart(bytes: Seq<u8>, x: int, y: int, value: u8, a: int, b: int)
    requires
        bytes.len() == BUFFER_LEN,
        in_frame(x, y),
        in_frame(a, b),
        value < 4,
        a != x || b != y,
    ensures
        pixel_of(with_pixel(bytes, x, y, value), a, b) == pixel_of(bytes, a, b),
{
    if byte_index(a, b) == byte_index(x, y) {
        let byte = bytes[byte_index(x, y)];
        let shift = bit_shift(x);
        let other = bit_shift(a);
        assert(b == y && a / 4 == x / 4);
        assert(other != shift);
        assert(field(with_field(byte, shift, value), other) == field(byte, other))
            by (bit_vector)
            requires
                shift == 0 || shift == 2 || shift == 4 || shift == 6,
                other == 0 || other == 2 || other == 4 || other == 6,
                other != shift,
                value < 4,
        ;
    }
}

/// Of two writes to one pixel only the second counts; so writing a value a
/// second time changes nothing.
pub proof fn lemma_pixel_overwrite(bytes: Seq<u8>, x: int, y: int, first: u8, second: u8)
    requires
        bytes.len() == BUFFER_LEN,
        in_frame(x, y),
        first < 4,
        second < 4,
    ensures
        with_pixel(with_pixel(bytes, x, y, first), x, y, second) == with_pixel(bytes, x, y, second),
        with_pixel(with_pixel(bytes, x, y, first), x, y, first) == with_pixel(bytes, x, y, first),
{
    let byte = bytes[byte_index(x, y)];
    let shift = bit_shift(x);
    assert(with_field(with_field(byte, shift, first), shift, second) == with_field(
        byte,
        shift,
        second,
    )) by (bit_vector)
        requires
            shift == 0 || shift == 2 || shift == 4 || shift == 6,
            first < 4,
            second < 4,
    ;
    assert(with_field(with_field(byte, shift, first), shift, first) == with_field(
        byte,
        shift,
        first,
    )) by (bit_vector)
        requires
            shift == 0 || shift == 2 || shift == 4 || shift == 6,
            first < 4,
            second < 4,
    ;
    assert(with_pixel(with_pixel(bytes, x, y, first), x, y, second) =~= with_pixel(
        bytes,
        x,
        y,
        second,
    ));
    assert(with_pixel(with_pixel(bytes, x, y, first), x, y, first) =~= with_pixel(
        bytes,
        x,
        y,
        first,
    ));
}

/// A frame is no more than its pixels: two frames that agree on every pixel
/// of the panel hold the same bytes.
pub proof fn lemma_pixels_fix_bytes(first: Seq<u8>, second: Seq<u8>)
    requires
        first.len() == BUFFER_LEN,
        second.len() == BUFFER_LEN,
        forall|x: int, y: int| in_frame(x, y) ==> pixel_of(first, x, y) == pixel_of(second, x, y),
    ensures
        first == second,
{
    assert forall|i: int| 0 <= i < BUFFER_LEN implies first[i] == second[i] by {
        let y = i / 32;
        let x = 4 * (i % 32);
        let p = first[i];
        let q = second[i];
        assert(in_frame(x, y) && in_frame(x + 1, y) && in_frame(x + 2, y) && in_frame(x + 3, y));
        assert(byte_index(x, y) == i && byte_index(x + 1, y) == i && byte_index(x + 2, y) == i
            && byte_index(x + 3, y) == i);
        assert(pixel_of(first, x, y) == pixel_of(second, x, y));
        assert(pixel_of(first, x + 1, y) == pixel_of(second, x + 1, y));
        assert(pixel_of(first, x + 2, y) == pixel_of(second, x + 2, y));
        assert(pixel_of(first, x + 3, y) == pixel_of(second, x + 3, y));
        assert(p == q) by (bit_vector)
            requires
                field(p, 6) == field(q, 6),
                field(p, 4) == field(q, 4),
                field(p, 2) == field(q, 2),
                field(p, 0) == field(q, 0),
        ;
    }
    assert(first =~= second);
}

} // verus!
