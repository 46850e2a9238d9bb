//! Colours of the panel and the pair of them that a frame is painted in.

use vstd::prelude::*;

verus! {

/// A colour of the panel: the two bits that a pixel holds.
#[derive(Clone, Copy, Debug, PartialEq, Eq)]
pub struct Color {
    bits: u8,
}

impl Color {
    /// The pixel value of this colour.
    pub closed spec fn value(self) -> u8 {
        self.bits
    }

    #[verifier::type_invariant]
    spec fn two_bits(self) -> bool {
        self.bits < 4
    }

    /// The colour with the two lowest bits of `bits` as its pixel value.
    pub fn from_bits(bits: u8) -> (color: Color)
        ensures
            color.value() == bits & 3,
            color.value() < 4,
        no_unwind
    {
        assert(bits & 3 < 4) by (bit_vector);
        Color { bits: bits & 3 }
    }

    /// The pixel value of this colour.
    pub fn bits(&self) -> (bits: u8)
        ensures
            bits == self.value(),
            bits < 4,
        no_unwind
    {
        proof {
            use_type_invariant(self);
        }
        self.bits
    }
}

/// The two colours of a frame.
#[derive(Clone, Copy, Debug, PartialEq, Eq)]
pub struct Theme {
    pub background: Color,
    pub text: Color,
}

impl Theme {
    /// The colour behind the text.
    pub fn background(&self) -> (color: Color)
        ensures
            color == self.background,
    {
        self.background
    }

    /// The colour of the text.
    pub fn text(&self) -> (color: Color)
        ensures
            color == self.text,
    {
        self.text
    }
}

} // verus!
