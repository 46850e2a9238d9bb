//! What the renderer is told about the moon: how far the lunar cycle has
//! run, how much of the disc is lit, and what the phase is called.
//!
//! Both quantities are fractions of one, held in millionths.

use vstd::prelude::*;

verus! {

/// Millionths in one whole.
pub const MILLION: u32 = 1_000_000;

/// A fraction from 0 to 1, in millionths.
#[derive(Clone, Copy, Debug, PartialEq, Eq, PartialOrd, Ord)]
pub struct Fraction {
    millionths: u32,
}

impl Fraction {
    /// The fraction, in millionths.
    pub closed spec fn value(self) -> nat {
        self.millionths as nat
    }

    /// The fraction in percent, rounded to the nearest whole number; a
    /// fraction halfway between two whole numbers goes to the larger.
    pub open spec fn percent_spec(self) -> nat {
        (self.value() + 5_000) / 10_000
    }

    #[verifier::type_invariant]
    spec fn at_most_one(self) -> bool {
        self.millionths <= MILLION
    }

    /// The fraction of `millionths` millionths, if that is no more than one.
    pub fn from_millionths(millionths: u32) -> (fraction: Option<Fraction>)
        ensures
            fraction is Some <==> millionths <= MILLION,
            fraction matches Some(f) ==> f.value() == millionths,
    {
        if millionths <= MILLION {
            Some(Fraction { millionths })
        } else {
            None
        }
    }

    /// The fraction, in millionths.
    pub fn millionths(&self) -> (millionths: u32)
        ensures
            millionths == self.value(),
            millionths <= MILLION,
    {
        proof {
            use_type_invariant(self);
        }
        self.millionths
    }

    /// The fraction in percent, rounded to the nearest whole number, halves
    /// upward.
    pub fn percent(&self) -> (percent: u32)
        ensures
            percent == self.percent_spec(),
            percent <= 100,
    {
        proof {
            use_type_invariant(self);
        }
        (self.millionths + 5_000) / 10_000
    }
}

/// The rounded percentage is the whole number of percent nearest to the
/// fraction: it is off by half a percent at most, and by exactly half a
/// percent only when it has been rounded upward.
pub proof fn lemma_percent_nearest(fraction: Fraction)
    ensures
        fraction.percent_spec() * 10_000 - 5_000 <= fraction.value() < fraction.percent_spec()
            * 10_000 + 5_000,
{
}

/// The state of the moon at one moment.
#[derive(Clone, Debug, PartialEq, Eq)]
pub struct MoonReading {
    /// How far the lunar cycle has run; 0 is new moon.
    pub phase: Fraction,
    /// How much of the visible disc is lit.
    pub illumination: Fraction,
    /// The name of the phase.
    pub label: String,
}

} // verus!
