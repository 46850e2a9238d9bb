//! The clock that tells the renderer what time it is.

use vstd::prelude::*;

verus! {

/// A moment of the `fugit` crate. The library hands such moments on and
/// never looks into them.
#[verifier::external_type_specification]
#[verifier::external_body]
#[verifier::reject_recursive_types(T)]
pub struct ExInstant<T, const NOM: u32, const DENOM: u32>(fugit::Instant<T, NOM, DENOM>);

/// A moment in time, in whole seconds since the Unix epoch.
pub type InstantSecs = fugit::Instant<u64, 1, 1>;

/// Clock that fetches moments relative to the Unix epoch.
pub trait RealTimeClock {
    /// The current time. Reading the clock does not fail.
    fn get_time(&self) -> InstantSecs;
}

} // verus!
