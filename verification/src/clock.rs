//! The clock of the machine, and the ticks the servers count in.

use vstd::prelude::*;

use crate::wire::ClientTick;

verus! {

/// `Instant` of the standard library: a moment on the machine's clock.
/// Nothing inside it is visible to contracts.
#[verifier::external_type_specification]
#[verifier::external_body]
pub struct ExInstant(std::time::Instant);

/// `Instant::now` of the standard library. Nothing is claimed of the moment
/// it returns.
#[verifier::external_body]
pub(crate) fn now() -> (moment: std::time::Instant) {
    std::time::Instant::now()
}

/// `Instant::saturating_duration_since` of the standard library. Nothing is
/// claimed of the duration it returns.
pub assume_specification[ std::time::Instant::saturating_duration_since ](
    instant: &std::time::Instant,
    earlier: std::time::Instant,
) -> (elapsed: std::time::Duration)
;

/// `Duration::as_millis` of the standard library. Nothing is claimed of the
/// number it returns.
pub assume_specification[ std::time::Duration::as_millis ](duration: &std::time::Duration) -> (milliseconds: u128)
;

/// The tick that a number of milliseconds comes to. Ticks are counted in 32
/// bits and wrap around.
pub open spec fn tick_of(milliseconds: u128) -> ClientTick {
    ClientTick(milliseconds as u32)
}

/// Returns the tick that a number of milliseconds comes to.
pub fn client_tick_of(milliseconds: u128) -> (tick: ClientTick)
    ensures
        tick == tick_of(milliseconds),
{
    ClientTick(
        #[verifier::truncate]
        (milliseconds as u32),
    )
}

} // verus!
