//! Time spans in ticks of the system clock.

use vstd::prelude::*;

verus! {

/// Ticks per second: the system clock counts the 32.768 kHz low-frequency clock.
pub const TICK_HZ: u64 = 32_768;

/// The ticks that span at least `millis` milliseconds, and no more than needed.
pub open spec fn millis_to_ticks(millis: int) -> int {
    (millis * TICK_HZ + 999) / 1000
}

/// A span in ticks is never shorter than the milliseconds asked for, and longer
/// by less than a tick.
pub proof fn law_ticks_round_up(millis: int)
    requires
        millis >= 0,
    ensures
        millis_to_ticks(millis) * 1000 >= millis * TICK_HZ,
        (millis_to_ticks(millis) - 1) * 1000 < millis * TICK_HZ,
{
}

/// `embassy_time::Duration::from_millis`, as a number of ticks. The claim is
/// that it rounds up to whole ticks at 32 768 ticks a second; the product with
/// the tick rate has to fit in 64 bits.
#[verifier::external_body]
pub(crate) fn duration_from_millis(millis: u64) -> (ticks: u64)
    requires
        millis * TICK_HZ <= u64::MAX,
    ensures
        ticks == millis_to_ticks(millis as int),
{
    embassy_time::Duration::from_millis(millis).as_ticks()
}

/// `embassy_time::Duration::from_secs`, as a number of ticks. The claim is that
/// it multiplies by the tick rate, 32 768 ticks a second; the product has to
/// fit in 64 bits.
#[verifier::external_body]
pub(crate) fn duration_from_secs(secs: u64) -> (ticks: u64)
    requires
        secs * TICK_HZ <= u64::MAX,
    ensures
        ticks == secs * TICK_HZ,
{
    embassy_time::Duration::from_secs(secs).as_ticks()
}

} // verus!
