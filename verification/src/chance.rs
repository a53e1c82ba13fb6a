//! Random draws: the one call into the random number generator, and the
//! three draws that the game makes with it.

use crate::machine::{Settings, MAX_TRIALS, MIN_TRIALS};
use rand::Rng;
use vstd::prelude::*;

verus! {

/// Draws an integer from the half-open range `low..high` with
/// `rand::Rng::gen_range` on the generator that `rand::thread_rng` returns.
///
/// Not proved: that the generator returns a value inside the range it was
/// given. `gen_range` panics on an empty range, which `requires` excludes.
/// `thread_rng` panics where the operating system gives it no seed; no
/// argument decides that, so nothing here can exclude it. Which value of the
/// range comes back is left open: two calls may differ.
#[verifier::external_body]
pub(crate) fn draw_between(low: u64, high: u64) -> (drawn: u64)
    requires
        low < high,
    ensures
        low <= drawn < high,
{
    rand::thread_rng().gen_range(low..high)
}

/// Draws the number of trials of a session: three, four or five.
pub(crate) fn draw_trials() -> (trials: u32)
    ensures
        MIN_TRIALS <= trials <= MAX_TRIALS,
{
    let drawn: u64 = draw_between(MIN_TRIALS as u64, MAX_TRIALS as u64 + 1);
    drawn as u32
}

/// Draws the delay of a wait, in milliseconds, within the settings.
pub(crate) fn draw_delay(settings: Settings) -> (delay_ms: u64)
    requires
        settings.wf(),
    ensures
        settings.min_delay_ms <= delay_ms < settings.max_delay_ms,
{
    draw_between(settings.min_delay_ms, settings.max_delay_ms)
}

/// Draws one of the `len - 1` colours beside the current one, as a number
/// from `0` to `len - 2`.
pub(crate) fn draw_other(len: usize) -> (draw: usize)
    requires
        len >= 2,
    ensures
        draw + 1 < len,
{
    let drawn: u64 = draw_between(0, (len - 1) as u64);
    drawn as usize
}

} // verus!
