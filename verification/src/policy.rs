//! The simulation policy: pure tier-driven decisions over random draws.
//!
//! Each tick draws a failure verdict (a Bernoulli draw realized as a uniform
//! draw against the tier's threshold) and a simulated delay (uniform over the
//! tier's half-open interval). The randomness itself stays behind a single
//! trusted call; everything that turns a draw into a decision is verified.

use vstd::prelude::*;
use crate::tier::{
    QualityTier,
    DRAW_SPAN,
    fail_threshold,
    delay_lo,
    delay_hi,
    spec_fail_threshold,
    spec_delay_lo,
    spec_delay_hi,
};

verus! {

/// The outcome the policy fabricates for one tick: whether the simulated
/// request fails, and how many milliseconds it appears to take.
#[derive(Clone, Copy, PartialEq, Eq, Structural, Debug)]
pub struct Decision {
    pub will_fail: bool,
    pub delay_millis: u64,
}

/// Draws a value uniformly from `lo..hi`.
/// Relies on `rand::random_range` (rand 0.10) over a half-open integer
/// range: the sampled value lies within the range; an empty range would
/// panic, which the precondition rules out.
#[verifier::external_body]
pub(crate) fn random_in(lo: u64, hi: u64) -> (r: u64)
    requires
        lo < hi,
    ensures
        lo <= r < hi,
{
    rand::random_range(lo..hi)
}

/// Whether a uniform draw out of `DRAW_SPAN` counts as a failure for the
/// tier: exactly the draws below the tier's threshold fail, which makes the
/// failure probability 1%, 2% or 5%.
pub fn fails_for_draw(tier: QualityTier, draw: u64) -> (b: bool)
    ensures
        b == (draw < spec_fail_threshold(tier)),
{
    draw < fail_threshold(tier)
}

/// Draws the failure verdict and the simulated delay for one tick. The
/// verdict is an independent Bernoulli draw, so nothing can be promised of
/// it; the delay always lies in the tier's closed-open interval.
pub fn decide(tier: QualityTier) -> (d: Decision)
    ensures
        spec_delay_lo(tier) <= d.delay_millis < spec_delay_hi(tier),
{
    let draw = random_in(0, DRAW_SPAN);
    let will_fail = fails_for_draw(tier, draw);
    let lo = delay_lo(tier);
    let hi = delay_hi(tier);
    let delay_millis = random_in(lo, hi);
    Decision { will_fail, delay_millis }
}

} // verus!
