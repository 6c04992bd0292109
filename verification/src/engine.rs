//! The oracle-node engine: one simulated request per tick, its outcome
//! folded into the node's metrics.

use vstd::prelude::*;
use crate::metrics::{NodeMetrics, tick_model};
use crate::policy::{Decision, decide, fails_for_draw, random_in};
use crate::tier::{QualityTier, DRAW_SPAN, spec_delay_lo, spec_delay_hi, delay_hi};

verus! {

/// The largest delay any tier can draw, in milliseconds.
pub const MAX_DELAY_MILLIS: u64 = 15000;

/// One simulated oracle node: its identifier, its quality tier (fixed for
/// the node's lifetime) and the metrics it owns and mutates.
pub struct OracleNode {
    pub node_id: String,
    pub quality: QualityTier,
    pub metrics: NodeMetrics,
}

impl OracleNode {
    pub fn new(node_id: String, quality: QualityTier, metrics: NodeMetrics) -> (n: OracleNode)
        ensures
            n.node_id == node_id,
            n.quality == quality,
            n.metrics == metrics,
    {
        OracleNode { node_id, quality, metrics }
    }

    /// Draws the failure verdict for one tick: an independent Bernoulli draw
    /// with the tier's probability, realized by `fails_for_draw` over a
    /// uniform draw.
    pub fn should_fail(&self) -> bool {
        let draw = random_in(0, DRAW_SPAN);
        fails_for_draw(self.quality, draw)
    }

    /// Draws the simulated response delay, uniform over the tier's
    /// closed-open interval of milliseconds.
    pub fn simulate_delay(&self) -> (d: u64)
        ensures
            spec_delay_lo(self.quality) <= d < spec_delay_hi(self.quality),
    {
        let lo = crate::tier::delay_lo(self.quality);
        let hi = delay_hi(self.quality);
        random_in(lo, hi)
    }

    /// Applies one tick with a forced outcome: the deterministic core of
    /// `handle_request`, exactly as `tick_model` states. A caller standing
    /// in for the policy (a deterministic test double, say) can force any
    /// outcome through this.
    pub fn tick_with_outcome(&mut self, will_fail: bool, delay_millis: u64)
        requires
            old(self).metrics.wf(),
            old(self).metrics.requests_total < u64::MAX,
            old(self).metrics.link_tenths < u64::MAX,
            old(self).metrics.duration_sum_millis + delay_millis <= u64::MAX,
        ensures
            final(self).metrics@ == tick_model(old(self).metrics@, will_fail, delay_millis),
            final(self).metrics.wf(),
            final(self).node_id == old(self).node_id,
            final(self).quality == old(self).quality,
    {
        self.metrics.record_tick(will_fail, delay_millis);
    }

    /// Handles one simulated request: draws the tier's verdict and delay and
    /// folds the outcome into the metrics. Returns the decision that was
    /// drawn, so that the caller can simulate the external latency; whatever
    /// the draws were, the new state is exactly `tick_model` of the old one
    /// under the returned decision.
    pub fn handle_request(&mut self) -> (d: Decision)
        requires
            old(self).metrics.wf(),
            old(self).metrics.requests_total < u64::MAX,
            old(self).metrics.link_tenths < u64::MAX,
            old(self).metrics.duration_sum_millis + MAX_DELAY_MILLIS <= u64::MAX,
        ensures
            spec_delay_lo(old(self).quality) <= d.delay_millis < spec_delay_hi(old(self).quality),
            final(self).metrics@ == tick_model(old(self).metrics@, d.will_fail, d.delay_millis),
            final(self).metrics.wf(),
            final(self).node_id == old(self).node_id,
            final(self).quality == old(self).quality,
    {
        let d = decide(self.quality);
        self.tick_with_outcome(d.will_fail, d.delay_millis);
        d
    }
}

/// The fixed body of the liveness probe; it never touches engine state.
pub fn health_message() -> (r: &'static str)
    ensures
        r@ == "The great Oracle node is healthy and ready to serve!"@,
{
    "The great Oracle node is healthy and ready to serve!"
}

} // verus!
