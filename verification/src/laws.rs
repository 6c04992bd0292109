//! Laws of the simulation: what holds of the metrics after any run of
//! completed ticks, proved once and for all over the tick model.

use vstd::prelude::*;
use crate::metrics::{MetricsModel, tick_model};
use crate::policy::Decision;

verus! {

/// The state after a run of completed ticks, oldest outcome first.
pub open spec fn run_model(m: MetricsModel, outs: Seq<Decision>) -> MetricsModel
    decreases outs.len(),
{
    if outs.len() == 0 {
        m
    } else {
        tick_model(run_model(m, outs.drop_last()), outs.last().will_fail, outs.last().delay_millis)
    }
}

/// How many of the outcomes succeeded.
pub open spec fn success_count(outs: Seq<Decision>) -> int
    decreases outs.len(),
{
    if outs.len() == 0 {
        0
    } else {
        success_count(outs.drop_last()) + if outs.last().will_fail {
            0int
        } else {
            1int
        }
    }
}

/// The delays of the outcomes, in order.
pub open spec fn delays_of(outs: Seq<Decision>) -> Seq<u64> {
    outs.map_values(|d: Decision| d.delay_millis)
}

/// After K completed ticks the total request counter has grown by exactly K,
/// regardless of how many ticks succeeded or failed.
pub proof fn lemma_total_counts_ticks(m: MetricsModel, outs: Seq<Decision>)
    ensures
        run_model(m, outs).requests_total == m.requests_total + outs.len(),
    decreases outs.len(),
{
    if outs.len() > 0 {
        lemma_total_counts_ticks(m, outs.drop_last());
    }
}

/// Success and failure counters split the total exactly: each run adds the
/// number of successful outcomes to one and the rest to the other, so
/// `requests_success + requests_failed == requests_total` is preserved by
/// any number of completed ticks.
pub proof fn lemma_counters_balanced(m: MetricsModel, outs: Seq<Decision>)
    ensures
        run_model(m, outs).requests_success == m.requests_success + success_count(outs),
        run_model(m, outs).requests_failed == m.requests_failed + outs.len() - success_count(outs),
        m.requests_total == m.requests_success + m.requests_failed ==> run_model(m, outs).requests_total
            == run_model(m, outs).requests_success + run_model(m, outs).requests_failed,
    decreases outs.len(),
{
    if outs.len() > 0 {
        lemma_counters_balanced(m, outs.drop_last());
        lemma_total_counts_ticks(m, outs);
    }
}

/// The reputation score never goes below zero and never increases: under the
/// current policy it only degrades, by one tenth per failed tick.
pub proof fn lemma_reputation_monotone(m: MetricsModel, outs: Seq<Decision>)
    requires
        m.reputation_tenths >= 0,
    ensures
        0 <= run_model(m, outs).reputation_tenths,
        run_model(m, outs).reputation_tenths <= m.reputation_tenths,
    decreases outs.len(),
{
    if outs.len() > 0 {
        lemma_reputation_monotone(m, outs.drop_last());
    }
}

/// The ETH balance never goes below zero and loses exactly one gas cost
/// (0.0001, one ten-thousandth) per tick until it would clamp: after K ticks
/// it is the greater of zero and the starting balance minus K.
pub proof fn lemma_eth_drift(m: MetricsModel, outs: Seq<Decision>)
    requires
        m.eth_ten_thousandths >= 0,
    ensures
        run_model(m, outs).eth_ten_thousandths == if m.eth_ten_thousandths - outs.len() >= 0 {
            m.eth_ten_thousandths - outs.len()
        } else {
            0int
        },
    decreases outs.len(),
{
    if outs.len() > 0 {
        lemma_eth_drift(m, outs.drop_last());
    }
}

/// The LINK balance grows by exactly one reward (0.1, one tenth) per
/// successful tick and is unaffected by failed ticks.
pub proof fn lemma_link_reward(m: MetricsModel, outs: Seq<Decision>)
    ensures
        run_model(m, outs).link_tenths == m.link_tenths + success_count(outs),
    decreases outs.len(),
{
    if outs.len() > 0 {
        lemma_link_reward(m, outs.drop_last());
    }
}

/// The latency distribution is append-only: a run of ticks appends exactly
/// the delays of its outcomes, in order, and the node's identifier never
/// changes.
pub proof fn lemma_durations_appended(m: MetricsModel, outs: Seq<Decision>)
    ensures
        run_model(m, outs).durations_millis == m.durations_millis + delays_of(outs),
        run_model(m, outs).node_id == m.node_id,
    decreases outs.len(),
{
    if outs.len() == 0 {
        assert(m.durations_millis + delays_of(outs) =~= m.durations_millis);
    } else {
        lemma_durations_appended(m, outs.drop_last());
        assert(m.durations_millis + delays_of(outs) =~= (m.durations_millis + delays_of(
            outs.drop_last(),
        )).push(outs.last().delay_millis));
    }
}

} // verus!
