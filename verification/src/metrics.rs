//! The node's canonical state: three request counters, a latency
//! distribution, and three balance gauges, all tagged with the node's
//! identifier.
//!
//! Gauges are held in fixed-point integer units so that every update is
//! exact: the reputation score and the LINK balance in tenths, the ETH
//! balance in ten-thousandths.

use vstd::prelude::*;
use vstd::string::StringExecFns;
use crate::render::{render_metrics, spec_render};

verus! {

/// Reputation starts at 100.0 points (in tenths).
pub const START_REPUTATION_TENTHS: u64 = 1000;

/// LINK balance starts at 500.0 tokens (in tenths).
pub const START_LINK_TENTHS: u64 = 5000;

/// The mathematical state of the node's metrics.
#[verifier::ext_equal]
pub ghost struct MetricsModel {
    pub node_id: Seq<char>,
    pub requests_total: int,
    pub requests_success: int,
    pub requests_failed: int,
    pub durations_millis: Seq<u64>,
    pub duration_sum_millis: int,
    pub reputation_tenths: int,
    pub eth_ten_thousandths: int,
    pub link_tenths: int,
}

/// The live metric values of one simulated node.
pub struct NodeMetrics {
    pub node_id: String,
    pub requests_total: u64,
    pub requests_success: u64,
    pub requests_failed: u64,
    pub durations_millis: Vec<u64>,
    pub duration_sum_millis: u64,
    pub reputation_tenths: u64,
    pub eth_ten_thousandths: u64,
    pub link_tenths: u64,
}

impl View for NodeMetrics {
    type V = MetricsModel;

    open spec fn view(&self) -> MetricsModel {
        MetricsModel {
            node_id: self.node_id@,
            requests_total: self.requests_total as int,
            requests_success: self.requests_success as int,
            requests_failed: self.requests_failed as int,
            durations_millis: self.durations_millis@,
            duration_sum_millis: self.duration_sum_millis as int,
            reputation_tenths: self.reputation_tenths as int,
            eth_ten_thousandths: self.eth_ten_thousandths as int,
            link_tenths: self.link_tenths as int,
        }
    }
}

/// Sum of a sequence of recorded durations.
pub open spec fn sum_millis(s: Seq<u64>) -> int
    decreases s.len(),
{
    if s.len() == 0 {
        0
    } else {
        sum_millis(s.drop_last()) + s.last()
    }
}

/// The state of a freshly registered node: no requests yet, full reputation,
/// no ETH spent or held, and the starting LINK balance.
pub open spec fn init_model(id: Seq<char>) -> MetricsModel {
    MetricsModel {
        node_id: id,
        requests_total: 0,
        requests_success: 0,
        requests_failed: 0,
        durations_millis: Seq::empty(),
        duration_sum_millis: 0,
        reputation_tenths: START_REPUTATION_TENTHS as int,
        eth_ten_thousandths: 0,
        link_tenths: START_LINK_TENTHS as int,
    }
}

/// How one completed tick folds its outcome into the state: the attempt is
/// always counted and the gas cost of 0.0001 ETH always charged (clamped at
/// zero); a failure decrements the reputation by 0.1 (clamped at zero), a
/// success earns 0.1 LINK; the observed latency is appended either way.
pub open spec fn tick_model(m: MetricsModel, will_fail: bool, delay_millis: u64) -> MetricsModel {
    MetricsModel {
        node_id: m.node_id,
        requests_total: m.requests_total + 1,
        requests_success: m.requests_success + if will_fail { 0int } else { 1int },
        requests_failed: m.requests_failed + if will_fail { 1int } else { 0int },
        durations_millis: m.durations_millis.push(delay_millis),
        duration_sum_millis: m.duration_sum_millis + delay_millis,
        reputation_tenths: if will_fail {
            if m.reputation_tenths >= 1 {
                m.reputation_tenths - 1
            } else {
                0
            }
        } else {
            m.reputation_tenths
        },
        eth_ten_thousandths: if m.eth_ten_thousandths >= 1 {
            m.eth_ten_thousandths - 1
        } else {
            0
        },
        link_tenths: m.link_tenths + if will_fail { 0int } else { 1int },
    }
}

impl NodeMetrics {
    /// Well-formedness: every attempt ended either in success or in failure,
    /// the reputation gauge stays within its scale, and the running duration
    /// sum agrees with the recorded observations.
    pub open spec fn wf(self) -> bool {
        &&& self.requests_total == self.requests_success + self.requests_failed
        &&& self.reputation_tenths <= START_REPUTATION_TENTHS
        &&& self.duration_sum_millis as int == sum_millis(self.durations_millis@)
    }

    /// Registers the metric set of one node, tagged with its identifier.
    pub fn new(node_id: &str) -> (m: NodeMetrics)
        ensures
            m@ == init_model(node_id@),
            m.wf(),
    {
        let m = NodeMetrics {
            node_id: String::from_str(node_id),
            requests_total: 0,
            requests_success: 0,
            requests_failed: 0,
            durations_millis: Vec::new(),
            duration_sum_millis: 0,
            reputation_tenths: START_REPUTATION_TENTHS,
            eth_ten_thousandths: 0,
            link_tenths: START_LINK_TENTHS,
        };
        proof {
            assert(m@ =~= init_model(node_id@));
        }
        m
    }

    /// Folds the outcome of one completed tick into the metrics, exactly as
    /// `tick_model` states.
    pub fn record_tick(&mut self, will_fail: bool, delay_millis: u64)
        requires
            old(self).wf(),
            old(self).requests_total < u64::MAX,
            old(self).link_tenths < u64::MAX,
            old(self).duration_sum_millis + delay_millis <= u64::MAX,
        ensures
            final(self)@ == tick_model(old(self)@, will_fail, delay_millis),
            final(self).wf(),
    {
        self.requests_total = self.requests_total + 1;
        if will_fail {
            self.requests_failed = self.requests_failed + 1;
            if self.reputation_tenths >= 1 {
                self.reputation_tenths = self.reputation_tenths - 1;
            } else {
                self.reputation_tenths = 0;
            }
        } else {
            self.requests_success = self.requests_success + 1;
            self.link_tenths = self.link_tenths + 1;
        }
        if self.eth_ten_thousandths >= 1 {
            self.eth_ten_thousandths = self.eth_ten_thousandths - 1;
        } else {
            self.eth_ten_thousandths = 0;
        }
        self.durations_millis.push(delay_millis);
        self.duration_sum_millis = self.duration_sum_millis + delay_millis;
        proof {
            assert(self.durations_millis@.drop_last() =~= old(self).durations_millis@);
            assert(self@ =~= tick_model(old(self)@, will_fail, delay_millis));
        }
    }

    /// Renders the current values in the plaintext exposition format.
    pub fn export(&self) -> (s: String)
        ensures
            s@ == spec_render(self@),
    {
        render_metrics(self)
    }
}

} // verus!
