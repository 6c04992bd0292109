use chainlink_node_simulator::engine::OracleNode;
use chainlink_node_simulator::metrics::NodeMetrics;
use chainlink_node_simulator::tier::QualityTier;

fn fresh_node(id: &str, tier: QualityTier) -> OracleNode {
    let metrics = NodeMetrics::new(id);
    OracleNode::new(String::from(id), tier, metrics)
}

/// A fresh registry starts with zeroed counters, full reputation, no ETH
/// and the starting LINK balance of 500.0.
#[test]
fn initial_state() {
    let m = NodeMetrics::new("node_1");
    assert_eq!(m.requests_total, 0);
    assert_eq!(m.requests_success, 0);
    assert_eq!(m.requests_failed, 0);
    assert_eq!(m.durations_millis.len(), 0);
    assert_eq!(m.duration_sum_millis, 0);
    assert_eq!(m.reputation_tenths, 1000);
    assert_eq!(m.eth_ten_thousandths, 0);
    assert_eq!(m.link_tenths, 5000);
    assert_eq!(m.node_id, "node_1");
}

/// `requests_total` after K ticks equals exactly K, however the outcomes
/// fell.
#[test]
fn total_counts_ticks_exactly() {
    let mut node = fresh_node("n", QualityTier::Medium);
    let k: u64 = 137;
    for i in 0..k {
        node.tick_with_outcome(i % 3 == 0, 2500);
    }
    assert_eq!(node.metrics.requests_total, k);
}

/// Success and failure counters always split the total.
#[test]
fn counters_always_balance() {
    let mut node = fresh_node("n", QualityTier::Low);
    for i in 0..200u64 {
        node.tick_with_outcome(i % 7 < 2, 6000);
        let m = &node.metrics;
        assert_eq!(m.requests_success + m.requests_failed, m.requests_total);
    }
}

/// The reputation score never increases and never drops below zero, one
/// tenth lost per failure.
#[test]
fn reputation_only_degrades_and_clamps() {
    let mut node = fresh_node("n", QualityTier::High);
    let mut previous = node.metrics.reputation_tenths;
    assert_eq!(previous, 1000);
    for i in 0..2500u64 {
        node.tick_with_outcome(i % 2 == 0, 600);
        let current = node.metrics.reputation_tenths;
        assert!(current <= previous);
        previous = current;
    }
    // 1250 failures exceed the 1000 tenths of the scale: clamped at zero.
    assert_eq!(node.metrics.reputation_tenths, 0);
}

/// The ETH balance loses exactly one ten-thousandth per tick until it would
/// clamp at zero, on success and failure alike.
#[test]
fn eth_balance_drains_and_clamps() {
    let mut node = fresh_node("n", QualityTier::High);
    node.metrics.eth_ten_thousandths = 3;
    node.tick_with_outcome(false, 600);
    assert_eq!(node.metrics.eth_ten_thousandths, 2);
    node.tick_with_outcome(true, 600);
    assert_eq!(node.metrics.eth_ten_thousandths, 1);
    node.tick_with_outcome(false, 600);
    assert_eq!(node.metrics.eth_ten_thousandths, 0);
    node.tick_with_outcome(true, 600);
    assert_eq!(node.metrics.eth_ten_thousandths, 0);
}

/// The LINK balance starts at 500.0 and earns exactly one tenth per
/// successful tick, unaffected by failures.
#[test]
fn link_balance_rewards_successes_only() {
    let mut node = fresh_node("n", QualityTier::Medium);
    assert_eq!(node.metrics.link_tenths, 5000);
    for _ in 0..30 {
        node.tick_with_outcome(true, 2000);
    }
    assert_eq!(node.metrics.link_tenths, 5000);
    for _ in 0..12 {
        node.tick_with_outcome(false, 2000);
    }
    assert_eq!(node.metrics.link_tenths, 5012);
}

/// A random tick reports the decision it drew and mutates the state exactly
/// once per call.
#[test]
fn handle_request_applies_its_own_decision() {
    let mut node = fresh_node("n", QualityTier::High);
    let mut successes: u64 = 0;
    for i in 0..50u64 {
        let d = node.handle_request();
        assert!(500 <= d.delay_millis && d.delay_millis < 2000);
        if !d.will_fail {
            successes += 1;
        }
        assert_eq!(node.metrics.requests_total, i + 1);
        assert_eq!(node.metrics.requests_success, successes);
        assert_eq!(
            node.metrics.durations_millis.last().copied(),
            Some(d.delay_millis)
        );
    }
}

/// The High-tier scenario: three forced outcomes — success, failure,
/// success — with delays of 600, 700 and 800 milliseconds.
#[test]
fn forced_three_tick_scenario() {
    let mut node = fresh_node("node_1", QualityTier::High);
    node.tick_with_outcome(false, 600);
    node.tick_with_outcome(true, 700);
    node.tick_with_outcome(false, 800);

    let m = &node.metrics;
    assert_eq!(m.requests_total, 3);
    assert_eq!(m.requests_success, 2);
    assert_eq!(m.requests_failed, 1);
    assert_eq!(m.link_tenths, 5002); // 500.2 LINK
    assert_eq!(m.reputation_tenths, 999); // 99.9 points
    assert_eq!(m.eth_ten_thousandths, 0); // 0 - 3 gas costs, clamped at 0
    assert_eq!(m.durations_millis, vec![600, 700, 800]);
    assert_eq!(m.duration_sum_millis, 2100);

    let text = m.export();
    assert!(text.contains("oracle_link_balance{node_id=\"node_1\"} 500.2\n"));
    assert!(text.contains("oracle_reputation_score{node_id=\"node_1\"} 99.9\n"));
    assert!(text.contains("oracle_eth_balance{node_id=\"node_1\"} 0\n"));
    assert!(text.contains("oracle_requests_total{node_id=\"node_1\"} 3\n"));
    assert!(text.contains("oracle_requests_success_total{node_id=\"node_1\"} 2\n"));
    assert!(text.contains("oracle_requests_failed_total{node_id=\"node_1\"} 1\n"));
    assert!(text.contains("oracle_request_duration_seconds_sum{node_id=\"node_1\"} 2.1\n"));
    assert!(text.contains("oracle_request_duration_seconds_count{node_id=\"node_1\"} 3\n"));
}
