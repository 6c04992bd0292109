use chainlink_node_simulator::policy::{decide, fails_for_draw};
use chainlink_node_simulator::tier::{tier_from_config, QualityTier};

fn delay_bounds(tier: QualityTier) -> (u64, u64) {
    match tier {
        QualityTier::High => (500, 2000),
        QualityTier::Medium => (2000, 8000),
        QualityTier::Low => (5000, 15000),
    }
}

fn nominal_fails_per_10000(tier: QualityTier) -> u64 {
    match tier {
        QualityTier::High => 100,
        QualityTier::Medium => 200,
        QualityTier::Low => 500,
    }
}

/// Over many independent decisions the empirical failure rate stays within
/// one percentage point (absolute) of the tier's nominal probability.
#[test]
fn failure_rate_tracks_tier_probability() {
    let n: u64 = 10000;
    for tier in [QualityTier::High, QualityTier::Medium, QualityTier::Low] {
        let mut failures: u64 = 0;
        for _ in 0..n {
            if decide(tier).will_fail {
                failures += 1;
            }
        }
        let nominal = nominal_fails_per_10000(tier);
        let tolerance = 100; // one percentage point of 10000 draws
        assert!(
            failures + tolerance >= nominal && failures <= nominal + tolerance,
            "tier {:?}: {} failures out of {}",
            tier,
            failures,
            n
        );
    }
}

/// Every sampled delay lies in the tier's closed-open interval, and over a
/// large sample the minimum and maximum approach the interval bounds.
#[test]
fn delays_fill_tier_interval() {
    for tier in [QualityTier::High, QualityTier::Medium, QualityTier::Low] {
        let (lo, hi) = delay_bounds(tier);
        let span = hi - lo;
        let mut min_seen = u64::MAX;
        let mut max_seen = 0;
        for _ in 0..10000 {
            let d = decide(tier).delay_millis;
            assert!(lo <= d && d < hi, "tier {:?}: delay {} out of range", tier, d);
            min_seen = min_seen.min(d);
            max_seen = max_seen.max(d);
        }
        assert!(min_seen < lo + span / 10);
        assert!(max_seen >= hi - span / 10);
    }
}

/// Exactly the draws below the tier's threshold count as failures.
#[test]
fn failure_threshold_is_exact() {
    assert!(fails_for_draw(QualityTier::High, 0));
    assert!(fails_for_draw(QualityTier::High, 99));
    assert!(!fails_for_draw(QualityTier::High, 100));
    assert!(fails_for_draw(QualityTier::Medium, 199));
    assert!(!fails_for_draw(QualityTier::Medium, 200));
    assert!(fails_for_draw(QualityTier::Low, 499));
    assert!(!fails_for_draw(QualityTier::Low, 500));
    assert!(!fails_for_draw(QualityTier::Low, 9999));
}

/// The tier selector is parsed case-sensitively, with `High` as the
/// explicit fallback for anything unrecognized.
#[test]
fn tier_selector_parses_and_falls_back() {
    assert_eq!(tier_from_config("high"), (QualityTier::High, true));
    assert_eq!(tier_from_config("medium"), (QualityTier::Medium, true));
    assert_eq!(tier_from_config("low"), (QualityTier::Low, true));
    assert_eq!(tier_from_config("High"), (QualityTier::High, false));
    assert_eq!(tier_from_config("LOW"), (QualityTier::High, false));
    assert_eq!(tier_from_config(""), (QualityTier::High, false));
    assert_eq!(tier_from_config("ultra"), (QualityTier::High, false));
}
