//! Quality tiers: the behavior profiles of the simulated node.

use vstd::prelude::*;
use vstd::string::StrSliceExecFns;

verus! {

/// Behavior profile of the simulated node, chosen once at startup. It fixes
/// the failure probability and the latency range of every fabricated request.
#[derive(Clone, Copy, PartialEq, Eq, Structural, Debug)]
pub enum QualityTier {
    High,
    Medium,
    Low,
}

/// Failure draws are uniform over `0 .. DRAW_SPAN`; a draw below the tier's
/// threshold counts as a failure.
pub const DRAW_SPAN: u64 = 10000;

/// How many draws out of `DRAW_SPAN` fail for each tier:
/// 1% for High, 2% for Medium, 5% for Low.
pub open spec fn spec_fail_threshold(t: QualityTier) -> u64 {
    match t {
        QualityTier::High => 100,
        QualityTier::Medium => 200,
        QualityTier::Low => 500,
    }
}

/// Inclusive lower bound of the tier's simulated delay, in milliseconds.
pub open spec fn spec_delay_lo(t: QualityTier) -> u64 {
    match t {
        QualityTier::High => 500,
        QualityTier::Medium => 2000,
        QualityTier::Low => 5000,
    }
}

/// Exclusive upper bound of the tier's simulated delay, in milliseconds.
pub open spec fn spec_delay_hi(t: QualityTier) -> u64 {
    match t {
        QualityTier::High => 2000,
        QualityTier::Medium => 8000,
        QualityTier::Low => 15000,
    }
}

pub fn fail_threshold(t: QualityTier) -> (r: u64)
    ensures
        r == spec_fail_threshold(t),
{
    match t {
        QualityTier::High => 100,
        QualityTier::Medium => 200,
        QualityTier::Low => 500,
    }
}

pub fn delay_lo(t: QualityTier) -> (r: u64)
    ensures
        r == spec_delay_lo(t),
{
    match t {
        QualityTier::High => 500,
        QualityTier::Medium => 2000,
        QualityTier::Low => 5000,
    }
}

pub fn delay_hi(t: QualityTier) -> (r: u64)
    ensures
        r == spec_delay_hi(t),
{
    match t {
        QualityTier::High => 2000,
        QualityTier::Medium => 8000,
        QualityTier::Low => 15000,
    }
}

/// The tier a configuration string selects; anything unrecognized falls back
/// to `High`.
pub open spec fn spec_tier_of(s: Seq<char>) -> QualityTier {
    if s == "medium"@ {
        QualityTier::Medium
    } else if s == "low"@ {
        QualityTier::Low
    } else {
        QualityTier::High
    }
}

/// Whether a configuration string names a tier exactly (case-sensitive).
pub open spec fn spec_tier_recognized(s: Seq<char>) -> bool {
    s == "high"@ || s == "medium"@ || s == "low"@
}

/// Character-wise string comparison, so that tier selection needs nothing
/// beyond the character view of its input.
fn str_eq(a: &str, b: &str) -> (r: bool)
    ensures
        r == (a@ == b@),
{
    let alen = a.unicode_len();
    let blen = b.unicode_len();
    if alen != blen {
        return false;
    }
    let mut i: usize = 0;
    while i < alen
        invariant
            alen == a@.len(),
            blen == b@.len(),
            alen == blen,
            i <= alen,
            forall|j: int| 0 <= j < i ==> a@[j] == b@[j],
        decreases alen - i,
    {
        if a.get_char(i) != b.get_char(i) {
            return false;
        }
        i += 1;
    }
    proof {
        assert(a@ =~= b@);
    }
    true
}

/// Parse the tier selector from configuration. The second component reports
/// whether the value was recognized; on an unrecognized value the caller is
/// expected to warn and use the returned `High` fallback.
pub fn tier_from_config(s: &str) -> (r: (QualityTier, bool))
    ensures
        r.0 == spec_tier_of(s@),
        r.1 == spec_tier_recognized(s@),
{
    proof {
        reveal_strlit("high");
        reveal_strlit("medium");
        reveal_strlit("low");
        assert("high"@.len() == 4 && "medium"@.len() == 6 && "low"@.len() == 3);
        assert("high"@ != "medium"@ && "high"@ != "low"@ && "medium"@ != "low"@);
    }
    if str_eq(s, "high") {
        (QualityTier::High, true)
    } else if str_eq(s, "medium") {
        (QualityTier::Medium, true)
    } else if str_eq(s, "low") {
        (QualityTier::Low, true)
    } else {
        (QualityTier::High, false)
    }
}

} // verus!
