//! Rendering of the node's metrics into the plaintext exposition format.
//!
//! Every metric family is written as a `# HELP` line, a `# TYPE` line and
//! its sample lines, families ordered by metric name; every sample carries
//! the node's identifier as a `node_id` label, with backslash, double quote
//! and newline escaped in the label value. The latency distribution is
//! written as a histogram with cumulative buckets at 1, 2, 5, 10, 20, 30
//! and 60 seconds.

use vstd::prelude::*;
use vstd::string::StrSliceExecFns;
use vstd::string::StringExecFns;
use crate::metrics::{MetricsModel, NodeMetrics};
use crate::text::{dec_of, dec_string, fixed_of, fixed_string, push_char, push_dec};

verus! {

/// A label-value character as it is written: backslash, double quote and
/// newline get a backslash escape, everything else stands as itself.
pub open spec fn escaped_char(c: char) -> Seq<char> {
    if c == '\\' {
        seq!['\\', '\\']
    } else if c == '"' {
        seq!['\\', '"']
    } else if c == '\n' {
        seq!['\\', 'n']
    } else {
        seq![c]
    }
}

/// A label value as it is written, character by character.
pub open spec fn escaped(s: Seq<char>) -> Seq<char>
    decreases s.len(),
{
    if s.len() == 0 {
        Seq::empty()
    } else {
        escaped(s.drop_last()) + escaped_char(s.last())
    }
}

/// One sample line: the metric name, the `node_id` label, and the value.
pub open spec fn series_line(name: Seq<char>, id: Seq<char>, value: Seq<char>) -> Seq<char> {
    name + "{node_id=\""@ + escaped(id) + "\"} "@ + value + "\n"@
}

/// One cumulative bucket line of the latency histogram, with its `le`
/// boundary label.
pub open spec fn bucket_line(id: Seq<char>, le: Seq<char>, count: nat) -> Seq<char> {
    "oracle_request_duration_seconds_bucket{node_id=\""@ + escaped(id) + "\",le=\""@ + le
        + "\"} "@ + dec_of(count) + "\n"@
}

/// Number of recorded durations of at most `bound` milliseconds.
pub open spec fn count_le(s: Seq<u64>, bound: u64) -> nat
    decreases s.len(),
{
    if s.len() == 0 {
        0
    } else {
        count_le(s.drop_last(), bound) + if s.last() <= bound {
            1nat
        } else {
            0nat
        }
    }
}

pub open spec fn eth_block(m: MetricsModel) -> Seq<char> {
    "# HELP oracle_eth_balance Node ETH balance\n# TYPE oracle_eth_balance gauge\n"@
        + series_line(
        "oracle_eth_balance"@,
        m.node_id,
        fixed_of(m.eth_ten_thousandths as nat, 4),
    )
}

pub open spec fn link_block(m: MetricsModel) -> Seq<char> {
    "# HELP oracle_link_balance Node LINK token balance\n# TYPE oracle_link_balance gauge\n"@
        + series_line("oracle_link_balance"@, m.node_id, fixed_of(m.link_tenths as nat, 1))
}

pub open spec fn reputation_block(m: MetricsModel) -> Seq<char> {
    "# HELP oracle_reputation_score Node reputation score (0-100)\n# TYPE oracle_reputation_score gauge\n"@
        + series_line(
        "oracle_reputation_score"@,
        m.node_id,
        fixed_of(m.reputation_tenths as nat, 1),
    )
}

pub open spec fn duration_block(m: MetricsModel) -> Seq<char> {
    "# HELP oracle_request_duration_seconds Oracle request duration in seconds\n# TYPE oracle_request_duration_seconds histogram\n"@
        + bucket_line(m.node_id, "1"@, count_le(m.durations_millis, 1000)) + bucket_line(
        m.node_id,
        "2"@,
        count_le(m.durations_millis, 2000),
    ) + bucket_line(m.node_id, "5"@, count_le(m.durations_millis, 5000)) + bucket_line(
        m.node_id,
        "10"@,
        count_le(m.durations_millis, 10000),
    ) + bucket_line(m.node_id, "20"@, count_le(m.durations_millis, 20000)) + bucket_line(
        m.node_id,
        "30"@,
        count_le(m.durations_millis, 30000),
    ) + bucket_line(m.node_id, "60"@, count_le(m.durations_millis, 60000)) + bucket_line(
        m.node_id,
        "+Inf"@,
        m.durations_millis.len(),
    ) + series_line(
        "oracle_request_duration_seconds_sum"@,
        m.node_id,
        fixed_of(m.duration_sum_millis as nat, 3),
    ) + series_line(
        "oracle_request_duration_seconds_count"@,
        m.node_id,
        dec_of(m.durations_millis.len()),
    )
}

pub open spec fn failed_block(m: MetricsModel) -> Seq<char> {
    "# HELP oracle_requests_failed_total Failed oracle requests\n# TYPE oracle_requests_failed_total counter\n"@
        + series_line(
        "oracle_requests_failed_total"@,
        m.node_id,
        dec_of(m.requests_failed as nat),
    )
}

pub open spec fn success_block(m: MetricsModel) -> Seq<char> {
    "# HELP oracle_requests_success_total Successful oracle requests\n# TYPE oracle_requests_success_total counter\n"@
        + series_line(
        "oracle_requests_success_total"@,
        m.node_id,
        dec_of(m.requests_success as nat),
    )
}

pub open spec fn total_block(m: MetricsModel) -> Seq<char> {
    "# HELP oracle_requests_total Total number of oracle requests\n# TYPE oracle_requests_total counter\n"@
        + series_line("oracle_requests_total"@, m.node_id, dec_of(m.requests_total as nat))
}

/// The whole exposition text, families ordered by metric name.
pub open spec fn spec_render(m: MetricsModel) -> Seq<char> {
    eth_block(m) + link_block(m) + reputation_block(m) + duration_block(m) + failed_block(m)
        + success_block(m) + total_block(m)
}

proof fn lemma_escaped_step(s: Seq<char>, i: int)
    requires
        0 <= i < s.len(),
    ensures
        escaped(s.take(i + 1)) == escaped(s.take(i)) + escaped_char(s[i]),
{
    assert(s.take(i + 1).drop_last() =~= s.take(i));
    assert(s.take(i + 1).last() == s[i]);
}

proof fn lemma_count_step(s: Seq<u64>, bound: u64, i: int)
    requires
        0 <= i < s.len(),
    ensures
        count_le(s.take(i + 1), bound) == count_le(s.take(i), bound) + if s[i] <= bound {
            1nat
        } else {
            0nat
        },
{
    assert(s.take(i + 1).drop_last() =~= s.take(i));
    assert(s.take(i + 1).last() == s[i]);
}

fn push_escaped(out: &mut String, id: &str)
    ensures
        final(out)@ == old(out)@ + escaped(id@),
{
    let ghost orig: Seq<char> = out@;
    let n = id.unicode_len();
    let mut i: usize = 0;
    while i < n
        invariant
            n == id@.len(),
            i <= n,
            out@ == orig + escaped(id@.take(i as int)),
        decreases n - i,
    {
        let c = id.get_char(i);
        if c == '\\' {
            proof {
                reveal_strlit("\\\\");
                assert("\\\\"@ =~= escaped_char(id@[i as int]));
            }
            out.append("\\\\");
        } else if c == '"' {
            proof {
                reveal_strlit("\\\"");
                assert("\\\""@ =~= escaped_char(id@[i as int]));
            }
            out.append("\\\"");
        } else if c == '\n' {
            proof {
                reveal_strlit("\\n");
                assert("\\n"@ =~= escaped_char(id@[i as int]));
            }
            out.append("\\n");
        } else {
            push_char(out, c);
            proof {
                assert(out@ =~= (orig + escaped(id@.take(i as int))) + escaped_char(
                    id@[i as int],
                ));
            }
        }
        proof {
            lemma_escaped_step(id@, i as int);
            assert(out@ =~= orig + escaped(id@.take(i as int + 1)));
        }
        i += 1;
    }
    proof {
        assert(id@.take(n as int) =~= id@);
    }
}

fn push_series_line(out: &mut String, name: &str, id: &str, value: &String)
    ensures
        final(out)@ == old(out)@ + series_line(name@, id@, value@),
{
    out.append(name);
    out.append("{node_id=\"");
    push_escaped(out, id);
    out.append("\"} ");
    out.append(value.as_str());
    out.append("\n");
    proof {
        assert(out@ =~= old(out)@ + series_line(name@, id@, value@));
    }
}

fn push_bucket_line(out: &mut String, id: &str, le: &str, count: u64)
    ensures
        final(out)@ == old(out)@ + bucket_line(id@, le@, count as nat),
{
    out.append("oracle_request_duration_seconds_bucket{node_id=\"");
    push_escaped(out, id);
    out.append("\",le=\"");
    out.append(le);
    out.append("\"} ");
    push_dec(out, count);
    out.append("\n");
    proof {
        assert(out@ =~= old(out)@ + bucket_line(id@, le@, count as nat));
    }
}

/// Number of recorded durations of at most `bound` milliseconds.
fn count_within(v: &Vec<u64>, bound: u64) -> (c: u64)
    ensures
        c as nat == count_le(v@, bound),
{
    let mut c: u64 = 0;
    let mut i: usize = 0;
    while i < v.len()
        invariant
            i <= v@.len(),
            c <= i,
            c as nat == count_le(v@.take(i as int), bound),
        decreases v@.len() - i,
    {
        proof {
            lemma_count_step(v@, bound, i as int);
        }
        if v[i] <= bound {
            c = c + 1;
        }
        i += 1;
    }
    proof {
        assert(v@.take(v@.len() as int) =~= v@);
    }
    c
}

fn push_eth_block(out: &mut String, m: &NodeMetrics)
    ensures
        final(out)@ == old(out)@ + eth_block(m@),
{
    out.append("# HELP oracle_eth_balance Node ETH balance\n# TYPE oracle_eth_balance gauge\n");
    let v = fixed_string(m.eth_ten_thousandths, 4);
    push_series_line(out, "oracle_eth_balance", m.node_id.as_str(), &v);
    proof {
        assert(out@ =~= old(out)@ + eth_block(m@));
    }
}

fn push_link_block(out: &mut String, m: &NodeMetrics)
    ensures
        final(out)@ == old(out)@ + link_block(m@),
{
    out.append(
        "# HELP oracle_link_balance Node LINK token balance\n# TYPE oracle_link_balance gauge\n",
    );
    let v = fixed_string(m.link_tenths, 1);
    push_series_line(out, "oracle_link_balance", m.node_id.as_str(), &v);
    proof {
        assert(out@ =~= old(out)@ + link_block(m@));
    }
}

fn push_reputation_block(out: &mut String, m: &NodeMetrics)
    ensures
        final(out)@ == old(out)@ + reputation_block(m@),
{
    out.append(
        "# HELP oracle_reputation_score Node reputation score (0-100)\n# TYPE oracle_reputation_score gauge\n",
    );
    let v = fixed_string(m.reputation_tenths, 1);
    push_series_line(out, "oracle_reputation_score", m.node_id.as_str(), &v);
    proof {
        assert(out@ =~= old(out)@ + reputation_block(m@));
    }
}

#[verifier::rlimit(50)]
fn push_duration_block(out: &mut String, m: &NodeMetrics)
    ensures
        final(out)@ == old(out)@ + duration_block(m@),
{
    let id = m.node_id.as_str();
    out.append(
        "# HELP oracle_request_duration_seconds Oracle request duration in seconds\n# TYPE oracle_request_duration_seconds histogram\n",
    );
    let c1 = count_within(&m.durations_millis, 1000);
    push_bucket_line(out, id, "1", c1);
    let c2 = count_within(&m.durations_millis, 2000);
    push_bucket_line(out, id, "2", c2);
    let c5 = count_within(&m.durations_millis, 5000);
    push_bucket_line(out, id, "5", c5);
    let c10 = count_within(&m.durations_millis, 10000);
    push_bucket_line(out, id, "10", c10);
    let c20 = count_within(&m.durations_millis, 20000);
    push_bucket_line(out, id, "20", c20);
    let c30 = count_within(&m.durations_millis, 30000);
    push_bucket_line(out, id, "30", c30);
    let c60 = count_within(&m.durations_millis, 60000);
    push_bucket_line(out, id, "60", c60);
    let total_count = m.durations_millis.len() as u64;
    push_bucket_line(out, id, "+Inf", total_count);
    let v_sum = fixed_string(m.duration_sum_millis, 3);
    push_series_line(out, "oracle_request_duration_seconds_sum", id, &v_sum);
    let v_count = dec_string(total_count);
    push_series_line(out, "oracle_request_duration_seconds_count", id, &v_count);
    proof {
        assert(out@ =~= old(out)@ + duration_block(m@));
    }
}

fn push_failed_block(out: &mut String, m: &NodeMetrics)
    ensures
        final(out)@ == old(out)@ + failed_block(m@),
{
    out.append(
        "# HELP oracle_requests_failed_total Failed oracle requests\n# TYPE oracle_requests_failed_total counter\n",
    );
    let v = dec_string(m.requests_failed);
    push_series_line(out, "oracle_requests_failed_total", m.node_id.as_str(), &v);
    proof {
        assert(out@ =~= old(out)@ + failed_block(m@));
    }
}

fn push_success_block(out: &mut String, m: &NodeMetrics)
    ensures
        final(out)@ == old(out)@ + success_block(m@),
{
    out.append(
        "# HELP oracle_requests_success_total Successful oracle requests\n# TYPE oracle_requests_success_total counter\n",
    );
    let v = dec_string(m.requests_success);
    push_series_line(out, "oracle_requests_success_total", m.node_id.as_str(), &v);
    proof {
        assert(out@ =~= old(out)@ + success_block(m@));
    }
}

fn push_total_block(out: &mut String, m: &NodeMetrics)
    ensures
        final(out)@ == old(out)@ + total_block(m@),
{
    out.append(
        "# HELP oracle_requests_total Total number of oracle requests\n# TYPE oracle_requests_total counter\n",
    );
    let v = dec_string(m.requests_total);
    push_series_line(out, "oracle_requests_total", m.node_id.as_str(), &v);
    proof {
        assert(out@ =~= old(out)@ + total_block(m@));
    }
}

/// Renders the metrics into the exposition text that `spec_render` states.
pub fn render_metrics(m: &NodeMetrics) -> (s: String)
    ensures
        s@ == spec_render(m@),
{
    let mut out = String::new();
    push_eth_block(&mut out, m);
    push_link_block(&mut out, m);
    push_reputation_block(&mut out, m);
    push_duration_block(&mut out, m);
    push_failed_block(&mut out, m);
    push_success_block(&mut out, m);
    push_total_block(&mut out, m);
    proof {
        assert(out@ =~= spec_render(m@));
    }
    out
}

} // verus!
