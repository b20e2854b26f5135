//! The probe-storm executor's bookkeeping.
//!
//! A storm is a fixed-size batch of independent probes.  The library
//! plans the batch (round-robin over a candidate list, one bounded
//! random jitter per probe) and reduces the outcomes (one success flag
//! per probe) to counts that partition the batch exactly, whatever
//! order the probes completed in.  Executing the probes themselves is
//! blocking host work and is handed to the caller.

use vstd::prelude::*;

use crate::json::{
    fld_s, fld_u, lemma_fld_s_no_newline, lemma_fld_u_no_newline, push_fld_s, push_fld_u,
};
use crate::text::{lemma_no_newline_concat, no_newline, push_char, spec_dec, u64_to_string};

verus! {

use vstd::string::StringExecFns;

/// How many entries of `s` equal `v`.
pub open spec fn count_matching(s: Seq<bool>, v: bool) -> nat
    decreases s.len(),
{
    if s.len() == 0 {
        0
    } else {
        (if s.first() == v {
            1nat
        } else {
            0nat
        }) + count_matching(s.drop_first(), v)
    }
}

/// Counting one more outcome raises exactly the matching count.
pub proof fn lemma_count_matching_push(s: Seq<bool>, v: bool, b: bool)
    ensures
        count_matching(s.push(b), v) == count_matching(s, v) + (if b == v {
            1nat
        } else {
            0nat
        }),
    decreases s.len(),
{
    if s.len() == 0 {
        assert(s.push(b).len() == 1);
        assert(s.push(b).first() == b);
        assert(s.push(b).drop_first() =~= Seq::<bool>::empty());
        assert(count_matching(s.push(b).drop_first(), v) == 0);
        assert(count_matching(s, v) == 0);
    } else {
        assert(s.push(b).len() == s.len() + 1);
        assert(s.push(b).first() == s.first());
        assert(s.push(b).drop_first() =~= s.drop_first().push(b));
        lemma_count_matching_push(s.drop_first(), v, b);
        assert(count_matching(s.push(b), v) == (if s.first() == v {
            1nat
        } else {
            0nat
        }) + count_matching(s.drop_first().push(b), v));
    }
}

/// The successful and failed counts of a batch partition it exactly:
/// for all `N` submitted probes, `successful + failed == N`, whatever
/// the outcomes were.
pub proof fn lemma_counts_partition(s: Seq<bool>)
    ensures
        count_matching(s, true) + count_matching(s, false) == s.len(),
    decreases s.len(),
{
    if s.len() > 0 {
        lemma_counts_partition(s.drop_first());
    }
}

/// A matching count is the count of the value in the multiset of
/// outcomes.
pub proof fn lemma_count_matching_multiset(s: Seq<bool>, v: bool)
    ensures
        count_matching(s, v) == s.to_multiset().count(v),
    decreases s.len(),
{
    broadcast use vstd::seq_lib::group_to_multiset_ensures;
    broadcast use vstd::multiset::group_multiset_axioms;

    if s.len() == 0 {
        assert(!s.contains(v));
        assert(s.to_multiset().count(v) == 0);
    } else {
        lemma_count_matching_multiset(s.drop_first(), v);
        assert(s.drop_first() =~= s.remove(0));
        assert(s.remove(0).to_multiset() =~= s.to_multiset().remove(s[0]));
        assert(s.contains(s[0]));
        assert(s.to_multiset().count(s[0]) > 0);
        if v == s[0] {
            assert(s.to_multiset().remove(s[0]).count(v) + 1 == s.to_multiset().count(v));
        } else {
            assert(s.to_multiset().remove(s[0]).count(v) == s.to_multiset().count(v));
        }
    }
}

/// The reduction is independent of completion order: two outcome
/// sequences that hold the same outcomes in any order reduce to the
/// same counts.
pub proof fn lemma_counts_order_independent(s1: Seq<bool>, s2: Seq<bool>)
    requires
        s1.to_multiset() == s2.to_multiset(),
    ensures
        count_matching(s1, true) == count_matching(s2, true),
        count_matching(s1, false) == count_matching(s2, false),
{
    lemma_count_matching_multiset(s1, true);
    lemma_count_matching_multiset(s2, true);
    lemma_count_matching_multiset(s1, false);
    lemma_count_matching_multiset(s2, false);
}

/// Counts the `true` entries of a flag vector.
pub fn count_true(flags: &Vec<bool>) -> (n: usize)
    ensures
        n == count_matching(flags@, true),
        n <= flags@.len(),
{
    let mut n: usize = 0;
    let mut i: usize = 0;
    let len = flags.len();
    while i < len
        invariant
            len == flags@.len(),
            i <= len,
            n <= i,
            n == count_matching(flags@.take(i as int), true),
        decreases len - i,
    {
        proof {
            lemma_count_matching_push(flags@.take(i as int), true, flags@[i as int]);
            assert(flags@.take(i as int).push(flags@[i as int]) =~= flags@.take(i as int + 1));
        }
        if flags[i] {
            n = n + 1;
        }
        i = i + 1;
    }
    proof {
        assert(flags@.take(len as int) =~= flags@);
    }
    n
}

/// One planned probe: the target it will exercise and the bounded
/// random delay it applies before doing so.
pub struct Probe {
    /// The value this probe exercises (a name to resolve, an endpoint
    /// to open).
    pub target: String,
    /// The probe's own delay, in milliseconds, drawn from the
    /// configured jitter window.
    pub jitter_ms: u64,
}

/// Relies on fastrand::u64: draws a value from the given half-open
/// range; the crate panics on an empty range, which the precondition
/// rules out, and otherwise stays within the range.
#[verifier::external_body]
fn random_in_range(min: u64, max: u64) -> (r: u64)
    requires
        min < max,
    ensures
        min <= r < max,
{
    fastrand::u64(min..max)
}

/// Plans a storm of `total` probes: targets are drawn round-robin
/// from the candidate list, and each probe gets its own jitter from
/// the half-open window `[jitter_min, jitter_max)`.
pub fn plan_round_robin(
    total: usize,
    candidates: &Vec<String>,
    jitter_min: u64,
    jitter_max: u64,
) -> (batch: Vec<Probe>)
    requires
        candidates@.len() > 0,
        jitter_min < jitter_max,
    ensures
        batch@.len() == total,
        forall|i: int|
            0 <= i < total ==> batch@[i].target@ == candidates@[i % candidates@.len() as int]@,
        forall|i: int|
            0 <= i < total ==> jitter_min <= #[trigger] batch@[i].jitter_ms < jitter_max,
{
    let mut batch: Vec<Probe> = Vec::new();
    let n = candidates.len();
    let mut i: usize = 0;
    while i < total
        invariant
            n == candidates@.len(),
            n > 0,
            jitter_min < jitter_max,
            i <= total,
            batch@.len() == i,
            forall|j: int|
                0 <= j < i ==> batch@[j].target@ == candidates@[j % candidates@.len() as int]@,
            forall|j: int| 0 <= j < i ==> jitter_min <= #[trigger] batch@[j].jitter_ms < jitter_max,
        decreases total - i,
    {
        let target = candidates[i % n].clone();
        let jitter_ms = random_in_range(jitter_min, jitter_max);
        batch.push(Probe { target, jitter_ms });
        i = i + 1;
    }
    batch
}

/// The aggregate over one completed storm: derived counts, recomputed
/// fresh each run, plus the identity of the invoking process.
pub struct StormSummary {
    /// The identifier of the owning run.
    pub test_id: String,
    /// The instant the summary was formed.
    pub timestamp: String,
    /// The technique classifier of the invoking module.
    pub mitre: String,
    /// The name of the invoking module.
    pub module: String,
    /// How many probes the batch held.
    pub total_queries: u64,
    /// How many probes succeeded.
    pub successful: u64,
    /// How many probes failed.
    pub failed: u64,
    /// Wall-clock time of the whole batch, in milliseconds.
    pub elapsed_ms: u64,
    /// The identity of the invoking process.
    pub parent: String,
}

/// The labelled header lines of a storm's human-readable log block.
pub open spec fn storm_log_header(s: StormSummary) -> Seq<(Seq<char>, Seq<char>)> {
    seq![
        ("TEST ID       : "@, s.test_id@),
        ("TIMESTAMP     : "@, s.timestamp@),
        ("MODULE        : "@, s.module@),
        ("MITRE TTP     : "@, s.mitre@),
        ("TOTAL QUERIES : "@, spec_dec(s.total_queries as nat)),
        ("SUCCESSFUL    : "@, spec_dec(s.successful as nat)),
        ("FAILED        : "@, spec_dec(s.failed as nat)),
        ("ELAPSED_MS    : "@, spec_dec(s.elapsed_ms as nat)),
    ]
}

/// Builds the header pairs of a storm's log block.
pub fn storm_log_pairs(s: &StormSummary) -> (pairs: Vec<(String, String)>)
    ensures
        crate::telemetry::pairs_view(pairs@) == storm_log_header(*s),
{
    let mut pairs: Vec<(String, String)> = Vec::new();
    pairs.push((String::from_str("TEST ID       : "), s.test_id.clone()));
    pairs.push((String::from_str("TIMESTAMP     : "), s.timestamp.clone()));
    pairs.push((String::from_str("MODULE        : "), s.module.clone()));
    pairs.push((String::from_str("MITRE TTP     : "), s.mitre.clone()));
    pairs.push((String::from_str("TOTAL QUERIES : "), u64_to_string(s.total_queries)));
    pairs.push((String::from_str("SUCCESSFUL    : "), u64_to_string(s.successful)));
    pairs.push((String::from_str("FAILED        : "), u64_to_string(s.failed)));
    pairs.push((String::from_str("ELAPSED_MS    : "), u64_to_string(s.elapsed_ms)));
    proof {
        assert(crate::telemetry::pairs_view(pairs@) =~= storm_log_header(*s));
    }
    pairs
}

/// The one-line JSON object under which a storm summary appears in
/// its summary stream.
#[verifier::opaque]
pub open spec fn storm_summary_json(s: StormSummary) -> Seq<char> {
    seq!['{'] + fld_s("test_id"@, s.test_id@) + seq![','] + fld_s("timestamp"@, s.timestamp@)
        + seq![','] + fld_s("mitre"@, s.mitre@) + seq![','] + fld_s("module"@, s.module@)
        + seq![','] + fld_u("total_queries"@, s.total_queries as nat) + seq![','] + fld_u(
        "successful"@,
        s.successful as nat,
    ) + seq![','] + fld_u("failed"@, s.failed as nat) + seq![','] + fld_u(
        "elapsed_ms"@,
        s.elapsed_ms as nat,
    ) + seq![','] + fld_s("parent"@, s.parent@) + seq!['}']
}

/// An encoded storm summary never contains a raw newline.
pub proof fn lemma_storm_summary_json_no_newline(s: StormSummary)
    ensures
        no_newline(storm_summary_json(s)),
{
    reveal(storm_summary_json);
    lemma_fld_s_no_newline("test_id"@, s.test_id@);
    lemma_fld_s_no_newline("timestamp"@, s.timestamp@);
    lemma_fld_s_no_newline("mitre"@, s.mitre@);
    lemma_fld_s_no_newline("module"@, s.module@);
    lemma_fld_u_no_newline("total_queries"@, s.total_queries as nat);
    lemma_fld_u_no_newline("successful"@, s.successful as nat);
    lemma_fld_u_no_newline("failed"@, s.failed as nat);
    lemma_fld_u_no_newline("elapsed_ms"@, s.elapsed_ms as nat);
    lemma_fld_s_no_newline("parent"@, s.parent@);
    let p1 = seq!['{'] + fld_s("test_id"@, s.test_id@);
    lemma_no_newline_concat(seq!['{'], fld_s("test_id"@, s.test_id@));
    let p2 = p1 + seq![','];
    lemma_no_newline_concat(p1, seq![',']);
    let p3 = p2 + fld_s("timestamp"@, s.timestamp@);
    lemma_no_newline_concat(p2, fld_s("timestamp"@, s.timestamp@));
    let p4 = p3 + seq![','];
    lemma_no_newline_concat(p3, seq![',']);
    let p5 = p4 + fld_s("mitre"@, s.mitre@);
    lemma_no_newline_concat(p4, fld_s("mitre"@, s.mitre@));
    let p6 = p5 + seq![','];
    lemma_no_newline_concat(p5, seq![',']);
    let p7 = p6 + fld_s("module"@, s.module@);
    lemma_no_newline_concat(p6, fld_s("module"@, s.module@));
    let p8 = p7 + seq![','];
    lemma_no_newline_concat(p7, seq![',']);
    let p9 = p8 + fld_u("total_queries"@, s.total_queries as nat);
    lemma_no_newline_concat(p8, fld_u("total_queries"@, s.total_queries as nat));
    let p10 = p9 + seq![','];
    lemma_no_newline_concat(p9, seq![',']);
    let p11 = p10 + fld_u("successful"@, s.successful as nat);
    lemma_no_newline_concat(p10, fld_u("successful"@, s.successful as nat));
    let p12 = p11 + seq![','];
    lemma_no_newline_concat(p11, seq![',']);
    let p13 = p12 + fld_u("failed"@, s.failed as nat);
    lemma_no_newline_concat(p12, fld_u("failed"@, s.failed as nat));
    let p14 = p13 + seq![','];
    lemma_no_newline_concat(p13, seq![',']);
    let p15 = p14 + fld_u("elapsed_ms"@, s.elapsed_ms as nat);
    lemma_no_newline_concat(p14, fld_u("elapsed_ms"@, s.elapsed_ms as nat));
    let p16 = p15 + seq![','];
    lemma_no_newline_concat(p15, seq![',']);
    let p17 = p16 + fld_s("parent"@, s.parent@);
    lemma_no_newline_concat(p16, fld_s("parent"@, s.parent@));
    lemma_no_newline_concat(p17, seq!['}']);
}

/// Encodes a storm summary as its one-line JSON object.
pub fn encode_storm_summary(s: &StormSummary) -> (line: String)
    ensures
        line@ == storm_summary_json(*s),
        no_newline(line@),
{
    let mut out = String::new();
    push_char(&mut out, '{');
    push_fld_s(&mut out, "test_id", s.test_id.as_str());
    push_char(&mut out, ',');
    push_fld_s(&mut out, "timestamp", s.timestamp.as_str());
    push_char(&mut out, ',');
    push_fld_s(&mut out, "mitre", s.mitre.as_str());
    push_char(&mut out, ',');
    push_fld_s(&mut out, "module", s.module.as_str());
    push_char(&mut out, ',');
    push_fld_u(&mut out, "total_queries", s.total_queries);
    push_char(&mut out, ',');
    push_fld_u(&mut out, "successful", s.successful);
    push_char(&mut out, ',');
    push_fld_u(&mut out, "failed", s.failed);
    push_char(&mut out, ',');
    push_fld_u(&mut out, "elapsed_ms", s.elapsed_ms);
    push_char(&mut out, ',');
    push_fld_s(&mut out, "parent", s.parent.as_str());
    push_char(&mut out, '}');
    proof {
        reveal(storm_summary_json);
        assert(out@ =~= storm_summary_json(*s));
        lemma_storm_summary_json_no_newline(*s);
    }
    out
}

} // verus!
