//! Parallel name-resolution storm with per-target telemetry.
//!
//! The module plans a fixed-size batch of lookups drawn round-robin
//! from a benign candidate list, hands the batch to the host for
//! concurrent execution, and reduces the outcomes: one detail record
//! per lookup, one summary, one terminal ledger record.

use vstd::prelude::*;

use crate::config::RunConfig;
use crate::json::{
    fld_b, fld_os, fld_s, lemma_fld_b_no_newline, lemma_fld_os_no_newline, lemma_fld_s_no_newline,
    push_fld_b, push_fld_os, push_fld_s,
};
use crate::ledger::Ledger;
use crate::record::{opt_view, ActionError, ActionRecord, Status};
use crate::storm::{count_matching, lemma_counts_partition, count_true};
use crate::text::{lemma_no_newline_concat, no_newline, push_char, push_dec_u64, spec_dec};

verus! {

use vstd::string::StringExecFns;

/// How many lookups one storm issues.
pub const TOTAL_QUERIES: usize = 40;

/// The lower bound of the per-probe jitter window, in milliseconds.
pub const MIN_JITTER_MS: u64 = 10;

/// The upper bound of the per-probe jitter window, in milliseconds.
pub const MAX_JITTER_MS: u64 = 80;

/// The storm module over name resolution.
#[derive(Default)]
pub struct DnsQueryStormSimulation;

/// One detail record: the outcome of one lookup, tagged with its own
/// completion timestamp.
#[derive(Debug, Clone, PartialEq, Eq)]
pub struct DomainResult {
    /// The instant this lookup completed.
    pub timestamp: String,
    /// The name that was resolved.
    pub domain: String,
    /// Whether the lookup yielded an address.
    pub success: bool,
    /// The resolved address, when there was one.
    pub ip: Option<String>,
}

/// The benign candidate list the storm draws from.
pub fn candidate_domains() -> (domains: Vec<String>)
    ensures
        domains@.len() == 32,
{
    let mut v: Vec<String> = Vec::new();
    v.push(String::from_str("example.com"));
    v.push(String::from_str("example.net"));
    v.push(String::from_str("iana.org"));
    v.push(String::from_str("localhost"));
    v.push(String::from_str("test.example.com"));
    v.push(String::from_str("safe.test"));
    v.push(String::from_str("internal.test"));
    v.push(String::from_str("microsoft.com"));
    v.push(String::from_str("windows.com"));
    v.push(String::from_str("office.com"));
    v.push(String::from_str("live.com"));
    v.push(String::from_str("github.com"));
    v.push(String::from_str("githubusercontent.com"));
    v.push(String::from_str("gitlab.com"));
    v.push(String::from_str("bitbucket.org"));
    v.push(String::from_str("openai.com"));
    v.push(String::from_str("cloudflare.com"));
    v.push(String::from_str("google.com"));
    v.push(String::from_str("gstatic.com"));
    v.push(String::from_str("googleapis.com"));
    v.push(String::from_str("aws.amazon.com"));
    v.push(String::from_str("azure.com"));
    v.push(String::from_str("oracle.com"));
    v.push(String::from_str("apple.com"));
    v.push(String::from_str("cdn.jsdelivr.net"));
    v.push(String::from_str("fastly.net"));
    v.push(String::from_str("akamai.net"));
    v.push(String::from_str("edgesuite.net"));
    v.push(String::from_str("aj39dksl.test"));
    v.push(String::from_str("randomsub1.safe.test"));
    v.push(String::from_str("rnd-2398.example.com"));
    v.push(String::from_str("ds98rtfxsmn.m1cr0soft.com"));
    v
}

/// Builds the one detail record of one completed lookup: success
/// exactly when an address came back, and the address kept as it was.
pub fn probe_result(timestamp: String, domain: String, resolved: Option<String>) -> (r:
    DomainResult)
    ensures
        r.timestamp == timestamp,
        r.domain == domain,
        r.success == (resolved is Some),
        r.ip == resolved,
{
    let success = resolved.is_some();
    DomainResult { timestamp, domain, success, ip: resolved }
}

/// The success flags of a result sequence, in the same order.
pub open spec fn success_flags(rs: Seq<DomainResult>) -> Seq<bool> {
    rs.map_values(|r: DomainResult| r.success)
}

/// Reduces a completed storm deterministically: `successful` counts
/// the results whose flag is set, and `successful + failed` equals
/// the batch size, whatever the outcomes and their order.
pub fn summarize_results(results: &Vec<DomainResult>) -> (counts: (usize, usize))
    ensures
        counts.0 == count_matching(success_flags(results@), true),
        counts.1 == count_matching(success_flags(results@), false),
        counts.0 + counts.1 == results@.len(),
{
    let mut flags: Vec<bool> = Vec::new();
    let mut i: usize = 0;
    let n = results.len();
    while i < n
        invariant
            n == results@.len(),
            i <= n,
            flags@ =~= success_flags(results@.take(i as int)),
        decreases n - i,
    {
        flags.push(results[i].success);
        proof {
            assert(flags@ =~= success_flags(results@.take(i as int + 1)));
        }
        i = i + 1;
    }
    proof {
        assert(results@.take(n as int) =~= results@);
    }
    let successful = count_true(&flags);
    let failed = n - successful;
    proof {
        lemma_counts_partition(success_flags(results@));
    }
    (successful, failed)
}

/// The one-line JSON object under which a detail record appears in
/// the itemized stream.
#[verifier::opaque]
pub open spec fn domain_result_json(r: DomainResult) -> Seq<char> {
    seq!['{'] + fld_s("timestamp"@, r.timestamp@) + seq![','] + fld_s("domain"@, r.domain@)
        + seq![','] + fld_b("success"@, r.success) + seq![','] + fld_os("ip"@, opt_view(r.ip))
        + seq!['}']
}

/// An encoded detail record never contains a raw newline.
pub proof fn lemma_domain_result_json_no_newline(r: DomainResult)
    ensures
        no_newline(domain_result_json(r)),
{
    reveal(domain_result_json);
    lemma_fld_s_no_newline("timestamp"@, r.timestamp@);
    lemma_fld_s_no_newline("domain"@, r.domain@);
    lemma_fld_b_no_newline("success"@, r.success);
    lemma_fld_os_no_newline("ip"@, opt_view(r.ip));
    let p1 = seq!['{'] + fld_s("timestamp"@, r.timestamp@);
    lemma_no_newline_concat(seq!['{'], fld_s("timestamp"@, r.timestamp@));
    let p2 = p1 + seq![','];
    lemma_no_newline_concat(p1, seq![',']);
    let p3 = p2 + fld_s("domain"@, r.domain@);
    lemma_no_newline_concat(p2, fld_s("domain"@, r.domain@));
    let p4 = p3 + seq![','];
    lemma_no_newline_concat(p3, seq![',']);
    let p5 = p4 + fld_b("success"@, r.success);
    lemma_no_newline_concat(p4, fld_b("success"@, r.success));
    let p6 = p5 + seq![','];
    lemma_no_newline_concat(p5, seq![',']);
    let p7 = p6 + fld_os("ip"@, opt_view(r.ip));
    lemma_no_newline_concat(p6, fld_os("ip"@, opt_view(r.ip)));
    lemma_no_newline_concat(p7, seq!['}']);
}

/// Encodes one detail record as its one-line JSON object.
pub fn encode_domain_result(r: &DomainResult) -> (line: String)
    ensures
        line@ == domain_result_json(*r),
        no_newline(line@),
{
    let mut out = String::new();
    push_char(&mut out, '{');
    push_fld_s(&mut out, "timestamp", r.timestamp.as_str());
    push_char(&mut out, ',');
    push_fld_s(&mut out, "domain", r.domain.as_str());
    push_char(&mut out, ',');
    push_fld_b(&mut out, "success", r.success);
    push_char(&mut out, ',');
    push_fld_os(&mut out, "ip", &r.ip);
    push_char(&mut out, '}');
    proof {
        reveal(domain_result_json);
        assert(out@ =~= domain_result_json(*r));
        lemma_domain_result_json_no_newline(*r);
    }
    out
}

/// Encodes the whole itemized stream of one storm, one line per
/// detail record, in the order the results completed.
pub fn detail_lines(results: &Vec<DomainResult>) -> (lines: Vec<String>)
    ensures
        lines@.len() == results@.len(),
        forall|i: int|
            0 <= i < results@.len() ==> (#[trigger] lines@[i])@ == domain_result_json(
                results@[i],
            ),
        forall|i: int| 0 <= i < results@.len() ==> no_newline((#[trigger] lines@[i])@),
{
    let mut lines: Vec<String> = Vec::new();
    let mut i: usize = 0;
    let n = results.len();
    while i < n
        invariant
            n == results@.len(),
            i <= n,
            lines@.len() == i,
            forall|j: int|
                0 <= j < i ==> (#[trigger] lines@[j])@ == domain_result_json(results@[j]),
            forall|j: int| 0 <= j < i ==> no_newline((#[trigger] lines@[j])@),
        decreases n - i,
    {
        let line = encode_domain_result(&results[i]);
        lines.push(line);
        i = i + 1;
    }
    lines
}

/// One formatted line of the human-readable log per lookup.
pub open spec fn domain_log_line_spec(r: DomainResult) -> Seq<char> {
    seq!['['] + r.timestamp@ + seq![']', ' '] + r.domain@ + seq![' ', '-', '>', ' '] + (if r.success {
        "OK"@
    } else {
        "FAIL"@
    }) + (match r.ip {
        Option::Some(ip) => seq![' ', '('] + ip@ + seq![')'],
        Option::None => Seq::<char>::empty(),
    })
}

/// Formats one lookup for the human-readable log.
pub fn domain_log_line(r: &DomainResult) -> (line: String)
    ensures
        line@ == domain_log_line_spec(*r),
{
    let mut out = String::new();
    push_char(&mut out, '[');
    out.append(r.timestamp.as_str());
    push_char(&mut out, ']');
    push_char(&mut out, ' ');
    out.append(r.domain.as_str());
    out.append(" -> ");
    if r.success {
        out.append("OK");
    } else {
        out.append("FAIL");
    }
    match &r.ip {
        Option::Some(ip) => {
            push_char(&mut out, ' ');
            push_char(&mut out, '(');
            out.append(ip.as_str());
            push_char(&mut out, ')');
        },
        Option::None => {},
    }
    proof {
        reveal_strlit(" -> ");
        assert(" -> "@ =~= seq![' ', '-', '>', ' ']);
        assert(out@ =~= domain_log_line_spec(*r));
    }
    out
}

impl DnsQueryStormSimulation {
    /// The stable module name.
    pub fn name(&self) -> (n: &'static str)
        ensures
            n@ == "windows::dns_query_storm"@,
    {
        "windows::dns_query_storm"
    }

    /// The filename stem of this module's detail streams.
    pub fn file_stem(&self) -> (s: &'static str)
        ensures
            s@ == "dns_storm"@,
    {
        "dns_storm"
    }

    /// The action label carried by this module's ledger records.
    pub fn action_label(&self) -> (l: &'static str)
        ensures
            l@ == "T1071.004 - windows::dns_query_storm"@,
    {
        "T1071.004 - windows::dns_query_storm"
    }

    /// Records the dry-run outcome: the storm is skipped and exactly
    /// one `dry-run` record is appended.
    pub fn record_dry_run(&self, cfg: &RunConfig, ledger: &mut Ledger, timestamp: String) -> (r:
        Result<(), ActionError>)
        requires
            cfg.dry_run,
        ensures
            final(ledger)@.len() == old(ledger)@.len() + 1,
            forall|i: int| 0 <= i < old(ledger)@.len() ==> final(ledger)@[i] == old(ledger)@[i],
            final(ledger)@.last().test_id@ == cfg.test_id@,
            final(ledger)@.last().status == Status::DryRun,
            final(ledger)@.last().action@ == "T1071.004 - windows::dns_query_storm"@,
            final(ledger)@.last().details@ == "DNS storm skipped"@,
            r is Ok,
    {
        let rec = ActionRecord {
            test_id: cfg.test_id.clone(),
            timestamp,
            action: String::from_str(self.action_label()),
            status: Status::DryRun,
            details: String::from_str("DNS storm skipped"),
            artifact_path: None,
        };
        let _ = ledger.write_action_record(rec);
        Ok(())
    }

    /// The terminal detail text of a completed storm.
    pub open spec fn completed_details(successful: nat, failed: nat) -> Seq<char> {
        spec_dec(successful) + " ok, "@ + spec_dec(failed) + " failed DNS lookups."@
    }

    /// Records the terminal outcome of a completed storm.  Probe
    /// failures were absorbed into the counts: the module completes
    /// whatever they were, so this never fails.
    pub fn record_completed(
        &self,
        cfg: &RunConfig,
        ledger: &mut Ledger,
        timestamp: String,
        successful: u64,
        failed: u64,
    ) -> (r: Result<(), ActionError>)
        requires
            !cfg.dry_run,
        ensures
            final(ledger)@.len() == old(ledger)@.len() + 1,
            forall|i: int| 0 <= i < old(ledger)@.len() ==> final(ledger)@[i] == old(ledger)@[i],
            final(ledger)@.last().test_id@ == cfg.test_id@,
            final(ledger)@.last().status == Status::Completed,
            final(ledger)@.last().action@ == "T1071.004 - windows::dns_query_storm"@,
            final(ledger)@.last().details@ == Self::completed_details(
                successful as nat,
                failed as nat,
            ),
            r is Ok,
    {
        let mut details = String::new();
        push_dec_u64(&mut details, successful);
        details.append(" ok, ");
        push_dec_u64(&mut details, failed);
        details.append(" failed DNS lookups.");
        proof {
            assert(details@ =~= Self::completed_details(successful as nat, failed as nat));
        }
        let rec = ActionRecord {
            test_id: cfg.test_id.clone(),
            timestamp,
            action: String::from_str(self.action_label()),
            status: Status::Completed,
            details,
            artifact_path: None,
        };
        let _ = ledger.write_action_record(rec);
        Ok(())
    }
}

} // verus!
