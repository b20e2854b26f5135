//! Probe-storm planning and aggregation: round-robin drawing,
//! bounded jitter, and order-independent counts that partition the
//! batch.

use magnet::actions::dns_query_storm::{
    candidate_domains, detail_lines, encode_domain_result, probe_result, summarize_results,
    DomainResult, MAX_JITTER_MS, MIN_JITTER_MS, TOTAL_QUERIES,
};
use magnet::config::RunConfig;
use magnet::ledger::Ledger;
use magnet::record::Status;
use magnet::storm::{count_true, encode_storm_summary, plan_round_robin, StormSummary};

fn results_from_flags(flags: &[bool]) -> Vec<DomainResult> {
    flags
        .iter()
        .enumerate()
        .map(|(i, &ok)| {
            probe_result(
                format!("ts-{}", i),
                format!("host-{}.test", i),
                if ok { Some(String::from("192.0.2.1")) } else { None },
            )
        })
        .collect()
}

#[test]
fn counts_partition_the_batch() {
    let flags = vec![true, false, true, true, false, false, false, true];
    let n = flags.len();
    let ok = count_true(&flags);
    assert_eq!(ok, 4);
    // successful + failed == N, whatever the outcomes.
    assert_eq!(ok + (n - ok), n);

    let results = results_from_flags(&flags);
    let (successful, failed) = summarize_results(&results);
    assert_eq!(successful, 4);
    assert_eq!(failed, 4);
    assert_eq!(successful + failed, n);
}

#[test]
fn counts_are_independent_of_completion_order() {
    let issue_order = vec![true, true, false, true, false];
    let mut completion_order = issue_order.clone();
    completion_order.reverse();
    assert_eq!(count_true(&issue_order), count_true(&completion_order));
}

#[test]
fn storm_of_forty_over_thirty_three_candidates() {
    // A storm of 40 probe descriptors drawn round-robin from a
    // 33-item candidate list.
    let candidates: Vec<String> = (0..33).map(|i| format!("name-{}.test", i)).collect();
    let batch = plan_round_robin(40, &candidates, MIN_JITTER_MS, MAX_JITTER_MS);
    assert_eq!(batch.len(), 40);
    for (i, probe) in batch.iter().enumerate() {
        assert_eq!(probe.target, candidates[i % 33]);
        assert!(probe.jitter_ms >= MIN_JITTER_MS && probe.jitter_ms < MAX_JITTER_MS);
    }
    // The wrap-around really draws from the head of the list again.
    assert_eq!(batch[33].target, candidates[0]);
    assert_eq!(batch[39].target, candidates[6]);

    // Exactly 40 detail records and one summary with the full count.
    let results: Vec<DomainResult> = batch
        .iter()
        .map(|p| probe_result(String::from("ts"), p.target.clone(), None))
        .collect();
    let lines = detail_lines(&results);
    assert_eq!(lines.len(), 40);
    let (successful, failed) = summarize_results(&results);
    let summary = StormSummary {
        test_id: String::from("t-40"),
        timestamp: String::from("ts"),
        mitre: String::from("T1071.004"),
        module: String::from("windows::dns_query_storm"),
        total_queries: 40,
        successful: successful as u64,
        failed: failed as u64,
        elapsed_ms: 12,
        parent: String::from("magnet.exe"),
    };
    let summary_line = encode_storm_summary(&summary);
    let v: serde_json::Value = serde_json::from_str(&summary_line).unwrap();
    assert_eq!(v["total_queries"], 40);
    assert_eq!(v["successful"], 0);
    assert_eq!(v["failed"], 40);
}

#[test]
fn jitter_stays_inside_the_configured_window() {
    let candidates = vec![String::from("one.test")];
    // Many draws: every one must fall inside the half-open window.
    let batch = plan_round_robin(200, &candidates, 10, 12);
    for probe in batch.iter() {
        assert!(probe.jitter_ms == 10 || probe.jitter_ms == 11);
    }
}

#[test]
fn probe_outcome_becomes_exactly_one_detail_record() {
    let hit = probe_result(
        String::from("ts1"),
        String::from("example.com"),
        Some(String::from("93.184.216.34")),
    );
    assert!(hit.success);
    assert_eq!(hit.ip.as_deref(), Some("93.184.216.34"));

    let miss = probe_result(String::from("ts2"), String::from("nope.test"), None);
    assert!(!miss.success);
    assert_eq!(miss.ip, None);

    let line = encode_domain_result(&hit);
    let v: serde_json::Value = serde_json::from_str(&line).unwrap();
    assert_eq!(v["domain"], "example.com");
    assert_eq!(v["success"], true);
    assert_eq!(v["ip"], "93.184.216.34");

    let line = encode_domain_result(&miss);
    let v: serde_json::Value = serde_json::from_str(&line).unwrap();
    assert_eq!(v["success"], false);
    assert_eq!(v["ip"], serde_json::Value::Null);
}

#[test]
fn dns_module_records_one_terminal_outcome() {
    let module = magnet::actions::dns_query_storm::DnsQueryStormSimulation::default();
    let cfg = RunConfig::new(String::from("t-9"), false, String::from("out"));
    let mut ledger = Ledger::new();
    let (successful, failed) = (37u64, 3u64);
    assert!(module
        .record_completed(&cfg, &mut ledger, String::from("ts"), successful, failed)
        .is_ok());
    assert_eq!(ledger.len(), 1);
    assert_eq!(ledger.record_at(0).status, Status::Completed);
    assert_eq!(ledger.record_at(0).details, "37 ok, 3 failed DNS lookups.");
    assert_eq!(
        ledger.record_at(0).action,
        "T1071.004 - windows::dns_query_storm"
    );
}

#[test]
fn dns_dry_run_records_a_skip() {
    let module = magnet::actions::dns_query_storm::DnsQueryStormSimulation::default();
    let cfg = RunConfig::new(String::from("t-9"), true, String::from("out"));
    let mut ledger = Ledger::new();
    assert!(module
        .record_dry_run(&cfg, &mut ledger, String::from("ts"))
        .is_ok());
    assert_eq!(ledger.len(), 1);
    assert_eq!(ledger.record_at(0).status, Status::DryRun);
    assert_eq!(ledger.record_at(0).details, "DNS storm skipped");
}

#[test]
fn candidate_list_matches_the_module() {
    let domains = candidate_domains();
    assert_eq!(domains.len(), 32);
    assert_eq!(domains[0], "example.com");
    assert_eq!(domains[31], "ds98rtfxsmn.m1cr0soft.com");
    assert_eq!(TOTAL_QUERIES, 40);
}
