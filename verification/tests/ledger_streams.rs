//! Ledger encoding and stream framing: exact JSON lines, escaping,
//! append-only read-back, and filenames.

use magnet::ledger::{ledger_filename, Ledger};
use magnet::record::{decode_action_record, encode_action_record, ActionRecord, Status};
use magnet::telemetry::{log_filename, per_item_filename, render_jsonl, summary_filename};
use magnet::text::{split_lines_vec, u64_to_string};

fn sample_record() -> ActionRecord {
    ActionRecord {
        test_id: String::from("t-42"),
        timestamp: String::from("2026-01-02T03:04:05+00:00"),
        action: String::from("ransom_note"),
        status: Status::Written,
        details: String::from("Wrote ransom note to Desktop: C:\\Users\\x\\Desktop\\RANSOM_NOTE.txt"),
        artifact_path: Some(String::from("C:\\Users\\x\\Desktop\\RANSOM_NOTE.txt")),
    }
}

#[test]
fn encoded_record_is_the_expected_json_line() {
    let rec = ActionRecord {
        test_id: String::from("t-1"),
        timestamp: String::from("ts"),
        action: String::from("a"),
        status: Status::Completed,
        details: String::from("d"),
        artifact_path: None,
    };
    let line = encode_action_record(&rec);
    assert_eq!(
        line,
        "{\"test_id\":\"t-1\",\"timestamp\":\"ts\",\"action\":\"a\",\"status\":\"completed\",\"details\":\"d\",\"artifact_path\":null}"
    );
}

#[test]
fn encoding_escapes_quotes_backslashes_and_controls() {
    let rec = ActionRecord {
        test_id: String::from("t\"x"),
        timestamp: String::from("a\\b"),
        action: String::from("line\nbreak"),
        status: Status::Failed,
        details: String::from("tab\there\rcr\u{1}ctl"),
        artifact_path: None,
    };
    let line = encode_action_record(&rec);
    // The encoded line holds no raw newline and parses back to the
    // original field values.
    assert!(!line.contains('\n'));
    let v: serde_json::Value = serde_json::from_str(&line).unwrap();
    assert_eq!(v["test_id"], "t\"x");
    assert_eq!(v["timestamp"], "a\\b");
    assert_eq!(v["action"], "line\nbreak");
    assert_eq!(v["details"], "tab\there\rcr\u{1}ctl");
    assert_eq!(v["artifact_path"], serde_json::Value::Null);
}

#[test]
fn ledger_file_round_trips_line_by_line() {
    let mut ledger = Ledger::new();
    let mut expected_lines: Vec<String> = Vec::new();
    for i in 0..3u64 {
        let mut rec = sample_record();
        rec.details = format!("step {}", i);
        expected_lines.push(ledger.write_action_record(rec));
    }
    let content = ledger.file_content();
    let lines: Vec<&str> = content.split('\n').filter(|l| !l.is_empty()).collect();
    assert_eq!(lines.len(), 3);
    for (i, line) in lines.iter().enumerate() {
        assert_eq!(*line, expected_lines[i].as_str());
        let v: serde_json::Value = serde_json::from_str(line).unwrap();
        assert_eq!(v["details"], format!("step {}", i));
        assert_eq!(v["test_id"], "t-42");
    }
}

#[test]
fn repeated_runs_append_and_never_overwrite() {
    // Two runs with the same test identifier append to the same
    // stream; reading it back yields one well-formed line per record
    // ever written.
    let mut first = Ledger::new();
    let _ = first.write_action_record(sample_record());
    let mut second = Ledger::new();
    let _ = second.write_action_record(sample_record());
    let _ = second.write_action_record(sample_record());

    let mut file = first.file_content();
    file.push_str(&second.file_content());

    let lines: Vec<&str> = file.split('\n').filter(|l| !l.is_empty()).collect();
    assert_eq!(lines.len(), 3);
    for line in lines {
        let v: serde_json::Value = serde_json::from_str(line).unwrap();
        assert_eq!(v["action"], "ransom_note");
    }
}

#[test]
fn stream_filenames_are_keyed_by_test_id() {
    assert_eq!(ledger_filename("t-7"), "magnet_log_t-7.jsonl");
    assert_eq!(per_item_filename("dns_storm", "t-7"), "dns_storm_t-7_per_item.jsonl");
    assert_eq!(summary_filename("dns_storm", "t-7"), "dns_storm_t-7_summary.jsonl");
    assert_eq!(log_filename("dns_storm", "t-7"), "dns_storm_t-7.log");
}

#[test]
fn decimal_rendering_is_exact() {
    assert_eq!(u64_to_string(0), "0");
    assert_eq!(u64_to_string(7), "7");
    assert_eq!(u64_to_string(1234567890), "1234567890");
    assert_eq!(u64_to_string(u64::MAX), "18446744073709551615");
}

#[test]
fn line_splitting_matches_the_stream_shape() {
    assert_eq!(split_lines_vec(""), Vec::<String>::new());
    assert_eq!(split_lines_vec("a\nb\n"), vec!["a", "b"]);
    assert_eq!(split_lines_vec("a\nb"), vec!["a", "b"]);
    assert_eq!(split_lines_vec("\n"), vec![""]);
    assert_eq!(split_lines_vec("a\n\nb"), vec!["a", "", "b"]);
}

#[test]
fn decoding_inverts_encoding() {
    let mut rec = sample_record();
    rec.details = String::from("quote \" slash \\ line\nbreak tab\t end");
    rec.artifact_path = None;
    let line = encode_action_record(&rec);
    assert_eq!(decode_action_record(&line), Some(rec.clone()));

    rec.artifact_path = Some(String::from("C:\\x\\y.txt"));
    let line = encode_action_record(&rec);
    assert_eq!(decode_action_record(&line), Some(rec));
}

#[test]
fn decoding_refuses_tampered_lines() {
    let line = encode_action_record(&sample_record());
    let mut broken = line.clone();
    broken.pop();
    assert_eq!(decode_action_record(&broken), None);
    assert_eq!(decode_action_record(""), None);
    assert_eq!(
        decode_action_record("{\"test_id\":\"x\",\"timestamp\":\"t\"}"),
        None
    );
    // A well-formed object with an unknown status is refused.
    let odd = line.replace("\"status\":\"written\"", "\"status\":\"unknown\"");
    assert_eq!(decode_action_record(&odd), None);
}

#[test]
fn every_ledger_line_decodes_back_to_its_record() {
    let mut ledger = Ledger::new();
    for i in 0..4u64 {
        let mut rec = sample_record();
        rec.details = format!("step {}\nwith a break", i);
        let _ = ledger.write_action_record(rec);
    }
    let content = ledger.file_content();
    let lines: Vec<&str> = content.split('\n').filter(|l| !l.is_empty()).collect();
    assert_eq!(lines.len(), 4);
    for (i, line) in lines.iter().enumerate() {
        let rec = decode_action_record(line).expect("ledger line must decode");
        assert_eq!(rec.details, format!("step {}\nwith a break", i));
        assert_eq!(rec.status, Status::Written);
    }
}

#[test]
fn rendered_jsonl_ends_every_line_with_a_separator() {
    let lines = vec![String::from("{\"a\":1}"), String::from("{\"b\":2}")];
    let text = render_jsonl(&lines);
    assert_eq!(text, "{\"a\":1}\n{\"b\":2}\n");
}
