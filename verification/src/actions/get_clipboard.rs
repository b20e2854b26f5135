//! Clipboard content collection.
//!
//! Reading the clipboard is a host call; the module builds the entry
//! record, the telemetry summary and the terminal record from the
//! captured text.

use vstd::prelude::*;

use crate::config::RunConfig;
use crate::json::{
    fld_s, fld_u, lemma_fld_s_no_newline, lemma_fld_u_no_newline, push_fld_s, push_fld_u,
};
use crate::ledger::{append_outcome, Ledger};
use crate::record::{ActionError, Status};
use crate::text::{lemma_no_newline_concat, no_newline, push_char, push_dec_u64, spec_dec};

verus! {

use vstd::string::StrSliceExecFns;
use vstd::string::StringExecFns;

/// The clipboard-collection module.
#[derive(Default)]
pub struct ClipboardSimulation;

/// One captured clipboard entry.
#[derive(Debug, Clone, PartialEq, Eq)]
pub struct ClipboardRecord {
    /// The instant the entry was captured.
    pub timestamp: String,
    /// The captured text.
    pub content: String,
}

/// The one-line JSON object of a clipboard entry.
#[verifier::opaque]
pub open spec fn clipboard_record_json(r: ClipboardRecord) -> Seq<char> {
    seq!['{'] + fld_s("timestamp"@, r.timestamp@) + seq![','] + fld_s("content"@, r.content@)
        + seq!['}']
}

/// An encoded clipboard entry never contains a raw newline.
pub proof fn lemma_clipboard_record_json_no_newline(r: ClipboardRecord)
    ensures
        no_newline(clipboard_record_json(r)),
{
    reveal(clipboard_record_json);
    lemma_fld_s_no_newline("timestamp"@, r.timestamp@);
    lemma_fld_s_no_newline("content"@, r.content@);
    let p1 = seq!['{'] + fld_s("timestamp"@, r.timestamp@);
    lemma_no_newline_concat(seq!['{'], fld_s("timestamp"@, r.timestamp@));
    let p2 = p1 + seq![','];
    lemma_no_newline_concat(p1, seq![',']);
    let p3 = p2 + fld_s("content"@, r.content@);
    lemma_no_newline_concat(p2, fld_s("content"@, r.content@));
    lemma_no_newline_concat(p3, seq!['}']);
}

/// Encodes one clipboard entry as its one-line JSON object.
pub fn encode_clipboard_record(r: &ClipboardRecord) -> (line: String)
    ensures
        line@ == clipboard_record_json(*r),
        no_newline(line@),
{
    let mut out = String::new();
    push_char(&mut out, '{');
    push_fld_s(&mut out, "timestamp", r.timestamp.as_str());
    push_char(&mut out, ',');
    push_fld_s(&mut out, "content", r.content.as_str());
    push_char(&mut out, '}');
    proof {
        reveal(clipboard_record_json);
        assert(out@ =~= clipboard_record_json(*r));
        lemma_clipboard_record_json_no_newline(*r);
    }
    out
}

/// The telemetry summary of one clipboard collection.
pub struct ClipboardTelemetry {
    /// The identifier of the owning run.
    pub test_id: String,
    /// The instant the summary was formed.
    pub timestamp: String,
    /// The technique classifier of the module.
    pub mitre: String,
    /// The module name.
    pub module: String,
    /// How many entries were captured.
    pub total_entries: u64,
    /// The identity of the invoking process.
    pub parent: String,
}

/// The one-line JSON object of a clipboard telemetry summary.
#[verifier::opaque]
pub open spec fn clipboard_telemetry_json(t: ClipboardTelemetry) -> Seq<char> {
    seq!['{'] + fld_s("test_id"@, t.test_id@) + seq![','] + fld_s("timestamp"@, t.timestamp@)
        + seq![','] + fld_s("mitre"@, t.mitre@) + seq![','] + fld_s("module"@, t.module@)
        + seq![','] + fld_u("total_entries"@, t.total_entries as nat) + seq![','] + fld_s(
        "parent"@,
        t.parent@,
    ) + seq!['}']
}

/// An encoded clipboard summary never contains a raw newline.
pub proof fn lemma_clipboard_telemetry_json_no_newline(t: ClipboardTelemetry)
    ensures
        no_newline(clipboard_telemetry_json(t)),
{
    reveal(clipboard_telemetry_json);
    lemma_fld_s_no_newline("test_id"@, t.test_id@);
    lemma_fld_s_no_newline("timestamp"@, t.timestamp@);
    lemma_fld_s_no_newline("mitre"@, t.mitre@);
    lemma_fld_s_no_newline("module"@, t.module@);
    lemma_fld_u_no_newline("total_entries"@, t.total_entries as nat);
    lemma_fld_s_no_newline("parent"@, t.parent@);
    let p1 = seq!['{'] + fld_s("test_id"@, t.test_id@);
    lemma_no_newline_concat(seq!['{'], fld_s("test_id"@, t.test_id@));
    let p2 = p1 + seq![','];
    lemma_no_newline_concat(p1, seq![',']);
    let p3 = p2 + fld_s("timestamp"@, t.timestamp@);
    lemma_no_newline_concat(p2, fld_s("timestamp"@, t.timestamp@));
    let p4 = p3 + seq![','];
    lemma_no_newline_concat(p3, seq![',']);
    let p5 = p4 + fld_s("mitre"@, t.mitre@);
    lemma_no_newline_concat(p4, fld_s("mitre"@, t.mitre@));
    let p6 = p5 + seq![','];
    lemma_no_newline_concat(p5, seq![',']);
    let p7 = p6 + fld_s("module"@, t.module@);
    lemma_no_newline_concat(p6, fld_s("module"@, t.module@));
    let p8 = p7 + seq![','];
    lemma_no_newline_concat(p7, seq![',']);
    let p9 = p8 + fld_u("total_entries"@, t.total_entries as nat);
    lemma_no_newline_concat(p8, fld_u("total_entries"@, t.total_entries as nat));
    let p10 = p9 + seq![','];
    lemma_no_newline_concat(p9, seq![',']);
    let p11 = p10 + fld_s("parent"@, t.parent@);
    lemma_no_newline_concat(p10, fld_s("parent"@, t.parent@));
    lemma_no_newline_concat(p11, seq!['}']);
}

/// Encodes a clipboard telemetry summary as its one-line JSON object.
pub fn encode_clipboard_telemetry(t: &ClipboardTelemetry) -> (line: String)
    ensures
        line@ == clipboard_telemetry_json(*t),
        no_newline(line@),
{
    let mut out = String::new();
    push_char(&mut out, '{');
    push_fld_s(&mut out, "test_id", t.test_id.as_str());
    push_char(&mut out, ',');
    push_fld_s(&mut out, "timestamp", t.timestamp.as_str());
    push_char(&mut out, ',');
    push_fld_s(&mut out, "mitre", t.mitre.as_str());
    push_char(&mut out, ',');
    push_fld_s(&mut out, "module", t.module.as_str());
    push_char(&mut out, ',');
    push_fld_u(&mut out, "total_entries", t.total_entries);
    push_char(&mut out, ',');
    push_fld_s(&mut out, "parent", t.parent.as_str());
    push_char(&mut out, '}');
    proof {
        reveal(clipboard_telemetry_json);
        assert(out@ =~= clipboard_telemetry_json(*t));
        lemma_clipboard_telemetry_json_no_newline(*t);
    }
    out
}

impl ClipboardSimulation {
    /// The stable module name.
    pub fn name(&self) -> (n: &'static str)
        ensures
            n@ == "windows::get_clipboard"@,
    {
        "windows::get_clipboard"
    }

    /// The action label carried by this module's ledger records.
    pub fn action_label(&self) -> (l: &'static str)
        ensures
            l@ == "T1115 - windows::get_clipboard"@,
    {
        "T1115 - windows::get_clipboard"
    }

    /// Builds the one entry record of a capture.
    pub fn capture_record(timestamp: String, content: String) -> (r: ClipboardRecord)
        ensures
            r.timestamp == timestamp,
            r.content == content,
    {
        ClipboardRecord { timestamp, content }
    }

    /// Records the dry-run outcome: nothing is captured.
    pub fn record_dry_run(&self, cfg: &RunConfig, ledger: &mut Ledger, timestamp: String) -> (r:
        Result<(), ActionError>)
        requires
            cfg.dry_run,
        ensures
            final(ledger)@.len() == old(ledger)@.len() + 1,
            forall|i: int| 0 <= i < old(ledger)@.len() ==> final(ledger)@[i] == old(ledger)@[i],
            final(ledger)@.last().test_id == cfg.test_id,
            final(ledger)@.last().status == Status::DryRun,
            final(ledger)@.last().action@ == "T1115 - windows::get_clipboard"@,
            final(ledger)@.last().details@ == "Clipboard collection skipped"@,
            r is Ok,
    {
        let _ = append_outcome(
            cfg,
            ledger,
            timestamp,
            self.action_label(),
            Status::DryRun,
            String::from_str("Clipboard collection skipped"),
            None,
        );
        Ok(())
    }

    /// Records a completed capture, counting the captured characters.
    pub fn record_completed(
        &self,
        cfg: &RunConfig,
        ledger: &mut Ledger,
        timestamp: String,
        content: &str,
    ) -> (r: Result<(), ActionError>)
        requires
            !cfg.dry_run,
        ensures
            final(ledger)@.len() == old(ledger)@.len() + 1,
            forall|i: int| 0 <= i < old(ledger)@.len() ==> final(ledger)@[i] == old(ledger)@[i],
            final(ledger)@.last().test_id == cfg.test_id,
            final(ledger)@.last().status == Status::Completed,
            final(ledger)@.last().action@ == "T1115 - windows::get_clipboard"@,
            final(ledger)@.last().details@ == "Collected clipboard content ("@ + spec_dec(
                content@.len(),
            ) + " chars)."@,
            r is Ok,
    {
        let count = content.unicode_len();
        let mut details = String::new();
        details.append("Collected clipboard content (");
        push_dec_u64(&mut details, count as u64);
        details.append(" chars).");
        assert(details@ =~= "Collected clipboard content ("@ + spec_dec(content@.len())
            + " chars)."@);
        let _ = append_outcome(
            cfg,
            ledger,
            timestamp,
            self.action_label(),
            Status::Completed,
            details,
            None,
        );
        Ok(())
    }
}

} // verus!
