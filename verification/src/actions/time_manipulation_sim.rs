//! Simulated system-clock tampering over a fixed list of offsets.
//!
//! Reading and setting the clock is host work; the module owns the
//! offset list, the per-attempt records, the restore decision and
//! the terminal status.

use vstd::prelude::*;

use crate::config::RunConfig;
use crate::json::{
    fld_b, fld_i, fld_s, fld_u, lemma_fld_b_no_newline, lemma_fld_i_no_newline,
    lemma_fld_s_no_newline, lemma_fld_u_no_newline, push_fld_b, push_fld_i, push_fld_s,
    push_fld_u,
};
use crate::ledger::{append_outcome, Ledger};
use crate::record::{ActionError, Status};
use crate::text::{
    bool_text, lemma_no_newline_concat, no_newline, push_bool_text, push_char, push_dec_u64,
    spec_dec,
};

verus! {

use vstd::string::StringExecFns;

/// The clock-tampering module.
#[derive(Default)]
pub struct TimeManipulationSimulation;

/// One attempt to move the clock by an offset.
#[derive(Debug, Clone, PartialEq, Eq)]
pub struct TimeAttempt {
    /// The instant of the attempt.
    pub timestamp: String,
    /// The offset that was attempted, in seconds.
    pub attempted_offset_seconds: i64,
    /// The attempt's outcome text.
    pub result: String,
}

/// The one-line JSON object of one attempt.
#[verifier::opaque]
pub open spec fn time_attempt_json(r: TimeAttempt) -> Seq<char> {
    seq!['{'] + fld_s("timestamp"@, r.timestamp@) + seq![','] + fld_i(
        "attempted_offset_seconds"@,
        r.attempted_offset_seconds as int,
    ) + seq![','] + fld_s("result"@, r.result@) + seq!['}']
}

/// An encoded attempt never contains a raw newline.
pub proof fn lemma_time_attempt_json_no_newline(r: TimeAttempt)
    ensures
        no_newline(time_attempt_json(r)),
{
    reveal(time_attempt_json);
    lemma_fld_s_no_newline("timestamp"@, r.timestamp@);
    lemma_fld_i_no_newline("attempted_offset_seconds"@, r.attempted_offset_seconds as int);
    lemma_fld_s_no_newline("result"@, r.result@);
    let p1 = seq!['{'] + fld_s("timestamp"@, r.timestamp@);
    lemma_no_newline_concat(seq!['{'], fld_s("timestamp"@, r.timestamp@));
    let p2 = p1 + seq![','];
    lemma_no_newline_concat(p1, seq![',']);
    let p3 = p2 + fld_i("attempted_offset_seconds"@, r.attempted_offset_seconds as int);
    lemma_no_newline_concat(p2, fld_i("attempted_offset_seconds"@, r.attempted_offset_seconds as int));
    let p4 = p3 + seq![','];
    lemma_no_newline_concat(p3, seq![',']);
    let p5 = p4 + fld_s("result"@, r.result@);
    lemma_no_newline_concat(p4, fld_s("result"@, r.result@));
    lemma_no_newline_concat(p5, seq!['}']);
}

/// Encodes one attempt as its one-line JSON object.
pub fn encode_time_attempt(r: &TimeAttempt) -> (line: String)
    ensures
        line@ == time_attempt_json(*r),
        no_newline(line@),
{
    let mut out = String::new();
    push_char(&mut out, '{');
    push_fld_s(&mut out, "timestamp", r.timestamp.as_str());
    push_char(&mut out, ',');
    push_fld_i(&mut out, "attempted_offset_seconds", r.attempted_offset_seconds);
    push_char(&mut out, ',');
    push_fld_s(&mut out, "result", r.result.as_str());
    push_char(&mut out, '}');
    proof {
        reveal(time_attempt_json);
        assert(out@ =~= time_attempt_json(*r));
        lemma_time_attempt_json_no_newline(*r);
    }
    out
}

/// The telemetry summary of one tampering pass.
pub struct TimeTelemetry {
    /// The identifier of the owning run.
    pub test_id: String,
    /// The instant the summary was formed.
    pub timestamp: String,
    /// The technique classifier of the module.
    pub mitre: String,
    /// The module name.
    pub module: String,
    /// How many offsets were attempted.
    pub attempts: u64,
    /// How many attempts moved the clock.
    pub successful: u64,
    /// Whether the original clock was restored afterwards.
    pub restored: bool,
    /// The identity of the invoking process.
    pub parent: String,
}

/// The one-line JSON object of a tampering summary.
#[verifier::opaque]
pub open spec fn time_telemetry_json(t: TimeTelemetry) -> Seq<char> {
    seq!['{'] + fld_s("test_id"@, t.test_id@) + seq![','] + fld_s("timestamp"@, t.timestamp@)
        + seq![','] + fld_s("mitre"@, t.mitre@) + seq![','] + fld_s("module"@, t.module@)
        + seq![','] + fld_u("attempts"@, t.attempts as nat) + seq![','] + fld_u(
        "successful"@,
        t.successful as nat,
    ) + seq![','] + fld_b("restored"@, t.restored) + seq![','] + fld_s("parent"@, t.parent@)
        + seq!['}']
}

/// An encoded tampering summary never contains a raw newline.
pub proof fn lemma_time_telemetry_json_no_newline(t: TimeTelemetry)
    ensures
        no_newline(time_telemetry_json(t)),
{
    reveal(time_telemetry_json);
    lemma_fld_s_no_newline("test_id"@, t.test_id@);
    lemma_fld_s_no_newline("timestamp"@, t.timestamp@);
    lemma_fld_s_no_newline("mitre"@, t.mitre@);
    lemma_fld_s_no_newline("module"@, t.module@);
    lemma_fld_u_no_newline("attempts"@, t.attempts as nat);
    lemma_fld_u_no_newline("successful"@, t.successful as nat);
    lemma_fld_b_no_newline("restored"@, t.restored);
    lemma_fld_s_no_newline("parent"@, t.parent@);
    let p1 = seq!['{'] + fld_s("test_id"@, t.test_id@);
    lemma_no_newline_concat(seq!['{'], fld_s("test_id"@, t.test_id@));
    let p2 = p1 + seq![','];
    lemma_no_newline_concat(p1, seq![',']);
    let p3 = p2 + fld_s("timestamp"@, t.timestamp@);
    lemma_no_newline_concat(p2, fld_s("timestamp"@, t.timestamp@));
    let p4 = p3 + seq![','];
    lemma_no_newline_concat(p3, seq![',']);
    let p5 = p4 + fld_s("mitre"@, t.mitre@);
    lemma_no_newline_concat(p4, fld_s("mitre"@, t.mitre@));
    let p6 = p5 + seq![','];
    lemma_no_newline_concat(p5, seq![',']);
    let p7 = p6 + fld_s("module"@, t.module@);
    lemma_no_newline_concat(p6, fld_s("module"@, t.module@));
    let p8 = p7 + seq![','];
    lemma_no_newline_concat(p7, seq![',']);
    let p9 = p8 + fld_u("attempts"@, t.attempts as nat);
    lemma_no_newline_concat(p8, fld_u("attempts"@, t.attempts as nat));
    let p10 = p9 + seq![','];
    lemma_no_newline_concat(p9, seq![',']);
    let p11 = p10 + fld_u("successful"@, t.successful as nat);
    lemma_no_newline_concat(p10, fld_u("successful"@, t.successful as nat));
    let p12 = p11 + seq![','];
    lemma_no_newline_concat(p11, seq![',']);
    let p13 = p12 + fld_b("restored"@, t.restored);
    lemma_no_newline_concat(p12, fld_b("restored"@, t.restored));
    let p14 = p13 + seq![','];
    lemma_no_newline_concat(p13, seq![',']);
    let p15 = p14 + fld_s("parent"@, t.parent@);
    lemma_no_newline_concat(p14, fld_s("parent"@, t.parent@));
    lemma_no_newline_concat(p15, seq!['}']);
}

/// Encodes a tampering summary as its one-line JSON object.
pub fn encode_time_telemetry(t: &TimeTelemetry) -> (line: String)
    ensures
        line@ == time_telemetry_json(*t),
        no_newline(line@),
{
    let mut out = String::new();
    push_char(&mut out, '{');
    push_fld_s(&mut out, "test_id", t.test_id.as_str());
    push_char(&mut out, ',');
    push_fld_s(&mut out, "timestamp", t.timestamp.as_str());
    push_char(&mut out, ',');
    push_fld_s(&mut out, "mitre", t.mitre.as_str());
    push_char(&mut out, ',');
    push_fld_s(&mut out, "module", t.module.as_str());
    push_char(&mut out, ',');
    push_fld_u(&mut out, "attempts", t.attempts);
    push_char(&mut out, ',');
    push_fld_u(&mut out, "successful", t.successful);
    push_char(&mut out, ',');
    push_fld_b(&mut out, "restored", t.restored);
    push_char(&mut out, ',');
    push_fld_s(&mut out, "parent", t.parent.as_str());
    push_char(&mut out, '}');
    proof {
        reveal(time_telemetry_json);
        assert(out@ =~= time_telemetry_json(*t));
        lemma_time_telemetry_json_no_newline(*t);
    }
    out
}

impl TimeManipulationSimulation {
    /// The stable module name.
    pub fn name(&self) -> (n: &'static str)
        ensures
            n@ == "windows::time_manipulation_sim"@,
    {
        "windows::time_manipulation_sim"
    }

    /// The action label carried by this module's ledger records.
    pub fn action_label(&self) -> (l: &'static str)
        ensures
            l@ == "T1124 - T1070.006 windows::time_manipulation_sim"@,
    {
        "T1124 - T1070.006 windows::time_manipulation_sim"
    }

    /// The fixed offsets the pass attempts, in seconds and in order.
    pub fn offsets() -> (o: Vec<i64>)
        ensures
            o@ =~= seq![-300i64, 300i64, -900i64, 1800i64],
    {
        let mut v: Vec<i64> = Vec::new();
        v.push(-300);
        v.push(300);
        v.push(-900);
        v.push(1800);
        v
    }

    /// Builds one attempt record: `success` when the clock moved,
    /// `blocked` when the host refused.
    pub fn attempt_record(timestamp: String, offset: i64, ok: bool) -> (r: TimeAttempt)
        ensures
            r.timestamp == timestamp,
            r.attempted_offset_seconds == offset,
            ok ==> r.result@ == "success"@,
            !ok ==> r.result@ == "blocked"@,
    {
        let result = if ok {
            String::from_str("success")
        } else {
            String::from_str("blocked")
        };
        TimeAttempt { timestamp, attempted_offset_seconds: offset, result }
    }

    /// The original clock is restored exactly when some attempt
    /// moved it.
    pub fn should_restore(successful: u64) -> (b: bool)
        ensures
            b == (successful > 0),
    {
        successful > 0
    }

    /// Records the dry-run outcome: the clock is never touched.
    pub fn record_dry_run(&self, cfg: &RunConfig, ledger: &mut Ledger, timestamp: String) -> (r:
        Result<(), ActionError>)
        requires
            cfg.dry_run,
        ensures
            final(ledger)@.len() == old(ledger)@.len() + 1,
            forall|i: int| 0 <= i < old(ledger)@.len() ==> final(ledger)@[i] == old(ledger)@[i],
            final(ledger)@.last().test_id == cfg.test_id,
            final(ledger)@.last().status == Status::DryRun,
            final(ledger)@.last().action@ == "T1124 - T1070.006 windows::time_manipulation_sim"@,
            final(ledger)@.last().details@ == "Time manipulation skipped"@,
            r is Ok,
    {
        let _ = append_outcome(
            cfg,
            ledger,
            timestamp,
            self.action_label(),
            Status::DryRun,
            String::from_str("Time manipulation skipped"),
            None,
        );
        Ok(())
    }

    /// The terminal detail text of a completed pass.
    pub open spec fn outcome_details(attempts: nat, successful: nat, restored: bool) -> Seq<
        char,
    > {
        spec_dec(attempts) + " attempts, "@ + spec_dec(successful) + " succeeded, restored="@
            + bool_text(restored)
    }

    /// Records the completed pass: `completed` when some attempt
    /// moved the clock, `blocked` when the host refused every one.
    pub fn record_outcome(
        &self,
        cfg: &RunConfig,
        ledger: &mut Ledger,
        timestamp: String,
        attempts: u64,
        successful: u64,
        restored: bool,
    ) -> (r: Result<(), ActionError>)
        requires
            !cfg.dry_run,
        ensures
            final(ledger)@.len() == old(ledger)@.len() + 1,
            forall|i: int| 0 <= i < old(ledger)@.len() ==> final(ledger)@[i] == old(ledger)@[i],
            final(ledger)@.last().test_id == cfg.test_id,
            final(ledger)@.last().action@ == "T1124 - T1070.006 windows::time_manipulation_sim"@,
            final(ledger)@.last().status == (if successful > 0 {
                Status::Completed
            } else {
                Status::Blocked
            }),
            final(ledger)@.last().details@ == Self::outcome_details(
                attempts as nat,
                successful as nat,
                restored,
            ),
            r is Ok,
    {
        let status = if successful > 0 {
            Status::Completed
        } else {
            Status::Blocked
        };
        let mut details = String::new();
        push_dec_u64(&mut details, attempts);
        details.append(" attempts, ");
        push_dec_u64(&mut details, successful);
        details.append(" succeeded, restored=");
        push_bool_text(&mut details, restored);
        assert(details@ =~= Self::outcome_details(attempts as nat, successful as nat, restored));
        let _ = append_outcome(
            cfg,
            ledger,
            timestamp,
            self.action_label(),
            status,
            details,
            None,
        );
        Ok(())
    }
}

} // verus!
