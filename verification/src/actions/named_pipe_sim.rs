//! Named-pipe server/client activity over a fixed list of benign
//! pipe names.
//!
//! Creating and opening the pipes is host work; the module decides
//! the staged records for each pipe's outcome and the aggregate.

use vstd::prelude::*;

use crate::config::RunConfig;
use crate::json::{
    fld_b, fld_s, fld_u, lemma_fld_b_no_newline, lemma_fld_s_no_newline, lemma_fld_u_no_newline,
    push_fld_b, push_fld_s, push_fld_u,
};
use crate::ledger::{append_outcome, Ledger};
use crate::record::{ActionError, Status};
use crate::storm::{count_matching, count_true, lemma_counts_partition};
use crate::text::{lemma_no_newline_concat, no_newline, push_char, push_dec_u64, spec_dec};

verus! {

use vstd::string::StringExecFns;

/// The named-pipe module.
#[derive(Default)]
pub struct NamedPipeSimulation;

/// One staged pipe operation: creating the server end, readying it,
/// or connecting the client end.
#[derive(Debug, Clone, PartialEq, Eq)]
pub struct PipeRecord {
    /// The instant of the stage.
    pub timestamp: String,
    /// The pipe's name.
    pub pipe_name: String,
    /// The stage label.
    pub stage: String,
    /// Whether the stage succeeded.
    pub success: bool,
}

/// The one-line JSON object of one staged pipe operation.
#[verifier::opaque]
pub open spec fn pipe_record_json(r: PipeRecord) -> Seq<char> {
    seq!['{'] + fld_s("timestamp"@, r.timestamp@) + seq![','] + fld_s("pipe_name"@, r.pipe_name@)
        + seq![','] + fld_s("stage"@, r.stage@) + seq![','] + fld_b("success"@, r.success)
        + seq!['}']
}

/// An encoded pipe record never contains a raw newline.
pub proof fn lemma_pipe_record_json_no_newline(r: PipeRecord)
    ensures
        no_newline(pipe_record_json(r)),
{
    reveal(pipe_record_json);
    lemma_fld_s_no_newline("timestamp"@, r.timestamp@);
    lemma_fld_s_no_newline("pipe_name"@, r.pipe_name@);
    lemma_fld_s_no_newline("stage"@, r.stage@);
    lemma_fld_b_no_newline("success"@, r.success);
    let p1 = seq!['{'] + fld_s("timestamp"@, r.timestamp@);
    lemma_no_newline_concat(seq!['{'], fld_s("timestamp"@, r.timestamp@));
    let p2 = p1 + seq![','];
    lemma_no_newline_concat(p1, seq![',']);
    let p3 = p2 + fld_s("pipe_name"@, r.pipe_name@);
    lemma_no_newline_concat(p2, fld_s("pipe_name"@, r.pipe_name@));
    let p4 = p3 + seq![','];
    lemma_no_newline_concat(p3, seq![',']);
    let p5 = p4 + fld_s("stage"@, r.stage@);
    lemma_no_newline_concat(p4, fld_s("stage"@, r.stage@));
    let p6 = p5 + seq![','];
    lemma_no_newline_concat(p5, seq![',']);
    let p7 = p6 + fld_b("success"@, r.success);
    lemma_no_newline_concat(p6, fld_b("success"@, r.success));
    lemma_no_newline_concat(p7, seq!['}']);
}

/// Encodes one pipe record as its one-line JSON object.
pub fn encode_pipe_record(r: &PipeRecord) -> (line: String)
    ensures
        line@ == pipe_record_json(*r),
        no_newline(line@),
{
    let mut out = String::new();
    push_char(&mut out, '{');
    push_fld_s(&mut out, "timestamp", r.timestamp.as_str());
    push_char(&mut out, ',');
    push_fld_s(&mut out, "pipe_name", r.pipe_name.as_str());
    push_char(&mut out, ',');
    push_fld_s(&mut out, "stage", r.stage.as_str());
    push_char(&mut out, ',');
    push_fld_b(&mut out, "success", r.success);
    push_char(&mut out, '}');
    proof {
        reveal(pipe_record_json);
        assert(out@ =~= pipe_record_json(*r));
        lemma_pipe_record_json_no_newline(*r);
    }
    out
}

/// The aggregate over one pipe pass.
pub struct PipeSummary {
    /// The identifier of the owning run.
    pub test_id: String,
    /// The instant the summary was formed.
    pub timestamp: String,
    /// The technique classifier of the module.
    pub mitre: String,
    /// The module name.
    pub module: String,
    /// How many staged operations were recorded.
    pub total_pipes: u64,
    /// How many operations succeeded.
    pub successful: u64,
    /// How many operations failed.
    pub failed: u64,
    /// The identity of the invoking process.
    pub parent: String,
}

/// The one-line JSON object of a pipe summary.
#[verifier::opaque]
pub open spec fn pipe_summary_json(s: PipeSummary) -> Seq<char> {
    seq!['{'] + fld_s("test_id"@, s.test_id@) + seq![','] + fld_s("timestamp"@, s.timestamp@)
        + seq![','] + fld_s("mitre"@, s.mitre@) + seq![','] + fld_s("module"@, s.module@)
        + seq![','] + fld_u("total_pipes"@, s.total_pipes as nat) + seq![','] + fld_u(
        "successful"@,
        s.successful as nat,
    ) + seq![','] + fld_u("failed"@, s.failed as nat) + seq![','] + fld_s("parent"@, s.parent@)
        + seq!['}']
}

/// An encoded pipe summary never contains a raw newline.
pub proof fn lemma_pipe_summary_json_no_newline(s: PipeSummary)
    ensures
        no_newline(pipe_summary_json(s)),
{
    reveal(pipe_summary_json);
    lemma_fld_s_no_newline("test_id"@, s.test_id@);
    lemma_fld_s_no_newline("timestamp"@, s.timestamp@);
    lemma_fld_s_no_newline("mitre"@, s.mitre@);
    lemma_fld_s_no_newline("module"@, s.module@);
    lemma_fld_u_no_newline("total_pipes"@, s.total_pipes as nat);
    lemma_fld_u_no_newline("successful"@, s.successful as nat);
    lemma_fld_u_no_newline("failed"@, s.failed as nat);
    lemma_fld_s_no_newline("parent"@, s.parent@);
    let p1 = seq!['{'] + fld_s("test_id"@, s.test_id@);
    lemma_no_newline_concat(seq!['{'], fld_s("test_id"@, s.test_id@));
    let p2 = p1 + seq![','];
    lemma_no_newline_concat(p1, seq![',']);
    let p3 = p2 + fld_s("timestamp"@, s.timestamp@);
    lemma_no_newline_concat(p2, fld_s("timestamp"@, s.timestamp@));
    let p4 = p3 + seq![','];
    lemma_no_newline_concat(p3, seq![',']);
    let p5 = p4 + fld_s("mitre"@, s.mitre@);
    lemma_no_newline_concat(p4, fld_s("mitre"@, s.mitre@));
    let p6 = p5 + seq![','];
    lemma_no_newline_concat(p5, seq![',']);
    let p7 = p6 + fld_s("module"@, s.module@);
    lemma_no_newline_concat(p6, fld_s("module"@, s.module@));
    let p8 = p7 + seq![','];
    lemma_no_newline_concat(p7, seq![',']);
    let p9 = p8 + fld_u("total_pipes"@, s.total_pipes as nat);
    lemma_no_newline_concat(p8, fld_u("total_pipes"@, s.total_pipes as nat));
    let p10 = p9 + seq![','];
    lemma_no_newline_concat(p9, seq![',']);
    let p11 = p10 + fld_u("successful"@, s.successful as nat);
    lemma_no_newline_concat(p10, fld_u("successful"@, s.successful as nat));
    let p12 = p11 + seq![','];
    lemma_no_newline_concat(p11, seq![',']);
    let p13 = p12 + fld_u("failed"@, s.failed as nat);
    lemma_no_newline_concat(p12, fld_u("failed"@, s.failed as nat));
    let p14 = p13 + seq![','];
    lemma_no_newline_concat(p13, seq![',']);
    let p15 = p14 + fld_s("parent"@, s.parent@);
    lemma_no_newline_concat(p14, fld_s("parent"@, s.parent@));
    lemma_no_newline_concat(p15, seq!['}']);
}

/// Encodes a pipe summary as its one-line JSON object.
pub fn encode_pipe_summary(s: &PipeSummary) -> (line: String)
    ensures
        line@ == pipe_summary_json(*s),
        no_newline(line@),
{
    let mut out = String::new();
    push_char(&mut out, '{');
    push_fld_s(&mut out, "test_id", s.test_id.as_str());
    push_char(&mut out, ',');
    push_fld_s(&mut out, "timestamp", s.timestamp.as_str());
    push_char(&mut out, ',');
    push_fld_s(&mut out, "mitre", s.mitre.as_str());
    push_char(&mut out, ',');
    push_fld_s(&mut out, "module", s.module.as_str());
    push_char(&mut out, ',');
    push_fld_u(&mut out, "total_pipes", s.total_pipes);
    push_char(&mut out, ',');
    push_fld_u(&mut out, "successful", s.successful);
    push_char(&mut out, ',');
    push_fld_u(&mut out, "failed", s.failed);
    push_char(&mut out, ',');
    push_fld_s(&mut out, "parent", s.parent.as_str());
    push_char(&mut out, '}');
    proof {
        reveal(pipe_summary_json);
        assert(out@ =~= pipe_summary_json(*s));
        lemma_pipe_summary_json_no_newline(*s);
    }
    out
}

/// The success flags of a staged-record sequence, in order.
pub open spec fn pipe_success_flags(rs: Seq<PipeRecord>) -> Seq<bool> {
    rs.map_values(|r: PipeRecord| r.success)
}

impl NamedPipeSimulation {
    /// The stable module name.
    pub fn name(&self) -> (n: &'static str)
        ensures
            n@ == "windows::named_pipe_sim"@,
    {
        "windows::named_pipe_sim"
    }

    /// The action label carried by this module's ledger records.
    pub fn action_label(&self) -> (l: &'static str)
        ensures
            l@ == "T1559.002 - windows::named_pipe_sim"@,
    {
        "T1559.002 - windows::named_pipe_sim"
    }

    /// The fixed list of benign pipe names the pass exercises.
    pub fn pipe_names() -> (names: Vec<String>)
        ensures
            names@.len() == 7,
    {
        let mut v: Vec<String> = Vec::new();
        v.push(String::from_str("\\\\.\\pipe\\mojo.12345.67890"));
        v.push(String::from_str("\\\\.\\pipe\\PSEXESVC"));
        v.push(String::from_str("\\\\.\\pipe\\status_communication"));
        v.push(String::from_str("\\\\.\\pipe\\agent_telemetry"));
        v.push(String::from_str("\\\\.\\pipe\\svcctl"));
        v.push(String::from_str("\\\\.\\pipe\\session.pipe.test"));
        v.push(String::from_str("\\\\.\\pipe\\random_task_channel"));
        v
    }

    /// The staged records of one pipe's outcomes: one failed
    /// `create_pipe` record when the server end could not be made,
    /// otherwise the create, ready and client-connect stages in
    /// order.
    pub fn pipe_stage_records(timestamp: &str, pipe_name: &str, ok_server: bool, ok_client: bool)
        -> (records: Vec<PipeRecord>)
        ensures
            !ok_server ==> records@.len() == 1,
            ok_server ==> records@.len() == 3,
            forall|i: int|
                0 <= i < records@.len() ==> (#[trigger] records@[i]).pipe_name@ == pipe_name@
                    && records@[i].timestamp@ == timestamp@,
            records@[0].stage@ == "create_pipe"@,
            records@[0].success == ok_server,
            ok_server ==> records@[1].stage@ == "server_ready"@ && records@[1].success,
            ok_server ==> records@[2].stage@ == "client_connect"@ && records@[2].success
                == ok_client,
    {
        let mut records: Vec<PipeRecord> = Vec::new();
        records.push(
            PipeRecord {
                timestamp: String::from_str(timestamp),
                pipe_name: String::from_str(pipe_name),
                stage: String::from_str("create_pipe"),
                success: ok_server,
            },
        );
        if ok_server {
            records.push(
                PipeRecord {
                    timestamp: String::from_str(timestamp),
                    pipe_name: String::from_str(pipe_name),
                    stage: String::from_str("server_ready"),
                    success: true,
                },
            );
            records.push(
                PipeRecord {
                    timestamp: String::from_str(timestamp),
                    pipe_name: String::from_str(pipe_name),
                    stage: String::from_str("client_connect"),
                    success: ok_client,
                },
            );
        }
        records
    }

    /// Reduces a completed pass: the successful and failed counts
    /// partition the staged records exactly.
    pub fn summarize_records(records: &Vec<PipeRecord>) -> (counts: (usize, usize))
        ensures
            counts.0 == count_matching(pipe_success_flags(records@), true),
            counts.1 == count_matching(pipe_success_flags(records@), false),
            counts.0 + counts.1 == records@.len(),
    {
        let mut flags: Vec<bool> = Vec::new();
        let mut i: usize = 0;
        let n = records.len();
        while i < n
            invariant
                n == records@.len(),
                i <= n,
                flags@ =~= pipe_success_flags(records@.take(i as int)),
            decreases n - i,
        {
            flags.push(records[i].success);
            proof {
                assert(flags@ =~= pipe_success_flags(records@.take(i as int + 1)));
            }
            i = i + 1;
        }
        proof {
            assert(records@.take(n as int) =~= records@);
        }
        let successful = count_true(&flags);
        let failed = n - successful;
        proof {
            lemma_counts_partition(pipe_success_flags(records@));
        }
        (successful, failed)
    }

    /// Records the dry-run outcome: no pipe operation runs.
    pub fn record_dry_run(&self, cfg: &RunConfig, ledger: &mut Ledger, timestamp: String) -> (r:
        Result<(), ActionError>)
        requires
            cfg.dry_run,
        ensures
            final(ledger)@.len() == old(ledger)@.len() + 1,
            forall|i: int| 0 <= i < old(ledger)@.len() ==> final(ledger)@[i] == old(ledger)@[i],
            final(ledger)@.last().test_id == cfg.test_id,
            final(ledger)@.last().status == Status::DryRun,
            final(ledger)@.last().action@ == "T1559.002 - windows::named_pipe_sim"@,
            final(ledger)@.last().details@ == "Named pipe simulation skipped"@,
            r is Ok,
    {
        let _ = append_outcome(
            cfg,
            ledger,
            timestamp,
            self.action_label(),
            Status::DryRun,
            String::from_str("Named pipe simulation skipped"),
            None,
        );
        Ok(())
    }

    /// Records the completed pass with its counts.  Per-pipe failures
    /// were absorbed into the staged records, so this never fails.
    pub fn record_completed(
        &self,
        cfg: &RunConfig,
        ledger: &mut Ledger,
        timestamp: String,
        successful: u64,
        failed: u64,
    ) -> (r: Result<(), ActionError>)
        requires
            !cfg.dry_run,
        ensures
            final(ledger)@.len() == old(ledger)@.len() + 1,
            forall|i: int| 0 <= i < old(ledger)@.len() ==> final(ledger)@[i] == old(ledger)@[i],
            final(ledger)@.last().test_id == cfg.test_id,
            final(ledger)@.last().status == Status::Completed,
            final(ledger)@.last().action@ == "T1559.002 - windows::named_pipe_sim"@,
            final(ledger)@.last().details@ == spec_dec(successful as nat) + " ok, "@ + spec_dec(
                failed as nat,
            ) + " failed pipe operations"@,
            r is Ok,
    {
        let mut details = String::new();
        push_dec_u64(&mut details, successful);
        details.append(" ok, ");
        push_dec_u64(&mut details, failed);
        details.append(" failed pipe operations");
        assert(details@ =~= spec_dec(successful as nat) + " ok, "@ + spec_dec(failed as nat)
            + " failed pipe operations"@);
        let _ = append_outcome(
            cfg,
            ledger,
            timestamp,
            self.action_label(),
            Status::Completed,
            details,
            None,
        );
        Ok(())
    }
}

} // verus!
