//! Environment-variable collection.
//!
//! The host hands over the process environment as plain key-value
//! pairs; the module builds one record per variable, the telemetry
//! summary and the terminal record.

use vstd::prelude::*;

use crate::config::RunConfig;
use crate::json::{
    fld_s, fld_u, lemma_fld_s_no_newline, lemma_fld_u_no_newline, push_fld_s, push_fld_u,
};
use crate::ledger::{append_outcome, Ledger};
use crate::record::{ActionError, Status};
use crate::text::{lemma_no_newline_concat, no_newline, push_char, push_dec_u64, spec_dec};

verus! {

use vstd::string::StringExecFns;

/// The environment-collection module.
#[derive(Default)]
pub struct EnvVarsSimulation;

/// One collected environment variable.
#[derive(Debug, Clone, PartialEq, Eq)]
pub struct EnvVarRecord {
    /// The instant the variable was collected.
    pub timestamp: String,
    /// The variable's name.
    pub key: String,
    /// The variable's value.
    pub value: String,
}

/// The one-line JSON object of one collected variable.
#[verifier::opaque]
pub open spec fn env_var_record_json(r: EnvVarRecord) -> Seq<char> {
    seq!['{'] + fld_s("timestamp"@, r.timestamp@) + seq![','] + fld_s("key"@, r.key@) + seq![',']
        + fld_s("value"@, r.value@) + seq!['}']
}

/// An encoded variable record never contains a raw newline.
pub proof fn lemma_env_var_record_json_no_newline(r: EnvVarRecord)
    ensures
        no_newline(env_var_record_json(r)),
{
    reveal(env_var_record_json);
    lemma_fld_s_no_newline("timestamp"@, r.timestamp@);
    lemma_fld_s_no_newline("key"@, r.key@);
    lemma_fld_s_no_newline("value"@, r.value@);
    let p1 = seq!['{'] + fld_s("timestamp"@, r.timestamp@);
    lemma_no_newline_concat(seq!['{'], fld_s("timestamp"@, r.timestamp@));
    let p2 = p1 + seq![','];
    lemma_no_newline_concat(p1, seq![',']);
    let p3 = p2 + fld_s("key"@, r.key@);
    lemma_no_newline_concat(p2, fld_s("key"@, r.key@));
    let p4 = p3 + seq![','];
    lemma_no_newline_concat(p3, seq![',']);
    let p5 = p4 + fld_s("value"@, r.value@);
    lemma_no_newline_concat(p4, fld_s("value"@, r.value@));
    lemma_no_newline_concat(p5, seq!['}']);
}

/// Encodes one variable record as its one-line JSON object.
pub fn encode_env_var_record(r: &EnvVarRecord) -> (line: String)
    ensures
        line@ == env_var_record_json(*r),
        no_newline(line@),
{
    let mut out = String::new();
    push_char(&mut out, '{');
    push_fld_s(&mut out, "timestamp", r.timestamp.as_str());
    push_char(&mut out, ',');
    push_fld_s(&mut out, "key", r.key.as_str());
    push_char(&mut out, ',');
    push_fld_s(&mut out, "value", r.value.as_str());
    push_char(&mut out, '}');
    proof {
        reveal(env_var_record_json);
        assert(out@ =~= env_var_record_json(*r));
        lemma_env_var_record_json_no_newline(*r);
    }
    out
}

/// The telemetry summary of one collection pass.
pub struct EnvVarsTelemetry {
    /// The identifier of the owning run.
    pub test_id: String,
    /// The instant the summary was formed.
    pub timestamp: String,
    /// The technique classifier of the module.
    pub mitre: String,
    /// The module name.
    pub module: String,
    /// How many variables were collected.
    pub total_vars: u64,
    /// The identity of the invoking process.
    pub parent: String,
}

/// The one-line JSON object of an environment telemetry summary.
#[verifier::opaque]
pub open spec fn env_vars_telemetry_json(t: EnvVarsTelemetry) -> Seq<char> {
    seq!['{'] + fld_s("test_id"@, t.test_id@) + seq![','] + fld_s("timestamp"@, t.timestamp@)
        + seq![','] + fld_s("mitre"@, t.mitre@) + seq![','] + fld_s("module"@, t.module@)
        + seq![','] + fld_u("total_vars"@, t.total_vars as nat) + seq![','] + fld_s(
        "parent"@,
        t.parent@,
    ) + seq!['}']
}

/// An encoded environment summary never contains a raw newline.
pub proof fn lemma_env_vars_telemetry_json_no_newline(t: EnvVarsTelemetry)
    ensures
        no_newline(env_vars_telemetry_json(t)),
{
    reveal(env_vars_telemetry_json);
    lemma_fld_s_no_newline("test_id"@, t.test_id@);
    lemma_fld_s_no_newline("timestamp"@, t.timestamp@);
    lemma_fld_s_no_newline("mitre"@, t.mitre@);
    lemma_fld_s_no_newline("module"@, t.module@);
    lemma_fld_u_no_newline("total_vars"@, t.total_vars as nat);
    lemma_fld_s_no_newline("parent"@, t.parent@);
    let p1 = seq!['{'] + fld_s("test_id"@, t.test_id@);
    lemma_no_newline_concat(seq!['{'], fld_s("test_id"@, t.test_id@));
    let p2 = p1 + seq![','];
    lemma_no_newline_concat(p1, seq![',']);
    let p3 = p2 + fld_s("timestamp"@, t.timestamp@);
    lemma_no_newline_concat(p2, fld_s("timestamp"@, t.timestamp@));
    let p4 = p3 + seq![','];
    lemma_no_newline_concat(p3, seq![',']);
    let p5 = p4 + fld_s("mitre"@, t.mitre@);
    lemma_no_newline_concat(p4, fld_s("mitre"@, t.mitre@));
    let p6 = p5 + seq![','];
    lemma_no_newline_concat(p5, seq![',']);
    let p7 = p6 + fld_s("module"@, t.module@);
    lemma_no_newline_concat(p6, fld_s("module"@, t.module@));
    let p8 = p7 + seq![','];
    lemma_no_newline_concat(p7, seq![',']);
    let p9 = p8 + fld_u("total_vars"@, t.total_vars as nat);
    lemma_no_newline_concat(p8, fld_u("total_vars"@, t.total_vars as nat));
    let p10 = p9 + seq![','];
    lemma_no_newline_concat(p9, seq![',']);
    let p11 = p10 + fld_s("parent"@, t.parent@);
    lemma_no_newline_concat(p10, fld_s("parent"@, t.parent@));
    lemma_no_newline_concat(p11, seq!['}']);
}

/// Encodes an environment telemetry summary as its one-line JSON
/// object.
pub fn encode_env_vars_telemetry(t: &EnvVarsTelemetry) -> (line: String)
    ensures
        line@ == env_vars_telemetry_json(*t),
        no_newline(line@),
{
    let mut out = String::new();
    push_char(&mut out, '{');
    push_fld_s(&mut out, "test_id", t.test_id.as_str());
    push_char(&mut out, ',');
    push_fld_s(&mut out, "timestamp", t.timestamp.as_str());
    push_char(&mut out, ',');
    push_fld_s(&mut out, "mitre", t.mitre.as_str());
    push_char(&mut out, ',');
    push_fld_s(&mut out, "module", t.module.as_str());
    push_char(&mut out, ',');
    push_fld_u(&mut out, "total_vars", t.total_vars);
    push_char(&mut out, ',');
    push_fld_s(&mut out, "parent", t.parent.as_str());
    push_char(&mut out, '}');
    proof {
        reveal(env_vars_telemetry_json);
        assert(out@ =~= env_vars_telemetry_json(*t));
        lemma_env_vars_telemetry_json_no_newline(*t);
    }
    out
}

impl EnvVarsSimulation {
    /// The stable module name.
    pub fn name(&self) -> (n: &'static str)
        ensures
            n@ == "windows::get_env_vars"@,
    {
        "windows::get_env_vars"
    }

    /// The action label carried by this module's ledger records.
    pub fn action_label(&self) -> (l: &'static str)
        ensures
            l@ == "T1082 - windows::get_env_vars"@,
    {
        "T1082 - windows::get_env_vars"
    }

    /// Builds one record per collected variable, all tagged with the
    /// same collection instant and in the order they were handed over.
    pub fn env_records(timestamp: &str, vars: Vec<(String, String)>) -> (records: Vec<
        EnvVarRecord,
    >)
        ensures
            records@.len() == vars@.len(),
            forall|i: int|
                0 <= i < vars@.len() ==> (#[trigger] records@[i]).key == vars@[i].0
                    && records@[i].value == vars@[i].1 && records@[i].timestamp@ == timestamp@,
    {
        let mut records: Vec<EnvVarRecord> = Vec::new();
        let mut i: usize = 0;
        let n = vars.len();
        while i < n
            invariant
                n == vars@.len(),
                i <= n,
                records@.len() == i,
                forall|j: int|
                    0 <= j < i ==> (#[trigger] records@[j]).key == vars@[j].0 && records@[j].value
                        == vars@[j].1 && records@[j].timestamp@ == timestamp@,
            decreases n - i,
        {
            let (key, value) = (vars[i].0.clone(), vars[i].1.clone());
            records.push(
                EnvVarRecord { timestamp: String::from_str(timestamp), key, value },
            );
            i = i + 1;
        }
        records
    }

    /// One formatted line of the human-readable log per variable.
    pub fn var_log_line(r: &EnvVarRecord) -> (line: String)
        ensures
            line@ == r.key@ + "="@ + r.value@,
    {
        let mut out = String::new();
        out.append(r.key.as_str());
        out.append("=");
        out.append(r.value.as_str());
        assert(out@ =~= r.key@ + "="@ + r.value@);
        out
    }

    /// Records the dry-run outcome: nothing is collected.
    pub fn record_dry_run(&self, cfg: &RunConfig, ledger: &mut Ledger, timestamp: String) -> (r:
        Result<(), ActionError>)
        requires
            cfg.dry_run,
        ensures
            final(ledger)@.len() == old(ledger)@.len() + 1,
            forall|i: int| 0 <= i < old(ledger)@.len() ==> final(ledger)@[i] == old(ledger)@[i],
            final(ledger)@.last().test_id == cfg.test_id,
            final(ledger)@.last().status == Status::DryRun,
            final(ledger)@.last().action@ == "T1082 - windows::get_env_vars"@,
            final(ledger)@.last().details@ == "Env vars collection skipped"@,
            r is Ok,
    {
        let _ = append_outcome(
            cfg,
            ledger,
            timestamp,
            self.action_label(),
            Status::DryRun,
            String::from_str("Env vars collection skipped"),
            None,
        );
        Ok(())
    }

    /// Records a completed collection pass, counting the variables.
    pub fn record_completed(
        &self,
        cfg: &RunConfig,
        ledger: &mut Ledger,
        timestamp: String,
        total_vars: u64,
    ) -> (r: Result<(), ActionError>)
        requires
            !cfg.dry_run,
        ensures
            final(ledger)@.len() == old(ledger)@.len() + 1,
            forall|i: int| 0 <= i < old(ledger)@.len() ==> final(ledger)@[i] == old(ledger)@[i],
            final(ledger)@.last().test_id == cfg.test_id,
            final(ledger)@.last().status == Status::Completed,
            final(ledger)@.last().action@ == "T1082 - windows::get_env_vars"@,
            final(ledger)@.last().details@ == "Collected "@ + spec_dec(total_vars as nat)
                + " environment variables."@,
            r is Ok,
    {
        let mut details = String::new();
        details.append("Collected ");
        push_dec_u64(&mut details, total_vars);
        details.append(" environment variables.");
        assert(details@ =~= "Collected "@ + spec_dec(total_vars as nat)
            + " environment variables."@);
        let _ = append_outcome(
            cfg,
            ledger,
            timestamp,
            self.action_label(),
            Status::Completed,
            details,
            None,
        );
        Ok(())
    }
}

} // verus!
