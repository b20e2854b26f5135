//! Low-level process creation.
//!
//! The spawn itself is a host call; the module decides the artifact
//! path and the exact record written for each outcome.

use vstd::prelude::*;

use crate::config::RunConfig;
use crate::ledger::{append_outcome, Ledger};
use crate::record::{ActionError, Status};
use crate::text::{push_dec_u64, spec_dec};

verus! {

use vstd::string::StringExecFns;

/// The process-creation module.
#[derive(Default)]
pub struct CreateProcSim;

impl CreateProcSim {
    /// The stable module name.
    pub fn name(&self) -> (n: &'static str)
        ensures
            n@ == "windows::create_proc"@,
    {
        "windows::create_proc"
    }

    /// The module's tracking artifact under the output root.
    pub fn output_path(output_root: &str) -> (path: String)
        ensures
            path@ == output_root@ + "\\nt_create_proc_sim.log"@,
    {
        let mut path = String::new();
        path.append(output_root);
        path.append("\\nt_create_proc_sim.log");
        assert(path@ =~= output_root@ + "\\nt_create_proc_sim.log"@);
        path
    }

    /// Records the dry-run outcome: no process is spawned.
    pub fn record_dry_run(
        &self,
        cfg: &RunConfig,
        ledger: &mut Ledger,
        timestamp: String,
        out_path: String,
    ) -> (r: Result<(), ActionError>)
        requires
            cfg.dry_run,
        ensures
            final(ledger)@.len() == old(ledger)@.len() + 1,
            forall|i: int| 0 <= i < old(ledger)@.len() ==> final(ledger)@[i] == old(ledger)@[i],
            final(ledger)@.last().test_id == cfg.test_id,
            final(ledger)@.last().status == Status::DryRun,
            final(ledger)@.last().action@ == "create_proc"@,
            final(ledger)@.last().details@ == "dry-run: no process spawned"@,
            final(ledger)@.last().artifact_path == Option::Some(out_path),
            r is Ok,
    {
        let _ = append_outcome(
            cfg,
            ledger,
            timestamp,
            "create_proc",
            Status::DryRun,
            String::from_str("dry-run: no process spawned"),
            Some(out_path),
        );
        Ok(())
    }

    /// The detail text of a successful spawn, naming how long the
    /// handle stayed open.
    pub open spec fn written_details(elapsed_ms: nat) -> Seq<char> {
        "Process created and handle closed after 1 ("@ + spec_dec(elapsed_ms) + "ms)"@
    }

    /// Records a successful spawn whose handle was closed again.
    pub fn record_written(
        &self,
        cfg: &RunConfig,
        ledger: &mut Ledger,
        timestamp: String,
        out_path: String,
        elapsed_ms: u64,
    ) -> (r: Result<(), ActionError>)
        requires
            !cfg.dry_run,
        ensures
            final(ledger)@.len() == old(ledger)@.len() + 1,
            forall|i: int| 0 <= i < old(ledger)@.len() ==> final(ledger)@[i] == old(ledger)@[i],
            final(ledger)@.last().test_id == cfg.test_id,
            final(ledger)@.last().status == Status::Written,
            final(ledger)@.last().action@ == "create_proc"@,
            final(ledger)@.last().details@ == Self::written_details(elapsed_ms as nat),
            final(ledger)@.last().artifact_path == Option::Some(out_path),
            r is Ok,
    {
        let mut details = String::new();
        details.append("Process created and handle closed after 1 (");
        push_dec_u64(&mut details, elapsed_ms);
        details.append("ms)");
        assert(details@ =~= Self::written_details(elapsed_ms as nat));
        let _ = append_outcome(
            cfg,
            ledger,
            timestamp,
            "create_proc",
            Status::Written,
            details,
            Some(out_path),
        );
        Ok(())
    }

    /// Records a failed spawn and surfaces the failure: the record's
    /// detail text names the error, and the returned error carries
    /// the original message.
    pub fn record_failed(
        &self,
        cfg: &RunConfig,
        ledger: &mut Ledger,
        timestamp: String,
        out_path: String,
        error_text: String,
    ) -> (r: Result<(), ActionError>)
        requires
            !cfg.dry_run,
        ensures
            final(ledger)@.len() == old(ledger)@.len() + 1,
            forall|i: int| 0 <= i < old(ledger)@.len() ==> final(ledger)@[i] == old(ledger)@[i],
            final(ledger)@.last().test_id == cfg.test_id,
            final(ledger)@.last().status == Status::Failed,
            final(ledger)@.last().action@ == "create_proc"@,
            final(ledger)@.last().details@ == "error: "@ + error_text@,
            final(ledger)@.last().artifact_path == Option::Some(out_path),
            r == Result::<(), ActionError>::Err(ActionError::EffectFailed(error_text)),
    {
        let err = ActionError::EffectFailed(error_text.clone());
        let mut details = String::new();
        details.append("error: ");
        details.append(error_text.as_str());
        assert(details@ =~= "error: "@ + error_text@);
        let _ = append_outcome(
            cfg,
            ledger,
            timestamp,
            "create_proc",
            Status::Failed,
            details,
            Some(out_path),
        );
        Err(err)
    }
}

} // verus!
