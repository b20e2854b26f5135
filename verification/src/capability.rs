//! The action capability contract.
//!
//! A capability is one self-contained technique module: a stable name
//! and a single entry point that consumes the shared run configuration
//! and records exactly one terminal outcome per invocation.

use vstd::prelude::*;

use crate::clock::now_rfc3339;
use crate::config::RunConfig;
use crate::ledger::Ledger;
use crate::record::{ActionError, ActionRecord, Status};

verus! {

use vstd::string::StringExecFns;

/// The contract every technique module implements.
///
/// `run` must append exactly one terminal record for the owning run:
/// never more, never fewer, and never by editing what was already
/// there.  Under `dry_run` it performs no effect, records a `dry-run`
/// status and succeeds; outside dry-run it never records `dry-run`.
/// When it fails it has already recorded a `failed` or `partial`
/// outcome before surfacing the error.
pub trait Capability {
    /// The stable identifier of this module, used in logs and records.
    fn name(&self) -> String;

    /// Performs (or, under dry-run, skips) the module's effect and
    /// records exactly one terminal outcome.
    fn run(&self, cfg: &RunConfig, ledger: &mut Ledger) -> (r: Result<(), ActionError>)
        ensures
            final(ledger)@.len() == old(ledger)@.len() + 1,
            forall|i: int| 0 <= i < old(ledger)@.len() ==> final(ledger)@[i] == old(ledger)@[i],
            final(ledger)@.last().test_id@ == cfg.test_id@,
            cfg.dry_run ==> r is Ok && final(ledger)@.last().status == Status::DryRun,
            !cfg.dry_run ==> final(ledger)@.last().status != Status::DryRun,
            r is Err ==> final(ledger)@.last().status == Status::Failed || final(ledger)@.last().status == Status::Partial,
    ;
}

/// A capability with a scripted outcome: it performs no effect of its
/// own and succeeds or fails exactly as configured.  Harness tests use
/// it to exercise the orchestrator's ordering and fail-fast policy.
pub struct ScriptedCapability {
    /// The stable name under which this capability records.
    pub label: String,
    /// The detail text of a successful outcome.
    pub details: String,
    /// When set, the capability records a failure and returns this
    /// error.
    pub fail_with: Option<ActionError>,
}

impl ScriptedCapability {
    /// A capability that always completes.
    pub fn succeeding(label: String, details: String) -> (c: ScriptedCapability)
        ensures
            c.label == label,
            c.details == details,
            c.fail_with is None,
    {
        ScriptedCapability { label, details, fail_with: None }
    }

    /// A capability that always fails with `err`.
    pub fn failing(label: String, details: String, err: ActionError) -> (c: ScriptedCapability)
        ensures
            c.label == label,
            c.details == details,
            c.fail_with == Option::Some(err),
    {
        ScriptedCapability { label, details, fail_with: Some(err) }
    }
}

impl Capability for ScriptedCapability {
    fn name(&self) -> String {
        self.label.clone()
    }

    fn run(&self, cfg: &RunConfig, ledger: &mut Ledger) -> (r: Result<(), ActionError>) {
        let ts = now_rfc3339();
        if cfg.dry_run {
            let rec = ActionRecord {
                test_id: cfg.test_id.clone(),
                timestamp: ts,
                action: self.label.clone(),
                status: Status::DryRun,
                details: String::from_str("dry-run: scripted action skipped"),
                artifact_path: None,
            };
            let _ = ledger.write_action_record(rec);
            Ok(())
        } else {
            match &self.fail_with {
                Option::None => {
                    let rec = ActionRecord {
                        test_id: cfg.test_id.clone(),
                        timestamp: ts,
                        action: self.label.clone(),
                        status: Status::Completed,
                        details: self.details.clone(),
                        artifact_path: None,
                    };
                    let _ = ledger.write_action_record(rec);
                    Ok(())
                },
                Option::Some(err) => {
                    let rec = ActionRecord {
                        test_id: cfg.test_id.clone(),
                        timestamp: ts,
                        action: self.label.clone(),
                        status: Status::Failed,
                        details: err.message(),
                        artifact_path: None,
                    };
                    let _ = ledger.write_action_record(rec);
                    Err(err.duplicate())
                },
            }
        }
    }
}

} // verus!
