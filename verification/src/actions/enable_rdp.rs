//! Enabling remote desktop: a registry edit, a firewall rule, and a
//! listener verification.
//!
//! The three steps are host commands; the module decides the exact
//! status and error from their three outcomes.

use vstd::prelude::*;

use crate::config::RunConfig;
use crate::ledger::{append_outcome, Ledger};
use crate::record::{ActionError, Status};
use crate::text::{bool_text, push_bool_text};

verus! {

use vstd::string::StringExecFns;

/// The remote-desktop enabling module.
#[derive(Default)]
pub struct EnableRdpSimulation;

/// The detail text naming each step's outcome.
pub open spec fn rdp_details_spec(reg_ok: bool, fw_ok: bool, verify_ok: bool) -> Seq<char> {
    "registry="@ + bool_text(reg_ok) + ", firewall="@ + bool_text(fw_ok) + ", verify="@
        + bool_text(verify_ok)
}

impl EnableRdpSimulation {
    /// The stable module name.
    pub fn name(&self) -> (n: &'static str)
        ensures
            n@ == "windows::enable_rdp"@,
    {
        "windows::enable_rdp"
    }

    /// The action label carried by this module's ledger records.
    pub fn action_label(&self) -> (l: &'static str)
        ensures
            l@ == "T1021.001 - windows::enable_rdp"@,
    {
        "T1021.001 - windows::enable_rdp"
    }

    /// Builds the detail text from the three step outcomes.
    pub fn details(reg_ok: bool, fw_ok: bool, verify_ok: bool) -> (d: String)
        ensures
            d@ == rdp_details_spec(reg_ok, fw_ok, verify_ok),
    {
        let mut out = String::new();
        out.append("registry=");
        push_bool_text(&mut out, reg_ok);
        out.append(", firewall=");
        push_bool_text(&mut out, fw_ok);
        out.append(", verify=");
        push_bool_text(&mut out, verify_ok);
        assert(out@ =~= rdp_details_spec(reg_ok, fw_ok, verify_ok));
        out
    }

    /// Records the dry-run outcome: no registry or firewall change.
    pub fn record_dry_run(&self, cfg: &RunConfig, ledger: &mut Ledger, timestamp: String) -> (r:
        Result<(), ActionError>)
        requires
            cfg.dry_run,
        ensures
            final(ledger)@.len() == old(ledger)@.len() + 1,
            forall|i: int| 0 <= i < old(ledger)@.len() ==> final(ledger)@[i] == old(ledger)@[i],
            final(ledger)@.last().test_id == cfg.test_id,
            final(ledger)@.last().status == Status::DryRun,
            final(ledger)@.last().action@ == "T1021.001 - windows::enable_rdp"@,
            final(ledger)@.last().details@ == "dry-run: no registry changes, no firewall changes"@,
            r is Ok,
    {
        let _ = append_outcome(
            cfg,
            ledger,
            timestamp,
            self.action_label(),
            Status::DryRun,
            String::from_str("dry-run: no registry changes, no firewall changes"),
            None,
        );
        Ok(())
    }

    /// Records the outcome of the three real steps and surfaces the
    /// module's overall result: `completed` when every step held, `partial`
    /// otherwise, and an error exactly when the listener verification
    /// failed.
    pub fn record_outcome(
        &self,
        cfg: &RunConfig,
        ledger: &mut Ledger,
        timestamp: String,
        reg_ok: bool,
        fw_ok: bool,
        verify_ok: bool,
    ) -> (r: Result<(), ActionError>)
        requires
            !cfg.dry_run,
        ensures
            final(ledger)@.len() == old(ledger)@.len() + 1,
            forall|i: int| 0 <= i < old(ledger)@.len() ==> final(ledger)@[i] == old(ledger)@[i],
            final(ledger)@.last().test_id == cfg.test_id,
            final(ledger)@.last().action@ == "T1021.001 - windows::enable_rdp"@,
            final(ledger)@.last().details@ == rdp_details_spec(reg_ok, fw_ok, verify_ok),
            final(ledger)@.last().status == (if reg_ok && fw_ok && verify_ok {
                Status::Completed
            } else {
                Status::Partial
            }),
            r is Ok <==> verify_ok,
            !verify_ok ==> r == Result::<(), ActionError>::Err(ActionError::VerificationFailed),
    {
        let all_ok = reg_ok && fw_ok && verify_ok;
        let status = if all_ok {
            Status::Completed
        } else {
            Status::Partial
        };
        let details = Self::details(reg_ok, fw_ok, verify_ok);
        let _ = append_outcome(
            cfg,
            ledger,
            timestamp,
            self.action_label(),
            status,
            details,
            None,
        );
        if !verify_ok {
            Err(ActionError::VerificationFailed)
        } else {
            Ok(())
        }
    }
}

} // verus!
