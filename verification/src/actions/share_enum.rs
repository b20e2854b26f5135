//! Read-only enumeration of network shares.
//!
//! The enumeration commands run on the host; the module combines
//! their captured output into one detail text and records it.

use vstd::prelude::*;

use crate::config::RunConfig;
use crate::ledger::{append_outcome, Ledger};
use crate::record::{ActionError, Status};

verus! {

use vstd::string::StringExecFns;

/// The share-enumeration module.
#[derive(Default)]
pub struct ShareEnumSimulation;

/// The combined detail text of the four enumeration commands.
pub open spec fn share_details_spec(
    net_view: Seq<char>,
    net_share: Seq<char>,
    get_smb: Seq<char>,
    wmi_out: Seq<char>,
) -> Seq<char> {
    "net_view:\n"@ + net_view + "\n\nnet_share:\n"@ + net_share + "\n\nGet-SmbShare:\n"@ + get_smb
        + "\n\nWMI:\n"@ + wmi_out + "\n"@
}

impl ShareEnumSimulation {
    /// The stable module name.
    pub fn name(&self) -> (n: &'static str)
        ensures
            n@ == "windows::share_enum"@,
    {
        "windows::share_enum"
    }

    /// Combines the four captured command outputs into the record's
    /// detail text.
    pub fn combine_details(
        net_view: &str,
        net_share: &str,
        get_smb: &str,
        wmi_out: &str,
    ) -> (d: String)
        ensures
            d@ == share_details_spec(net_view@, net_share@, get_smb@, wmi_out@),
    {
        let mut out = String::new();
        out.append("net_view:\n");
        out.append(net_view);
        out.append("\n\nnet_share:\n");
        out.append(net_share);
        out.append("\n\nGet-SmbShare:\n");
        out.append(get_smb);
        out.append("\n\nWMI:\n");
        out.append(wmi_out);
        out.append("\n");
        assert(out@ =~= share_details_spec(net_view@, net_share@, get_smb@, wmi_out@));
        out
    }

    /// Records the dry-run outcome: no command runs.
    pub fn record_dry_run(&self, cfg: &RunConfig, ledger: &mut Ledger, timestamp: String) -> (r:
        Result<(), ActionError>)
        requires
            cfg.dry_run,
        ensures
            final(ledger)@.len() == old(ledger)@.len() + 1,
            forall|i: int| 0 <= i < old(ledger)@.len() ==> final(ledger)@[i] == old(ledger)@[i],
            final(ledger)@.last().test_id == cfg.test_id,
            final(ledger)@.last().status == Status::DryRun,
            final(ledger)@.last().action@ == "share_enum"@,
            final(ledger)@.last().details@
                == "Would run net view, net share, PowerShell, and WMI enumeration"@,
            r is Ok,
    {
        let _ = append_outcome(
            cfg,
            ledger,
            timestamp,
            "share_enum",
            Status::DryRun,
            String::from_str("Would run net view, net share, PowerShell, and WMI enumeration"),
            None,
        );
        Ok(())
    }

    /// Records the completed enumeration with its combined output.
    /// Enumeration noise is local: the module completes whatever the
    /// commands printed.
    pub fn record_completed(
        &self,
        cfg: &RunConfig,
        ledger: &mut Ledger,
        timestamp: String,
        details: String,
    ) -> (r: Result<(), ActionError>)
        requires
            !cfg.dry_run,
        ensures
            final(ledger)@.len() == old(ledger)@.len() + 1,
            forall|i: int| 0 <= i < old(ledger)@.len() ==> final(ledger)@[i] == old(ledger)@[i],
            final(ledger)@.last().test_id == cfg.test_id,
            final(ledger)@.last().status == Status::Completed,
            final(ledger)@.last().action@ == "share_enum"@,
            final(ledger)@.last().details == details,
            r is Ok,
    {
        let _ = append_outcome(
            cfg,
            ledger,
            timestamp,
            "share_enum",
            Status::Completed,
            details,
            None,
        );
        Ok(())
    }
}

} // verus!
