//! Enabling the host's SSH service and opening its port.
//!
//! The service commands and the port probe run on the host; the
//! module owns the command list, the port-status text, the telemetry
//! summary and the terminal record.

use vstd::prelude::*;

use crate::config::RunConfig;
use crate::json::{
    fld_s, fld_sa, fld_u, lemma_fld_s_no_newline, lemma_fld_sa_no_newline, lemma_fld_u_no_newline,
    push_fld_s, push_fld_sa, push_fld_u,
};
use crate::ledger::{append_outcome, Ledger};
use crate::record::{ActionError, Status};
use crate::text::{lemma_no_newline_concat, no_newline, push_char};

verus! {

use vstd::string::StringExecFns;

/// The SSH-enabling module.
#[derive(Default)]
pub struct EnableSshSimulation;

/// The telemetry summary of one SSH enablement.
pub struct EnableSshTelemetry {
    /// The identifier of the owning run.
    pub test_id: String,
    /// The instant the summary was formed.
    pub timestamp: String,
    /// The service's status text after the commands ran.
    pub ssh_status: String,
    /// The commands that were issued, in order.
    pub commands_run: Vec<String>,
    /// The port probe's status text.
    pub port_check: String,
    /// Wall-clock time of the enablement, in milliseconds.
    pub elapsed_ms: u64,
    /// The identity of the invoking process.
    pub parent: String,
}

/// The one-line JSON object of an SSH telemetry summary.
#[verifier::opaque]
pub open spec fn ssh_telemetry_json(t: EnableSshTelemetry) -> Seq<char> {
    seq!['{'] + fld_s("test_id"@, t.test_id@) + seq![','] + fld_s("timestamp"@, t.timestamp@)
        + seq![','] + fld_s("ssh_status"@, t.ssh_status@) + seq![','] + fld_sa(
        "commands_run"@,
        t.commands_run.deep_view(),
    ) + seq![','] + fld_s("port_check"@, t.port_check@) + seq![','] + fld_u(
        "elapsed_ms"@,
        t.elapsed_ms as nat,
    ) + seq![','] + fld_s("parent"@, t.parent@) + seq!['}']
}

/// An encoded SSH summary never contains a raw newline.
pub proof fn lemma_ssh_telemetry_json_no_newline(t: EnableSshTelemetry)
    ensures
        no_newline(ssh_telemetry_json(t)),
{
    reveal(ssh_telemetry_json);
    lemma_fld_s_no_newline("test_id"@, t.test_id@);
    lemma_fld_s_no_newline("timestamp"@, t.timestamp@);
    lemma_fld_s_no_newline("ssh_status"@, t.ssh_status@);
    lemma_fld_sa_no_newline("commands_run"@, t.commands_run.deep_view());
    lemma_fld_s_no_newline("port_check"@, t.port_check@);
    lemma_fld_u_no_newline("elapsed_ms"@, t.elapsed_ms as nat);
    lemma_fld_s_no_newline("parent"@, t.parent@);
    let p1 = seq!['{'] + fld_s("test_id"@, t.test_id@);
    lemma_no_newline_concat(seq!['{'], fld_s("test_id"@, t.test_id@));
    let p2 = p1 + seq![','];
    lemma_no_newline_concat(p1, seq![',']);
    let p3 = p2 + fld_s("timestamp"@, t.timestamp@);
    lemma_no_newline_concat(p2, fld_s("timestamp"@, t.timestamp@));
    let p4 = p3 + seq![','];
    lemma_no_newline_concat(p3, seq![',']);
    let p5 = p4 + fld_s("ssh_status"@, t.ssh_status@);
    lemma_no_newline_concat(p4, fld_s("ssh_status"@, t.ssh_status@));
    let p6 = p5 + seq![','];
    lemma_no_newline_concat(p5, seq![',']);
    let p7 = p6 + fld_sa("commands_run"@, t.commands_run.deep_view());
    lemma_no_newline_concat(p6, fld_sa("commands_run"@, t.commands_run.deep_view()));
    let p8 = p7 + seq![','];
    lemma_no_newline_concat(p7, seq![',']);
    let p9 = p8 + fld_s("port_check"@, t.port_check@);
    lemma_no_newline_concat(p8, fld_s("port_check"@, t.port_check@));
    let p10 = p9 + seq![','];
    lemma_no_newline_concat(p9, seq![',']);
    let p11 = p10 + fld_u("elapsed_ms"@, t.elapsed_ms as nat);
    lemma_no_newline_concat(p10, fld_u("elapsed_ms"@, t.elapsed_ms as nat));
    let p12 = p11 + seq![','];
    lemma_no_newline_concat(p11, seq![',']);
    let p13 = p12 + fld_s("parent"@, t.parent@);
    lemma_no_newline_concat(p12, fld_s("parent"@, t.parent@));
    lemma_no_newline_concat(p13, seq!['}']);
}

/// Encodes an SSH telemetry summary as its one-line JSON object.
pub fn encode_ssh_telemetry(t: &EnableSshTelemetry) -> (line: String)
    ensures
        line@ == ssh_telemetry_json(*t),
        no_newline(line@),
{
    let mut out = String::new();
    push_char(&mut out, '{');
    push_fld_s(&mut out, "test_id", t.test_id.as_str());
    push_char(&mut out, ',');
    push_fld_s(&mut out, "timestamp", t.timestamp.as_str());
    push_char(&mut out, ',');
    push_fld_s(&mut out, "ssh_status", t.ssh_status.as_str());
    push_char(&mut out, ',');
    push_fld_sa(&mut out, "commands_run", &t.commands_run);
    push_char(&mut out, ',');
    push_fld_s(&mut out, "port_check", t.port_check.as_str());
    push_char(&mut out, ',');
    push_fld_u(&mut out, "elapsed_ms", t.elapsed_ms);
    push_char(&mut out, ',');
    push_fld_s(&mut out, "parent", t.parent.as_str());
    push_char(&mut out, '}');
    proof {
        reveal(ssh_telemetry_json);
        assert(out@ =~= ssh_telemetry_json(*t));
        lemma_ssh_telemetry_json_no_newline(*t);
    }
    out
}

impl EnableSshSimulation {
    /// The stable module name.
    pub fn name(&self) -> (n: &'static str)
        ensures
            n@ == "windows::enable_ssh"@,
    {
        "windows::enable_ssh"
    }

    /// The commands that install the service, start it, and open its
    /// port, in the order they are issued.
    pub fn ssh_commands() -> (cmds: Vec<String>)
        ensures
            cmds@.len() == 4,
    {
        let mut v: Vec<String> = Vec::new();
        v.push(String::from_str("Add-WindowsCapability -Online -Name OpenSSH.Server~~~~0.0.1.0"));
        v.push(String::from_str("Set-Service -Name sshd -StartupType Automatic"));
        v.push(String::from_str("Start-Service sshd"));
        v.push(
            String::from_str(
                "New-NetFirewallRule -Name sshd -DisplayName 'OpenSSH Server' -Enabled True -Direction Inbound -Protocol TCP -Action Allow -LocalPort 22",
            ),
        );
        v
    }

    /// The port-status text: `reachable`, or `unreachable:` with the
    /// probe's error.
    pub fn port_status(reachable: bool, error_text: &str) -> (s: String)
        ensures
            reachable ==> s@ == "reachable"@,
            !reachable ==> s@ == "unreachable: "@ + error_text@,
    {
        if reachable {
            String::from_str("reachable")
        } else {
            let mut out = String::new();
            out.append("unreachable: ");
            out.append(error_text);
            assert(out@ =~= "unreachable: "@ + error_text@);
            out
        }
    }

    /// Records the dry-run outcome: no command is issued.
    pub fn record_dry_run(&self, cfg: &RunConfig, ledger: &mut Ledger, timestamp: String) -> (r:
        Result<(), ActionError>)
        requires
            cfg.dry_run,
        ensures
            final(ledger)@.len() == old(ledger)@.len() + 1,
            forall|i: int| 0 <= i < old(ledger)@.len() ==> final(ledger)@[i] == old(ledger)@[i],
            final(ledger)@.last().test_id == cfg.test_id,
            final(ledger)@.last().status == Status::DryRun,
            final(ledger)@.last().action@ == "enable_ssh"@,
            final(ledger)@.last().details@ == "dry-run: no commands executed"@,
            r is Ok,
    {
        let _ = append_outcome(
            cfg,
            ledger,
            timestamp,
            "enable_ssh",
            Status::DryRun,
            String::from_str("dry-run: no commands executed"),
            None,
        );
        Ok(())
    }

    /// Records the completed enablement with the port's status text.
    /// Command failures were logged along the way; the module
    /// completes regardless.
    pub fn record_written(
        &self,
        cfg: &RunConfig,
        ledger: &mut Ledger,
        timestamp: String,
        port_status: &str,
    ) -> (r: Result<(), ActionError>)
        requires
            !cfg.dry_run,
        ensures
            final(ledger)@.len() == old(ledger)@.len() + 1,
            forall|i: int| 0 <= i < old(ledger)@.len() ==> final(ledger)@[i] == old(ledger)@[i],
            final(ledger)@.last().test_id == cfg.test_id,
            final(ledger)@.last().status == Status::Written,
            final(ledger)@.last().action@ == "enable_ssh"@,
            final(ledger)@.last().details@ == "SSH status: "@ + port_status@,
            r is Ok,
    {
        let mut details = String::new();
        details.append("SSH status: ");
        details.append(port_status);
        assert(details@ =~= "SSH status: "@ + port_status@);
        let _ = append_outcome(
            cfg,
            ledger,
            timestamp,
            "enable_ssh",
            Status::Written,
            details,
            None,
        );
        Ok(())
    }
}

} // verus!
