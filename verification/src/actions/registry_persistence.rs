//! Benign persistence through a per-run registry run key.
//!
//! The module plans a command-file drop in the temporary directory,
//! a run key pointing at it, and the artifact the command would
//! write; the host performs the registry edits and verification and
//! hands the outcomes back.

use vstd::prelude::*;

use crate::config::RunConfig;
use crate::json::{
    fld_b, fld_s, fld_u, lemma_fld_b_no_newline, lemma_fld_s_no_newline, lemma_fld_u_no_newline,
    push_fld_b, push_fld_s, push_fld_u,
};
use crate::ledger::{append_outcome, Ledger};
use crate::record::{ActionError, Status};
use crate::text::{lemma_no_newline_concat, no_newline, push_char};

verus! {

use vstd::string::StringExecFns;

/// The run-key persistence module.
#[derive(Default)]
pub struct RegistryPersistenceSim;

/// The telemetry summary of one run-key simulation.
pub struct RegistryPersistenceTelemetry {
    /// The identifier of the owning run.
    pub test_id: String,
    /// The instant the summary was formed.
    pub timestamp: String,
    /// The registry path of the planted run key.
    pub registry_path: String,
    /// Where the command file was dropped.
    pub cmd_drop_path: String,
    /// The artifact the command file would write.
    pub artifact_path: String,
    /// Whether the run key was read back successfully.
    pub value_verified: bool,
    /// Wall-clock time of the simulation, in milliseconds.
    pub elapsed_ms: u64,
    /// The identity of the invoking process.
    pub parent: String,
}

/// The one-line JSON object of a run-key telemetry summary.
#[verifier::opaque]
pub open spec fn registry_telemetry_json(t: RegistryPersistenceTelemetry) -> Seq<char> {
    seq!['{'] + fld_s("test_id"@, t.test_id@) + seq![','] + fld_s("timestamp"@, t.timestamp@)
        + seq![','] + fld_s("registry_path"@, t.registry_path@) + seq![','] + fld_s(
        "cmd_drop_path"@,
        t.cmd_drop_path@,
    ) + seq![','] + fld_s("artifact_path"@, t.artifact_path@) + seq![','] + fld_b(
        "value_verified"@,
        t.value_verified,
    ) + seq![','] + fld_u("elapsed_ms"@, t.elapsed_ms as nat) + seq![','] + fld_s(
        "parent"@,
        t.parent@,
    ) + seq!['}']
}

/// An encoded run-key summary never contains a raw newline.
pub proof fn lemma_registry_telemetry_json_no_newline(t: RegistryPersistenceTelemetry)
    ensures
        no_newline(registry_telemetry_json(t)),
{
    reveal(registry_telemetry_json);
    lemma_fld_s_no_newline("test_id"@, t.test_id@);
    lemma_fld_s_no_newline("timestamp"@, t.timestamp@);
    lemma_fld_s_no_newline("registry_path"@, t.registry_path@);
    lemma_fld_s_no_newline("cmd_drop_path"@, t.cmd_drop_path@);
    lemma_fld_s_no_newline("artifact_path"@, t.artifact_path@);
    lemma_fld_b_no_newline("value_verified"@, t.value_verified);
    lemma_fld_u_no_newline("elapsed_ms"@, t.elapsed_ms as nat);
    lemma_fld_s_no_newline("parent"@, t.parent@);
    let p1 = seq!['{'] + fld_s("test_id"@, t.test_id@);
    lemma_no_newline_concat(seq!['{'], fld_s("test_id"@, t.test_id@));
    let p2 = p1 + seq![','];
    lemma_no_newline_concat(p1, seq![',']);
    let p3 = p2 + fld_s("timestamp"@, t.timestamp@);
    lemma_no_newline_concat(p2, fld_s("timestamp"@, t.timestamp@));
    let p4 = p3 + seq![','];
    lemma_no_newline_concat(p3, seq![',']);
    let p5 = p4 + fld_s("registry_path"@, t.registry_path@);
    lemma_no_newline_concat(p4, fld_s("registry_path"@, t.registry_path@));
    let p6 = p5 + seq![','];
    lemma_no_newline_concat(p5, seq![',']);
    let p7 = p6 + fld_s("cmd_drop_path"@, t.cmd_drop_path@);
    lemma_no_newline_concat(p6, fld_s("cmd_drop_path"@, t.cmd_drop_path@));
    let p8 = p7 + seq![','];
    lemma_no_newline_concat(p7, seq![',']);
    let p9 = p8 + fld_s("artifact_path"@, t.artifact_path@);
    lemma_no_newline_concat(p8, fld_s("artifact_path"@, t.artifact_path@));
    let p10 = p9 + seq![','];
    lemma_no_newline_concat(p9, seq![',']);
    let p11 = p10 + fld_b("value_verified"@, t.value_verified);
    lemma_no_newline_concat(p10, fld_b("value_verified"@, t.value_verified));
    let p12 = p11 + seq![','];
    lemma_no_newline_concat(p11, seq![',']);
    let p13 = p12 + fld_u("elapsed_ms"@, t.elapsed_ms as nat);
    lemma_no_newline_concat(p12, fld_u("elapsed_ms"@, t.elapsed_ms as nat));
    let p14 = p13 + seq![','];
    lemma_no_newline_concat(p13, seq![',']);
    let p15 = p14 + fld_s("parent"@, t.parent@);
    lemma_no_newline_concat(p14, fld_s("parent"@, t.parent@));
    lemma_no_newline_concat(p15, seq!['}']);
}

/// Encodes a run-key telemetry summary as its one-line JSON object.
pub fn encode_registry_telemetry(t: &RegistryPersistenceTelemetry) -> (line: String)
    ensures
        line@ == registry_telemetry_json(*t),
        no_newline(line@),
{
    let mut out = String::new();
    push_char(&mut out, '{');
    push_fld_s(&mut out, "test_id", t.test_id.as_str());
    push_char(&mut out, ',');
    push_fld_s(&mut out, "timestamp", t.timestamp.as_str());
    push_char(&mut out, ',');
    push_fld_s(&mut out, "registry_path", t.registry_path.as_str());
    push_char(&mut out, ',');
    push_fld_s(&mut out, "cmd_drop_path", t.cmd_drop_path.as_str());
    push_char(&mut out, ',');
    push_fld_s(&mut out, "artifact_path", t.artifact_path.as_str());
    push_char(&mut out, ',');
    push_fld_b(&mut out, "value_verified", t.value_verified);
    push_char(&mut out, ',');
    push_fld_u(&mut out, "elapsed_ms", t.elapsed_ms);
    push_char(&mut out, ',');
    push_fld_s(&mut out, "parent", t.parent.as_str());
    push_char(&mut out, '}');
    proof {
        reveal(registry_telemetry_json);
        assert(out@ =~= registry_telemetry_json(*t));
        lemma_registry_telemetry_json_no_newline(*t);
    }
    out
}

impl RegistryPersistenceSim {
    /// The stable module name.
    pub fn name(&self) -> (n: &'static str)
        ensures
            n@ == "windows::registry_persistence"@,
    {
        "windows::registry_persistence"
    }

    /// The per-run name of the planted run key.
    pub fn run_key_name(cfg: &RunConfig) -> (name: String)
        ensures
            name@ == "MagnetRunKey_"@ + cfg.test_id@,
    {
        let mut name = String::new();
        name.append("MagnetRunKey_");
        name.append(cfg.test_id.as_str());
        assert(name@ =~= "MagnetRunKey_"@ + cfg.test_id@);
        name
    }

    /// The full registry path of the planted run key.
    pub fn registry_path(cfg: &RunConfig) -> (path: String)
        ensures
            path@ == "HKCU\\Software\\Microsoft\\Windows\\CurrentVersion\\Run\\MagnetRunKey_"@
                + cfg.test_id@,
    {
        let mut path = String::new();
        path.append("HKCU\\Software\\Microsoft\\Windows\\CurrentVersion\\Run\\MagnetRunKey_");
        path.append(cfg.test_id.as_str());
        assert(path@ =~= "HKCU\\Software\\Microsoft\\Windows\\CurrentVersion\\Run\\MagnetRunKey_"@
            + cfg.test_id@);
        path
    }

    /// Where the command file is dropped, under the given temporary
    /// directory.
    pub fn cmd_drop_path(temp_dir: &str, cfg: &RunConfig) -> (path: String)
        ensures
            path@ == temp_dir@ + "\\magnet_runkey_"@ + cfg.test_id@ + ".cmd"@,
    {
        let mut path = String::new();
        path.append(temp_dir);
        path.append("\\magnet_runkey_");
        path.append(cfg.test_id.as_str());
        path.append(".cmd");
        assert(path@ =~= temp_dir@ + "\\magnet_runkey_"@ + cfg.test_id@ + ".cmd"@);
        path
    }

    /// The artifact the command file would write on next logon.
    pub fn artifact_path(temp_dir: &str, cfg: &RunConfig) -> (path: String)
        ensures
            path@ == temp_dir@ + "\\magnet_runkey_artifact_"@ + cfg.test_id@ + ".txt"@,
    {
        let mut path = String::new();
        path.append(temp_dir);
        path.append("\\magnet_runkey_artifact_");
        path.append(cfg.test_id.as_str());
        path.append(".txt");
        assert(path@ =~= temp_dir@ + "\\magnet_runkey_artifact_"@ + cfg.test_id@ + ".txt"@);
        path
    }

    /// The content of the dropped command file: it writes one marker
    /// line to the artifact path.
    pub fn cmd_drop_content(artifact_path: &str) -> (content: String)
        ensures
            content@ == "@echo off\r\necho MAGNET RUNKEY TEST > \""@ + artifact_path@ + "\"\r\n"@,
    {
        let mut content = String::new();
        content.append("@echo off\r\necho MAGNET RUNKEY TEST > \"");
        content.append(artifact_path);
        content.append("\"\r\n");
        assert(content@ =~= "@echo off\r\necho MAGNET RUNKEY TEST > \""@ + artifact_path@
            + "\"\r\n"@);
        content
    }

    /// Records the dry-run outcome: no key is created, and exactly
    /// one `dry-run` record is appended.
    pub fn record_dry_run(&self, cfg: &RunConfig, ledger: &mut Ledger, timestamp: String) -> (r:
        Result<(), ActionError>)
        requires
            cfg.dry_run,
        ensures
            final(ledger)@.len() == old(ledger)@.len() + 1,
            forall|i: int| 0 <= i < old(ledger)@.len() ==> final(ledger)@[i] == old(ledger)@[i],
            final(ledger)@.last().test_id == cfg.test_id,
            final(ledger)@.last().status == Status::DryRun,
            final(ledger)@.last().action@ == "registry_persistence"@,
            final(ledger)@.last().details@ == "dry-run: no Run key created"@,
            r is Ok,
    {
        let _ = append_outcome(
            cfg,
            ledger,
            timestamp,
            "registry_persistence",
            Status::DryRun,
            String::from_str("dry-run: no Run key created"),
            None,
        );
        Ok(())
    }

    /// Records the completed simulation: the key was planted and
    /// cleaned up, whatever the read-back verification said.
    pub fn record_written(
        &self,
        cfg: &RunConfig,
        ledger: &mut Ledger,
        timestamp: String,
        artifact: String,
    ) -> (r: Result<(), ActionError>)
        requires
            !cfg.dry_run,
        ensures
            final(ledger)@.len() == old(ledger)@.len() + 1,
            forall|i: int| 0 <= i < old(ledger)@.len() ==> final(ledger)@[i] == old(ledger)@[i],
            final(ledger)@.last().test_id == cfg.test_id,
            final(ledger)@.last().status == Status::Written,
            final(ledger)@.last().action@ == "registry_persistence"@,
            final(ledger)@.last().details@ == "Registry RunKey persistence simulated"@,
            final(ledger)@.last().artifact_path == Option::Some(artifact),
            r is Ok,
    {
        let _ = append_outcome(
            cfg,
            ledger,
            timestamp,
            "registry_persistence",
            Status::Written,
            String::from_str("Registry RunKey persistence simulated"),
            Some(artifact),
        );
        Ok(())
    }

    /// Records a failed step (the drop or the key write) and surfaces
    /// the failure with the same text.
    pub fn record_failed(
        &self,
        cfg: &RunConfig,
        ledger: &mut Ledger,
        timestamp: String,
        details: String,
    ) -> (r: Result<(), ActionError>)
        requires
            !cfg.dry_run,
        ensures
            final(ledger)@.len() == old(ledger)@.len() + 1,
            forall|i: int| 0 <= i < old(ledger)@.len() ==> final(ledger)@[i] == old(ledger)@[i],
            final(ledger)@.last().test_id == cfg.test_id,
            final(ledger)@.last().status == Status::Failed,
            final(ledger)@.last().action@ == "registry_persistence"@,
            final(ledger)@.last().details == details,
            r == Result::<(), ActionError>::Err(
                ActionError::EffectFailed(final(ledger)@.last().details),
            ),
    {
        let err = ActionError::EffectFailed(details.clone());
        let _ = append_outcome(
            cfg,
            ledger,
            timestamp,
            "registry_persistence",
            Status::Failed,
            details,
            None,
        );
        Err(err)
    }
}

} // verus!
