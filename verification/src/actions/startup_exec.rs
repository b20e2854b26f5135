//! Benign persistence through the user's startup folder.
//!
//! The module decides the script's location and content; the host
//! creates the file and hands back whether that succeeded.

use vstd::prelude::*;

use crate::config::RunConfig;
use crate::ledger::{append_outcome, Ledger};
use crate::record::{ActionError, Status};

verus! {

use vstd::string::StringExecFns;

/// The startup-script persistence module.
#[derive(Default)]
pub struct StartupExecSim;

/// The content of the startup script: at each logon it appends a
/// greeting, the test identifier and the creation instant to the
/// module's log file.
pub open spec fn script_content_spec(
    log_path: Seq<char>,
    test_id: Seq<char>,
    timestamp: Seq<char>,
) -> Seq<char> {
    "@echo off\r\necho Hello from Magnet! >> \""@ + log_path + "\"\r\necho TEST-ID: "@ + test_id
        + " >> \""@ + log_path + "\"\r\necho TIMESTAMP: "@ + timestamp + " >> \""@ + log_path
        + "\"\r\nexit /b 0\r\n"@
}

impl StartupExecSim {
    /// The stable module name.
    pub fn name(&self) -> (n: &'static str)
        ensures
            n@ == "windows::startup_exec"@,
    {
        "windows::startup_exec"
    }

    /// The action label carried by this module's ledger records.
    pub fn action_label(&self) -> (l: &'static str)
        ensures
            l@ == "T1547.001 - windows::startup_exec"@,
    {
        "T1547.001 - windows::startup_exec"
    }

    /// The startup folder under the user's configuration directory.
    pub fn startup_folder(config_dir: &str) -> (path: String)
        ensures
            path@ == config_dir@ + "\\Microsoft\\Windows\\Start Menu\\Programs\\Startup"@,
    {
        let mut path = String::new();
        path.append(config_dir);
        path.append("\\Microsoft\\Windows\\Start Menu\\Programs\\Startup");
        assert(path@ =~= config_dir@ + "\\Microsoft\\Windows\\Start Menu\\Programs\\Startup"@);
        path
    }

    /// The per-run name of the startup script.
    pub fn script_name(cfg: &RunConfig) -> (name: String)
        ensures
            name@ == "magnet_startup_"@ + cfg.test_id@ + ".cmd"@,
    {
        let mut name = String::new();
        name.append("magnet_startup_");
        name.append(cfg.test_id.as_str());
        name.append(".cmd");
        assert(name@ =~= "magnet_startup_"@ + cfg.test_id@ + ".cmd"@);
        name
    }

    /// The full path of the startup script.
    pub fn script_path(startup_dir: &str, cfg: &RunConfig) -> (path: String)
        ensures
            path@ == startup_dir@ + "\\magnet_startup_"@ + cfg.test_id@ + ".cmd"@,
    {
        let mut path = String::new();
        path.append(startup_dir);
        path.append("\\magnet_startup_");
        path.append(cfg.test_id.as_str());
        path.append(".cmd");
        assert(path@ =~= startup_dir@ + "\\magnet_startup_"@ + cfg.test_id@ + ".cmd"@);
        path
    }

    /// The per-run log file the script writes into, under the output
    /// root.
    pub fn script_log_path(output_root: &str, cfg: &RunConfig) -> (path: String)
        ensures
            path@ == output_root@ + "\\startup_exec_log_"@ + cfg.test_id@ + ".txt"@,
    {
        let mut path = String::new();
        path.append(output_root);
        path.append("\\startup_exec_log_");
        path.append(cfg.test_id.as_str());
        path.append(".txt");
        assert(path@ =~= output_root@ + "\\startup_exec_log_"@ + cfg.test_id@ + ".txt"@);
        path
    }

    /// Builds the startup script's content.
    pub fn script_content(log_path: &str, test_id: &str, timestamp: &str) -> (content: String)
        ensures
            content@ == script_content_spec(log_path@, test_id@, timestamp@),
    {
        let mut out = String::new();
        out.append("@echo off\r\necho Hello from Magnet! >> \"");
        out.append(log_path);
        out.append("\"\r\necho TEST-ID: ");
        out.append(test_id);
        out.append(" >> \"");
        out.append(log_path);
        out.append("\"\r\necho TIMESTAMP: ");
        out.append(timestamp);
        out.append(" >> \"");
        out.append(log_path);
        out.append("\"\r\nexit /b 0\r\n");
        assert(out@ =~= script_content_spec(log_path@, test_id@, timestamp@));
        out
    }

    /// Records the dry-run outcome: no script is written.
    pub fn record_dry_run(&self, cfg: &RunConfig, ledger: &mut Ledger, timestamp: String) -> (r:
        Result<(), ActionError>)
        requires
            cfg.dry_run,
        ensures
            final(ledger)@.len() == old(ledger)@.len() + 1,
            forall|i: int| 0 <= i < old(ledger)@.len() ==> final(ledger)@[i] == old(ledger)@[i],
            final(ledger)@.last().test_id == cfg.test_id,
            final(ledger)@.last().status == Status::DryRun,
            final(ledger)@.last().action@ == "T1547.001 - windows::startup_exec"@,
            final(ledger)@.last().details@ == "dry-run: no startup script written"@,
            r is Ok,
    {
        let _ = append_outcome(
            cfg,
            ledger,
            timestamp,
            self.action_label(),
            Status::DryRun,
            String::from_str("dry-run: no startup script written"),
            None,
        );
        Ok(())
    }

    /// Records a successful script drop.
    pub fn record_written(
        &self,
        cfg: &RunConfig,
        ledger: &mut Ledger,
        timestamp: String,
        script_path: String,
    ) -> (r: Result<(), ActionError>)
        requires
            !cfg.dry_run,
        ensures
            final(ledger)@.len() == old(ledger)@.len() + 1,
            forall|i: int| 0 <= i < old(ledger)@.len() ==> final(ledger)@[i] == old(ledger)@[i],
            final(ledger)@.last().test_id == cfg.test_id,
            final(ledger)@.last().status == Status::Written,
            final(ledger)@.last().action@ == "T1547.001 - windows::startup_exec"@,
            final(ledger)@.last().details@ == "startup script: "@ + script_path@,
            final(ledger)@.last().artifact_path == Option::Some(script_path),
            r is Ok,
    {
        let mut details = String::new();
        details.append("startup script: ");
        details.append(script_path.as_str());
        assert(details@ =~= "startup script: "@ + script_path@);
        let _ = append_outcome(
            cfg,
            ledger,
            timestamp,
            self.action_label(),
            Status::Written,
            details,
            Some(script_path),
        );
        Ok(())
    }

    /// Records a failed script drop and surfaces the failure with the
    /// same text.
    pub fn record_failed(
        &self,
        cfg: &RunConfig,
        ledger: &mut Ledger,
        timestamp: String,
        details: String,
    ) -> (r: Result<(), ActionError>)
        requires
            !cfg.dry_run,
        ensures
            final(ledger)@.len() == old(ledger)@.len() + 1,
            forall|i: int| 0 <= i < old(ledger)@.len() ==> final(ledger)@[i] == old(ledger)@[i],
            final(ledger)@.last().test_id == cfg.test_id,
            final(ledger)@.last().status == Status::Failed,
            final(ledger)@.last().action@ == "T1547.001 - windows::startup_exec"@,
            final(ledger)@.last().details == details,
            r == Result::<(), ActionError>::Err(
                ActionError::EffectFailed(final(ledger)@.last().details),
            ),
    {
        let err = ActionError::EffectFailed(details.clone());
        let _ = append_outcome(
            cfg,
            ledger,
            timestamp,
            self.action_label(),
            Status::Failed,
            details,
            None,
        );
        Err(err)
    }
}

} // verus!
