//! A benign "ransom note" text file on the user's desktop, clearly
//! labelled as a test artifact.
//!
//! The note's content and path are decided here; the host performs
//! the actual file write and hands back whether it succeeded.

use vstd::prelude::*;

use crate::config::RunConfig;
use crate::ledger::{append_outcome, Ledger};
use crate::record::{ActionError, Status};

verus! {

use vstd::string::StringExecFns;

/// The desktop-note module.
#[derive(Default)]
pub struct RansomNote;

/// The full note text for one run.
pub open spec fn note_content_spec(test_id: Seq<char>, timestamp: Seq<char>) -> Seq<char> {
    "=== MAGNET RANSOM-NOTE SIMULATION ===\r\n\r\nTHIS IS A BENIGN TEST ARTIFACT CREATED BY THE MAGNET TOOL.\r\nDO NOT RESPOND \u{2014} this file is safe and created for purple-team testing.\r\n\r\nMAGNET-TEST-ID: "@
        + test_id
        + "\r\nTIMESTAMP: "@
        + timestamp
        + "\r\n\r\nTo the SOC: This artifact is used to validate detection, ingestion and response.\r\n\r\n=== END OF NOTE ==="@
}

impl RansomNote {
    /// The stable module name.
    pub fn name(&self) -> (n: &'static str)
        ensures
            n@ == "windows::ransom_note"@,
    {
        "windows::ransom_note"
    }

    /// Builds the note text: a fixed banner naming the test identifier
    /// and the moment of creation.
    pub fn build_note_content(test_id: &str, timestamp: &str) -> (content: String)
        ensures
            content@ == note_content_spec(test_id@, timestamp@),
    {
        let mut out = String::new();
        out.append(
            "=== MAGNET RANSOM-NOTE SIMULATION ===\r\n\r\nTHIS IS A BENIGN TEST ARTIFACT CREATED BY THE MAGNET TOOL.\r\nDO NOT RESPOND \u{2014} this file is safe and created for purple-team testing.\r\n\r\nMAGNET-TEST-ID: ",
        );
        out.append(test_id);
        out.append("\r\nTIMESTAMP: ");
        out.append(timestamp);
        out.append(
            "\r\n\r\nTo the SOC: This artifact is used to validate detection, ingestion and response.\r\n\r\n=== END OF NOTE ===",
        );
        assert(out@ =~= note_content_spec(test_id@, timestamp@));
        out
    }

    /// The note's path under the given desktop directory.
    pub fn note_path(desktop: &str) -> (path: String)
        ensures
            path@ == desktop@ + "\\RANSOM_NOTE.txt"@,
    {
        let mut path = String::new();
        path.append(desktop);
        path.append("\\RANSOM_NOTE.txt");
        assert(path@ =~= desktop@ + "\\RANSOM_NOTE.txt"@);
        path
    }

    /// Records the dry-run outcome: no file is written, and exactly
    /// one `dry-run` record naming the planned path is appended.
    pub fn record_dry_run(
        &self,
        cfg: &RunConfig,
        ledger: &mut Ledger,
        timestamp: String,
        path: String,
    ) -> (r: Result<(), ActionError>)
        requires
            cfg.dry_run,
        ensures
            final(ledger)@.len() == old(ledger)@.len() + 1,
            forall|i: int| 0 <= i < old(ledger)@.len() ==> final(ledger)@[i] == old(ledger)@[i],
            final(ledger)@.last().test_id == cfg.test_id,
            final(ledger)@.last().status == Status::DryRun,
            final(ledger)@.last().action@ == "ransom_note"@,
            final(ledger)@.last().details@ == "dry-run: no file written"@,
            final(ledger)@.last().artifact_path == Option::Some(path),
            r is Ok,
    {
        let _ = append_outcome(
            cfg,
            ledger,
            timestamp,
            "ransom_note",
            Status::DryRun,
            String::from_str("dry-run: no file written"),
            Some(path),
        );
        Ok(())
    }

    /// Records a successful write of the note.
    pub fn record_written(
        &self,
        cfg: &RunConfig,
        ledger: &mut Ledger,
        timestamp: String,
        path: String,
    ) -> (r: Result<(), ActionError>)
        requires
            !cfg.dry_run,
        ensures
            final(ledger)@.len() == old(ledger)@.len() + 1,
            forall|i: int| 0 <= i < old(ledger)@.len() ==> final(ledger)@[i] == old(ledger)@[i],
            final(ledger)@.last().test_id == cfg.test_id,
            final(ledger)@.last().status == Status::Written,
            final(ledger)@.last().action@ == "ransom_note"@,
            final(ledger)@.last().details@ == "Wrote ransom note to Desktop: "@ + path@,
            final(ledger)@.last().artifact_path == Option::Some(path),
            r is Ok,
    {
        let mut details = String::new();
        details.append("Wrote ransom note to Desktop: ");
        details.append(path.as_str());
        assert(details@ =~= "Wrote ransom note to Desktop: "@ + path@);
        let _ = append_outcome(
            cfg,
            ledger,
            timestamp,
            "ransom_note",
            Status::Written,
            details,
            Some(path),
        );
        Ok(())
    }

    /// Records that the desktop directory could not be resolved and
    /// surfaces that as the module's failure.
    pub fn record_path_unresolved(&self, cfg: &RunConfig, ledger: &mut Ledger, timestamp: String)
        -> (r: Result<(), ActionError>)
        ensures
            final(ledger)@.len() == old(ledger)@.len() + 1,
            forall|i: int| 0 <= i < old(ledger)@.len() ==> final(ledger)@[i] == old(ledger)@[i],
            final(ledger)@.last().test_id == cfg.test_id,
            final(ledger)@.last().status == Status::Failed,
            final(ledger)@.last().action@ == "ransom_note"@,
            final(ledger)@.last().details@ == "could not determine Desktop path"@,
            r == Result::<(), ActionError>::Err(ActionError::PathUnresolved),
    {
        let _ = append_outcome(
            cfg,
            ledger,
            timestamp,
            "ransom_note",
            Status::Failed,
            String::from_str("could not determine Desktop path"),
            None,
        );
        Err(ActionError::PathUnresolved)
    }

    /// Records a failed write and surfaces the failure: the record
    /// carries the error text, and the returned error carries the
    /// same text.
    pub fn record_failed(
        &self,
        cfg: &RunConfig,
        ledger: &mut Ledger,
        timestamp: String,
        path: String,
        details: String,
    ) -> (r: Result<(), ActionError>)
        requires
            !cfg.dry_run,
        ensures
            final(ledger)@.len() == old(ledger)@.len() + 1,
            forall|i: int| 0 <= i < old(ledger)@.len() ==> final(ledger)@[i] == old(ledger)@[i],
            final(ledger)@.last().test_id == cfg.test_id,
            final(ledger)@.last().status == Status::Failed,
            final(ledger)@.last().action@ == "ransom_note"@,
            final(ledger)@.last().details == details,
            final(ledger)@.last().artifact_path == Option::Some(path),
            r == Result::<(), ActionError>::Err(
                ActionError::EffectFailed(final(ledger)@.last().details),
            ),
    {
        let err = ActionError::EffectFailed(details.clone());
        let _ = append_outcome(
            cfg,
            ledger,
            timestamp,
            "ransom_note",
            Status::Failed,
            details,
            Some(path),
        );
        Err(err)
    }
}

} // verus!
