//! Process minidumps for a fixed list of target processes.
//!
//! Finding processes and writing dumps is host work; the module
//! decides the dump locations, sanitizes names, and records which
//! dumps were written.

use vstd::prelude::*;

use crate::config::RunConfig;
use crate::ledger::{append_outcome, Ledger};
use crate::record::{ActionError, Status};
use crate::text::{chars_vec, join_strings, join_with, push_char, push_dec_u64, spec_dec};

verus! {

use vstd::string::StringExecFns;

/// The minidump module.
#[derive(Default)]
pub struct MinidumpProc;

/// A process name with path separators replaced, safe inside a
/// filename.
pub open spec fn sanitized(s: Seq<char>) -> Seq<char> {
    s.map_values(
        |c: char|
            if c == '\\' || c == '/' {
                '_'
            } else {
                c
            },
    )
}

/// The detail text naming the written dumps, or the absence of any.
pub open spec fn dump_details_spec(written: Seq<Seq<char>>) -> Seq<char> {
    if written.len() == 0 {
        "no dumps written"@
    } else {
        "dumps: "@ + join_with(written, ", "@)
    }
}

impl MinidumpProc {
    /// The stable module name.
    pub fn name(&self) -> (n: &'static str)
        ensures
            n@ == "windows::minidump_proc"@,
    {
        "windows::minidump_proc"
    }

    /// The fixed list of processes the module tries to dump.
    pub fn target_processes() -> (names: Vec<String>)
        ensures
            names@.len() == 9,
    {
        let mut v: Vec<String> = Vec::new();
        v.push(String::from_str("notepad.exe"));
        v.push(String::from_str("spoolsv.exe"));
        v.push(String::from_str("explorer.exe"));
        v.push(String::from_str("svchost.exe"));
        v.push(String::from_str("audiodg.exe"));
        v.push(String::from_str("dwm.exe"));
        v.push(String::from_str("lsass.exe"));
        v.push(String::from_str("winlogon.exe"));
        v.push(String::from_str("smss.exe"));
        v
    }

    /// The directory dumps are written into, under the output root.
    pub fn dump_dir(output_root: &str) -> (path: String)
        ensures
            path@ == output_root@ + "\\minidumps"@,
    {
        let mut path = String::new();
        path.append(output_root);
        path.append("\\minidumps");
        assert(path@ =~= output_root@ + "\\minidumps"@);
        path
    }

    /// Replaces path separators in a process name so it can stand in
    /// a filename.
    pub fn sanitize_name(name: &str) -> (safe: String)
        ensures
            safe@ == sanitized(name@),
    {
        let cs = chars_vec(name);
        let mut out = String::new();
        let mut i: usize = 0;
        let n = cs.len();
        while i < n
            invariant
                n == cs@.len(),
                cs@ == name@,
                i <= n,
                out@ =~= sanitized(name@.take(i as int)),
            decreases n - i,
        {
            let c = cs[i];
            if c == '\\' || c == '/' {
                push_char(&mut out, '_');
            } else {
                push_char(&mut out, c);
            }
            proof {
                assert(out@ =~= sanitized(name@.take(i as int + 1)));
            }
            i = i + 1;
        }
        proof {
            assert(name@.take(n as int) =~= name@);
            assert(out@ =~= sanitized(name@));
        }
        out
    }

    /// The full path of one process's dump file.
    pub fn dump_path(out_dir: &str, proc_name: &str, pid: u32) -> (path: String)
        ensures
            path@ == out_dir@ + "\\"@ + sanitized(proc_name@) + "-"@ + spec_dec(pid as nat)
                + ".dmp"@,
    {
        let safe = Self::sanitize_name(proc_name);
        let mut path = String::new();
        path.append(out_dir);
        path.append("\\");
        path.append(safe.as_str());
        path.append("-");
        push_dec_u64(&mut path, pid as u64);
        path.append(".dmp");
        assert(path@ =~= out_dir@ + "\\"@ + sanitized(proc_name@) + "-"@ + spec_dec(pid as nat)
            + ".dmp"@);
        path
    }

    /// Builds the detail text from the list of written dump paths.
    pub fn dump_details(written: &Vec<String>) -> (d: String)
        ensures
            d@ == dump_details_spec(written.deep_view()),
    {
        if written.len() == 0 {
            String::from_str("no dumps written")
        } else {
            let mut out = String::new();
            out.append("dumps: ");
            let joined = join_strings(written, ", ");
            out.append(joined.as_str());
            assert(out@ =~= dump_details_spec(written.deep_view()));
            out
        }
    }

    /// Records the dry-run outcome: no dump is attempted.
    pub fn record_dry_run(&self, cfg: &RunConfig, ledger: &mut Ledger, timestamp: String) -> (r:
        Result<(), ActionError>)
        requires
            cfg.dry_run,
        ensures
            final(ledger)@.len() == old(ledger)@.len() + 1,
            forall|i: int| 0 <= i < old(ledger)@.len() ==> final(ledger)@[i] == old(ledger)@[i],
            final(ledger)@.last().test_id == cfg.test_id,
            final(ledger)@.last().status == Status::DryRun,
            final(ledger)@.last().action@ == "minidump_proc"@,
            final(ledger)@.last().details@ == "dry-run: no dumps written"@,
            r is Ok,
    {
        let _ = append_outcome(
            cfg,
            ledger,
            timestamp,
            "minidump_proc",
            Status::DryRun,
            String::from_str("dry-run: no dumps written"),
            None,
        );
        Ok(())
    }

    /// Records the completed pass over the target list: per-process
    /// failures were absorbed, and the record names what was written.
    pub fn record_completed(
        &self,
        cfg: &RunConfig,
        ledger: &mut Ledger,
        timestamp: String,
        written: &Vec<String>,
        out_dir: String,
    ) -> (r: Result<(), ActionError>)
        requires
            !cfg.dry_run,
        ensures
            final(ledger)@.len() == old(ledger)@.len() + 1,
            forall|i: int| 0 <= i < old(ledger)@.len() ==> final(ledger)@[i] == old(ledger)@[i],
            final(ledger)@.last().test_id == cfg.test_id,
            final(ledger)@.last().status == Status::Completed,
            final(ledger)@.last().action@ == "minidump_proc"@,
            final(ledger)@.last().details@ == dump_details_spec(written.deep_view()),
            final(ledger)@.last().artifact_path == Option::Some(out_dir),
            r is Ok,
    {
        let details = Self::dump_details(written);
        let _ = append_outcome(
            cfg,
            ledger,
            timestamp,
            "minidump_proc",
            Status::Completed,
            details,
            Some(out_dir),
        );
        Ok(())
    }
}

} // verus!
