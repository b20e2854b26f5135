//! The telemetry ledger: an append-only sequence of terminal outcome
//! records, one JSON object per line.
//!
//! The ledger itself is a value; the hosting process mirrors every
//! appended line into the ledger file of the run (opened in append
//! mode, named after the test identifier), so repeated runs never
//! overwrite prior evidence.

use vstd::prelude::*;

use crate::record::{
    action_record_json, encode_action_record, lemma_action_record_json_no_newline, ActionRecord,
};
use crate::text::{lemma_split_lines_step, no_newline, split_lines};

verus! {

use vstd::string::StringExecFns;

/// The append-only store of terminal outcome records of one process.
pub struct Ledger {
    records: Vec<ActionRecord>,
}

impl View for Ledger {
    type V = Seq<ActionRecord>;

    closed spec fn view(&self) -> Seq<ActionRecord> {
        self.records@
    }
}

/// The encoded lines of a record sequence, in order.
pub open spec fn ledger_lines(recs: Seq<ActionRecord>) -> Seq<Seq<char>> {
    recs.map_values(|r: ActionRecord| action_record_json(r))
}

/// The full newline-terminated text of a ledger stream holding `recs`.
pub open spec fn ledger_file(recs: Seq<ActionRecord>) -> Seq<char>
    decreases recs.len(),
{
    if recs.len() == 0 {
        Seq::empty()
    } else {
        action_record_json(recs.first()) + seq!['\n'] + ledger_file(recs.drop_first())
    }
}

/// Appending one record appends exactly its line to the stream text.
pub proof fn lemma_ledger_file_push(recs: Seq<ActionRecord>, r: ActionRecord)
    ensures
        ledger_file(recs.push(r)) == ledger_file(recs) + action_record_json(r) + seq!['\n'],
    decreases recs.len(),
{
    let s = recs.push(r);
    let line = action_record_json(r);
    if recs.len() == 0 {
        assert(s.drop_first() =~= Seq::<ActionRecord>::empty());
        assert(s.first() == r);
        assert(ledger_file(s.drop_first()) == Seq::<char>::empty());
        assert(ledger_file(s) == line + seq!['\n'] + Seq::<char>::empty());
        assert(ledger_file(recs) == Seq::<char>::empty());
        assert(line + seq!['\n'] + Seq::<char>::empty() =~= Seq::<char>::empty() + line
            + seq!['\n']);
    } else {
        assert(s.drop_first() =~= recs.drop_first().push(r));
        assert(s.first() == recs.first());
        lemma_ledger_file_push(recs.drop_first(), r);
        let head = action_record_json(recs.first()) + seq!['\n'];
        assert(ledger_file(s) == head + (ledger_file(recs.drop_first()) + line + seq!['\n']));
        assert(ledger_file(recs) == head + ledger_file(recs.drop_first()));
        assert(head + (ledger_file(recs.drop_first()) + line + seq!['\n']) =~= (head + ledger_file(
            recs.drop_first(),
        )) + line + seq!['\n']);
    }
}

/// Reading a ledger stream back yields exactly one well-formed line
/// per record ever appended, in append order: the stream text of `N`
/// records splits into their `N` encodings.
pub proof fn lemma_ledger_round_trip(recs: Seq<ActionRecord>)
    ensures
        split_lines(ledger_file(recs)) == ledger_lines(recs),
    decreases recs.len(),
{
    if recs.len() == 0 {
        assert(split_lines(ledger_file(recs)) =~= ledger_lines(recs));
    } else {
        let line = action_record_json(recs.first());
        let rest = ledger_file(recs.drop_first());
        lemma_action_record_json_no_newline(recs.first());
        assert(ledger_file(recs) =~= line + seq!['\n'] + rest);
        lemma_split_lines_step(line, rest);
        lemma_ledger_round_trip(recs.drop_first());
        assert(ledger_lines(recs) =~= seq![line] + ledger_lines(recs.drop_first()));
    }
}

impl Ledger {
    /// An empty ledger.
    pub fn new() -> (l: Ledger)
        ensures
            l@ == Seq::<ActionRecord>::empty(),
    {
        Ledger { records: Vec::new() }
    }

    /// The number of records appended so far.
    pub fn len(&self) -> (n: usize)
        ensures
            n == self@.len(),
    {
        self.records.len()
    }

    /// The record at position `i`, in append order.
    pub fn record_at(&self, i: usize) -> (r: &ActionRecord)
        requires
            i < self@.len(),
        ensures
            *r == self@[i as int],
    {
        &self.records[i]
    }

    /// Appends one terminal record and hands back the encoded line so
    /// that the caller can mirror it into the ledger file.  The ledger
    /// only ever grows: no prior record is edited or dropped.
    pub fn write_action_record(&mut self, rec: ActionRecord) -> (line: String)
        ensures
            final(self)@ == old(self)@.push(rec),
            line@ == action_record_json(rec),
            no_newline(line@),
    {
        let line = encode_action_record(&rec);
        self.records.push(rec);
        line
    }

    /// The full newline-terminated text of this ledger.
    pub fn file_content(&self) -> (text: String)
        ensures
            text@ == ledger_file(self@),
    {
        let mut out = String::new();
        let mut i: usize = 0;
        let n = self.records.len();
        while i < n
            invariant
                n == self@.len(),
                i <= n,
                out@ == ledger_file(self@.take(i as int)),
            decreases n - i,
        {
            let line = encode_action_record(&self.records[i]);
            out.append(line.as_str());
            push_newline(&mut out);
            proof {
                assert(self@.take(i as int).push(self@[i as int]) =~= self@.take(i as int + 1));
                lemma_ledger_file_push(self@.take(i as int), self@[i as int]);
            }
            i = i + 1;
        }
        proof {
            assert(self@.take(n as int) =~= self@);
        }
        out
    }
}

/// Appends one terminal outcome record built from its parts, and
/// returns the encoded line.  Every action module records through
/// this helper, so each invocation appends exactly one record.
pub fn append_outcome(
    cfg: &crate::config::RunConfig,
    ledger: &mut Ledger,
    timestamp: String,
    action: &str,
    status: crate::record::Status,
    details: String,
    artifact_path: Option<String>,
) -> (line: String)
    ensures
        final(ledger)@.len() == old(ledger)@.len() + 1,
        forall|i: int| 0 <= i < old(ledger)@.len() ==> final(ledger)@[i] == old(ledger)@[i],
        final(ledger)@.last().test_id == cfg.test_id,
        final(ledger)@.last().timestamp == timestamp,
        final(ledger)@.last().action@ == action@,
        final(ledger)@.last().status == status,
        final(ledger)@.last().details == details,
        final(ledger)@.last().artifact_path == artifact_path,
        line@ == action_record_json(final(ledger)@.last()),
        no_newline(line@),
{
    let rec = ActionRecord {
        test_id: cfg.test_id.clone(),
        timestamp,
        action: String::from_str(action),
        status,
        details,
        artifact_path,
    };
    ledger.write_action_record(rec)
}

/// Appends a line separator.
fn push_newline(out: &mut String)
    ensures
        final(out)@ == old(out)@ + seq!['\n'],
{
    crate::text::push_char(out, '\n');
    assert(final(out)@ =~= old(out)@ + seq!['\n']);
}

/// The ledger file of a run, keyed by its test identifier.
pub fn ledger_filename(test_id: &str) -> (name: String)
    ensures
        name@ == "magnet_log_"@ + test_id@ + ".jsonl"@,
{
    let mut name = String::new();
    name.append("magnet_log_");
    name.append(test_id);
    name.append(".jsonl");
    assert(name@ =~= "magnet_log_"@ + test_id@ + ".jsonl"@);
    name
}

} // verus!
