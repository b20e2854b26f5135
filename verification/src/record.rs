//! Outcome records and the capability error type.
//!
//! An `ActionRecord` is one immutable fact about one completed (or
//! skipped) action; exactly one is written per capability invocation.

use vstd::prelude::*;

use crate::json::{
    fld_os, fld_s, lemma_fld_os_no_newline, lemma_fld_s_no_newline, push_fld_os, push_fld_s,
};
use crate::text::{lemma_no_newline_concat, no_newline, push_char};

verus! {

use vstd::string::StringExecFns;

/// The terminal status of one action invocation.
#[derive(Clone, Copy, Debug, PartialEq, Eq, Structural)]
pub enum Status {
    DryRun,
    Completed,
    Written,
    Partial,
    Failed,
    Blocked,
}

/// The text under which a status appears in telemetry.
pub open spec fn status_text(st: Status) -> Seq<char> {
    match st {
        Status::DryRun => "dry-run"@,
        Status::Completed => "completed"@,
        Status::Written => "written"@,
        Status::Partial => "partial"@,
        Status::Failed => "failed"@,
        Status::Blocked => "blocked"@,
    }
}

impl Status {
    /// The telemetry text of this status.
    pub fn as_str(&self) -> (s: &'static str)
        ensures
            s@ == status_text(*self),
    {
        match self {
            Status::DryRun => "dry-run",
            Status::Completed => "completed",
            Status::Written => "written",
            Status::Partial => "partial",
            Status::Failed => "failed",
            Status::Blocked => "blocked",
        }
    }
}

/// A capability's typed failure: the verification step of an effect did
/// not hold, a required path could not be resolved, or the effect
/// itself failed with a message.
#[derive(Debug, PartialEq, Eq)]
pub enum ActionError {
    VerificationFailed,
    PathUnresolved,
    EffectFailed(String),
}

impl ActionError {
    /// A value-equal copy of this error.
    pub fn duplicate(&self) -> (e: ActionError)
        ensures
            e == *self,
    {
        match self {
            ActionError::VerificationFailed => ActionError::VerificationFailed,
            ActionError::PathUnresolved => ActionError::PathUnresolved,
            ActionError::EffectFailed(m) => ActionError::EffectFailed(m.clone()),
        }
    }

    /// A human-readable description of the failure.
    pub fn message(&self) -> (m: String)
        ensures
            *self is VerificationFailed ==> m@ == "verification failed"@,
            *self is PathUnresolved ==> m@ == "required path could not be resolved"@,
            forall|t: String| *self == ActionError::EffectFailed(t) ==> m@ == t@,
    {
        match self {
            ActionError::VerificationFailed => String::from_str("verification failed"),
            ActionError::PathUnresolved => String::from_str("required path could not be resolved"),
            ActionError::EffectFailed(m) => m.clone(),
        }
    }
}

/// One terminal outcome fact for one capability invocation.
#[derive(Debug, Clone, PartialEq, Eq)]
pub struct ActionRecord {
    /// The identifier of the owning run.
    pub test_id: String,
    /// The instant of record creation.
    pub timestamp: String,
    /// The human-identifying label of the action.
    pub action: String,
    /// The terminal status.
    pub status: Status,
    /// Free-text outcome description.
    pub details: String,
    /// The path of a file the action produced, when there is one.
    pub artifact_path: Option<String>,
}

/// The view of an optional string as an optional character sequence.
pub open spec fn opt_view(o: Option<String>) -> Option<Seq<char>> {
    match o {
        Option::None => Option::None,
        Option::Some(s) => Option::Some(s@),
    }
}

/// The one-line JSON object under which a record appears in the
/// ledger stream.
#[verifier::opaque]
pub open spec fn action_record_json(r: ActionRecord) -> Seq<char> {
    seq!['{'] + fld_s("test_id"@, r.test_id@) + seq![','] + fld_s("timestamp"@, r.timestamp@)
        + seq![','] + fld_s("action"@, r.action@) + seq![','] + fld_s(
        "status"@,
        status_text(r.status),
    ) + seq![','] + fld_s("details"@, r.details@) + seq![','] + fld_os(
        "artifact_path"@,
        opt_view(r.artifact_path),
    ) + seq!['}']
}

/// An encoded record never contains a raw newline, so it stands as one
/// line of its stream.
pub proof fn lemma_action_record_json_no_newline(r: ActionRecord)
    ensures
        no_newline(action_record_json(r)),
{
    reveal(action_record_json);
    lemma_fld_s_no_newline("test_id"@, r.test_id@);
    lemma_fld_s_no_newline("timestamp"@, r.timestamp@);
    lemma_fld_s_no_newline("action"@, r.action@);
    lemma_fld_s_no_newline("status"@, status_text(r.status));
    lemma_fld_s_no_newline("details"@, r.details@);
    lemma_fld_os_no_newline("artifact_path"@, opt_view(r.artifact_path));
    let a = seq!['{'] + fld_s("test_id"@, r.test_id@);
    lemma_no_newline_concat(seq!['{'], fld_s("test_id"@, r.test_id@));
    let b = a + seq![','];
    lemma_no_newline_concat(a, seq![',']);
    let c = b + fld_s("timestamp"@, r.timestamp@);
    lemma_no_newline_concat(b, fld_s("timestamp"@, r.timestamp@));
    let d = c + seq![','];
    lemma_no_newline_concat(c, seq![',']);
    let e = d + fld_s("action"@, r.action@);
    lemma_no_newline_concat(d, fld_s("action"@, r.action@));
    let f = e + seq![','];
    lemma_no_newline_concat(e, seq![',']);
    let g = f + fld_s("status"@, status_text(r.status));
    lemma_no_newline_concat(f, fld_s("status"@, status_text(r.status)));
    let h = g + seq![','];
    lemma_no_newline_concat(g, seq![',']);
    let i = h + fld_s("details"@, r.details@);
    lemma_no_newline_concat(h, fld_s("details"@, r.details@));
    let j = i + seq![','];
    lemma_no_newline_concat(i, seq![',']);
    let k = j + fld_os("artifact_path"@, opt_view(r.artifact_path));
    lemma_no_newline_concat(j, fld_os("artifact_path"@, opt_view(r.artifact_path)));
    lemma_no_newline_concat(k, seq!['}']);
}

/// Encodes one record as its one-line JSON object.
pub fn encode_action_record(r: &ActionRecord) -> (line: String)
    ensures
        line@ == action_record_json(*r),
        no_newline(line@),
{
    let mut out = String::new();
    push_char(&mut out, '{');
    push_fld_s(&mut out, "test_id", r.test_id.as_str());
    push_char(&mut out, ',');
    push_fld_s(&mut out, "timestamp", r.timestamp.as_str());
    push_char(&mut out, ',');
    push_fld_s(&mut out, "action", r.action.as_str());
    push_char(&mut out, ',');
    push_fld_s(&mut out, "status", r.status.as_str());
    push_char(&mut out, ',');
    push_fld_s(&mut out, "details", r.details.as_str());
    push_char(&mut out, ',');
    push_fld_os(&mut out, "artifact_path", &r.artifact_path);
    push_char(&mut out, '}');
    proof {
        reveal(action_record_json);
        assert(out@ =~= action_record_json(*r));
        lemma_action_record_json_no_newline(*r);
    }
    out
}

/// Compares two character vectors for equality.
fn eq_chars(a: &Vec<char>, b: &Vec<char>) -> (r: bool)
    ensures
        r == (a@ == b@),
{
    if a.len() != b.len() {
        return false;
    }
    let n = a.len();
    let mut i: usize = 0;
    while i < n
        invariant
            n == a@.len(),
            n == b@.len(),
            i <= n,
            forall|j: int| 0 <= j < i ==> a@[j] == b@[j],
        decreases n - i,
    {
        if a[i] != b[i] {
            return false;
        }
        i = i + 1;
    }
    proof {
        assert(a@ =~= b@);
    }
    true
}

/// Advances over an expected literal; the position after it, or
/// nothing when the text differs.
fn expect_lit(cs: &Vec<char>, from: usize, lit: &Vec<char>) -> (r: Option<usize>)
    ensures
        r matches Some(next) ==> from <= next <= cs@.len(),
{
    let m = lit.len();
    let n = cs.len();
    if m > n || from > n - m {
        return None;
    }
    let mut j: usize = 0;
    while j < m
        invariant
            m == lit@.len(),
            n == cs@.len(),
            from + m <= n,
            j <= m,
        decreases m - j,
    {
        if cs[from + j] != lit[j] {
            return None;
        }
        j = j + 1;
    }
    Some(from + m)
}

/// Reads one quoted-string body starting inside the quotes, undoing
/// the simple escapes; the decoded text and the position after the
/// closing quote, or nothing when the token is malformed or uses an
/// escape this decoder does not resolve.
fn read_string_token(cs: &Vec<char>, from: usize) -> (r: Option<(String, usize)>)
    ensures
        r matches Some(p) ==> from <= p.1 <= cs@.len(),
{
    let mut out = String::new();
    let mut i: usize = from;
    let n = cs.len();
    if from > n {
        return None;
    }
    while i < n
        invariant
            n == cs@.len(),
            from <= i <= n,
        decreases n - i,
    {
        let c = cs[i];
        if c == '"' {
            return Some((out, i + 1));
        }
        if c == '\\' {
            if i + 1 >= n {
                return None;
            }
            let e = cs[i + 1];
            if e == '"' {
                push_char(&mut out, '"');
            } else if e == '\\' {
                push_char(&mut out, '\\');
            } else if e == 'n' {
                push_char(&mut out, '\n');
            } else if e == 'r' {
                push_char(&mut out, '\r');
            } else if e == 't' {
                push_char(&mut out, '\t');
            } else {
                return None;
            }
            i = i + 2;
        } else {
            push_char(&mut out, c);
            i = i + 1;
        }
    }
    None
}

/// The status named by a token, if any.
fn status_of_text(token: &str) -> (r: Option<Status>)
{
    let cs = crate::text::chars_vec(token);
    if eq_chars(&cs, &crate::text::chars_vec("dry-run")) {
        Some(Status::DryRun)
    } else if eq_chars(&cs, &crate::text::chars_vec("completed")) {
        Some(Status::Completed)
    } else if eq_chars(&cs, &crate::text::chars_vec("written")) {
        Some(Status::Written)
    } else if eq_chars(&cs, &crate::text::chars_vec("partial")) {
        Some(Status::Partial)
    } else if eq_chars(&cs, &crate::text::chars_vec("failed")) {
        Some(Status::Failed)
    } else if eq_chars(&cs, &crate::text::chars_vec("blocked")) {
        Some(Status::Blocked)
    } else {
        None
    }
}

/// Reconstructs a candidate record from one ledger line; callers
/// hold it against the encoder before believing it.
fn scan_record(line: &str) -> Option<ActionRecord> {
    let cs = crate::text::chars_vec(line);
    let i = expect_lit(&cs, 0, &crate::text::chars_vec("{\"test_id\":\""))?;
    let (test_id, i) = read_string_token(&cs, i)?;
    let i = expect_lit(&cs, i, &crate::text::chars_vec(",\"timestamp\":\""))?;
    let (timestamp, i) = read_string_token(&cs, i)?;
    let i = expect_lit(&cs, i, &crate::text::chars_vec(",\"action\":\""))?;
    let (action, i) = read_string_token(&cs, i)?;
    let i = expect_lit(&cs, i, &crate::text::chars_vec(",\"status\":\""))?;
    let (status_text_token, i) = read_string_token(&cs, i)?;
    let status = status_of_text(status_text_token.as_str())?;
    let i = expect_lit(&cs, i, &crate::text::chars_vec(",\"details\":\""))?;
    let (details, i) = read_string_token(&cs, i)?;
    let i = expect_lit(&cs, i, &crate::text::chars_vec(",\"artifact_path\":"))?;
    let (artifact_path, i) = if let Some(j) = expect_lit(&cs, i, &crate::text::chars_vec("null")) {
        (None, j)
    } else {
        let j = expect_lit(&cs, i, &crate::text::chars_vec("\""))?;
        let (p, j) = read_string_token(&cs, j)?;
        (Some(p), j)
    };
    let i = expect_lit(&cs, i, &crate::text::chars_vec("}"))?;
    if i != cs.len() {
        return None;
    }
    Some(ActionRecord { test_id, timestamp, action, status, details, artifact_path })
}

/// Decodes one ledger line back into its record.  The decoder is
/// sound: whenever it accepts, the line is exactly the encoding of
/// the returned record.  A line using an escape form the encoder
/// never emits is refused.
pub fn decode_action_record(line: &str) -> (r: Option<ActionRecord>)
    ensures
        r matches Some(rec) ==> line@ == action_record_json(rec),
{
    match scan_record(line) {
        Option::None => None,
        Option::Some(candidate) => {
            let re = encode_action_record(&candidate);
            if eq_chars(&crate::text::chars_vec(re.as_str()), &crate::text::chars_vec(line)) {
                Some(candidate)
            } else {
                None
            }
        },
    }
}

} // verus!
