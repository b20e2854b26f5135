//! Password guessing against local administrator accounts.
//!
//! Enumerating the accounts and attempting logons are host calls;
//! the module owns the parsing of the enumeration output, the test
//! password list, the per-attempt records and the terminal record.

use vstd::prelude::*;

use crate::config::RunConfig;
use crate::json::{
    fld_ra, fld_s, fld_sa, fld_u, lemma_fld_ra_no_newline, lemma_fld_s_no_newline,
    lemma_fld_sa_no_newline, lemma_fld_u_no_newline, push_fld_ra, push_fld_s, push_fld_sa,
    push_fld_u,
};
use crate::ledger::{append_outcome, Ledger};
use crate::record::{ActionError, Status};
use crate::text::{
    chars_vec, lemma_no_newline_concat, no_newline, push_char, push_dec_u64, spec_dec,
    split_lines, split_lines_vec,
};

verus! {

use vstd::string::StringExecFns;

/// The password-guessing module.
#[derive(Default)]
pub struct PwdGuessingSim;

/// Whitespace as the enumeration parser strips it from line ends.
pub open spec fn is_ws(c: char) -> bool {
    c == ' ' || c == '\t' || c == '\r'
}

/// A line with its leading whitespace removed.
pub open spec fn trim_front(s: Seq<char>) -> Seq<char>
    decreases s.len(),
{
    if s.len() > 0 && is_ws(s.first()) {
        trim_front(s.drop_first())
    } else {
        s
    }
}

/// A line with its trailing whitespace removed.
pub open spec fn trim_back(s: Seq<char>) -> Seq<char>
    decreases s.len(),
{
    if s.len() > 0 && is_ws(s.last()) {
        trim_back(s.drop_last())
    } else {
        s
    }
}

/// A line with whitespace removed from both ends.
pub open spec fn trim_spec(s: Seq<char>) -> Seq<char> {
    trim_back(trim_front(s))
}

/// A visual separator line: nothing but dashes and asterisks.
pub open spec fn all_separators(t: Seq<char>) -> bool {
    forall|i: int| 0 <= i < t.len() ==> t[i] == '-' || t[i] == '*'
}

/// Whether a trimmed line names an account: non-empty, none of the
/// enumeration's header or footer lines, and not a visual separator.
pub open spec fn keep_line(t: Seq<char>) -> bool {
    t.len() > 0 && !"Alias name"@.is_prefix_of(t) && !"Comment"@.is_prefix_of(t)
        && !"Members"@.is_prefix_of(t) && !"The command completed"@.is_prefix_of(t)
        && !all_separators(t)
}

/// The trimmed account lines kept from the enumeration lines, in
/// order.
pub open spec fn kept_accounts(lines: Seq<Seq<char>>) -> Seq<Seq<char>>
    decreases lines.len(),
{
    if lines.len() == 0 {
        Seq::empty()
    } else {
        (if keep_line(trim_spec(lines.first())) {
            seq![trim_spec(lines.first())]
        } else {
            Seq::empty()
        }) + kept_accounts(lines.drop_first())
    }
}

/// The account names parsed from the whole enumeration output.
pub open spec fn admin_accounts_spec(output: Seq<char>) -> Seq<Seq<char>> {
    kept_accounts(split_lines(output))
}

/// Keeping one more line appends its account name exactly when the
/// line is kept.
proof fn lemma_kept_accounts_push(lines: Seq<Seq<char>>, l: Seq<char>)
    ensures
        keep_line(trim_spec(l)) ==> kept_accounts(lines.push(l)) == kept_accounts(lines) + seq![
            trim_spec(l),
        ],
        !keep_line(trim_spec(l)) ==> kept_accounts(lines.push(l)) == kept_accounts(lines),
    decreases lines.len(),
{
    let s = lines.push(l);
    if lines.len() == 0 {
        assert(s.first() == l);
        assert(s.drop_first() =~= Seq::<Seq<char>>::empty());
        assert(kept_accounts(s.drop_first()) == Seq::<Seq<char>>::empty());
        assert(kept_accounts(s) == (if keep_line(trim_spec(l)) {
            seq![trim_spec(l)]
        } else {
            Seq::<Seq<char>>::empty()
        }) + kept_accounts(s.drop_first()));
        assert(kept_accounts(lines) == Seq::<Seq<char>>::empty());
        if keep_line(trim_spec(l)) {
            assert(seq![trim_spec(l)] + Seq::<Seq<char>>::empty() =~= Seq::<Seq<char>>::empty()
                + seq![trim_spec(l)]);
        } else {
            assert(Seq::<Seq<char>>::empty() + Seq::<Seq<char>>::empty() =~= Seq::<
                Seq<char>,
            >::empty());
        }
    } else {
        assert(s.first() == lines.first());
        assert(s.drop_first() =~= lines.drop_first().push(l));
        lemma_kept_accounts_push(lines.drop_first(), l);
        let head = if keep_line(trim_spec(lines.first())) {
            seq![trim_spec(lines.first())]
        } else {
            Seq::<Seq<char>>::empty()
        };
        if keep_line(trim_spec(l)) {
            assert(kept_accounts(s) == head + (kept_accounts(lines.drop_first()) + seq![
                trim_spec(l),
            ]));
            assert(head + (kept_accounts(lines.drop_first()) + seq![trim_spec(l)]) =~= (head
                + kept_accounts(lines.drop_first())) + seq![trim_spec(l)]);
        } else {
            assert(kept_accounts(s) == head + kept_accounts(lines.drop_first()));
        }
    }
}

/// Strips whitespace from both ends of a line, exactly as the
/// trimming specification describes.
pub fn trim_line(s: &str) -> (t: String)
    ensures
        t@ == trim_spec(s@),
{
    let cs = chars_vec(s);
    let n = cs.len();
    let mut start: usize = 0;
    proof {
        assert(s@.skip(0) =~= s@);
    }
    while start < n && (cs[start] == ' ' || cs[start] == '\t' || cs[start] == '\r')
        invariant
            n == cs@.len(),
            cs@ == s@,
            start <= n,
            trim_front(s@) == trim_front(s@.skip(start as int)),
        decreases n - start,
    {
        proof {
            assert(s@.skip(start as int).first() == s@[start as int]);
            assert(s@.skip(start as int).drop_first() =~= s@.skip(start as int + 1));
        }
        start = start + 1;
    }
    proof {
        if start < n {
            assert(!is_ws(s@.skip(start as int).first()));
            assert(trim_front(s@.skip(start as int)) == s@.skip(start as int));
        } else {
            assert(s@.skip(start as int) =~= Seq::<char>::empty());
        }
        assert(trim_front(s@) == s@.skip(start as int));
    }
    let mut end: usize = n;
    proof {
        assert(s@.skip(start as int) =~= s@.subrange(start as int, n as int));
    }
    while end > start && (cs[end - 1] == ' ' || cs[end - 1] == '\t' || cs[end - 1] == '\r')
        invariant
            n == cs@.len(),
            cs@ == s@,
            start <= end <= n,
            trim_front(s@) == s@.skip(start as int),
            trim_back(s@.skip(start as int)) == trim_back(
                s@.subrange(start as int, end as int),
            ),
        decreases end,
    {
        proof {
            let sub = s@.subrange(start as int, end as int);
            assert(sub.last() == s@[end - 1]);
            assert(sub.drop_last() =~= s@.subrange(start as int, end as int - 1));
        }
        end = end - 1;
    }
    proof {
        let sub = s@.subrange(start as int, end as int);
        if end > start {
            assert(sub.last() == s@[end - 1]);
            assert(!is_ws(sub.last()));
            assert(trim_back(sub) == sub);
        } else {
            assert(sub =~= Seq::<char>::empty());
        }
        assert(trim_spec(s@) == s@.subrange(start as int, end as int));
    }
    let mut out = String::new();
    let mut j: usize = start;
    proof {
        assert(out@ =~= s@.subrange(start as int, start as int));
    }
    while j < end
        invariant
            n == cs@.len(),
            cs@ == s@,
            start <= j <= end <= n,
            out@ == s@.subrange(start as int, j as int),
        decreases end - j,
    {
        push_char(&mut out, cs[j]);
        proof {
            assert(out@ =~= s@.subrange(start as int, j as int + 1));
        }
        j = j + 1;
    }
    proof {
        assert(out@ == trim_spec(s@));
    }
    out
}

/// Whether `p` is a prefix of `cs`.
fn has_prefix(cs: &Vec<char>, p: &Vec<char>) -> (r: bool)
    ensures
        r == p@.is_prefix_of(cs@),
{
    let m = p.len();
    if m > cs.len() {
        return false;
    }
    let mut j: usize = 0;
    while j < m
        invariant
            m == p@.len(),
            m <= cs@.len(),
            j <= m,
            forall|k: int| 0 <= k < j ==> p@[k] == cs@[k],
        decreases m - j,
    {
        if cs[j] != p[j] {
            proof {
                assert(p@[j as int] != cs@.subrange(0, m as int)[j as int]);
            }
            return false;
        }
        j = j + 1;
    }
    proof {
        assert(p@ =~= cs@.subrange(0, m as int));
    }
    true
}

/// Whether the line is nothing but dashes and asterisks.
fn is_all_separators(cs: &Vec<char>) -> (r: bool)
    ensures
        r == all_separators(cs@),
{
    let mut j: usize = 0;
    let n = cs.len();
    while j < n
        invariant
            n == cs@.len(),
            j <= n,
            forall|k: int| 0 <= k < j ==> cs@[k] == '-' || cs@[k] == '*',
        decreases n - j,
    {
        let c = cs[j];
        if c != '-' && c != '*' {
            return false;
        }
        j = j + 1;
    }
    true
}

/// One attempted logon.
#[derive(Debug, Clone, PartialEq, Eq)]
pub struct AttemptResult {
    /// The account the logon was attempted against.
    pub account: String,
    /// The password that was tested.
    pub password_tested: String,
    /// Whether the logon succeeded.
    pub success: bool,
    /// The host's error code for the attempt.
    pub win_error: u32,
}

/// The one-line JSON object of one attempt.
#[verifier::opaque]
pub open spec fn attempt_json(r: AttemptResult) -> Seq<char> {
    seq!['{'] + fld_s("account"@, r.account@) + seq![','] + fld_s(
        "password_tested"@,
        r.password_tested@,
    ) + seq![','] + crate::json::fld_b("success"@, r.success) + seq![','] + fld_u(
        "win_error"@,
        r.win_error as nat,
    ) + seq!['}']
}

/// An encoded attempt never contains a raw newline.
pub proof fn lemma_attempt_json_no_newline(r: AttemptResult)
    ensures
        no_newline(attempt_json(r)),
{
    reveal(attempt_json);
    lemma_fld_s_no_newline("account"@, r.account@);
    lemma_fld_s_no_newline("password_tested"@, r.password_tested@);
    crate::json::lemma_fld_b_no_newline("success"@, r.success);
    lemma_fld_u_no_newline("win_error"@, r.win_error as nat);
    let p1 = seq!['{'] + fld_s("account"@, r.account@);
    lemma_no_newline_concat(seq!['{'], fld_s("account"@, r.account@));
    let p2 = p1 + seq![','];
    lemma_no_newline_concat(p1, seq![',']);
    let p3 = p2 + fld_s("password_tested"@, r.password_tested@);
    lemma_no_newline_concat(p2, fld_s("password_tested"@, r.password_tested@));
    let p4 = p3 + seq![','];
    lemma_no_newline_concat(p3, seq![',']);
    let p5 = p4 + crate::json::fld_b("success"@, r.success);
    lemma_no_newline_concat(p4, crate::json::fld_b("success"@, r.success));
    let p6 = p5 + seq![','];
    lemma_no_newline_concat(p5, seq![',']);
    let p7 = p6 + fld_u("win_error"@, r.win_error as nat);
    lemma_no_newline_concat(p6, fld_u("win_error"@, r.win_error as nat));
    lemma_no_newline_concat(p7, seq!['}']);
}

/// Encodes one attempt as its one-line JSON object.
pub fn encode_attempt(r: &AttemptResult) -> (line: String)
    ensures
        line@ == attempt_json(*r),
        no_newline(line@),
{
    let mut out = String::new();
    push_char(&mut out, '{');
    push_fld_s(&mut out, "account", r.account.as_str());
    push_char(&mut out, ',');
    push_fld_s(&mut out, "password_tested", r.password_tested.as_str());
    push_char(&mut out, ',');
    crate::json::push_fld_b(&mut out, "success", r.success);
    push_char(&mut out, ',');
    push_fld_u(&mut out, "win_error", r.win_error as u64);
    push_char(&mut out, '}');
    proof {
        reveal(attempt_json);
        assert(out@ =~= attempt_json(*r));
        lemma_attempt_json_no_newline(*r);
    }
    out
}

/// The telemetry summary of one guessing pass.
pub struct GuessingTelemetry {
    /// The identifier of the owning run.
    pub test_id: String,
    /// The instant the summary was formed.
    pub timestamp: String,
    /// The enumerated administrator accounts.
    pub accounts: Vec<String>,
    /// Every attempted logon, in order.
    pub attempts: Vec<AttemptResult>,
    /// Wall-clock time of the pass, in milliseconds.
    pub elapsed_ms: u64,
    /// The identity of the invoking process.
    pub parent: String,
}

/// The encoded attempt lines of a summary, in order.
pub open spec fn attempt_frags(attempts: Seq<AttemptResult>) -> Seq<Seq<char>> {
    attempts.map_values(|a: AttemptResult| attempt_json(a))
}

/// The one-line JSON object of a guessing summary.
#[verifier::opaque]
pub open spec fn guessing_telemetry_json(t: GuessingTelemetry) -> Seq<char> {
    seq!['{'] + fld_s("test_id"@, t.test_id@) + seq![','] + fld_s("timestamp"@, t.timestamp@)
        + seq![','] + fld_sa("accounts"@, t.accounts.deep_view()) + seq![','] + fld_ra(
        "attempts"@,
        attempt_frags(t.attempts@),
    ) + seq![','] + fld_u("elapsed_ms"@, t.elapsed_ms as nat) + seq![','] + fld_s(
        "parent"@,
        t.parent@,
    ) + seq!['}']
}

/// An encoded guessing summary never contains a raw newline.
pub proof fn lemma_guessing_telemetry_json_no_newline(t: GuessingTelemetry)
    ensures
        no_newline(guessing_telemetry_json(t)),
{
    reveal(guessing_telemetry_json);
    lemma_fld_s_no_newline("test_id"@, t.test_id@);
    lemma_fld_s_no_newline("timestamp"@, t.timestamp@);
    lemma_fld_sa_no_newline("accounts"@, t.accounts.deep_view());
    assert forall|i: int| 0 <= i < attempt_frags(t.attempts@).len() implies no_newline(
        #[trigger] attempt_frags(t.attempts@)[i],
    ) by {
        lemma_attempt_json_no_newline(t.attempts@[i]);
    }
    lemma_fld_ra_no_newline("attempts"@, attempt_frags(t.attempts@));
    lemma_fld_u_no_newline("elapsed_ms"@, t.elapsed_ms as nat);
    lemma_fld_s_no_newline("parent"@, t.parent@);
    let p1 = seq!['{'] + fld_s("test_id"@, t.test_id@);
    lemma_no_newline_concat(seq!['{'], fld_s("test_id"@, t.test_id@));
    let p2 = p1 + seq![','];
    lemma_no_newline_concat(p1, seq![',']);
    let p3 = p2 + fld_s("timestamp"@, t.timestamp@);
    lemma_no_newline_concat(p2, fld_s("timestamp"@, t.timestamp@));
    let p4 = p3 + seq![','];
    lemma_no_newline_concat(p3, seq![',']);
    let p5 = p4 + fld_sa("accounts"@, t.accounts.deep_view());
    lemma_no_newline_concat(p4, fld_sa("accounts"@, t.accounts.deep_view()));
    let p6 = p5 + seq![','];
    lemma_no_newline_concat(p5, seq![',']);
    let p7 = p6 + fld_ra("attempts"@, attempt_frags(t.attempts@));
    lemma_no_newline_concat(p6, fld_ra("attempts"@, attempt_frags(t.attempts@)));
    let p8 = p7 + seq![','];
    lemma_no_newline_concat(p7, seq![',']);
    let p9 = p8 + fld_u("elapsed_ms"@, t.elapsed_ms as nat);
    lemma_no_newline_concat(p8, fld_u("elapsed_ms"@, t.elapsed_ms as nat));
    let p10 = p9 + seq![','];
    lemma_no_newline_concat(p9, seq![',']);
    let p11 = p10 + fld_s("parent"@, t.parent@);
    lemma_no_newline_concat(p10, fld_s("parent"@, t.parent@));
    lemma_no_newline_concat(p11, seq!['}']);
}

/// Encodes a guessing summary as its one-line JSON object.
pub fn encode_guessing_telemetry(t: &GuessingTelemetry) -> (line: String)
    ensures
        line@ == guessing_telemetry_json(*t),
        no_newline(line@),
{
    let mut frags: Vec<String> = Vec::new();
    let mut i: usize = 0;
    let n = t.attempts.len();
    while i < n
        invariant
            n == t.attempts@.len(),
            i <= n,
            frags@.len() == i,
            forall|j: int| 0 <= j < i ==> (#[trigger] frags@[j])@ == attempt_json(t.attempts@[j]),
        decreases n - i,
    {
        let line = encode_attempt(&t.attempts[i]);
        frags.push(line);
        i = i + 1;
    }
    proof {
        assert(frags.deep_view() =~= attempt_frags(t.attempts@));
    }
    let mut out = String::new();
    push_char(&mut out, '{');
    push_fld_s(&mut out, "test_id", t.test_id.as_str());
    push_char(&mut out, ',');
    push_fld_s(&mut out, "timestamp", t.timestamp.as_str());
    push_char(&mut out, ',');
    push_fld_sa(&mut out, "accounts", &t.accounts);
    push_char(&mut out, ',');
    push_fld_ra(&mut out, "attempts", &frags);
    push_char(&mut out, ',');
    push_fld_u(&mut out, "elapsed_ms", t.elapsed_ms);
    push_char(&mut out, ',');
    push_fld_s(&mut out, "parent", t.parent.as_str());
    push_char(&mut out, '}');
    proof {
        reveal(guessing_telemetry_json);
        assert(out@ =~= guessing_telemetry_json(*t));
        lemma_guessing_telemetry_json_no_newline(*t);
    }
    out
}

impl PwdGuessingSim {
    /// The stable module name.
    pub fn name(&self) -> (n: &'static str)
        ensures
            n@ == "windows::pwd_guessing"@,
    {
        "windows::pwd_guessing"
    }

    /// The action label carried by this module's ledger records.
    pub fn action_label(&self) -> (l: &'static str)
        ensures
            l@ == "T1110.001 - windows::pwd_guessing"@,
    {
        "T1110.001 - windows::pwd_guessing"
    }

    /// Parses the local-administrator enumeration output: every line
    /// is trimmed, and the header, footer, separator and empty lines
    /// are dropped; what remains, in order, are the account names.
    pub fn parse_admin_accounts(output: &str) -> (accounts: Vec<String>)
        ensures
            accounts.deep_view() == admin_accounts_spec(output@),
    {
        let alias_p = chars_vec("Alias name");
        let comment_p = chars_vec("Comment");
        let members_p = chars_vec("Members");
        let completed_p = chars_vec("The command completed");
        let lines = split_lines_vec(output);
        let mut accounts: Vec<String> = Vec::new();
        let mut i: usize = 0;
        let n = lines.len();
        while i < n
            invariant
                n == lines@.len(),
                lines.deep_view() == split_lines(output@),
                alias_p@ == "Alias name"@,
                comment_p@ == "Comment"@,
                members_p@ == "Members"@,
                completed_p@ == "The command completed"@,
                i <= n,
                accounts.deep_view() == kept_accounts(lines.deep_view().take(i as int)),
            decreases n - i,
        {
            let trimmed = trim_line(lines[i].as_str());
            let cs = chars_vec(trimmed.as_str());
            let keep = cs.len() > 0 && !has_prefix(&cs, &alias_p) && !has_prefix(
                &cs,
                &comment_p,
            ) && !has_prefix(&cs, &members_p) && !has_prefix(&cs, &completed_p)
                && !is_all_separators(&cs);
            proof {
                assert(trimmed@ == trim_spec(lines.deep_view()[i as int]));
                assert(keep == keep_line(trim_spec(lines.deep_view()[i as int])));
                lemma_kept_accounts_push(
                    lines.deep_view().take(i as int),
                    lines.deep_view()[i as int],
                );
                assert(lines.deep_view().take(i as int).push(lines.deep_view()[i as int])
                    =~= lines.deep_view().take(i as int + 1));
            }
            let ghost prev = accounts.deep_view();
            if keep {
                accounts.push(trimmed);
                proof {
                    assert(accounts.deep_view() =~= prev + seq![
                        trim_spec(lines.deep_view()[i as int]),
                    ]);
                }
            }
            i = i + 1;
        }
        proof {
            assert(lines.deep_view().take(n as int) =~= lines.deep_view());
        }
        accounts
    }

    /// The fixed list of test passwords, in the order they are tried.
    pub fn test_passwords() -> (pwds: Vec<String>)
        ensures
            pwds@.len() == 11,
    {
        let mut v: Vec<String> = Vec::new();
        v.push(String::from_str("Password123!"));
        v.push(String::from_str("MagnetTest1!"));
        v.push(String::from_str("Winter2025!"));
        v.push(String::from_str("notsafe"));
        v.push(String::from_str("111111"));
        v.push(String::from_str(")o._07G6B&/__!;Jgcv453212_"));
        v.push(String::from_str("Magnet@1234"));
        v.push(String::from_str("weak2026"));
        v.push(String::from_str("123456789!!!_LOL"));
        v.push(String::from_str("\u{250c}\u{2229}\u{2510}(\u{25e3}_\u{25e2})\u{250c}\u{2229}\u{2510}"));
        v.push(String::from_str("____(\u{2665}_\u{2665})____"));
        v
    }

    /// Builds one attempt record from a logon's outcome.
    pub fn build_attempt(account: String, password: String, success: bool, win_error: u32) -> (r:
        AttemptResult)
        ensures
            r.account == account,
            r.password_tested == password,
            r.success == success,
            r.win_error == win_error,
    {
        AttemptResult { account, password_tested: password, success, win_error }
    }

    /// Records the dry-run outcome: no account is enumerated and no
    /// logon is attempted.
    pub fn record_dry_run(&self, cfg: &RunConfig, ledger: &mut Ledger, timestamp: String) -> (r:
        Result<(), ActionError>)
        requires
            cfg.dry_run,
        ensures
            final(ledger)@.len() == old(ledger)@.len() + 1,
            forall|i: int| 0 <= i < old(ledger)@.len() ==> final(ledger)@[i] == old(ledger)@[i],
            final(ledger)@.last().test_id == cfg.test_id,
            final(ledger)@.last().status == Status::DryRun,
            final(ledger)@.last().action@ == "T1110.001 - windows::pwd_guessing"@,
            final(ledger)@.last().details@ == "dry-run: no password guessing executed"@,
            r is Ok,
    {
        let _ = append_outcome(
            cfg,
            ledger,
            timestamp,
            self.action_label(),
            Status::DryRun,
            String::from_str("dry-run: no password guessing executed"),
            None,
        );
        Ok(())
    }

    /// Records a failed account enumeration and surfaces the failure
    /// with the original error text.
    pub fn record_failed(
        &self,
        cfg: &RunConfig,
        ledger: &mut Ledger,
        timestamp: String,
        error_text: String,
    ) -> (r: Result<(), ActionError>)
        requires
            !cfg.dry_run,
        ensures
            final(ledger)@.len() == old(ledger)@.len() + 1,
            forall|i: int| 0 <= i < old(ledger)@.len() ==> final(ledger)@[i] == old(ledger)@[i],
            final(ledger)@.last().test_id == cfg.test_id,
            final(ledger)@.last().status == Status::Failed,
            final(ledger)@.last().action@ == "T1110.001 - windows::pwd_guessing"@,
            final(ledger)@.last().details@ == "admin enum error: "@ + error_text@,
            r == Result::<(), ActionError>::Err(ActionError::EffectFailed(error_text)),
    {
        let err = ActionError::EffectFailed(error_text.clone());
        let mut details = String::new();
        details.append("admin enum error: ");
        details.append(error_text.as_str());
        assert(details@ =~= "admin enum error: "@ + error_text@);
        let _ = append_outcome(
            cfg,
            ledger,
            timestamp,
            self.action_label(),
            Status::Failed,
            details,
            None,
        );
        Err(err)
    }

    /// The terminal detail text of a completed pass.
    pub open spec fn written_details(guesses: nat, accounts: nat) -> Seq<char> {
        "attempted "@ + spec_dec(guesses) + " guesses across "@ + spec_dec(accounts)
            + " accounts"@
    }

    /// Records a completed guessing pass with its counts.
    pub fn record_written(
        &self,
        cfg: &RunConfig,
        ledger: &mut Ledger,
        timestamp: String,
        guesses: u64,
        accounts: u64,
    ) -> (r: Result<(), ActionError>)
        requires
            !cfg.dry_run,
        ensures
            final(ledger)@.len() == old(ledger)@.len() + 1,
            forall|i: int| 0 <= i < old(ledger)@.len() ==> final(ledger)@[i] == old(ledger)@[i],
            final(ledger)@.last().test_id == cfg.test_id,
            final(ledger)@.last().status == Status::Written,
            final(ledger)@.last().action@ == "T1110.001 - windows::pwd_guessing"@,
            final(ledger)@.last().details@ == Self::written_details(
                guesses as nat,
                accounts as nat,
            ),
            r is Ok,
    {
        let mut details = String::new();
        details.append("attempted ");
        push_dec_u64(&mut details, guesses);
        details.append(" guesses across ");
        push_dec_u64(&mut details, accounts);
        details.append(" accounts");
        assert(details@ =~= Self::written_details(guesses as nat, accounts as nat));
        let _ = append_outcome(
            cfg,
            ledger,
            timestamp,
            self.action_label(),
            Status::Written,
            details,
            None,
        );
        Ok(())
    }
}

} // verus!
