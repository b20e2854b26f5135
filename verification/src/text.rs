//! Character-level text utilities shared by the telemetry encoders:
//! building strings character by character, rendering integers in
//! decimal, and the newline-freedom predicate that keeps every record
//! on one line of its stream.

use vstd::prelude::*;

verus! {

use vstd::std_specs::iter::IteratorSpec;
use vstd::string::StringExecFns;

/// Holds when no character of `s` is a line separator, so that `s` can
/// stand as a single line of a newline-delimited stream.
pub open spec fn no_newline(s: Seq<char>) -> bool {
    forall|i: int| 0 <= i < s.len() ==> s[i] != '\n'
}

/// Newline-freedom is preserved by concatenation.
pub proof fn lemma_no_newline_concat(a: Seq<char>, b: Seq<char>)
    requires
        no_newline(a),
        no_newline(b),
    ensures
        no_newline(a + b),
{
    assert forall|i: int| 0 <= i < (a + b).len() implies (a + b)[i] != '\n' by {
        if i < a.len() {
            assert((a + b)[i] == a[i]);
        } else {
            assert((a + b)[i] == b[i - a.len()]);
        }
    }
}

/// Relies on String::push: appends the given character to the end of
/// the string.
#[verifier::external_body]
pub fn push_char(s: &mut String, c: char)
    ensures
        final(s)@ == old(s)@.push(c),
{
    s.push(c);
}

/// Collects the characters of a string slice into a vector.
pub fn chars_vec(s: &str) -> (v: Vec<char>)
    ensures
        v@ == s@,
{
    let mut it = s.chars();
    let mut v: Vec<char> = Vec::new();
    loop
        invariant
            it.obeys_prophetic_iter_laws(),
            it.decrease() is Some,
            v@ + it.remaining() == s@,
        ensures
            v@ == s@,
        decreases it.decrease()->0,
    {
        match it.next() {
            Some(c) => { v.push(c); },
            None => {
                proof {
                    assert(it.remaining().len() == 0);
                    assert(v@ =~= s@);
                }
                break ;
            },
        }
    }
    v
}

/// The text under which a boolean appears in human-readable output.
pub open spec fn bool_text(b: bool) -> Seq<char> {
    if b {
        "true"@
    } else {
        "false"@
    }
}

/// Appends the text of a boolean to `out`.
pub fn push_bool_text(out: &mut String, b: bool)
    ensures
        final(out)@ == old(out)@ + bool_text(b),
{
    if b {
        out.append("true");
    } else {
        out.append("false");
    }
    assert(final(out)@ =~= old(out)@ + bool_text(b));
}


/// The decimal digit character for `d`.
pub open spec fn dec_digit(d: nat) -> char
    recommends
        d < 10,
{
    if d == 0 {
        '0'
    } else if d == 1 {
        '1'
    } else if d == 2 {
        '2'
    } else if d == 3 {
        '3'
    } else if d == 4 {
        '4'
    } else if d == 5 {
        '5'
    } else if d == 6 {
        '6'
    } else if d == 7 {
        '7'
    } else if d == 8 {
        '8'
    } else {
        '9'
    }
}

/// The decimal rendering of a natural number, most significant digit
/// first, with no leading zeros (a single `'0'` for zero).
pub open spec fn spec_dec(n: nat) -> Seq<char>
    decreases n,
{
    if n < 10 {
        seq![dec_digit(n)]
    } else {
        spec_dec(n / 10) + seq![dec_digit(n % 10)]
    }
}

/// The decimal rendering of an integer: a minus sign before the
/// magnitude when negative.
pub open spec fn spec_dec_int(v: int) -> Seq<char> {
    if v < 0 {
        seq!['-'] + spec_dec((-v) as nat)
    } else {
        spec_dec(v as nat)
    }
}

/// No decimal rendering contains a newline.
pub proof fn lemma_dec_no_newline(n: nat)
    ensures
        no_newline(spec_dec(n)),
    decreases n,
{
    if n >= 10 {
        lemma_dec_no_newline(n / 10);
        lemma_no_newline_concat(spec_dec(n / 10), seq![dec_digit(n % 10)]);
    }
}

/// No decimal rendering of an integer contains a newline.
pub proof fn lemma_dec_int_no_newline(v: int)
    ensures
        no_newline(spec_dec_int(v)),
{
    if v < 0 {
        lemma_dec_no_newline((-v) as nat);
        lemma_no_newline_concat(seq!['-'], spec_dec((-v) as nat));
    } else {
        lemma_dec_no_newline(v as nat);
    }
}

/// Splits a text into its lines, exactly as `split_lines` describes
/// them: one entry per separator-terminated run, with an unterminated
/// tail counting as one line.
pub fn split_lines_vec(s: &str) -> (lines: Vec<String>)
    ensures
        lines.deep_view() == split_lines(s@),
{
    let cs = chars_vec(s);
    let mut lines: Vec<String> = Vec::new();
    let mut cur = String::new();
    let mut i: usize = 0;
    let n = cs.len();
    proof {
        assert(cur@ + s@.skip(0) =~= s@);
        assert(lines.deep_view() + split_lines(cur@ + s@.skip(0)) =~= split_lines(s@));
    }
    while i < n
        invariant
            n == cs@.len(),
            cs@ == s@,
            i <= n,
            no_newline(cur@),
            split_lines(s@) == lines.deep_view() + split_lines(cur@ + s@.skip(i as int)),
        decreases n - i,
    {
        let c = cs[i];
        if c == '\n' {
            proof {
                assert(cur@ + s@.skip(i as int) =~= cur@ + seq!['\n'] + s@.skip(i as int + 1));
                lemma_split_lines_step(cur@, s@.skip(i as int + 1));
            }
            let ghost prev_lines = lines.deep_view();
            let ghost prev_cur = cur@;
            let done = cur;
            cur = String::new();
            lines.push(done);
            proof {
                assert(lines.deep_view() =~= prev_lines.push(prev_cur));
                assert(prev_lines + (seq![prev_cur] + split_lines(s@.skip(i as int + 1)))
                    =~= prev_lines.push(prev_cur) + split_lines(s@.skip(i as int + 1)));
                assert(cur@ + s@.skip(i as int + 1) =~= s@.skip(i as int + 1));
            }
        } else {
            let ghost prev_cur = cur@;
            push_char(&mut cur, c);
            proof {
                assert(cur@ == prev_cur.push(c));
                assert(forall|j: int| 0 <= j < prev_cur.len() ==> cur@[j] == prev_cur[j]);
                assert(cur@[cur@.len() - 1] == c);
                assert(no_newline(cur@));
                assert(cur@ + s@.skip(i as int + 1) =~= prev_cur + s@.skip(i as int));
            }
        }
        i = i + 1;
    }
    proof {
        assert(s@.skip(n as int) =~= Seq::<char>::empty());
        assert(cur@ + s@.skip(n as int) =~= cur@);
    }
    if !cur.as_str().is_empty() {
        let ghost prev_lines = lines.deep_view();
        let ghost last = cur@;
        proof {
            lemma_split_lines_single(cur@);
        }
        lines.push(cur);
        proof {
            assert(lines.deep_view() =~= prev_lines.push(last));
            assert(prev_lines + seq![last] =~= prev_lines.push(last));
        }
    } else {
        proof {
            assert(split_lines(cur@) =~= Seq::<Seq<char>>::empty());
            assert(lines.deep_view() + Seq::<Seq<char>>::empty() =~= lines.deep_view());
        }
    }
    lines
}

/// The items joined with the separator between consecutive items.
pub open spec fn join_with(items: Seq<Seq<char>>, sep: Seq<char>) -> Seq<char>
    decreases items.len(),
{
    if items.len() == 0 {
        Seq::empty()
    } else if items.len() == 1 {
        items.first()
    } else {
        items.first() + sep + join_with(items.drop_first(), sep)
    }
}

/// Joining one more item appends a separator and the item.
pub proof fn lemma_join_with_push(items: Seq<Seq<char>>, sep: Seq<char>, x: Seq<char>)
    ensures
        items.len() == 0 ==> join_with(items.push(x), sep) == x,
        items.len() > 0 ==> join_with(items.push(x), sep) == join_with(items, sep) + sep + x,
    decreases items.len(),
{
    let s = items.push(x);
    if items.len() == 0 {
        assert(s.len() == 1);
        assert(s.first() == x);
    } else if items.len() == 1 {
        assert(s.len() == 2);
        assert(s.first() == items.first());
        assert(s.drop_first() =~= Seq::<Seq<char>>::empty().push(x));
        assert(s.drop_first().len() == 1);
        assert(s.drop_first().first() == x);
        assert(join_with(s.drop_first(), sep) == x);
        assert(join_with(s, sep) == s.first() + sep + join_with(s.drop_first(), sep));
        assert(join_with(items, sep) == items.first());
    } else {
        assert(s.first() == items.first());
        assert(s.drop_first() =~= items.drop_first().push(x));
        lemma_join_with_push(items.drop_first(), sep, x);
        assert(join_with(s, sep) == s.first() + sep + join_with(s.drop_first(), sep));
        assert(join_with(s.drop_first(), sep) == join_with(items.drop_first(), sep) + sep + x);
        assert(join_with(items, sep) == items.first() + sep + join_with(items.drop_first(), sep));
        assert(items.first() + sep + (join_with(items.drop_first(), sep) + sep + x) =~= ((
        items.first() + sep + join_with(items.drop_first(), sep)) + sep) + x);
    }
}

/// A join of newline-free items with a newline-free separator is
/// newline-free.
pub proof fn lemma_join_with_no_newline(items: Seq<Seq<char>>, sep: Seq<char>)
    requires
        forall|i: int| 0 <= i < items.len() ==> no_newline(#[trigger] items[i]),
        no_newline(sep),
    ensures
        no_newline(join_with(items, sep)),
    decreases items.len(),
{
    if items.len() == 0 {
    } else if items.len() == 1 {
        assert(join_with(items, sep) == items[0]);
    } else {
        assert(forall|i: int|
            0 <= i < items.drop_first().len() ==> no_newline(#[trigger] items.drop_first()[i]));
        lemma_join_with_no_newline(items.drop_first(), sep);
        assert(no_newline(items[0]));
        lemma_no_newline_concat(items.first(), sep);
        lemma_no_newline_concat(items.first() + sep, join_with(items.drop_first(), sep));
    }
}

/// Joins the strings with the separator between consecutive items.
pub fn join_strings(items: &Vec<String>, sep: &str) -> (out: String)
    ensures
        out@ == join_with(items.deep_view(), sep@),
{
    let mut out = String::new();
    let mut i: usize = 0;
    let n = items.len();
    while i < n
        invariant
            n == items@.len(),
            i <= n,
            out@ == join_with(items.deep_view().take(i as int), sep@),
        decreases n - i,
    {
        if i > 0 {
            out.append(sep);
        }
        out.append(items[i].as_str());
        proof {
            let pre = items.deep_view().take(i as int);
            assert(pre.push(items@[i as int]@) =~= items.deep_view().take(i as int + 1));
            lemma_join_with_push(pre, sep@, items@[i as int]@);
            if i > 0 {
                assert(out@ =~= join_with(items.deep_view().take(i as int + 1), sep@));
            } else {
                assert(out@ =~= join_with(items.deep_view().take(i as int + 1), sep@));
            }
        }
        i = i + 1;
    }
    proof {
        assert(items.deep_view().take(n as int) =~= items.deep_view());
    }
    out
}

/// The index of the first line separator in `s`, or `s.len()` when
/// there is none.
pub open spec fn first_nl(s: Seq<char>) -> int
    decreases s.len(),
{
    if s.len() == 0 {
        0
    } else if s[0] == '\n' {
        0
    } else {
        1 + first_nl(s.drop_first())
    }
}

/// The first line separator lies within the string, nothing before it
/// is a separator, and it is a separator when it lies strictly inside.
pub proof fn lemma_first_nl_bounds(s: Seq<char>)
    ensures
        0 <= first_nl(s) <= s.len(),
        forall|i: int| 0 <= i < first_nl(s) ==> s[i] != '\n',
        first_nl(s) < s.len() ==> s[first_nl(s)] == '\n',
    decreases s.len(),
{
    if s.len() > 0 && s[0] != '\n' {
        lemma_first_nl_bounds(s.drop_first());
        assert forall|i: int| 0 <= i < first_nl(s) implies s[i] != '\n' by {
            if i > 0 {
                assert(s[i] == s.drop_first()[i - 1]);
            }
        }
    }
}

/// The lines of a newline-delimited text: maximal runs of characters
/// between separators, with an unterminated tail counting as one line.
pub open spec fn split_lines(s: Seq<char>) -> Seq<Seq<char>>
    decreases s.len(),
    via split_lines_dec
{
    if s.len() == 0 {
        Seq::empty()
    } else if first_nl(s) == s.len() {
        seq![s]
    } else {
        seq![s.take(first_nl(s))] + split_lines(s.skip(first_nl(s) + 1))
    }
}

#[via_fn]
proof fn split_lines_dec(s: Seq<char>) {
    lemma_first_nl_bounds(s);
}

/// In a text that opens with a newline-free line and its separator,
/// the first separator stands exactly after that line.
pub proof fn lemma_first_nl_concat(l: Seq<char>, rest: Seq<char>)
    requires
        no_newline(l),
    ensures
        first_nl(l + seq!['\n'] + rest) == l.len(),
    decreases l.len(),
{
    let s = l + seq!['\n'] + rest;
    if l.len() == 0 {
        assert(s[0] == '\n');
    } else {
        assert(s[0] == l[0]);
        assert(s[0] != '\n');
        assert(no_newline(l.drop_first())) by {
            assert(forall|i: int|
                0 <= i < l.drop_first().len() ==> l.drop_first()[i] == l[i + 1]);
        }
        lemma_first_nl_concat(l.drop_first(), rest);
        assert(s.drop_first() =~= l.drop_first() + seq!['\n'] + rest);
    }
}

/// A newline-free text has no line separator at all.
pub proof fn lemma_first_nl_none(s: Seq<char>)
    requires
        no_newline(s),
    ensures
        first_nl(s) == s.len(),
    decreases s.len(),
{
    if s.len() > 0 {
        assert(s[0] != '\n');
        assert(no_newline(s.drop_first())) by {
            assert(forall|i: int|
                0 <= i < s.drop_first().len() ==> s.drop_first()[i] == s[i + 1]);
        }
        lemma_first_nl_none(s.drop_first());
    }
}

/// A non-empty newline-free text is one single line.
pub proof fn lemma_split_lines_single(s: Seq<char>)
    requires
        no_newline(s),
        s.len() > 0,
    ensures
        split_lines(s) == seq![s],
{
    lemma_first_nl_none(s);
}

/// Splitting a text that opens with a newline-free line and its
/// separator peels off exactly that line.
pub proof fn lemma_split_lines_step(l: Seq<char>, rest: Seq<char>)
    requires
        no_newline(l),
    ensures
        split_lines(l + seq!['\n'] + rest) == seq![l] + split_lines(rest),
{
    let s = l + seq!['\n'] + rest;
    lemma_first_nl_concat(l, rest);
    assert(first_nl(s) == l.len());
    assert(first_nl(s) < s.len());
    assert(s.take(first_nl(s)) =~= l);
    assert(s.skip(first_nl(s) + 1) =~= rest);
}

/// The decimal digit character for an executable digit value.
pub fn dec_digit_char(d: u64) -> (c: char)
    requires
        d < 10,
    ensures
        c == dec_digit(d as nat),
{
    if d == 0 {
        '0'
    } else if d == 1 {
        '1'
    } else if d == 2 {
        '2'
    } else if d == 3 {
        '3'
    } else if d == 4 {
        '4'
    } else if d == 5 {
        '5'
    } else if d == 6 {
        '6'
    } else if d == 7 {
        '7'
    } else if d == 8 {
        '8'
    } else {
        '9'
    }
}

/// Appends the decimal rendering of `n` to `out`.
pub fn push_dec_u64(out: &mut String, n: u64)
    ensures
        final(out)@ == old(out)@ + spec_dec(n as nat),
    decreases n,
{
    if n >= 10 {
        push_dec_u64(out, n / 10);
        push_char(out, dec_digit_char(n % 10));
        assert(final(out)@ =~= old(out)@ + spec_dec(n as nat));
    } else {
        push_char(out, dec_digit_char(n));
        assert(final(out)@ =~= old(out)@ + spec_dec(n as nat));
    }
}

/// Appends the decimal rendering of a signed value to `out`.
pub fn push_dec_i64(out: &mut String, v: i64)
    ensures
        final(out)@ == old(out)@ + spec_dec_int(v as int),
{
    if v < 0 {
        push_char(out, '-');
        let mag: u64 = ((-(v as i128)) as u64);
        assert(mag as nat == (-(v as int)) as nat);
        push_dec_u64(out, mag);
        assert(final(out)@ =~= old(out)@ + spec_dec_int(v as int));
    } else {
        push_dec_u64(out, v as u64);
    }
}

/// The decimal rendering of `n` as a fresh string.
pub fn u64_to_string(n: u64) -> (s: String)
    ensures
        s@ == spec_dec(n as nat),
{
    let mut s = String::new();
    push_dec_u64(&mut s, n);
    assert(s@ =~= spec_dec(n as nat));
    s
}

} // verus!
