//! JSON string framing for telemetry records.
//!
//! Every record written to a `.jsonl` stream is one JSON object on one
//! line.  The encoders here escape string content so that an encoded
//! record can never contain a raw newline, which is what keeps the
//! streams splittable back into the records they were built from.

use vstd::prelude::*;

use crate::text::{
    chars_vec, lemma_no_newline_concat, no_newline, push_char, push_dec_i64, push_dec_u64,
    spec_dec, spec_dec_int,
};

verus! {

/// The lower-case hexadecimal digit character for `d` (total; values
/// above fifteen are clamped to `'f'`).
pub open spec fn hex_digit(d: nat) -> char {
    if d == 0 {
        '0'
    } else if d == 1 {
        '1'
    } else if d == 2 {
        '2'
    } else if d == 3 {
        '3'
    } else if d == 4 {
        '4'
    } else if d == 5 {
        '5'
    } else if d == 6 {
        '6'
    } else if d == 7 {
        '7'
    } else if d == 8 {
        '8'
    } else if d == 9 {
        '9'
    } else if d == 10 {
        'a'
    } else if d == 11 {
        'b'
    } else if d == 12 {
        'c'
    } else if d == 13 {
        'd'
    } else if d == 14 {
        'e'
    } else {
        'f'
    }
}

/// The JSON escape of one character: quotes, backslashes and control
/// characters are replaced by escape sequences, everything else stands
/// as itself.
pub open spec fn esc_char(c: char) -> Seq<char> {
    if c == '"' {
        seq!['\\', '"']
    } else if c == '\\' {
        seq!['\\', '\\']
    } else if c == '\n' {
        seq!['\\', 'n']
    } else if c == '\r' {
        seq!['\\', 'r']
    } else if c == '\t' {
        seq!['\\', 't']
    } else if (c as u32) < 32 {
        seq!['\\', 'u', '0', '0', hex_digit((c as u32 / 16) as nat), hex_digit(
            (c as u32 % 16) as nat,
        )]
    } else {
        seq![c]
    }
}

/// The JSON escape of a whole string.
pub open spec fn esc_seq(s: Seq<char>) -> Seq<char>
    decreases s.len(),
{
    if s.len() == 0 {
        Seq::empty()
    } else {
        esc_seq(s.drop_last()) + esc_char(s.last())
    }
}

/// A JSON string token: the escaped content between double quotes.
pub open spec fn json_quoted(s: Seq<char>) -> Seq<char> {
    seq!['"'] + esc_seq(s) + seq!['"']
}

/// The JSON rendering of an optional string: `null` when absent.
pub open spec fn json_opt_str(o: Option<Seq<char>>) -> Seq<char> {
    match o {
        Option::None => seq!['n', 'u', 'l', 'l'],
        Option::Some(s) => json_quoted(s),
    }
}

/// The JSON rendering of a boolean.
pub open spec fn json_bool(b: bool) -> Seq<char> {
    if b {
        seq!['t', 'r', 'u', 'e']
    } else {
        seq!['f', 'a', 'l', 's', 'e']
    }
}

/// A key-value pair with a string value, as it stands inside an object.
pub open spec fn fld_s(k: Seq<char>, v: Seq<char>) -> Seq<char> {
    json_quoted(k) + seq![':'] + json_quoted(v)
}

/// A key-value pair with an unsigned numeric value.
pub open spec fn fld_u(k: Seq<char>, n: nat) -> Seq<char> {
    json_quoted(k) + seq![':'] + spec_dec(n)
}

/// A key-value pair with a signed numeric value.
pub open spec fn fld_i(k: Seq<char>, v: int) -> Seq<char> {
    json_quoted(k) + seq![':'] + spec_dec_int(v)
}

/// A key-value pair with a boolean value.
pub open spec fn fld_b(k: Seq<char>, b: bool) -> Seq<char> {
    json_quoted(k) + seq![':'] + json_bool(b)
}

/// A key-value pair with an optional string value.
pub open spec fn fld_os(k: Seq<char>, o: Option<Seq<char>>) -> Seq<char> {
    json_quoted(k) + seq![':'] + json_opt_str(o)
}

/// The escape of one character never contains a newline.
pub proof fn lemma_esc_char_no_newline(c: char)
    ensures
        no_newline(esc_char(c)),
{
}

/// The escape of a string never contains a newline.
pub proof fn lemma_esc_no_newline(s: Seq<char>)
    ensures
        no_newline(esc_seq(s)),
    decreases s.len(),
{
    if s.len() > 0 {
        lemma_esc_no_newline(s.drop_last());
        lemma_esc_char_no_newline(s.last());
        lemma_no_newline_concat(esc_seq(s.drop_last()), esc_char(s.last()));
    }
}

/// A quoted JSON string token never contains a newline.
pub proof fn lemma_quoted_no_newline(s: Seq<char>)
    ensures
        no_newline(json_quoted(s)),
{
    lemma_esc_no_newline(s);
    lemma_no_newline_concat(seq!['"'], esc_seq(s));
    lemma_no_newline_concat(seq!['"'] + esc_seq(s), seq!['"']);
}

/// Escaping distributes over extending the input by one character.
pub proof fn lemma_esc_snoc(s: Seq<char>, i: int)
    requires
        0 <= i < s.len(),
    ensures
        esc_seq(s.take(i + 1)) == esc_seq(s.take(i)) + esc_char(s[i]),
{
    assert(s.take(i + 1).drop_last() =~= s.take(i));
    assert(s.take(i + 1).last() == s[i]);
}

/// Escaping peels off the front character first as well.
pub proof fn lemma_esc_seq_front(s: Seq<char>)
    requires
        s.len() > 0,
    ensures
        esc_seq(s) == esc_char(s.first()) + esc_seq(s.drop_first()),
    decreases s.len(),
{
    if s.len() == 1 {
        assert(s.drop_last() =~= Seq::<char>::empty());
        assert(s.drop_first() =~= Seq::<char>::empty());
        assert(s.last() == s.first());
        assert(esc_seq(s) == esc_seq(s.drop_last()) + esc_char(s.last()));
        assert(Seq::<char>::empty() + esc_char(s.first()) =~= esc_char(s.first())
            + Seq::<char>::empty());
    } else {
        lemma_esc_seq_front(s.drop_last());
        assert(s.drop_last().first() == s.first());
        assert(s.drop_last().drop_first() =~= s.drop_first().drop_last());
        assert(s.drop_first().last() == s.last());
        assert(esc_seq(s) == (esc_char(s.first()) + esc_seq(s.drop_first().drop_last()))
            + esc_char(s.last()));
        assert(esc_seq(s.drop_first()) == esc_seq(s.drop_first().drop_last()) + esc_char(
            s.last(),
        ));
        assert((esc_char(s.first()) + esc_seq(s.drop_first().drop_last())) + esc_char(s.last())
            =~= esc_char(s.first()) + (esc_seq(s.drop_first().drop_last()) + esc_char(s.last())));
    }
}

/// The numeric value of a lower-case hexadecimal digit character
/// (sixteen for anything else).
pub open spec fn hex_val(c: char) -> nat {
    if c == '0' {
        0
    } else if c == '1' {
        1
    } else if c == '2' {
        2
    } else if c == '3' {
        3
    } else if c == '4' {
        4
    } else if c == '5' {
        5
    } else if c == '6' {
        6
    } else if c == '7' {
        7
    } else if c == '8' {
        8
    } else if c == '9' {
        9
    } else if c == 'a' {
        10
    } else if c == 'b' {
        11
    } else if c == 'c' {
        12
    } else if c == 'd' {
        13
    } else if c == 'e' {
        14
    } else if c == 'f' {
        15
    } else {
        16
    }
}

/// The code of the character whose escape opens the text `t`.
pub open spec fn head_code(t: Seq<char>) -> nat {
    if t.len() > 0 && t[0] != '\\' {
        t[0] as nat
    } else if t.len() >= 2 && t[1] == '"' {
        34
    } else if t.len() >= 2 && t[1] == '\\' {
        92
    } else if t.len() >= 2 && t[1] == 'n' {
        10
    } else if t.len() >= 2 && t[1] == 'r' {
        13
    } else if t.len() >= 2 && t[1] == 't' {
        9
    } else if t.len() >= 6 && t[1] == 'u' {
        hex_val(t[4]) * 16 + hex_val(t[5])
    } else {
        0x110000
    }
}

/// Characters with the same code are the same character.
proof fn lemma_char_code_injective(c1: char, c2: char)
    requires
        c1 as nat == c2 as nat,
    ensures
        c1 == c2,
{
}

/// Reading a hexadecimal digit back yields the digit.
proof fn lemma_hex_val_digit(d: nat)
    requires
        d < 16,
    ensures
        hex_val(hex_digit(d)) == d,
{
}

/// The opening of an escaped text determines the escaped character's
/// code.
proof fn lemma_esc_char_code(c: char, t: Seq<char>)
    requires
        esc_char(c).is_prefix_of(t),
    ensures
        c as nat == head_code(t),
{
    let e = esc_char(c);
    assert(e =~= t.subrange(0, e.len() as int));
    assert(forall|i: int| 0 <= i < e.len() ==> e[i] == t[i]);
    if c == '"' {
        assert(t[0] == '\\' && t[1] == '"');
    } else if c == '\\' {
        assert(t[0] == '\\' && t[1] == '\\');
    } else if c == '\n' {
        assert(t[0] == '\\' && t[1] == 'n');
    } else if c == '\r' {
        assert(t[0] == '\\' && t[1] == 'r');
    } else if c == '\t' {
        assert(t[0] == '\\' && t[1] == 't');
    } else if (c as u32) < 32 {
        assert(e.len() == 6);
        assert(t[0] == '\\' && t[1] == 'u');
        assert(t[4] == hex_digit((c as u32 / 16) as nat));
        assert(t[5] == hex_digit((c as u32 % 16) as nat));
        lemma_hex_val_digit((c as u32 / 16) as nat);
        lemma_hex_val_digit((c as u32 % 16) as nat);
        assert(head_code(t) == (c as u32 / 16) * 16 + (c as u32 % 16));
        assert((c as u32 / 16) * 16 + (c as u32 % 16) == c as u32) by (nonlinear_arith);
    } else {
        assert(e == seq![c]);
        assert(t[0] == c);
        assert(t[0] != '\\');
        assert(head_code(t) == c as nat);
    }
}

/// Escaping is lossless: equal escapes come only from equal strings,
/// so an escaped token determines its source unambiguously.
pub proof fn lemma_esc_seq_injective(s1: Seq<char>, s2: Seq<char>)
    requires
        esc_seq(s1) == esc_seq(s2),
    ensures
        s1 == s2,
    decreases s1.len(),
{
    if s1.len() == 0 || s2.len() == 0 {
        if s1.len() > 0 {
            lemma_esc_seq_front(s1);
            assert(esc_seq(s1).len() > 0);
        }
        if s2.len() > 0 {
            lemma_esc_seq_front(s2);
            assert(esc_seq(s2).len() > 0);
        }
        assert(s1 =~= s2);
    } else {
        lemma_esc_seq_front(s1);
        lemma_esc_seq_front(s2);
        let c1 = s1.first();
        let c2 = s2.first();
        let t = esc_seq(s1);
        assert(esc_char(c1).is_prefix_of(t)) by {
            assert(esc_char(c1) =~= t.subrange(0, esc_char(c1).len() as int));
        }
        assert(esc_char(c2).is_prefix_of(t)) by {
            assert(esc_char(c2) =~= t.subrange(0, esc_char(c2).len() as int));
        }
        lemma_esc_char_code(c1, t);
        lemma_esc_char_code(c2, t);
        assert(c1 as nat == c2 as nat);
        lemma_char_code_injective(c1, c2);
        assert(esc_seq(s1.drop_first()) =~= esc_seq(s2.drop_first())) by {
            let a = esc_char(c1);
            let x = esc_seq(s1.drop_first());
            let y = esc_seq(s2.drop_first());
            assert(a + x == a + y);
            assert((a + x).len() == (a + y).len());
            assert(forall|i: int| 0 <= i < x.len() ==> x[i] == (a + x)[a.len() + i]);
            assert(forall|i: int| 0 <= i < y.len() ==> y[i] == (a + y)[a.len() + i]);
        }
        lemma_esc_seq_injective(s1.drop_first(), s2.drop_first());
        assert(s1.len() == s2.len());
        assert forall|i: int| 0 <= i < s1.len() implies s1[i] == s2[i] by {
            if i > 0 {
                assert(s1[i] == s1.drop_first()[i - 1]);
                assert(s2[i] == s2.drop_first()[i - 1]);
            }
        }
        assert(s1 =~= s2);
    }
}

/// A quoted token determines its content: two equal tokens quote the
/// same string.
pub proof fn lemma_json_quoted_injective(s1: Seq<char>, s2: Seq<char>)
    requires
        json_quoted(s1) == json_quoted(s2),
    ensures
        s1 == s2,
{
    let q1 = json_quoted(s1);
    let q2 = json_quoted(s2);
    assert(q1.len() == esc_seq(s1).len() + 2);
    assert(q2.len() == esc_seq(s2).len() + 2);
    assert(esc_seq(s1) =~= esc_seq(s2)) by {
        assert(forall|i: int|
            0 <= i < esc_seq(s1).len() ==> esc_seq(s1)[i] == q1[i + 1]);
        assert(forall|i: int|
            0 <= i < esc_seq(s2).len() ==> esc_seq(s2)[i] == q2[i + 1]);
    }
    lemma_esc_seq_injective(s1, s2);
}

/// The lower-case hexadecimal digit character, executable form.
pub fn hex_digit_char(d: u32) -> (c: char)
    ensures
        c == hex_digit(d as nat),
{
    if d == 0 {
        '0'
    } else if d == 1 {
        '1'
    } else if d == 2 {
        '2'
    } else if d == 3 {
        '3'
    } else if d == 4 {
        '4'
    } else if d == 5 {
        '5'
    } else if d == 6 {
        '6'
    } else if d == 7 {
        '7'
    } else if d == 8 {
        '8'
    } else if d == 9 {
        '9'
    } else if d == 10 {
        'a'
    } else if d == 11 {
        'b'
    } else if d == 12 {
        'c'
    } else if d == 13 {
        'd'
    } else if d == 14 {
        'e'
    } else {
        'f'
    }
}

/// Appends the JSON escape of `s` to `out`.
pub fn push_escaped(out: &mut String, s: &str)
    ensures
        final(out)@ == old(out)@ + esc_seq(s@),
{
    let cs = chars_vec(s);
    let ghost base = out@;
    let n = cs.len();
    let mut i: usize = 0;
    while i < n
        invariant
            n == cs@.len(),
            cs@ == s@,
            i <= n,
            out@ == base + esc_seq(s@.take(i as int)),
        decreases n - i,
    {
        let c = cs[i];
        proof {
            lemma_esc_snoc(s@, i as int);
        }
        if c == '"' {
            push_char(out, '\\');
            push_char(out, '"');
        } else if c == '\\' {
            push_char(out, '\\');
            push_char(out, '\\');
        } else if c == '\n' {
            push_char(out, '\\');
            push_char(out, 'n');
        } else if c == '\r' {
            push_char(out, '\\');
            push_char(out, 'r');
        } else if c == '\t' {
            push_char(out, '\\');
            push_char(out, 't');
        } else if (c as u32) < 32 {
            push_char(out, '\\');
            push_char(out, 'u');
            push_char(out, '0');
            push_char(out, '0');
            let code = c as u32;
            push_char(out, hex_digit_char(code / 16));
            push_char(out, hex_digit_char(code % 16));
        } else {
            push_char(out, c);
        }
        proof {
            assert(out@ =~= base + esc_seq(s@.take(i as int + 1)));
        }
        i = i + 1;
    }
    proof {
        assert(s@.take(n as int) =~= s@);
    }
}

/// Appends a quoted JSON string token for `s` to `out`.
pub fn push_quoted(out: &mut String, s: &str)
    ensures
        final(out)@ == old(out)@ + json_quoted(s@),
{
    push_char(out, '"');
    push_escaped(out, s);
    push_char(out, '"');
    assert(final(out)@ =~= old(out)@ + json_quoted(s@));
}

/// Appends the JSON rendering of a boolean to `out`.
pub fn push_bool(out: &mut String, b: bool)
    ensures
        final(out)@ == old(out)@ + json_bool(b),
{
    if b {
        push_char(out, 't');
        push_char(out, 'r');
        push_char(out, 'u');
        push_char(out, 'e');
    } else {
        push_char(out, 'f');
        push_char(out, 'a');
        push_char(out, 'l');
        push_char(out, 's');
        push_char(out, 'e');
    }
    assert(final(out)@ =~= old(out)@ + json_bool(b));
}

/// Appends the JSON rendering of an optional string to `out`.
pub fn push_opt_str(out: &mut String, o: &Option<String>)
    ensures
        final(out)@ == old(out)@ + json_opt_str(match *o {
            Option::None => Option::None,
            Option::Some(ref s) => Option::Some(s@),
        }),
{
    match o {
        Option::None => {
            push_char(out, 'n');
            push_char(out, 'u');
            push_char(out, 'l');
            push_char(out, 'l');
            assert(final(out)@ =~= old(out)@ + seq!['n', 'u', 'l', 'l']);
        },
        Option::Some(s) => {
            push_quoted(out, s.as_str());
        },
    }
}

/// Appends `"key":"value"` for a string field to `out`.
pub fn push_fld_s(out: &mut String, k: &str, v: &str)
    ensures
        final(out)@ == old(out)@ + fld_s(k@, v@),
{
    push_quoted(out, k);
    push_char(out, ':');
    push_quoted(out, v);
    assert(final(out)@ =~= old(out)@ + fld_s(k@, v@));
}

/// Appends `"key":n` for an unsigned numeric field to `out`.
pub fn push_fld_u(out: &mut String, k: &str, n: u64)
    ensures
        final(out)@ == old(out)@ + fld_u(k@, n as nat),
{
    push_quoted(out, k);
    push_char(out, ':');
    push_dec_u64(out, n);
    assert(final(out)@ =~= old(out)@ + fld_u(k@, n as nat));
}

/// Appends `"key":v` for a signed numeric field to `out`.
pub fn push_fld_i(out: &mut String, k: &str, v: i64)
    ensures
        final(out)@ == old(out)@ + fld_i(k@, v as int),
{
    push_quoted(out, k);
    push_char(out, ':');
    push_dec_i64(out, v);
    assert(final(out)@ =~= old(out)@ + fld_i(k@, v as int));
}

/// Appends `"key":b` for a boolean field to `out`.
pub fn push_fld_b(out: &mut String, k: &str, b: bool)
    ensures
        final(out)@ == old(out)@ + fld_b(k@, b),
{
    push_quoted(out, k);
    push_char(out, ':');
    push_bool(out, b);
    assert(final(out)@ =~= old(out)@ + fld_b(k@, b));
}

/// Appends `"key":"value"` or `"key":null` for an optional string field
/// to `out`.
pub fn push_fld_os(out: &mut String, k: &str, o: &Option<String>)
    ensures
        final(out)@ == old(out)@ + fld_os(k@, match *o {
            Option::None => Option::None,
            Option::Some(ref s) => Option::Some(s@),
        }),
{
    push_quoted(out, k);
    push_char(out, ':');
    push_opt_str(out, o);
    assert(final(out)@ =~= old(out)@ + fld_os(k@, match *o {
        Option::None => Option::<Seq<char>>::None,
        Option::Some(ref s) => Option::Some(s@),
    }));
}

/// A JSON array of string tokens.
pub open spec fn json_str_arr(items: Seq<Seq<char>>) -> Seq<char> {
    seq!['['] + crate::text::join_with(items.map_values(|s: Seq<char>| json_quoted(s)), seq![','])
        + seq![']']
}

/// A JSON array of already-encoded fragments.
pub open spec fn json_raw_arr(frags: Seq<Seq<char>>) -> Seq<char> {
    seq!['['] + crate::text::join_with(frags, seq![',']) + seq![']']
}

/// Appends a JSON array of string tokens to `out`.
pub fn push_str_arr(out: &mut String, items: &Vec<String>)
    ensures
        final(out)@ == old(out)@ + json_str_arr(items.deep_view()),
{
    push_char(out, '[');
    let ghost base = out@;
    let mut i: usize = 0;
    let n = items.len();
    while i < n
        invariant
            n == items@.len(),
            i <= n,
            out@ == base + crate::text::join_with(
                items.deep_view().take(i as int).map_values(|s: Seq<char>| json_quoted(s)),
                seq![','],
            ),
        decreases n - i,
    {
        if i > 0 {
            push_char(out, ',');
        }
        push_quoted(out, items[i].as_str());
        proof {
            let pre = items.deep_view().take(i as int).map_values(
                |s: Seq<char>| json_quoted(s),
            );
            let nxt = items.deep_view().take(i as int + 1).map_values(
                |s: Seq<char>| json_quoted(s),
            );
            assert(pre.push(json_quoted(items@[i as int]@)) =~= nxt);
            crate::text::lemma_join_with_push(pre, seq![','], json_quoted(items@[i as int]@));
            assert(out@ =~= base + crate::text::join_with(nxt, seq![',']));
        }
        i = i + 1;
    }
    proof {
        assert(items.deep_view().take(n as int) =~= items.deep_view());
    }
    push_char(out, ']');
    proof {
        assert(final(out)@ =~= old(out)@ + json_str_arr(items.deep_view()));
    }
}

/// Appends a JSON array of already-encoded fragments to `out`.
pub fn push_raw_arr(out: &mut String, frags: &Vec<String>)
    ensures
        final(out)@ == old(out)@ + json_raw_arr(frags.deep_view()),
{
    push_char(out, '[');
    let ghost base = out@;
    let mut i: usize = 0;
    let n = frags.len();
    while i < n
        invariant
            n == frags@.len(),
            i <= n,
            out@ == base + crate::text::join_with(frags.deep_view().take(i as int), seq![',']),
        decreases n - i,
    {
        if i > 0 {
            push_char(out, ',');
        }
        out.append(frags[i].as_str());
        proof {
            let pre = frags.deep_view().take(i as int);
            assert(pre.push(frags@[i as int]@) =~= frags.deep_view().take(i as int + 1));
            crate::text::lemma_join_with_push(pre, seq![','], frags@[i as int]@);
            assert(out@ =~= base + crate::text::join_with(
                frags.deep_view().take(i as int + 1),
                seq![','],
            ));
        }
        i = i + 1;
    }
    proof {
        assert(frags.deep_view().take(n as int) =~= frags.deep_view());
    }
    push_char(out, ']');
    proof {
        assert(final(out)@ =~= old(out)@ + json_raw_arr(frags.deep_view()));
    }
}

/// A JSON array of string tokens never contains a newline.
pub proof fn lemma_str_arr_no_newline(items: Seq<Seq<char>>)
    ensures
        no_newline(json_str_arr(items)),
{
    let quoted = items.map_values(|s: Seq<char>| json_quoted(s));
    assert forall|i: int| 0 <= i < quoted.len() implies no_newline(#[trigger] quoted[i]) by {
        lemma_quoted_no_newline(items[i]);
    }
    crate::text::lemma_join_with_no_newline(quoted, seq![',']);
    lemma_no_newline_concat(seq!['['], crate::text::join_with(quoted, seq![',']));
    lemma_no_newline_concat(
        seq!['['] + crate::text::join_with(quoted, seq![',']),
        seq![']'],
    );
}

/// A JSON array of newline-free fragments never contains a newline.
pub proof fn lemma_raw_arr_no_newline(frags: Seq<Seq<char>>)
    requires
        forall|i: int| 0 <= i < frags.len() ==> no_newline(#[trigger] frags[i]),
    ensures
        no_newline(json_raw_arr(frags)),
{
    crate::text::lemma_join_with_no_newline(frags, seq![',']);
    lemma_no_newline_concat(seq!['['], crate::text::join_with(frags, seq![',']));
    lemma_no_newline_concat(
        seq!['['] + crate::text::join_with(frags, seq![',']),
        seq![']'],
    );
}

/// A key-value pair with a string-array value.
pub open spec fn fld_sa(k: Seq<char>, items: Seq<Seq<char>>) -> Seq<char> {
    json_quoted(k) + seq![':'] + json_str_arr(items)
}

/// A key-value pair with an array of already-encoded fragments.
pub open spec fn fld_ra(k: Seq<char>, frags: Seq<Seq<char>>) -> Seq<char> {
    json_quoted(k) + seq![':'] + json_raw_arr(frags)
}

/// Appends `"key":[...]` for a string-array field to `out`.
pub fn push_fld_sa(out: &mut String, k: &str, items: &Vec<String>)
    ensures
        final(out)@ == old(out)@ + fld_sa(k@, items.deep_view()),
{
    push_quoted(out, k);
    push_char(out, ':');
    push_str_arr(out, items);
    assert(final(out)@ =~= old(out)@ + fld_sa(k@, items.deep_view()));
}

/// Appends `"key":[...]` for a field of already-encoded fragments to
/// `out`.
pub fn push_fld_ra(out: &mut String, k: &str, frags: &Vec<String>)
    ensures
        final(out)@ == old(out)@ + fld_ra(k@, frags.deep_view()),
{
    push_quoted(out, k);
    push_char(out, ':');
    push_raw_arr(out, frags);
    assert(final(out)@ =~= old(out)@ + fld_ra(k@, frags.deep_view()));
}

/// No string-array field rendering contains a newline.
pub proof fn lemma_fld_sa_no_newline(k: Seq<char>, items: Seq<Seq<char>>)
    ensures
        no_newline(fld_sa(k, items)),
{
    lemma_quoted_no_newline(k);
    lemma_str_arr_no_newline(items);
    lemma_no_newline_concat(json_quoted(k), seq![':']);
    lemma_no_newline_concat(json_quoted(k) + seq![':'], json_str_arr(items));
}

/// No field of newline-free fragments contains a newline.
pub proof fn lemma_fld_ra_no_newline(k: Seq<char>, frags: Seq<Seq<char>>)
    requires
        forall|i: int| 0 <= i < frags.len() ==> no_newline(#[trigger] frags[i]),
    ensures
        no_newline(fld_ra(k, frags)),
{
    lemma_quoted_no_newline(k);
    lemma_raw_arr_no_newline(frags);
    lemma_no_newline_concat(json_quoted(k), seq![':']);
    lemma_no_newline_concat(json_quoted(k) + seq![':'], json_raw_arr(frags));
}

/// No string field rendering contains a newline.
pub proof fn lemma_fld_s_no_newline(k: Seq<char>, v: Seq<char>)
    ensures
        no_newline(fld_s(k, v)),
{
    lemma_quoted_no_newline(k);
    lemma_quoted_no_newline(v);
    lemma_no_newline_concat(json_quoted(k), seq![':']);
    lemma_no_newline_concat(json_quoted(k) + seq![':'], json_quoted(v));
}

/// No unsigned numeric field rendering contains a newline.
pub proof fn lemma_fld_u_no_newline(k: Seq<char>, n: nat)
    ensures
        no_newline(fld_u(k, n)),
{
    lemma_quoted_no_newline(k);
    crate::text::lemma_dec_no_newline(n);
    lemma_no_newline_concat(json_quoted(k), seq![':']);
    lemma_no_newline_concat(json_quoted(k) + seq![':'], spec_dec(n));
}

/// No signed numeric field rendering contains a newline.
pub proof fn lemma_fld_i_no_newline(k: Seq<char>, v: int)
    ensures
        no_newline(fld_i(k, v)),
{
    lemma_quoted_no_newline(k);
    crate::text::lemma_dec_int_no_newline(v);
    lemma_no_newline_concat(json_quoted(k), seq![':']);
    lemma_no_newline_concat(json_quoted(k) + seq![':'], spec_dec_int(v));
}

/// No boolean field rendering contains a newline.
pub proof fn lemma_fld_b_no_newline(k: Seq<char>, b: bool)
    ensures
        no_newline(fld_b(k, b)),
{
    lemma_quoted_no_newline(k);
    lemma_no_newline_concat(json_quoted(k), seq![':']);
    lemma_no_newline_concat(json_quoted(k) + seq![':'], json_bool(b));
}

/// No optional-string field rendering contains a newline.
pub proof fn lemma_fld_os_no_newline(k: Seq<char>, o: Option<Seq<char>>)
    ensures
        no_newline(fld_os(k, o)),
{
    lemma_quoted_no_newline(k);
    if let Option::Some(s) = o {
        lemma_quoted_no_newline(s);
    }
    lemma_no_newline_concat(json_quoted(k), seq![':']);
    lemma_no_newline_concat(json_quoted(k) + seq![':'], json_opt_str(o));
}

} // verus!
