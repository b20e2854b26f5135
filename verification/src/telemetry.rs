//! The per-module detail streams.
//!
//! A module that performs many units of work records them through
//! three append-only streams, each keyed by the test identifier in its
//! filename: an itemized JSON-lines stream (one line per unit, in
//! completion order), a summary JSON-lines stream (one line per module
//! run, written after all items), and a human-readable log holding a
//! fixed header block followed by one formatted line per item.

use vstd::prelude::*;

use crate::text::{lemma_split_lines_step, no_newline, push_char, split_lines};

verus! {

use vstd::string::StringExecFns;

/// The itemized stream of a module run: `<stem>_<id>_per_item.jsonl`.
pub fn per_item_filename(stem: &str, test_id: &str) -> (name: String)
    ensures
        name@ == stem@ + "_"@ + test_id@ + "_per_item.jsonl"@,
{
    let mut name = String::new();
    name.append(stem);
    name.append("_");
    name.append(test_id);
    name.append("_per_item.jsonl");
    assert(name@ =~= stem@ + "_"@ + test_id@ + "_per_item.jsonl"@);
    name
}

/// The summary stream of a module run: `<stem>_<id>_summary.jsonl`.
pub fn summary_filename(stem: &str, test_id: &str) -> (name: String)
    ensures
        name@ == stem@ + "_"@ + test_id@ + "_summary.jsonl"@,
{
    let mut name = String::new();
    name.append(stem);
    name.append("_");
    name.append(test_id);
    name.append("_summary.jsonl");
    assert(name@ =~= stem@ + "_"@ + test_id@ + "_summary.jsonl"@);
    name
}

/// The human-readable log of a module run: `<stem>_<id>.log`.
pub fn log_filename(stem: &str, test_id: &str) -> (name: String)
    ensures
        name@ == stem@ + "_"@ + test_id@ + ".log"@,
{
    let mut name = String::new();
    name.append(stem);
    name.append("_");
    name.append(test_id);
    name.append(".log");
    assert(name@ =~= stem@ + "_"@ + test_id@ + ".log"@);
    name
}

/// The text of a JSON-lines stream holding `lines`, each terminated
/// by a separator.
pub open spec fn jsonl_file(lines: Seq<Seq<char>>) -> Seq<char>
    decreases lines.len(),
{
    if lines.len() == 0 {
        Seq::empty()
    } else {
        lines.first() + seq!['\n'] + jsonl_file(lines.drop_first())
    }
}

/// Appending one line appends exactly its text to the stream.
pub proof fn lemma_jsonl_file_push(lines: Seq<Seq<char>>, l: Seq<char>)
    ensures
        jsonl_file(lines.push(l)) == jsonl_file(lines) + l + seq!['\n'],
    decreases lines.len(),
{
    let s = lines.push(l);
    if lines.len() == 0 {
        assert(s.drop_first() =~= Seq::<Seq<char>>::empty());
        assert(s.first() == l);
        assert(jsonl_file(s.drop_first()) == Seq::<char>::empty());
        assert(jsonl_file(s) == l + seq!['\n'] + Seq::<char>::empty());
        assert(jsonl_file(lines) == Seq::<char>::empty());
        assert(l + seq!['\n'] + Seq::<char>::empty() =~= Seq::<char>::empty() + l + seq!['\n']);
    } else {
        assert(s.drop_first() =~= lines.drop_first().push(l));
        assert(s.first() == lines.first());
        lemma_jsonl_file_push(lines.drop_first(), l);
        let head = lines.first() + seq!['\n'];
        assert(jsonl_file(s) == head + (jsonl_file(lines.drop_first()) + l + seq!['\n']));
        assert(jsonl_file(lines) == head + jsonl_file(lines.drop_first()));
        assert(head + (jsonl_file(lines.drop_first()) + l + seq!['\n']) =~= (head + jsonl_file(
            lines.drop_first(),
        )) + l + seq!['\n']);
    }
}

/// Reading a JSON-lines stream back yields exactly the lines it was
/// built from, when each stands free of raw newlines.
pub proof fn lemma_jsonl_round_trip(lines: Seq<Seq<char>>)
    requires
        forall|i: int| 0 <= i < lines.len() ==> no_newline(#[trigger] lines[i]),
    ensures
        split_lines(jsonl_file(lines)) == lines,
    decreases lines.len(),
{
    if lines.len() == 0 {
        assert(split_lines(jsonl_file(lines)) =~= lines);
    } else {
        let line = lines.first();
        let rest = jsonl_file(lines.drop_first());
        assert(jsonl_file(lines) =~= line + seq!['\n'] + rest);
        lemma_split_lines_step(line, rest);
        lemma_jsonl_round_trip(lines.drop_first());
        assert(lines =~= seq![line] + lines.drop_first());
    }
}

/// Builds the text of a JSON-lines stream from encoded lines.
pub fn render_jsonl(lines: &Vec<String>) -> (text: String)
    ensures
        text@ == jsonl_file(lines.deep_view()),
{
    let mut out = String::new();
    let mut i: usize = 0;
    let n = lines.len();
    while i < n
        invariant
            n == lines@.len(),
            i <= n,
            out@ == jsonl_file(lines.deep_view().take(i as int)),
        decreases n - i,
    {
        out.append(lines[i].as_str());
        push_char(&mut out, '\n');
        proof {
            assert(lines.deep_view().take(i as int).push(lines@[i as int]@) =~= lines.deep_view()
                .take(i as int + 1));
            lemma_jsonl_file_push(lines.deep_view().take(i as int), lines@[i as int]@);
        }
        i = i + 1;
    }
    proof {
        assert(lines.deep_view().take(n as int) =~= lines.deep_view());
    }
    out
}

/// A rule of equals signs that opens every header block.
pub open spec fn rule_line() -> Seq<char> {
    "===============================================================\n"@
}

/// The labelled lines of a header block, one per pair.
pub open spec fn header_lines(pairs: Seq<(Seq<char>, Seq<char>)>) -> Seq<char>
    decreases pairs.len(),
{
    if pairs.len() == 0 {
        Seq::empty()
    } else {
        pairs.first().0 + pairs.first().1 + seq!['\n'] + header_lines(pairs.drop_first())
    }
}

/// The item lines of a log block, one per item.
pub open spec fn item_lines(items: Seq<Seq<char>>) -> Seq<char>
    decreases items.len(),
{
    if items.len() == 0 {
        Seq::empty()
    } else {
        items.first() + seq!['\n'] + item_lines(items.drop_first())
    }
}

/// One human-readable log block: the rule, the labelled header lines,
/// a section line, one line per item, and a closing blank line.
pub open spec fn log_block(
    pairs: Seq<(Seq<char>, Seq<char>)>,
    section: Seq<char>,
    items: Seq<Seq<char>>,
) -> Seq<char> {
    rule_line() + header_lines(pairs) + section + seq!['\n'] + item_lines(items) + seq!['\n']
}

/// A header-only log block: the rule, the labelled header lines and
/// a closing blank line, for modules without itemized log lines.
pub open spec fn header_block(pairs: Seq<(Seq<char>, Seq<char>)>) -> Seq<char> {
    rule_line() + header_lines(pairs) + seq!['\n']
}

/// Renders a header-only log block.
pub fn render_header_block(pairs: &Vec<(String, String)>) -> (text: String)
    ensures
        text@ == header_block(pairs_view(pairs@)),
{
    let mut out = String::new();
    out.append("===============================================================\n");
    let mut i: usize = 0;
    let n = pairs.len();
    while i < n
        invariant
            n == pairs@.len(),
            i <= n,
            out@ == rule_line() + header_lines(pairs_view(pairs@).take(i as int)),
        decreases n - i,
    {
        out.append(pairs[i].0.as_str());
        out.append(pairs[i].1.as_str());
        push_char(&mut out, '\n');
        proof {
            assert(pairs_view(pairs@).take(i as int).push(
                (pairs@[i as int].0@, pairs@[i as int].1@),
            ) =~= pairs_view(pairs@).take(i as int + 1));
            lemma_header_lines_push(
                pairs_view(pairs@).take(i as int),
                (pairs@[i as int].0@, pairs@[i as int].1@),
            );
            assert(out@ =~= rule_line() + header_lines(pairs_view(pairs@).take(i as int + 1)));
        }
        i = i + 1;
    }
    proof {
        assert(pairs_view(pairs@).take(n as int) =~= pairs_view(pairs@));
    }
    push_char(&mut out, '\n');
    proof {
        assert(out@ =~= header_block(pairs_view(pairs@)));
    }
    out
}

/// Appending one header pair appends exactly its line.
pub proof fn lemma_header_lines_push(pairs: Seq<(Seq<char>, Seq<char>)>, p: (Seq<char>, Seq<char>))
    ensures
        header_lines(pairs.push(p)) == header_lines(pairs) + p.0 + p.1 + seq!['\n'],
    decreases pairs.len(),
{
    let s = pairs.push(p);
    if pairs.len() == 0 {
        assert(s.drop_first() =~= Seq::<(Seq<char>, Seq<char>)>::empty());
        assert(s.first() == p);
        assert(header_lines(s.drop_first()) == Seq::<char>::empty());
        assert(header_lines(s) == p.0 + p.1 + seq!['\n'] + Seq::<char>::empty());
        assert(header_lines(pairs) == Seq::<char>::empty());
        assert(p.0 + p.1 + seq!['\n'] + Seq::<char>::empty() =~= ((Seq::<char>::empty() + p.0)
            + p.1) + seq!['\n']);
    } else {
        assert(s.drop_first() =~= pairs.drop_first().push(p));
        assert(s.first() == pairs.first());
        lemma_header_lines_push(pairs.drop_first(), p);
        let head = pairs.first().0 + pairs.first().1 + seq!['\n'];
        assert(header_lines(s) == head + (header_lines(pairs.drop_first()) + p.0 + p.1
            + seq!['\n']));
        assert(header_lines(pairs) == head + header_lines(pairs.drop_first()));
        assert(head + (header_lines(pairs.drop_first()) + p.0 + p.1 + seq!['\n']) =~= ((head
            + header_lines(pairs.drop_first())) + p.0 + p.1) + seq!['\n']);
    }
}

/// Appending one item appends exactly its line.
pub proof fn lemma_item_lines_push(items: Seq<Seq<char>>, l: Seq<char>)
    ensures
        item_lines(items.push(l)) == item_lines(items) + l + seq!['\n'],
    decreases items.len(),
{
    let s = items.push(l);
    if items.len() == 0 {
        assert(s.drop_first() =~= Seq::<Seq<char>>::empty());
        assert(s.first() == l);
        assert(item_lines(s.drop_first()) == Seq::<char>::empty());
        assert(item_lines(s) == l + seq!['\n'] + Seq::<char>::empty());
        assert(item_lines(items) == Seq::<char>::empty());
        assert(l + seq!['\n'] + Seq::<char>::empty() =~= Seq::<char>::empty() + l + seq!['\n']);
    } else {
        assert(s.drop_first() =~= items.drop_first().push(l));
        assert(s.first() == items.first());
        lemma_item_lines_push(items.drop_first(), l);
        let head = items.first() + seq!['\n'];
        assert(item_lines(s) == head + (item_lines(items.drop_first()) + l + seq!['\n']));
        assert(item_lines(items) == head + item_lines(items.drop_first()));
        assert(head + (item_lines(items.drop_first()) + l + seq!['\n']) =~= (head + item_lines(
            items.drop_first(),
        )) + l + seq!['\n']);
    }
}

/// The deep view of a header pair vector.
pub open spec fn pairs_view(pairs: Seq<(String, String)>) -> Seq<(Seq<char>, Seq<char>)> {
    pairs.map_values(|p: (String, String)| (p.0@, p.1@))
}

/// Renders one human-readable log block: a rule, the labelled header
/// lines, the section line, one line per item, and a closing blank
/// line.
pub fn render_log_block(pairs: &Vec<(String, String)>, section: &str, items: &Vec<String>) -> (text:
    String)
    ensures
        text@ == log_block(pairs_view(pairs@), section@, items.deep_view()),
{
    let mut out = String::new();
    out.append("===============================================================\n");
    let mut i: usize = 0;
    let n = pairs.len();
    while i < n
        invariant
            n == pairs@.len(),
            i <= n,
            out@ == rule_line() + header_lines(pairs_view(pairs@).take(i as int)),
        decreases n - i,
    {
        out.append(pairs[i].0.as_str());
        out.append(pairs[i].1.as_str());
        push_char(&mut out, '\n');
        proof {
            assert(pairs_view(pairs@).take(i as int).push(
                (pairs@[i as int].0@, pairs@[i as int].1@),
            ) =~= pairs_view(pairs@).take(i as int + 1));
            lemma_header_lines_push(
                pairs_view(pairs@).take(i as int),
                (pairs@[i as int].0@, pairs@[i as int].1@),
            );
            assert(out@ =~= rule_line() + header_lines(pairs_view(pairs@).take(i as int + 1)));
        }
        i = i + 1;
    }
    proof {
        assert(pairs_view(pairs@).take(n as int) =~= pairs_view(pairs@));
    }
    out.append(section);
    push_char(&mut out, '\n');
    let ghost mid = rule_line() + header_lines(pairs_view(pairs@)) + section@ + seq!['\n'];
    proof {
        assert(out@ =~= mid);
    }
    let mut j: usize = 0;
    let m = items.len();
    while j < m
        invariant
            m == items@.len(),
            j <= m,
            out@ == mid + item_lines(items.deep_view().take(j as int)),
        decreases m - j,
    {
        out.append(items[j].as_str());
        push_char(&mut out, '\n');
        proof {
            assert(items.deep_view().take(j as int).push(items@[j as int]@) =~= items.deep_view()
                .take(j as int + 1));
            lemma_item_lines_push(items.deep_view().take(j as int), items@[j as int]@);
            assert(out@ =~= mid + item_lines(items.deep_view().take(j as int + 1)));
        }
        j = j + 1;
    }
    proof {
        assert(items.deep_view().take(m as int) =~= items.deep_view());
    }
    push_char(&mut out, '\n');
    proof {
        assert(out@ =~= log_block(pairs_view(pairs@), section@, items.deep_view()));
    }
    out
}

} // verus!
