//! Counterpart to `config::loader`: renders a `RawDocument` as the text of
//! a configuration file. (Writing it to disk, through a temporary file that
//! is renamed into place, is the program's part.)

use vstd::prelude::*;
use crate::config::entries::{insert_sorted, key_lt, lemma_insert_last, sorted, Pair};
use crate::config::loader::{apply_line, apply_lines, parse_document, version_key, DocView, RawDocument};
use crate::text::{
    decimal, lemma_decimal, lemma_parse_decimal, lemma_split_none, lemma_split_prepend, parse_bounded,
    split_char, split_once, trim_chars, trim_end,
};

verus! {

/// `key=value` and a newline.
pub open spec fn entry_line(p: Pair) -> Seq<char> {
    p.0 + seq!['='] + p.1 + seq!['\n']
}

/// One line per entry, in order.
pub open spec fn render_entries(ps: Seq<Pair>) -> Seq<char>
    decreases ps.len(),
{
    if ps.len() == 0 {
        Seq::empty()
    } else {
        entry_line(ps[0]) + render_entries(ps.drop_first())
    }
}

/// The `__version__=N` line's text, without its newline.
pub open spec fn version_line(version: u32) -> Seq<char> {
    version_key() + seq!['='] + decimal(version as nat)
}

/// The file text for a document: the version line, then one line per
/// entry in key order.
pub open spec fn render_document(d: DocView) -> Seq<char> {
    version_line(d.version) + seq!['\n'] + render_entries(d.entries)
}

/// An entry that reads back as itself: neither key nor value holds a
/// newline, the key holds no `=`, has no surrounding whitespace, does not
/// start with `#` and is not `__version__`, and the value has no trailing
/// whitespace.
pub open spec fn entry_round_trips(p: Pair) -> bool {
    &&& forall|i: int| 0 <= i < p.0.len() ==> p.0[i] != '\n' && p.0[i] != '='
    &&& forall|i: int| 0 <= i < p.1.len() ==> p.1[i] != '\n'
    &&& trim_chars(p.0) == p.0
    &&& !(p.0.len() > 0 && p.0[0] == '#')
    &&& p.0 != version_key()
    &&& trim_end(p.1) == p.1
}

/// Adding one more entry line at the end of the rendered entries.
pub proof fn lemma_render_entries_push(ps: Seq<Pair>, p: Pair)
    ensures
        render_entries(ps.push(p)) == render_entries(ps) + entry_line(p),
    decreases ps.len(),
{
    if ps.len() == 0 {
        assert(ps.push(p).drop_first() =~= Seq::<Pair>::empty());
        assert(render_entries(ps.push(p)) =~= entry_line(p) + render_entries(Seq::<Pair>::empty()));
        assert(render_entries(ps) + entry_line(p) =~= entry_line(p));
    } else {
        assert(ps.push(p).drop_first() =~= ps.drop_first().push(p));
        lemma_render_entries_push(ps.drop_first(), p);
        assert(render_entries(ps.push(p)) =~= entry_line(ps[0]) + render_entries(ps.drop_first().push(p)));
    }
}

/// The lines of rendered entries are the entries' `key=value` texts, then
/// the empty text after the last newline.
pub proof fn lemma_split_render_entries(ps: Seq<Pair>)
    requires
        forall|i: int| 0 <= i < ps.len() ==> entry_round_trips(#[trigger] ps[i]),
    ensures
        split_char(render_entries(ps), '\n') == ps.map_values(|p: Pair| p.0 + seq!['='] + p.1).push(Seq::empty()),
    decreases ps.len(),
{
    if ps.len() == 0 {
        lemma_split_none(Seq::<char>::empty(), '\n');
        assert(ps.map_values(|p: Pair| p.0 + seq!['='] + p.1).push(Seq::empty()) =~= seq![Seq::<char>::empty()]);
    } else {
        let p = ps[0];
        assert(entry_round_trips(p));
        let body = p.0 + seq!['='] + p.1;
        assert forall|j: int| 0 <= j < body.len() implies body[j] != '\n' by {
            if j < p.0.len() {
                assert(body[j] == p.0[j]);
            } else if j > p.0.len() {
                assert(body[j] == p.1[j - p.0.len() - 1]);
            }
        }
        assert forall|i: int| 0 <= i < ps.drop_first().len() implies entry_round_trips(#[trigger] ps.drop_first()[i]) by {
            assert(ps.drop_first()[i] == ps[i + 1]);
        }
        lemma_split_render_entries(ps.drop_first());
        assert(render_entries(ps) =~= body + seq!['\n'] + render_entries(ps.drop_first()));
        lemma_split_prepend(body, '\n', render_entries(ps.drop_first()));
        assert(ps.map_values(|p: Pair| p.0 + seq!['='] + p.1).push(Seq::empty())
            =~= seq![body] + ps.drop_first().map_values(|p: Pair| p.0 + seq!['='] + p.1).push(Seq::empty()));
    }
}

/// An entry line reads back as that entry.
pub proof fn lemma_entry_line_reads_back(d: DocView, p: Pair)
    requires
        entry_round_trips(p),
    ensures
        apply_line(d, p.0 + seq!['='] + p.1) == (DocView { entries: insert_sorted(d.entries, p.0, p.1), ..d }),
{
    let line = p.0 + seq!['='] + p.1;
    reveal_strlit("__version__");
    if p.0.len() > 0 {
        crate::text::lemma_trimmed_ends(p.0);
        assert(line[0] == p.0[0]);
    }
    if p.1.len() > 0 {
        crate::text::lemma_trim_end_last(p.1);
        assert(line.last() == p.1.last());
    }
    crate::text::lemma_trim_identity(line);
    assert(trim_chars(line) == line);
    assert(line[p.0.len() as int] == '=');
    assert forall|j: int| 0 <= j < p.0.len() implies line[j] != '=' by {
        assert(line[j] == p.0[j]);
    }
    crate::text::lemma_find_first_is(line, '=', p.0.len() as int);
    assert(line.take(p.0.len() as int) =~= p.0);
    assert(line.skip(p.0.len() as int + 1) =~= p.1);
    if p.0.len() > 0 {
        assert(line[0] == p.0[0]);
    }
}

/// The version line reads back as the version.
pub proof fn lemma_version_line_reads_back(d: DocView, version: u32)
    ensures
        apply_line(d, version_line(version)) == (DocView { version, ..d }),
{
    reveal_strlit("__version__");
    let line = version_line(version);
    let digits = decimal(version as nat);
    lemma_decimal(version as nat);
    lemma_parse_decimal(version as nat);
    assert(crate::text::is_digit(digits[0]));
    assert(crate::text::is_digit(digits[digits.len() - 1]));
    assert(line[0] == '_');
    assert(line.last() == digits.last());
    crate::text::lemma_trim_identity(line);
    crate::text::lemma_trim_identity(digits);
    crate::text::lemma_trim_identity(version_key());
    assert(line[11] == '=');
    assert forall|j: int| 0 <= j < 11 implies line[j] != '=' by {
        assert(line[j] == version_key()[j]);
    }
    crate::text::lemma_find_first_is(line, '=', 11);
    assert(line.take(11) =~= version_key());
    assert(line.skip(12) =~= digits);
    assert(parse_bounded(digits, u32::MAX as nat) == Some(version as nat));
}

/// Lines for entries whose keys all exceed those already read add those
/// entries at the end, in order.
pub proof fn lemma_read_entry_lines(d: DocView, ps: Seq<Pair>)
    requires
        sorted(d.entries + ps),
        forall|i: int| 0 <= i < ps.len() ==> entry_round_trips(#[trigger] ps[i]),
    ensures
        apply_lines(d, ps.map_values(|p: Pair| p.0 + seq!['='] + p.1)) == (DocView { entries: d.entries + ps, ..d }),
    decreases ps.len(),
{
    let lines = ps.map_values(|p: Pair| p.0 + seq!['='] + p.1);
    if ps.len() == 0 {
        assert(d.entries + ps =~= d.entries);
    } else {
        let init = ps.drop_last();
        assert(sorted(d.entries + init)) by {
            let all = d.entries + ps;
            assert forall|i: int, j: int| 0 <= i < j < (d.entries + init).len() implies key_lt(#[trigger] (d.entries + init)[i].0, #[trigger] (d.entries + init)[j].0) by {
                assert((d.entries + init)[i] == all[i] && (d.entries + init)[j] == all[j]);
            }
        }
        assert forall|i: int| 0 <= i < init.len() implies entry_round_trips(#[trigger] init[i]) by {
            assert(init[i] == ps[i]);
        }
        lemma_read_entry_lines(d, init);
        assert(lines.drop_last() =~= init.map_values(|p: Pair| p.0 + seq!['='] + p.1));
        let mid = DocView { entries: d.entries + init, ..d };
        let p = ps.last();
        assert(entry_round_trips(p));
        lemma_entry_line_reads_back(mid, p);
        let all = d.entries + ps;
        assert forall|i: int| 0 <= i < (d.entries + init).len() implies key_lt(#[trigger] (d.entries + init)[i].0, p.0) by {
            assert((d.entries + init)[i] == all[i]);
            assert(all[all.len() - 1] == p);
        }
        lemma_insert_last(d.entries + init, p.0, p.1);
        assert((d.entries + init).push(p) =~= d.entries + ps);
    }
}

/// Writing a document and reading the text back gives the same document,
/// for every document whose entries read back as themselves.
pub proof fn lemma_render_then_parse(d: DocView)
    requires
        sorted(d.entries),
        forall|i: int| 0 <= i < d.entries.len() ==> entry_round_trips(#[trigger] d.entries[i]),
    ensures
        parse_document(render_document(d)) == d,
{
    reveal_strlit("__version__");
    let text = render_document(d);
    let header = version_line(d.version);
    lemma_decimal(d.version as nat);
    assert forall|j: int| 0 <= j < header.len() implies header[j] != '\n' by {
        if j < 12 {
            assert(header[j] == (version_key() + seq!['='])[j]);
        } else {
            assert(header[j] == decimal(d.version as nat)[j - 12]);
        }
    }
    lemma_split_prepend(header, '\n', render_entries(d.entries));
    lemma_split_render_entries(d.entries);
    let bodies = d.entries.map_values(|p: Pair| p.0 + seq!['='] + p.1);
    let pieces = seq![header] + bodies.push(Seq::empty());
    assert(split_char(text, '\n') == pieces);
    let start = DocView { version: 1, entries: Seq::<Pair>::empty() };
    // The version line first.
    assert(pieces.take(1) =~= seq![header]);
    assert(seq![header].drop_last() =~= Seq::<Seq<char>>::empty());
    lemma_version_line_reads_back(start, d.version);
    let after_header = DocView { version: d.version, entries: Seq::<Pair>::empty() };
    assert(apply_lines(start, seq![header].drop_last()) == start);
    assert(seq![header].last() == header);
    assert(apply_lines(start, seq![header]) == apply_line(start, header));
    assert(apply_lines(start, seq![header]) == after_header);
    // Then the entry lines.
    assert(Seq::<Pair>::empty() + d.entries =~= d.entries);
    lemma_read_entry_lines(after_header, d.entries);
    lemma_apply_lines_append(start, seq![header], bodies);
    assert(seq![header] + bodies + seq![Seq::<char>::empty()] =~= pieces);
    // Then the empty text after the last newline.
    assert(pieces.drop_last() =~= seq![header] + bodies);
    assert(trim_chars(Seq::<char>::empty()) =~= Seq::<char>::empty());
    assert(d.entries + Seq::<Pair>::empty() =~= d.entries);
}

/// Reading `a + b` reads `a`, then `b`.
pub proof fn lemma_apply_lines_append(d: DocView, a: Seq<Seq<char>>, b: Seq<Seq<char>>)
    ensures
        apply_lines(d, a + b) == apply_lines(apply_lines(d, a), b),
    decreases b.len(),
{
    if b.len() == 0 {
        assert(a + b =~= a);
    } else {
        assert((a + b).drop_last() =~= a + b.drop_last());
        lemma_apply_lines_append(d, a, b.drop_last());
    }
}

/// The text of a configuration file for `doc`: `__version__=N`, then one
/// `key=value` line per entry in key order, each line ending in a newline.
pub fn render(doc: &RawDocument) -> (r: String)
    ensures
        r@ == render_document(doc@),
{
    let mut out = String::from_str("__version__=");
    let digits = crate::text::decimal_string(doc.version as u64);
    out.append(digits.as_str());
    out.append("\n");
    proof {
        reveal_strlit("__version__=");
        reveal_strlit("__version__");
        reveal_strlit("\n");
        assert(out@ =~= version_line(doc.version) + seq!['\n']);
    }
    let pairs = doc.entries.pairs();
    let ghost ps = doc@.entries;
    let ghost head = out@;
    let mut i: usize = 0;
    assert(render_entries(ps.take(0)) =~= Seq::<char>::empty());
    assert(out@ =~= head + render_entries(ps.take(0)));
    while i < pairs.len()
        invariant
            crate::config::entries::pairs_view(pairs@) == ps,
            i <= pairs@.len(),
            out@ == head + render_entries(ps.take(i as int)),
        decreases pairs.len() - i,
    {
        let ghost before = out@;
        out.append(pairs[i].0.as_str());
        out.append("=");
        out.append(pairs[i].1.as_str());
        out.append("\n");
        proof {
            reveal_strlit("=");
            reveal_strlit("\n");
            let p = ps[i as int];
            assert(p == (pairs@[i as int].0@, pairs@[i as int].1@));
            assert(out@ =~= before + entry_line(p));
            assert(ps.take(i + 1) =~= ps.take(i as int).push(p));
            lemma_render_entries_push(ps.take(i as int), p);
        }
        i += 1;
    }
    assert(ps.take(pairs@.len() as int) =~= ps);
    out
}

} // verus!
