//! Reader for the plain-text `key=value` format used by both the user and
//! system settings stores. Deliberately agnostic about what a value means:
//! values are kept as the text after the first `=`.

use vstd::prelude::*;
use crate::config::entries::{insert_sorted, lookup, Entries, Pair};
use crate::text::{parse_bounded, split_char, split_once, trim_chars};

verus! {

/// Bump this whenever the on-disk key layout changes, and add a step to
/// `config::migration` to carry old files forward.
pub const CURRENT_VERSION: u32 = 2;

/// A configuration document: its format version and its entries.
#[derive(Debug)]
pub struct RawDocument {
    pub version: u32,
    pub entries: Entries,
}

/// A document as a mathematical object; the entries in key order.
pub struct DocView {
    pub version: u32,
    pub entries: Seq<Pair>,
}

impl View for RawDocument {
    type V = DocView;

    open spec fn view(&self) -> DocView {
        DocView { version: self.version, entries: self.entries@ }
    }
}

impl Clone for RawDocument {
    fn clone(&self) -> (r: RawDocument)
        ensures
            r@ == self@,
    {
        RawDocument { version: self.version, entries: self.entries.clone() }
    }
}

impl Default for RawDocument {
    /// Version 0, no entries.
    fn default() -> (r: RawDocument)
        ensures
            r@.version == 0,
            r@.entries == Seq::<Pair>::empty(),
    {
        RawDocument { version: 0, entries: Entries::new() }
    }
}

/// The version line's key.
pub open spec fn version_key() -> Seq<char> {
    "__version__"@
}

/// The version a `__version__` value sets: the number it denotes, or 1 when
/// it does not denote a `u32`.
pub open spec fn version_value(v: Seq<char>) -> u32 {
    match parse_bounded(trim_chars(v), u32::MAX as nat) {
        Some(n) => n as u32,
        None => 1,
    }
}

/// What one line does to the document read so far. The line is trimmed
/// first (so a `\r\n` ending reads like `\n`); a blank line, a `#` comment,
/// and a line without `=` change nothing; otherwise the trimmed text before
/// the first `=` is the key and everything after it the value, and the key
/// `__version__` sets the version instead of adding an entry.
pub open spec fn apply_line(d: DocView, line: Seq<char>) -> DocView {
    let t = trim_chars(line);
    if t.len() == 0 || t[0] == '#' {
        d
    } else {
        match split_once(t, '=') {
            None => d,
            Some((k, v)) => {
                let key = trim_chars(k);
                if key == version_key() {
                    DocView { version: version_value(v), ..d }
                } else {
                    DocView { entries: insert_sorted(d.entries, key, v), ..d }
                }
            },
        }
    }
}

/// The document after reading `ls` in order, starting from `d`.
pub open spec fn apply_lines(d: DocView, ls: Seq<Seq<char>>) -> DocView
    decreases ls.len(),
{
    if ls.len() == 0 {
        d
    } else {
        apply_line(apply_lines(d, ls.drop_last()), ls.last())
    }
}

/// The document that `contents` holds: version 1 until a `__version__` line
/// says otherwise, then each line in turn; a later line for the same key
/// replaces an earlier one.
pub open spec fn parse_document(contents: Seq<char>) -> DocView {
    apply_lines(DocView { version: 1, entries: Seq::empty() }, split_char(contents, '\n'))
}

/// Reads one line into `doc`.
fn read_line(doc: &mut RawDocument, line: &str)
    ensures
        final(doc)@ == apply_line(old(doc)@, line@),
{
    let t = crate::text::trim(line);
    if t.unicode_len() == 0 || crate::text::starts_with_char(t, '#') {
        return;
    }
    match crate::text::split_once_char(t, '=') {
        None => {},
        Some((k, v)) => {
            let key = crate::text::trim(k);
            if crate::text::str_eq(key, "__version__") {
                doc.version = match crate::text::parse_unsigned_up_to(crate::text::trim(v), u32::MAX as u64) {
                    Some(n) => n as u32,
                    None => 1,
                };
            } else {
                doc.entries.insert(String::from_str(key), String::from_str(v));
            }
        },
    }
}

/// Parses the contents of a configuration file.
pub fn parse(contents: &str) -> (r: RawDocument)
    ensures
        r@ == parse_document(contents@),
{
    let lines = crate::text::split_on(contents, '\n');
    let ghost ls = lines@.map_values(|p: &str| p@);
    let mut doc = RawDocument { version: 1, entries: Entries::new() };
    let ghost start = doc@;
    assert(start == DocView { version: 1, entries: Seq::<Pair>::empty() });
    let mut i: usize = 0;
    while i < lines.len()
        invariant
            ls == lines@.map_values(|p: &str| p@),
            ls == split_char(contents@, '\n'),
            i <= lines@.len(),
            doc@ == apply_lines(start, ls.take(i as int)),
        decreases lines.len() - i,
    {
        read_line(&mut doc, lines[i]);
        proof {
            assert(ls.take(i + 1).drop_last() =~= ls.take(i as int));
            assert(ls.take(i + 1).last() == lines@[i as int]@);
        }
        i += 1;
    }
    assert(ls.take(lines@.len() as int) =~= ls);
    doc
}

/// The document a missing file stands for: nothing customized yet, at the
/// current version.
pub fn missing_file_document() -> (r: RawDocument)
    ensures
        r@.version == CURRENT_VERSION,
        r@.entries == Seq::<Pair>::empty(),
{
    RawDocument { version: CURRENT_VERSION, entries: Entries::new() }
}

/// Reading a single line.
proof fn lemma_apply_single(d: DocView, x: Seq<char>)
    ensures
        apply_lines(d, seq![x]) == apply_line(d, x),
{
    assert(seq![x].drop_last() =~= Seq::<Seq<char>>::empty());
    assert(seq![x].last() == x);
    assert(apply_lines(d, Seq::<Seq<char>>::empty()) == d);
}

/// Every line counts, the last one too: a file reads the same whether or
/// not its last line ends in a newline.
pub proof fn lemma_final_newline_irrelevant(contents: Seq<char>)
    ensures
        parse_document(contents + seq!['\n']) == parse_document(contents),
{
    let d0 = DocView { version: 1, entries: Seq::<Pair>::empty() };
    crate::text::lemma_split_concat(contents, '\n', Seq::empty());
    assert(contents + seq!['\n'] + Seq::<char>::empty() =~= contents + seq!['\n']);
    crate::text::lemma_split_none(Seq::<char>::empty(), '\n');
    let ls = split_char(contents, '\n');
    crate::config::writer::lemma_apply_lines_append(d0, ls, seq![Seq::<char>::empty()]);
    lemma_apply_single(apply_lines(d0, ls), Seq::<char>::empty());
    assert(split_char(contents + seq!['\n'], '\n') == ls + seq![Seq::<char>::empty()]);
    assert(trim_chars(Seq::<char>::empty()).len() == 0);
}

/// A `key=value` line is read as that entry wherever it stands last: after
/// any text and a newline, or as the whole file, and whether or not a
/// newline ends it.
pub proof fn lemma_last_line_is_read(text: Seq<char>, p: Pair)
    requires
        crate::config::writer::entry_round_trips(p),
    ensures
        lookup(parse_document(text + seq!['\n'] + p.0 + seq!['='] + p.1).entries, p.0) == Some(p.1),
        lookup(parse_document(p.0 + seq!['='] + p.1).entries, p.0) == Some(p.1),
        lookup(parse_document(p.0 + seq!['='] + p.1 + seq!['\n']).entries, p.0) == Some(p.1),
{
    let d0 = DocView { version: 1, entries: Seq::<Pair>::empty() };
    let line = p.0 + seq!['='] + p.1;
    assert forall|j: int| 0 <= j < line.len() implies line[j] != '\n' by {
        if j < p.0.len() {
            assert(line[j] == p.0[j]);
        } else if j > p.0.len() {
            assert(line[j] == p.1[j - p.0.len() - 1]);
        }
    }
    crate::text::lemma_split_none(line, '\n');
    crate::text::lemma_split_concat(text, '\n', line);
    assert(text + seq!['\n'] + p.0 + seq!['='] + p.1 =~= text + seq!['\n'] + line);
    let ls = split_char(text, '\n');
    crate::config::writer::lemma_apply_lines_append(d0, ls, seq![line]);
    let mid = apply_lines(d0, ls);
    lemma_apply_single(mid, line);
    assert(split_char(text + seq!['\n'] + line, '\n') == ls + seq![line]);
    crate::config::writer::lemma_entry_line_reads_back(mid, p);
    crate::config::entries::lemma_lookup_after_insert(mid.entries, p.0, p.1);
    lemma_apply_single(d0, line);
    crate::config::writer::lemma_entry_line_reads_back(d0, p);
    crate::config::entries::lemma_lookup_after_insert(d0.entries, p.0, p.1);
    lemma_final_newline_irrelevant(line);
}

/// Blank lines and `#` comments change nothing, wherever they stand.
pub proof fn lemma_comments_and_blank_lines_ignored(text: Seq<char>, c: Seq<char>)
    requires
        forall|j: int| 0 <= j < c.len() ==> c[j] != '\n',
        trim_chars(c).len() == 0 || trim_chars(c)[0] == '#',
    ensures
        parse_document(text + seq!['\n'] + c) == parse_document(text),
        parse_document(text + seq!['\n'] + c).entries == parse_document(text).entries,
{
    let d0 = DocView { version: 1, entries: Seq::<Pair>::empty() };
    crate::text::lemma_split_none(c, '\n');
    crate::text::lemma_split_concat(text, '\n', c);
    let ls = split_char(text, '\n');
    crate::config::writer::lemma_apply_lines_append(d0, ls, seq![c]);
    lemma_apply_single(apply_lines(d0, ls), c);
    assert(split_char(text + seq!['\n'] + c, '\n') == ls + seq![c]);
}

/// A `__version__=N` line sets the version to N and leaves the entries as
/// they were, wherever it stands.
pub proof fn lemma_version_line_sets_version(text: Seq<char>, version: u32)
    ensures
        parse_document(text + seq!['\n'] + crate::config::writer::version_line(version)).version == version,
        parse_document(text + seq!['\n'] + crate::config::writer::version_line(version)).entries == parse_document(
            text,
        ).entries,
{
    reveal_strlit("__version__");
    let d0 = DocView { version: 1, entries: Seq::<Pair>::empty() };
    let line = crate::config::writer::version_line(version);
    let digits = crate::text::decimal(version as nat);
    crate::text::lemma_decimal(version as nat);
    assert forall|j: int| 0 <= j < line.len() implies line[j] != '\n' by {
        if j > 11 {
            assert(line[j] == digits[j - 12]);
            assert(crate::text::is_digit(digits[j - 12]));
        }
    }
    crate::text::lemma_split_none(line, '\n');
    crate::text::lemma_split_concat(text, '\n', line);
    let ls = split_char(text, '\n');
    crate::config::writer::lemma_apply_lines_append(d0, ls, seq![line]);
    lemma_apply_single(apply_lines(d0, ls), line);
    assert(split_char(text + seq!['\n'] + line, '\n') == ls + seq![line]);
    crate::config::writer::lemma_version_line_reads_back(apply_lines(d0, ls), version);
}

} // verus!
