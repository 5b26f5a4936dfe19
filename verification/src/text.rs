//! Character-level helpers the parsers and renderers of this crate share,
//! each specified over the string's characters.

use vstd::prelude::*;

verus! {

// ---------------------------------------------------------------------------
// Specifications
// ---------------------------------------------------------------------------

/// Rust's `char::is_whitespace`: the characters with the Unicode
/// `White_Space` property.
pub open spec fn is_ws(c: char) -> bool {
    c == ' ' || ('\u{9}' <= c && c <= '\u{d}') || c == '\u{85}' || c == '\u{a0}' || c == '\u{1680}'
        || ('\u{2000}' <= c && c <= '\u{200a}') || c == '\u{2028}' || c == '\u{2029}'
        || c == '\u{202f}' || c == '\u{205f}' || c == '\u{3000}'
}

/// How many whitespace characters `s` starts with.
pub open spec fn leading_ws(s: Seq<char>) -> nat
    decreases s.len(),
{
    if s.len() > 0 && is_ws(s[0]) {
        1 + leading_ws(s.drop_first())
    } else {
        0
    }
}

/// How many whitespace characters `s` ends with.
pub open spec fn trailing_ws(s: Seq<char>) -> nat
    decreases s.len(),
{
    if s.len() > 0 && is_ws(s.last()) {
        1 + trailing_ws(s.drop_last())
    } else {
        0
    }
}

/// `s` without trailing whitespace (`str::trim_end`).
pub open spec fn trim_end(s: Seq<char>) -> Seq<char> {
    s.take(s.len() - trailing_ws(s))
}

/// `s` without leading or trailing whitespace (`str::trim`).
pub open spec fn trim_chars(s: Seq<char>) -> Seq<char> {
    trim_end(s.skip(leading_ws(s) as int))
}

/// Index of the first `c` in `s`, or `s.len()` when there is none.
pub open spec fn find_first(s: Seq<char>, c: char) -> nat
    decreases s.len(),
{
    if s.len() == 0 {
        0
    } else if s[0] == c {
        0
    } else {
        1 + find_first(s.drop_first(), c)
    }
}

/// The pieces of `s` between occurrences of `sep` (`str::split` on a
/// character): one more piece than there are separators.
pub open spec fn split_char(s: Seq<char>, sep: char) -> Seq<Seq<char>>
    decreases s.len(),
{
    let i = find_first(s, sep);
    if i >= s.len() {
        seq![s]
    } else {
        seq![s.take(i as int)] + split_char(s.skip(i as int + 1), sep)
    }
}

/// `str::split_once` on a character: the text before and after the first
/// `c`, if `s` holds one.
pub open spec fn split_once(s: Seq<char>, c: char) -> Option<(Seq<char>, Seq<char>)> {
    let i = find_first(s, c);
    if i < s.len() {
        Some((s.take(i as int), s.skip(i as int + 1)))
    } else {
        None
    }
}

/// `p` with one trailing carriage return removed, if it has one.
pub open spec fn strip_cr(p: Seq<char>) -> Seq<char> {
    if p.len() > 0 && p.last() == '\r' {
        p.drop_last()
    } else {
        p
    }
}

/// `str::lines`: the lines of `s`, each without its `\n` or `\r\n`
/// terminator; a final terminator adds no empty line.
pub open spec fn lines(s: Seq<char>) -> Seq<Seq<char>> {
    let pieces = split_char(s, '\n');
    if s.len() == 0 {
        Seq::empty()
    } else if s.last() == '\n' {
        pieces.drop_last().map_values(|p: Seq<char>| strip_cr(p))
    } else {
        pieces.drop_last().map_values(|p: Seq<char>| strip_cr(p)).push(pieces.last())
    }
}

/// Whether `s` begins with `p`.
pub open spec fn starts_with(s: Seq<char>, p: Seq<char>) -> bool {
    p.len() <= s.len() && s.take(p.len() as int) == p
}

/// An ASCII decimal digit.
pub open spec fn is_digit(c: char) -> bool {
    '0' <= c && c <= '9'
}

/// The value of a decimal digit.
pub open spec fn digit_value(c: char) -> nat {
    (c as nat - '0' as nat) as nat
}

/// The number a string of decimal digits denotes.
pub open spec fn digits_value(s: Seq<char>) -> nat
    decreases s.len(),
{
    if s.len() == 0 {
        0
    } else {
        digits_value(s.drop_last()) * 10 + digit_value(s.last())
    }
}

/// The unsigned integer `s` denotes under Rust's `from_str` for unsigned
/// types: an optional `+`, then one or more ASCII digits.
pub open spec fn parse_unsigned(s: Seq<char>) -> Option<nat> {
    let body = unsigned_body(s);
    if body.len() > 0 && all_digits(body) {
        Some(digits_value(body))
    } else {
        None
    }
}

/// `s` without one leading `+`.
pub open spec fn unsigned_body(s: Seq<char>) -> Seq<char> {
    if s.len() > 0 && s[0] == '+' {
        s.drop_first()
    } else {
        s
    }
}

/// Every character of `s` is an ASCII digit.
pub open spec fn all_digits(s: Seq<char>) -> bool {
    forall|i: int| 0 <= i < s.len() ==> is_digit(#[trigger] s[i])
}

/// `parse_unsigned` for a type whose largest value is `max`: values above
/// it do not parse.
pub open spec fn parse_bounded(s: Seq<char>, max: nat) -> Option<nat> {
    match parse_unsigned(s) {
        Some(n) => if n <= max { Some(n) } else { None },
        None => None,
    }
}

/// The decimal digit character for `d < 10`.
pub open spec fn digit_char(d: nat) -> char {
    if d == 0 {
        '0'
    } else if d == 1 {
        '1'
    } else if d == 2 {
        '2'
    } else if d == 3 {
        '3'
    } else if d == 4 {
        '4'
    } else if d == 5 {
        '5'
    } else if d == 6 {
        '6'
    } else if d == 7 {
        '7'
    } else if d == 8 {
        '8'
    } else {
        '9'
    }
}

/// The decimal representation of `n`, without leading zeros.
pub open spec fn decimal(n: nat) -> Seq<char>
    decreases n,
{
    if n < 10 {
        seq![digit_char(n)]
    } else {
        decimal(n / 10).push(digit_char(n % 10))
    }
}

/// `n` spaces.
pub open spec fn spaces(n: nat) -> Seq<char> {
    Seq::new(n, |i: int| ' ')
}

/// `format!("{:<width$}", s)`: `s` padded with spaces to at least `width`
/// characters.
pub open spec fn padded(s: Seq<char>, width: nat) -> Seq<char> {
    if s.len() >= width {
        s
    } else {
        s + spaces((width - s.len()) as nat)
    }
}

/// The code point of a character after ASCII lowercasing; every other
/// character keeps its code point.
pub open spec fn ascii_lower(c: char) -> int {
    if 'A' <= c && c <= 'Z' {
        c as int + 32
    } else {
        c as int
    }
}

/// `str::eq_ignore_ascii_case`.
pub open spec fn eq_ignore_ascii_case(a: Seq<char>, b: Seq<char>) -> bool {
    a.len() == b.len() && forall|i: int| 0 <= i < a.len() ==> ascii_lower(#[trigger] a[i]) == ascii_lower(b[i])
}

// ---------------------------------------------------------------------------
// Lemmas
// ---------------------------------------------------------------------------

/// `leading_ws` counts exactly the whitespace run at the front.
pub proof fn lemma_leading_ws(s: Seq<char>, k: int)
    requires
        0 <= k <= s.len(),
        forall|j: int| 0 <= j < k ==> is_ws(#[trigger] s[j]),
        k == s.len() || !is_ws(s[k]),
    ensures
        leading_ws(s) == k,
    decreases k,
{
    if k > 0 {
        lemma_leading_ws(s.drop_first(), k - 1);
    }
}

/// `trailing_ws` counts exactly the whitespace run at the back.
pub proof fn lemma_trailing_ws(s: Seq<char>, k: int)
    requires
        0 <= k <= s.len(),
        forall|j: int| s.len() - k <= j < s.len() ==> is_ws(#[trigger] s[j]),
        k == s.len() || !is_ws(s[s.len() - k - 1]),
    ensures
        trailing_ws(s) == k,
    decreases k,
{
    if k > 0 {
        assert forall|j: int| s.drop_last().len() - (k - 1) <= j < s.drop_last().len() implies is_ws(#[trigger] s.drop_last()[j]) by {
            assert(s.drop_last()[j] == s[j]);
        }
        if k - 1 < s.drop_last().len() {
            assert(s.drop_last()[s.drop_last().len() - (k - 1) - 1] == s[s.len() - k - 1]);
        }
        lemma_trailing_ws(s.drop_last(), k - 1);
    }
}

/// Text that neither starts nor ends with whitespace is its own trim.
pub proof fn lemma_trim_identity(s: Seq<char>)
    requires
        s.len() == 0 || (!is_ws(s[0]) && !is_ws(s.last())),
    ensures
        trim_chars(s) == s,
{
    lemma_leading_ws(s, 0);
    assert(s.skip(0) =~= s);
    lemma_trailing_ws(s, 0);
    assert(s.take(s.len() as int) =~= s);
}

/// The whitespace runs are no longer than the text.
pub proof fn lemma_ws_bounds(s: Seq<char>)
    ensures
        leading_ws(s) <= s.len(),
        trailing_ws(s) <= s.len(),
    decreases s.len(),
{
    if s.len() > 0 {
        lemma_ws_bounds(s.drop_first());
        lemma_ws_bounds(s.drop_last());
    }
}

/// A trimmed, non-empty text neither starts nor ends with whitespace.
pub proof fn lemma_trimmed_ends(s: Seq<char>)
    requires
        trim_chars(s) == s,
        s.len() > 0,
    ensures
        !is_ws(s[0]),
        !is_ws(s.last()),
{
    lemma_ws_bounds(s);
    lemma_ws_bounds(s.skip(leading_ws(s) as int));
    if is_ws(s[0]) {
        assert(leading_ws(s) >= 1);
        assert(trim_chars(s).len() <= s.len() - 1);
    } else {
        lemma_leading_ws(s, 0);
        assert(s.skip(0) =~= s);
        lemma_trim_end_last(s);
    }
}

/// A non-empty text without trailing whitespace does not end with
/// whitespace.
pub proof fn lemma_trim_end_last(s: Seq<char>)
    requires
        trim_end(s) == s,
        s.len() > 0,
    ensures
        !is_ws(s.last()),
{
    lemma_ws_bounds(s);
    if is_ws(s.last()) {
        assert(trailing_ws(s) >= 1);
        assert(trim_end(s).len() == s.len() - trailing_ws(s));
    }
}

/// `find_first` is the first occurrence, or the length when there is none.
pub proof fn lemma_find_first(s: Seq<char>, c: char)
    ensures
        find_first(s, c) <= s.len(),
        forall|j: int| 0 <= j < find_first(s, c) ==> s[j] != c,
        find_first(s, c) < s.len() ==> s[find_first(s, c) as int] == c,
    decreases s.len(),
{
    if s.len() > 0 && s[0] != c {
        lemma_find_first(s.drop_first(), c);
        assert forall|j: int| 0 <= j < find_first(s, c) implies s[j] != c by {
            if j > 0 {
                assert(s[j] == s.drop_first()[j - 1]);
            }
        }
    }
}

/// Any index before which `c` does not occur, and at which it does (or
/// which is the length), is `find_first`.
pub proof fn lemma_find_first_is(s: Seq<char>, c: char, k: int)
    requires
        0 <= k <= s.len(),
        forall|j: int| 0 <= j < k ==> s[j] != c,
        k == s.len() || s[k] == c,
    ensures
        find_first(s, c) == k,
    decreases k,
{
    if k > 0 {
        assert forall|j: int| 0 <= j < k - 1 implies s.drop_first()[j] != c by {
            assert(s.drop_first()[j] == s[j + 1]);
        }
        lemma_find_first_is(s.drop_first(), c, k - 1);
    }
}

/// Splitting a piece without separators, a separator, and more text.
pub proof fn lemma_split_prepend(a: Seq<char>, sep: char, b: Seq<char>)
    requires
        forall|j: int| 0 <= j < a.len() ==> a[j] != sep,
    ensures
        split_char(a + seq![sep] + b, sep) == seq![a] + split_char(b, sep),
{
    let s = a + seq![sep] + b;
    assert forall|j: int| 0 <= j < a.len() implies s[j] != sep by {
        assert(s[j] == a[j]);
    }
    assert(s[a.len() as int] == sep);
    lemma_find_first_is(s, sep, a.len() as int);
    assert(s.take(a.len() as int) =~= a);
    assert(s.skip(a.len() as int + 1) =~= b);
}

/// Splitting text without separators gives it back whole.
pub proof fn lemma_split_none(a: Seq<char>, sep: char)
    requires
        forall|j: int| 0 <= j < a.len() ==> a[j] != sep,
    ensures
        split_char(a, sep) == seq![a],
{
    lemma_find_first_is(a, sep, a.len() as int);
}

/// `digit_char` gives a digit of the right value.
pub proof fn lemma_digit_char(d: nat)
    requires
        d < 10,
    ensures
        is_digit(digit_char(d)),
        digit_value(digit_char(d)) == d,
{
}

/// The digits of `decimal(n)` are digits, and they denote `n`.
pub proof fn lemma_decimal(n: nat)
    ensures
        decimal(n).len() > 0,
        forall|i: int| 0 <= i < decimal(n).len() ==> is_digit(#[trigger] decimal(n)[i]),
        digits_value(decimal(n)) == n,
        decimal(n)[0] != '+',
    decreases n,
{
    lemma_digit_char(n % 10);
    if n >= 10 {
        lemma_decimal(n / 10);
        let d = decimal(n);
        assert(d.drop_last() =~= decimal(n / 10));
        assert(digits_value(d) == digits_value(decimal(n / 10)) * 10 + digit_value(d.last()));
        assert((n / 10) * 10 + n % 10 == n);
    } else {
        let d = decimal(n);
        assert(d.drop_last() =~= Seq::<char>::empty());
        assert(digits_value(d) == digits_value(d.drop_last()) * 10 + digit_value(d.last()));
        assert forall|i: int| 0 <= i < d.len() implies is_digit(#[trigger] d[i]) by {
            if i < d.len() - 1 {
                assert(d[i] == decimal(n / 10)[i]);
            }
        }
    }
}

/// A number's decimal form parses back to that number.
pub proof fn lemma_parse_decimal(n: nat)
    ensures
        parse_unsigned(decimal(n)) == Some(n),
{
    lemma_decimal(n);
}

/// Digit strings denote at least what any of their prefixes denotes.
pub proof fn lemma_digits_value_prefix(s: Seq<char>, k: int)
    requires
        0 <= k <= s.len(),
    ensures
        digits_value(s.take(k)) <= digits_value(s),
    decreases s.len() - k,
{
    if k < s.len() {
        lemma_digits_value_prefix(s, k + 1);
        assert(s.take(k + 1).drop_last() =~= s.take(k));
        assert(digits_value(s.take(k + 1)) == digits_value(s.take(k)) * 10 + digit_value(s[k]));
    } else {
        assert(s.take(k) =~= s);
    }
}

// ---------------------------------------------------------------------------
// Executable helpers
// ---------------------------------------------------------------------------

/// Whether two strings hold the same characters.
pub fn str_eq(a: &str, b: &str) -> (r: bool)
    ensures
        r == (a@ == b@),
{
    let n = a.unicode_len();
    let m = b.unicode_len();
    if n != m {
        return false;
    }
    let mut i: usize = 0;
    while i < n
        invariant
            n == a@.len(),
            m == b@.len(),
            n == m,
            i <= n,
            forall|j: int| 0 <= j < i ==> a@[j] == b@[j],
        decreases n - i,
    {
        if a.get_char(i) != b.get_char(i) {
            return false;
        }
        i += 1;
    }
    assert(a@ =~= b@);
    true
}

/// Rust's `char::is_whitespace`.
pub fn is_whitespace(c: char) -> (r: bool)
    ensures
        r == is_ws(c),
{
    c == ' ' || ('\u{9}' <= c && c <= '\u{d}') || c == '\u{85}' || c == '\u{a0}' || c == '\u{1680}'
        || ('\u{2000}' <= c && c <= '\u{200a}') || c == '\u{2028}' || c == '\u{2029}'
        || c == '\u{202f}' || c == '\u{205f}' || c == '\u{3000}'
}

/// `str::trim`.
pub fn trim(s: &str) -> (r: &str)
    ensures
        r@ == trim_chars(s@),
{
    let n = s.unicode_len();
    let mut start: usize = 0;
    while start < n && is_whitespace(s.get_char(start))
        invariant
            n == s@.len(),
            start <= n,
            forall|j: int| 0 <= j < start ==> is_ws(#[trigger] s@[j]),
        decreases n - start,
    {
        start += 1;
    }
    proof {
        lemma_leading_ws(s@, start as int);
    }
    let mut end: usize = n;
    while end > start && is_whitespace(s.get_char(end - 1))
        invariant
            n == s@.len(),
            start <= end <= n,
            forall|j: int| end <= j < n ==> is_ws(#[trigger] s@[j]),
        decreases end - start,
    {
        end -= 1;
    }
    proof {
        let a = s@.skip(start as int);
        assert forall|j: int| a.len() - (n - end) <= j < a.len() implies is_ws(#[trigger] a[j]) by {
            assert(a[j] == s@[start + j]);
        }
        if end > start {
            assert(a[a.len() - (n - end) - 1] == s@[end - 1]);
        }
        lemma_trailing_ws(a, (n - end) as int);
        assert(trim_chars(s@) =~= s@.subrange(start as int, end as int));
    }
    s.substring_char(start, end)
}

/// Index of the first `c` in `s`, or its length when there is none.
pub fn find_char(s: &str, c: char) -> (r: usize)
    ensures
        r == find_first(s@, c),
{
    let n = s.unicode_len();
    let mut i: usize = 0;
    while i < n && s.get_char(i) != c
        invariant
            n == s@.len(),
            i <= n,
            forall|j: int| 0 <= j < i ==> s@[j] != c,
        decreases n - i,
    {
        i += 1;
    }
    proof {
        lemma_find_first_is(s@, c, i as int);
    }
    i
}

/// `str::split_once` on a character.
pub fn split_once_char(s: &str, c: char) -> (r: Option<(&str, &str)>)
    ensures
        match r {
            Some((a, b)) => split_once(s@, c) == Some((a@, b@)),
            None => split_once(s@, c) is None,
        },
{
    let i = find_char(s, c);
    let n = s.unicode_len();
    if i < n {
        Some((s.substring_char(0, i), s.substring_char(i + 1, n)))
    } else {
        None
    }
}

/// `str::split` on a character.
pub fn split_on(s: &str, sep: char) -> (r: Vec<&str>)
    ensures
        r@.map_values(|p: &str| p@) == split_char(s@, sep),
{
    let n = s.unicode_len();
    let mut pieces: Vec<&str> = Vec::new();
    let mut start: usize = 0;
    let mut i: usize = 0;
    assert(s@.skip(0) =~= s@);
    assert(pieces@.map_values(|p: &str| p@) =~= Seq::<Seq<char>>::empty());
    while i < n
        invariant
            n == s@.len(),
            start <= i <= n,
            forall|j: int| start <= j < i ==> s@[j] != sep,
            split_char(s@, sep) == pieces@.map_values(|p: &str| p@) + split_char(s@.skip(start as int), sep),
        decreases n - i,
    {
        if s.get_char(i) == sep {
            let piece = s.substring_char(start, i);
            proof {
                let rest = s@.skip(start as int);
                assert(rest =~= piece@ + seq![sep] + s@.skip(i + 1));
                lemma_split_prepend(piece@, sep, s@.skip(i + 1));
            }
            let ghost before = pieces@;
            pieces.push(piece);
            proof {
                assert(pieces@.map_values(|p: &str| p@) =~= before.map_values(|p: &str| p@).push(piece@));
                assert(pieces@.map_values(|p: &str| p@) + split_char(s@.skip(i + 1), sep)
                    =~= before.map_values(|p: &str| p@) + (seq![piece@] + split_char(s@.skip(i + 1), sep)));
            }
            start = i + 1;
        }
        i += 1;
    }
    let last = s.substring_char(start, n);
    proof {
        assert(last@ =~= s@.skip(start as int));
        lemma_split_none(last@, sep);
    }
    let ghost before = pieces@;
    pieces.push(last);
    proof {
        assert(pieces@.map_values(|p: &str| p@) =~= before.map_values(|p: &str| p@).push(last@));
        assert(pieces@.map_values(|p: &str| p@) =~= before.map_values(|p: &str| p@) + seq![last@]);
    }
    pieces
}

/// The lines of `s`, as `str::lines` yields them.
pub fn lines_of(s: &str) -> (r: Vec<&str>)
    ensures
        r@.map_values(|p: &str| p@) == lines(s@),
{
    let pieces = split_on(s, '\n');
    let n = s.unicode_len();
    let mut out: Vec<&str> = Vec::new();
    if n == 0 {
        assert(out@.map_values(|p: &str| p@) =~= lines(s@));
        return out;
    }
    let ghost pv = pieces@.map_values(|p: &str| p@);
    assert(pv.len() >= 1);
    let k = pieces.len() - 1;
    let mut i: usize = 0;
    while i < k
        invariant
            pv == pieces@.map_values(|p: &str| p@),
            pv == split_char(s@, '\n'),
            k == pieces@.len() - 1,
            i <= k,
            out@.map_values(|p: &str| p@) == pv.take(i as int).map_values(|p: Seq<char>| strip_cr(p)),
        decreases k - i,
    {
        let piece = strip_cr_str(pieces[i]);
        let ghost before = out@;
        out.push(piece);
        proof {
            assert(pv.take(i + 1) =~= pv.take(i as int).push(pv[i as int]));
            assert(out@.map_values(|p: &str| p@) =~= before.map_values(|p: &str| p@).push(piece@));
            assert(out@.map_values(|p: &str| p@) =~= pv.take(i + 1).map_values(|p: Seq<char>| strip_cr(p)));
        }
        i += 1;
    }
    assert(pv.take(k as int) =~= pv.drop_last());
    if s.get_char(n - 1) == '\n' {
        out
    } else {
        let ghost before = out@;
        out.push(pieces[k]);
        assert(out@.map_values(|p: &str| p@) =~= before.map_values(|p: &str| p@).push(pv.last()));
        out
    }
}

/// `p` without one trailing carriage return.
fn strip_cr_str(p: &str) -> (r: &str)
    ensures
        r@ == strip_cr(p@),
{
    let n = p.unicode_len();
    if n > 0 && p.get_char(n - 1) == '\r' {
        p.substring_char(0, n - 1)
    } else {
        p
    }
}

/// `s` without the prefix `p`, if it starts with it.
pub fn strip_prefix<'a>(s: &'a str, p: &str) -> (r: Option<&'a str>)
    ensures
        match r {
            Some(rest) => starts_with(s@, p@) && rest@ == s@.skip(p@.len() as int),
            None => !starts_with(s@, p@),
        },
{
    let n = s.unicode_len();
    let m = p.unicode_len();
    if m > n {
        return None;
    }
    let mut i: usize = 0;
    while i < m
        invariant
            n == s@.len(),
            m == p@.len(),
            m <= n,
            i <= m,
            forall|j: int| 0 <= j < i ==> s@[j] == p@[j],
        decreases m - i,
    {
        if s.get_char(i) != p.get_char(i) {
            assert(s@.take(m as int)[i as int] != p@[i as int]);
            return None;
        }
        i += 1;
    }
    assert(s@.take(m as int) =~= p@);
    Some(s.substring_char(m, n))
}

/// Whether `s` starts with `c`.
pub fn starts_with_char(s: &str, c: char) -> (r: bool)
    ensures
        r == (s@.len() > 0 && s@[0] == c),
{
    s.unicode_len() > 0 && s.get_char(0) == c
}

/// `str::eq_ignore_ascii_case`.
pub fn eq_ignore_case(a: &str, b: &str) -> (r: bool)
    ensures
        r == eq_ignore_ascii_case(a@, b@),
{
    let n = a.unicode_len();
    if n != b.unicode_len() {
        return false;
    }
    let mut i: usize = 0;
    while i < n
        invariant
            n == a@.len(),
            n == b@.len(),
            i <= n,
            forall|j: int| 0 <= j < i ==> ascii_lower(#[trigger] a@[j]) == ascii_lower(b@[j]),
        decreases n - i,
    {
        let x = a.get_char(i);
        let y = b.get_char(i);
        let lx: u32 = if 'A' <= x && x <= 'Z' { x as u32 + 32 } else { x as u32 };
        let ly: u32 = if 'A' <= y && y <= 'Z' { y as u32 + 32 } else { y as u32 };
        if lx != ly {
            return false;
        }
        i += 1;
    }
    true
}

/// Parses `s` as Rust's `from_str` parses an unsigned type whose largest
/// value is `max`.
pub fn parse_unsigned_up_to(s: &str, max: u64) -> (r: Option<u64>)
    ensures
        match r {
            Some(v) => parse_bounded(s@, max as nat) == Some(v as nat),
            None => parse_bounded(s@, max as nat) is None,
        },
{
    let n = s.unicode_len();
    let start: usize = if n > 0 && s.get_char(0) == '+' { 1 } else { 0 };
    let ghost body = unsigned_body(s@);
    assert(body =~= s@.skip(start as int));
    if start >= n {
        return None;
    }
    let mut acc: u64 = 0;
    let mut i: usize = start;
    assert(body.take(0) =~= Seq::<char>::empty());
    while i < n
        invariant
            n == s@.len(),
            body == s@.skip(start as int),
            body == unsigned_body(s@),
            start <= i <= n,
            acc as nat == digits_value(body.take(i - start)),
            acc <= max,
            forall|j: int| 0 <= j < i - start ==> is_digit(#[trigger] body[j]),
        decreases n - i,
    {
        let c = s.get_char(i);
        assert(body[i - start] == c);
        if !('0' <= c && c <= '9') {
            assert(!is_digit(body[i - start]));
            assert(parse_unsigned(s@) is None);
            return None;
        }
        let d: u64 = (c as u32 - '0' as u32) as u64;
        assert(d == digit_value(c));
        proof {
            assert(body.take(i - start + 1).drop_last() =~= body.take(i - start));
            assert(digits_value(body.take(i - start + 1)) == digits_value(body.take(i - start)) * 10 + d);
        }
        if d > max || acc > (max - d) / 10 {
            proof {
                assert(digits_value(body.take(i - start + 1)) > max) by (nonlinear_arith)
                    requires
                        digits_value(body.take(i - start + 1)) == acc * 10 + d,
                        d > max || acc > (max - d) / 10,
                        acc >= 0,
                ;
                if all_digits(body) {
                    lemma_digits_value_prefix(body, i - start + 1);
                }
            }
            return None;
        }
        proof {
            assert(acc * 10 + d <= max) by (nonlinear_arith)
                requires
                    acc <= (max - d) / 10,
                    d <= max,
            ;
        }
        acc = acc * 10 + d;
        i += 1;
    }
    assert(body.take(n - start) =~= body);
    Some(acc)
}

/// The digit character for `d < 10`.
fn digit_str(d: u64) -> (r: &'static str)
    requires
        d < 10,
    ensures
        r@ == seq![digit_char(d as nat)],
{
    proof {
        reveal_strlit("0");
        reveal_strlit("1");
        reveal_strlit("2");
        reveal_strlit("3");
        reveal_strlit("4");
        reveal_strlit("5");
        reveal_strlit("6");
        reveal_strlit("7");
        reveal_strlit("8");
        reveal_strlit("9");
    }
    let r = match d {
        0 => "0",
        1 => "1",
        2 => "2",
        3 => "3",
        4 => "4",
        5 => "5",
        6 => "6",
        7 => "7",
        8 => "8",
        _ => "9",
    };
    assert(r@ =~= seq![digit_char(d as nat)]);
    r
}

/// The decimal representation of `n`.
pub fn decimal_string(n: u64) -> (r: String)
    ensures
        r@ == decimal(n as nat),
    decreases n,
{
    let mut r = if n < 10 { String::new() } else { decimal_string(n / 10) };
    r.append(digit_str(n % 10));
    if n < 10 {
        assert(r@ =~= decimal(n as nat));
    } else {
        assert(r@ =~= decimal(n as nat));
    }
    r
}

/// `s` padded with spaces to at least `width` characters.
pub fn pad_right(s: &str, width: usize) -> (r: String)
    ensures
        r@ == padded(s@, width as nat),
{
    let mut r = String::from_str(s);
    let mut count = s.unicode_len();
    proof {
        reveal_strlit(" ");
    }
    if count >= width {
        return r;
    }
    assert(r@ =~= s@ + spaces(0));
    while count < width
        invariant
            s@.len() <= count <= width,
            r@ == s@ + spaces((count - s@.len()) as nat),
        decreases width - count,
    {
        let ghost before = r@;
        r.append(" ");
        proof {
            reveal_strlit(" ");
        }
        assert(" "@ =~= seq![' ']);
        assert(spaces((count - s@.len()) as nat).push(' ') =~= spaces((count + 1 - s@.len()) as nat));
        assert(r@ =~= s@ + spaces((count + 1 - s@.len()) as nat));
        count += 1;
    }
    r
}

/// Whether `needle` occurs in `hay`.
pub open spec fn occurs_in(hay: Seq<char>, needle: Seq<char>) -> bool {
    exists|i: int| 0 <= i <= hay.len() - needle.len() && #[trigger] hay.subrange(i, i + needle.len()) == needle
}

/// Whether `needle` occurs in `hay`.
pub fn contains(hay: &str, needle: &str) -> (r: bool)
    ensures
        r == occurs_in(hay@, needle@),
{
    let n = hay.unicode_len();
    let m = needle.unicode_len();
    if m > n {
        return false;
    }
    let mut i: usize = 0;
    while i <= n - m
        invariant
            n == hay@.len(),
            m == needle@.len(),
            m <= n,
            i <= n - m + 1,
            forall|k: int| 0 <= k < i ==> #[trigger] hay@.subrange(k, k + m) != needle@,
        decreases n - m + 1 - i,
    {
        let mut j: usize = 0;
        let mut same = true;
        while j < m
            invariant
                n == hay@.len(),
                m == needle@.len(),
                i + m <= n,
                j <= m,
                same == forall|l: int| 0 <= l < j ==> hay@[i + l] == needle@[l],
            decreases m - j,
        {
            if hay.get_char(i + j) != needle.get_char(j) {
                same = false;
            }
            j += 1;
        }
        if same {
            assert(hay@.subrange(i as int, i + m) =~= needle@);
            return true;
        }
        assert(hay@.subrange(i as int, i + m) != needle@) by {
            let l = choose|l: int| 0 <= l < m && hay@[i + l] != needle@[l];
            assert(hay@.subrange(i as int, i + m)[l] != needle@[l]);
        }
        i += 1;
    }
    assert forall|k: int| 0 <= k <= n - m implies #[trigger] hay@.subrange(k, k + m) != needle@ by {}
    false
}

/// A string of `k` digits denotes less than `10^k`; for at most three
/// digits, at most 999 and at most the matching power of ten less one.
pub proof fn lemma_digits_bound(s: Seq<char>)
    requires
        s.len() <= 3,
        all_digits(s),
    ensures
        digits_value(s) <= 999,
        s.len() == 1 ==> digits_value(s) <= 9,
        s.len() == 2 ==> digits_value(s) <= 99,
        s.len() == 0 ==> digits_value(s) == 0,
    decreases s.len(),
{
    if s.len() > 0 {
        assert(all_digits(s.drop_last())) by {
            assert forall|i: int| 0 <= i < s.drop_last().len() implies is_digit(#[trigger] s.drop_last()[i]) by {
                assert(s.drop_last()[i] == s[i]);
            }
        }
        lemma_digits_bound(s.drop_last());
        assert(is_digit(s[s.len() - 1]));
    }
}

/// Splitting `a`, a separator and `b` gives the pieces of `a` followed by
/// the pieces of `b`.
pub proof fn lemma_split_concat(a: Seq<char>, sep: char, b: Seq<char>)
    ensures
        split_char(a + seq![sep] + b, sep) == split_char(a, sep) + split_char(b, sep),
    decreases a.len(),
{
    lemma_find_first(a, sep);
    let i = find_first(a, sep);
    if i < a.len() {
        let head = a.take(i as int);
        let tail = a.skip(i as int + 1);
        assert forall|j: int| 0 <= j < head.len() implies head[j] != sep by {}
        assert(a =~= head + seq![sep] + tail);
        lemma_split_prepend(head, sep, tail);
        assert(a + seq![sep] + b =~= head + seq![sep] + (tail + seq![sep] + b));
        lemma_split_prepend(head, sep, tail + seq![sep] + b);
        lemma_split_concat(tail, sep, b);
        assert(seq![head] + (split_char(tail, sep) + split_char(b, sep)) =~= (seq![head] + split_char(tail, sep))
            + split_char(b, sep));
    } else {
        lemma_split_none(a, sep);
        lemma_split_prepend(a, sep, b);
    }
}

/// Splitting always gives at least one piece.
pub proof fn lemma_split_nonempty(s: Seq<char>, sep: char)
    ensures
        split_char(s, sep).len() >= 1,
{
}

/// The lines of text that ends in a newline, followed by more text, are the
/// lines of the first followed by those of the second.
pub proof fn lemma_lines_concat(t: Seq<char>, u: Seq<char>)
    requires
        t.len() > 0,
        t.last() == '\n',
    ensures
        lines(t + u) == lines(t) + lines(u),
{
    let p = t.drop_last();
    assert(t =~= p + seq!['\n'] + Seq::<char>::empty());
    lemma_split_concat(p, '\n', Seq::empty());
    lemma_split_none(Seq::<char>::empty(), '\n');
    assert(split_char(t, '\n') == split_char(p, '\n') + seq![Seq::<char>::empty()]);
    assert((split_char(p, '\n') + seq![Seq::<char>::empty()]).drop_last() =~= split_char(p, '\n'));
    let f = |x: Seq<char>| strip_cr(x);
    if u.len() == 0 {
        assert(t + u =~= t);
        assert(lines(t) + lines(u) =~= lines(t));
    } else {
        assert(t + u =~= p + seq!['\n'] + u);
        lemma_split_concat(p, '\n', u);
        lemma_split_nonempty(u, '\n');
        let su = split_char(u, '\n');
        let sp = split_char(p, '\n');
        assert((sp + su).drop_last() =~= sp + su.drop_last());
        assert((sp + su).last() == su.last());
        assert((t + u).last() == u.last());
        assert((sp + su.drop_last()).map_values(f) =~= sp.map_values(f) + su.drop_last().map_values(f));
        if u.last() == '\n' {
            assert(lines(t + u) =~= lines(t) + lines(u));
        } else {
            assert(lines(t + u) =~= lines(t) + lines(u));
        }
    }
}

} // verus!
