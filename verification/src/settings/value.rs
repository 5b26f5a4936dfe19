//! What a setting holds.

use vstd::prelude::*;
use crate::text::{all_digits, digits_value, parse_bounded, split_char, split_once, trim_chars};

verus! {

/// The type of value a setting holds.
#[derive(Debug, Clone, Copy, PartialEq, Eq)]
pub enum ValueKind {
    Bool,
    Int,
    Float,
    Str,
    StrList,
}

/// A decimal number held exactly to three places, as a count of thousandths:
/// `Milli(720)` is 0.72 and `Milli(30_000)` is 30.
#[derive(Debug, Clone, Copy, PartialEq, Eq)]
pub struct Milli(pub i64);

/// A setting's value.
#[derive(Debug, PartialEq)]
pub enum Value {
    Bool(bool),
    Int(i64),
    Float(Milli),
    Str(String),
    StrList(Vec<String>),
}

/// A setting's value as a mathematical object: numbers as integers (a
/// `Float` in thousandths), text as sequences of characters.
pub enum ValueView {
    Bool(bool),
    Int(int),
    Float(int),
    Str(Seq<char>),
    StrList(Seq<Seq<char>>),
}

impl ValueView {
    /// The kind of value this is.
    pub open spec fn kind(self) -> ValueKind {
        match self {
            ValueView::Bool(_) => ValueKind::Bool,
            ValueView::Int(_) => ValueKind::Int,
            ValueView::Float(_) => ValueKind::Float,
            ValueView::Str(_) => ValueKind::Str,
            ValueView::StrList(_) => ValueKind::StrList,
        }
    }

    /// The value on the thousandths scale that ranges are written in, for
    /// numbers; `None` for anything else.
    pub open spec fn milli(self) -> Option<int> {
        match self {
            ValueView::Int(n) => Some(n * 1000),
            ValueView::Float(m) => Some(m),
            _ => None,
        }
    }
}

impl View for Value {
    type V = ValueView;

    open spec fn view(&self) -> ValueView {
        match self {
            Value::Bool(b) => ValueView::Bool(*b),
            Value::Int(n) => ValueView::Int(*n as int),
            Value::Float(m) => ValueView::Float(m.0 as int),
            Value::Str(s) => ValueView::Str(s@),
            Value::StrList(v) => ValueView::StrList(v@.map_values(|s: String| s@)),
        }
    }
}

impl Value {
    /// The kind of value this is.
    pub fn kind(&self) -> (k: ValueKind)
        ensures
            k == self@.kind(),
    {
        match self {
            Value::Bool(_) => ValueKind::Bool,
            Value::Int(_) => ValueKind::Int,
            Value::Float(_) => ValueKind::Float,
            Value::Str(_) => ValueKind::Str,
            Value::StrList(_) => ValueKind::StrList,
        }
    }
}

/// A whole number as Rust's `i64::from_str` reads it: an optional `+` or
/// `-`, then one or more ASCII digits; `None` for anything else. The range
/// of `i64` is not checked here.
pub open spec fn signed_number(s: Seq<char>) -> Option<int> {
    if s.len() > 0 && s[0] == '-' {
        let b = s.drop_first();
        if b.len() > 0 && all_digits(b) {
            Some(-(digits_value(b) as int))
        } else {
            None
        }
    } else if s.len() > 0 && s[0] == '+' {
        let b = s.drop_first();
        if b.len() > 0 && all_digits(b) {
            Some(digits_value(b) as int)
        } else {
            None
        }
    } else if s.len() > 0 && all_digits(s) {
        Some(digits_value(s) as int)
    } else {
        None
    }
}

/// The scale of a fraction of one, two or three digits in thousandths.
pub open spec fn fraction_scale(digits: nat) -> nat {
    if digits == 1 {
        100
    } else if digits == 2 {
        10
    } else {
        1
    }
}

/// The magnitude, in thousandths, of an unsigned decimal: one or more
/// digits, optionally followed by `.` and one to three digits.
pub open spec fn decimal_thousandths(s: Seq<char>) -> Option<nat> {
    match split_once(s, '.') {
        None => if s.len() > 0 && all_digits(s) {
            Some(digits_value(s) * 1000)
        } else {
            None
        },
        Some((a, b)) => if a.len() > 0 && all_digits(a) && 1 <= b.len() <= 3 && all_digits(b) {
            Some(digits_value(a) * 1000 + digits_value(b) * fraction_scale(b.len()))
        } else {
            None
        },
    }
}

/// A decimal with at most three places, in thousandths, with an optional
/// `+` or `-` in front; `None` for anything else. The range of `i64` is not
/// checked here.
pub open spec fn signed_thousandths(s: Seq<char>) -> Option<int> {
    if s.len() > 0 && s[0] == '-' {
        match decimal_thousandths(s.drop_first()) {
            Some(m) => Some(-(m as int)),
            None => None,
        }
    } else if s.len() > 0 && s[0] == '+' {
        match decimal_thousandths(s.drop_first()) {
            Some(m) => Some(m as int),
            None => None,
        }
    } else {
        match decimal_thousandths(s) {
            Some(m) => Some(m as int),
            None => None,
        }
    }
}

/// Whether `n` fits in an `i64`.
pub open spec fn fits_i64(n: int) -> bool {
    i64::MIN <= n <= i64::MAX
}

/// How a value typed on the command line is read for a setting of `kind`:
/// `true` or `false` for a boolean; a whole number in the range of `i64`;
/// a decimal with at most three places (in thousandths, in that range); any
/// text for a string; and for a list, comma-separated items, each trimmed,
/// with blank text standing for the empty list. Anything else is refused,
/// with the reason.
pub open spec fn parse_value(kind: ValueKind, raw: Seq<char>) -> Result<ValueView, Seq<char>> {
    match kind {
        ValueKind::Bool => if raw == "true"@ {
            Ok(ValueView::Bool(true))
        } else if raw == "false"@ {
            Ok(ValueView::Bool(false))
        } else {
            Err("expected true or false"@)
        },
        ValueKind::Int => match signed_number(raw) {
            Some(n) => if fits_i64(n) {
                Ok(ValueView::Int(n))
            } else {
                Err("expected a whole number"@)
            },
            None => Err("expected a whole number"@),
        },
        ValueKind::Float => match signed_thousandths(raw) {
            Some(m) => if fits_i64(m) {
                Ok(ValueView::Float(m))
            } else {
                Err("expected a number with at most three decimal places"@)
            },
            None => Err("expected a number with at most three decimal places"@),
        },
        ValueKind::Str => Ok(ValueView::Str(raw)),
        ValueKind::StrList => if trim_chars(raw).len() == 0 {
            Ok(ValueView::StrList(Seq::empty()))
        } else {
            Ok(ValueView::StrList(split_char(raw, ',').map_values(|p: Seq<char>| trim_chars(p))))
        },
    }
}

/// Reads one or more ASCII digits (no sign) as a number no larger than
/// `max`.
fn digits_up_to(s: &str, max: u64) -> (r: Option<u64>)
    ensures
        match r {
            Some(v) => s@.len() > 0 && all_digits(s@) && digits_value(s@) == v && v <= max,
            None => !(s@.len() > 0 && all_digits(s@) && digits_value(s@) <= max),
        },
{
    if s.unicode_len() == 0 {
        return None;
    }
    let c = s.get_char(0);
    if !('0' <= c && c <= '9') {
        assert(!crate::text::is_digit(s@[0]));
        return None;
    }
    assert(crate::text::unsigned_body(s@) == s@);
    crate::text::parse_unsigned_up_to(s, max)
}

/// The magnitude of an unsigned decimal in thousandths, when it is at most
/// `2^63`.
fn thousandths_up_to_bound(s: &str) -> (r: Option<u64>)
    ensures
        match r {
            Some(v) => decimal_thousandths(s@) == Some(v as nat) && v <= 9223372036854775808,
            None => decimal_thousandths(s@) is None || decimal_thousandths(s@)->0 > 9223372036854775808,
        },
{
    match crate::text::split_once_char(s, '.') {
        None => match digits_up_to(s, 9223372036854775) {
            Some(a) => {
                let m = a * 1000;
                if m > 9223372036854775808 {
                    None
                } else {
                    Some(m)
                }
            },
            None => {
                proof {
                    if s@.len() > 0 && all_digits(s@) {
                        assert(digits_value(s@) * 1000 > 9223372036854775808) by (nonlinear_arith)
                            requires
                                digits_value(s@) > 9223372036854775,
                        ;
                    }
                }
                None
            },
        },
        Some((a, b)) => {
            let n = b.unicode_len();
            if n < 1 || n > 3 {
                return None;
            }
            let f = match digits_up_to(b, 999) {
                Some(f) => f,
                None => {
                    proof {
                        if b@.len() > 0 && all_digits(b@) {
                            crate::text::lemma_digits_bound(b@);
                        }
                    }
                    return None;
                },
            };
            let scale: u64 = if n == 1 {
                100
            } else if n == 2 {
                10
            } else {
                1
            };
            proof {
                crate::text::lemma_digits_bound(b@);
            }
            let frac = f * scale;
            match digits_up_to(a, 9223372036854775) {
                Some(whole) => {
                    let m = whole * 1000 + frac;
                    if m > 9223372036854775808 {
                        None
                    } else {
                        Some(m)
                    }
                },
                None => {
                    proof {
                        if a@.len() > 0 && all_digits(a@) {
                            assert(digits_value(a@) * 1000 + f * scale > 9223372036854775808) by (nonlinear_arith)
                                requires
                                    digits_value(a@) > 9223372036854775,
                                    f * scale >= 0,
                            ;
                        }
                    }
                    None
                },
            }
        },
    }
}

impl Value {
    /// Reads `raw` as a value of `kind`; see `parse_value`.
    pub fn parse(kind: ValueKind, raw: &str) -> (r: Result<Value, String>)
        ensures
            match r {
                Ok(v) => parse_value(kind, raw@) == Ok::<ValueView, Seq<char>>(v@),
                Err(e) => parse_value(kind, raw@) == Err::<ValueView, Seq<char>>(e@),
            },
    {
        match kind {
            ValueKind::Bool => {
                if crate::text::str_eq(raw, "true") {
                    Ok(Value::Bool(true))
                } else if crate::text::str_eq(raw, "false") {
                    Ok(Value::Bool(false))
                } else {
                    Err(String::from_str("expected true or false"))
                }
            },
            ValueKind::Int => match parse_whole(raw) {
                Some(n) => Ok(Value::Int(n)),
                None => Err(String::from_str("expected a whole number")),
            },
            ValueKind::Float => match parse_thousandths(raw) {
                Some(m) => Ok(Value::Float(Milli(m))),
                None => Err(String::from_str("expected a number with at most three decimal places")),
            },
            ValueKind::Str => Ok(Value::Str(String::from_str(raw))),
            ValueKind::StrList => {
                let mut items: Vec<String> = Vec::new();
                if crate::text::trim(raw).unicode_len() == 0 {
                    assert(items@.map_values(|s: String| s@) =~= Seq::<Seq<char>>::empty());
                    return Ok(Value::StrList(items));
                }
                let pieces = crate::text::split_on(raw, ',');
                let ghost pv = pieces@.map_values(|p: &str| p@);
                let mut i: usize = 0;
                assert(items@.map_values(|s: String| s@) =~= pv.take(0).map_values(|p: Seq<char>| trim_chars(p)));
                while i < pieces.len()
                    invariant
                        pv == pieces@.map_values(|p: &str| p@),
                        pv == split_char(raw@, ','),
                        i <= pieces@.len(),
                        items@.map_values(|s: String| s@) == pv.take(i as int).map_values(
                            |p: Seq<char>| trim_chars(p),
                        ),
                    decreases pieces.len() - i,
                {
                    let item = String::from_str(crate::text::trim(pieces[i]));
                    let ghost iv = item@;
                    let ghost before = items@;
                    items.push(item);
                    proof {
                        assert(pv[i as int] == pieces@[i as int]@);
                        assert(pv.take(i + 1) =~= pv.take(i as int).push(pv[i as int]));
                        assert(items@.map_values(|s: String| s@) =~= before.map_values(|s: String| s@).push(iv));
                        assert(pv.take(i + 1).map_values(|p: Seq<char>| trim_chars(p)) =~= pv.take(
                            i as int,
                        ).map_values(|p: Seq<char>| trim_chars(p)).push(trim_chars(pv[i as int])));
                    }
                    i += 1;
                }
                assert(pv.take(pieces@.len() as int) =~= pv);
                Ok(Value::StrList(items))
            },
        }
    }
}

/// A whole number in the range of `i64`.
fn parse_whole(raw: &str) -> (r: Option<i64>)
    ensures
        match r {
            Some(n) => signed_number(raw@) == Some(n as int),
            None => !(signed_number(raw@) matches Some(n) && fits_i64(n)),
        },
{
    let len = raw.unicode_len();
    if len == 0 {
        return None;
    }
    let c = raw.get_char(0);
    if c == '-' || c == '+' {
        let body = raw.substring_char(1, len);
        assert(body@ =~= raw@.drop_first());
        if c == '-' {
            match digits_up_to(body, 9223372036854775808) {
                Some(v) => {
                    if v == 9223372036854775808 {
                        Some(i64::MIN)
                    } else {
                        Some(-(v as i64))
                    }
                },
                None => None,
            }
        } else {
            match digits_up_to(body, 9223372036854775807) {
                Some(v) => Some(v as i64),
                None => None,
            }
        }
    } else {
        match digits_up_to(raw, 9223372036854775807) {
            Some(v) => Some(v as i64),
            None => None,
        }
    }
}

/// A decimal with at most three places, in thousandths, in the range of
/// `i64`.
fn parse_thousandths(raw: &str) -> (r: Option<i64>)
    ensures
        match r {
            Some(m) => signed_thousandths(raw@) == Some(m as int),
            None => !(signed_thousandths(raw@) matches Some(m) && fits_i64(m)),
        },
{
    let len = raw.unicode_len();
    let neg = len > 0 && raw.get_char(0) == '-';
    let signed = len > 0 && (raw.get_char(0) == '-' || raw.get_char(0) == '+');
    let body = if signed {
        raw.substring_char(1, len)
    } else {
        raw
    };
    assert(signed ==> body@ =~= raw@.drop_first());
    match thousandths_up_to_bound(body) {
        Some(v) => {
            if neg {
                if v == 9223372036854775808 {
                    Some(i64::MIN)
                } else {
                    Some(-(v as i64))
                }
            } else if v == 9223372036854775808 {
                None
            } else {
                Some(v as i64)
            }
        },
        None => None,
    }
}

} // verus!
