//! The plain-text protocol of mitos-service's control socket
//! (`/run/mitos-service/control.sock`): one newline-terminated command per
//! connection, one reply, then the server closes it. This module builds the
//! commands and reads the replies; the program around this library does
//! the connecting, sending and receiving.

use vstd::prelude::*;
use crate::grants::model::{Decision, Grant, GrantView, Risk, Scope};
use crate::text::{is_ws, leading_ws, lines, parse_bounded, split_char, trim_chars};
use crate::settings::schema::is_hex_digit;

verus! {

/// `CHECK`'s three possible answers -- `Ask` carries the risk tier
/// mitos-service classified the capability at, purely for display.
#[derive(Debug, Clone, Copy, PartialEq, Eq)]
pub enum CheckResult {
    Allow,
    Deny,
    Ask(Risk),
}

/// `GRANT`'s outcomes when mitos-service got as far as deciding: `Denied`
/// means elevation genuinely ran and came back negative (wrong password,
/// declined), which a caller may present differently from an error.
#[derive(Debug, Clone, PartialEq, Eq)]
pub enum GrantResult {
    Granted,
    Denied(String),
}

/// The socket mitos-service listens on.
pub fn socket_path() -> (r: &'static str)
    ensures
        r@ == "/run/mitos-service/control.sock"@,
{
    "/run/mitos-service/control.sock"
}

/// Seconds to wait for a reply to anything but `GRANT`.
pub const SHORT_TIMEOUT_SECS: u64 = 5;

/// Seconds to wait for a reply to `GRANT`: comfortably past mitos-session's
/// own 120 s prompt timeout, so a slow but healthy elevation wait is never
/// mistaken for a hung connection.
pub const GRANT_TIMEOUT_SECS: u64 = 180;

/// Seconds to wait when sending.
pub const WRITE_TIMEOUT_SECS: u64 = 10;

// ---------------------------------------------------------------------------
// Commands
// ---------------------------------------------------------------------------

/// The `PING` command.
pub fn ping_command() -> (r: &'static str)
    ensures
        r@ == "PING"@,
{
    "PING"
}

/// The `LIST-RAW` command.
pub fn list_command() -> (r: &'static str)
    ensures
        r@ == "LIST-RAW"@,
{
    "LIST-RAW"
}

/// `CHECK <sha256> <capability>`.
pub fn check_command(sha256: &str, capability: &str) -> (r: String)
    ensures
        r@ == "CHECK "@ + sha256@ + " "@ + capability@,
{
    let mut out = String::from_str("CHECK ");
    out.append(sha256);
    out.append(" ");
    out.append(capability);
    out
}

/// `GRANT <sha256> <capability> <decision> <scope> <uid>`.
pub fn grant_command(sha256: &str, capability: &str, decision: Decision, scope: Scope, uid: u32) -> (r: String)
    ensures
        r@ == "GRANT "@ + sha256@ + " "@ + capability@ + " "@ + decision.text() + " "@ + scope.text() + " "@
            + crate::text::decimal(uid as nat),
{
    let mut out = String::from_str("GRANT ");
    out.append(sha256);
    out.append(" ");
    out.append(capability);
    out.append(" ");
    out.append(decision.as_str());
    out.append(" ");
    out.append(scope.as_str());
    out.append(" ");
    let digits = crate::text::decimal_string(uid as u64);
    out.append(digits.as_str());
    out
}

/// `REVOKE <sha256> <capability>`.
pub fn revoke_command(sha256: &str, capability: &str) -> (r: String)
    ensures
        r@ == "REVOKE "@ + sha256@ + " "@ + capability@,
{
    let mut out = String::from_str("REVOKE ");
    out.append(sha256);
    out.append(" ");
    out.append(capability);
    out
}

// ---------------------------------------------------------------------------
// Replies
// ---------------------------------------------------------------------------

/// Whether a reply to `PING` is `PONG` (surrounding whitespace aside).
pub open spec fn is_pong(response: Seq<char>) -> bool {
    trim_chars(response) == "PONG"@
}

/// What a reply to `CHECK` means: `ALLOW`, `DENY`, or `ASK <risk>`; anything
/// else, or a risk tier this crate does not know, is an error.
pub open spec fn check_outcome(response: Seq<char>) -> Result<CheckResult, Seq<char>> {
    let line = trim_chars(response);
    if line == "ALLOW"@ {
        Ok(CheckResult::Allow)
    } else if line == "DENY"@ {
        Ok(CheckResult::Deny)
    } else if crate::text::starts_with(line, "ASK "@) {
        let risk = line.skip(4);
        match Risk::from_text(risk) {
            Some(r) => Ok(CheckResult::Ask(r)),
            None => Err("mitos-service reported an unrecognized risk '"@ + risk + "'"@),
        }
    } else {
        Err("unexpected reply to CHECK: "@ + line)
    }
}

/// What a reply to `GRANT` means: `granted`, `denied: <reason>`, or
/// `error: <reason>` (an error carrying that reason); anything else is an
/// error too.
pub open spec fn grant_outcome(response: Seq<char>) -> Result<GrantResultView, Seq<char>> {
    let line = trim_chars(response);
    if line == "granted"@ {
        Ok(GrantResultView::Granted)
    } else if crate::text::starts_with(line, "denied: "@) {
        Ok(GrantResultView::Denied(line.skip(8)))
    } else if crate::text::starts_with(line, "error: "@) {
        Err(line.skip(7))
    } else {
        Err("unexpected reply to GRANT: "@ + line)
    }
}

/// A `GRANT` outcome as a mathematical object.
pub enum GrantResultView {
    Granted,
    Denied(Seq<char>),
}

impl View for GrantResult {
    type V = GrantResultView;

    open spec fn view(&self) -> GrantResultView {
        match self {
            GrantResult::Granted => GrantResultView::Granted,
            GrantResult::Denied(reason) => GrantResultView::Denied(reason@),
        }
    }
}

/// What a reply to `REVOKE` means: `revoked` is success, anything else an
/// error naming the reply.
pub open spec fn revoke_outcome(response: Seq<char>) -> Result<(), Seq<char>> {
    if trim_chars(response) == "revoked"@ {
        Ok(())
    } else {
        Err("unexpected reply to REVOKE: "@ + trim_chars(response))
    }
}

/// One `LIST-RAW` line: exactly six `|`-separated fields -- hash,
/// capability, decision, scope, Unix seconds, risk -- each of a form this
/// crate recognizes; otherwise the line is skipped.
pub open spec fn grant_line(line: Seq<char>) -> Option<GrantView> {
    let fields = split_char(line, '|');
    if fields.len() != 6 {
        None
    } else {
        match (
            Decision::from_text(fields[2]),
            Scope::from_text(fields[3]),
            parse_bounded(fields[4], u64::MAX as nat),
            Risk::from_text(fields[5]),
        ) {
            (Some(decision), Some(scope), Some(granted_at), Some(risk)) => Some(
                GrantView {
                    sha256: fields[0],
                    capability: fields[1],
                    decision,
                    scope,
                    granted_at: granted_at as u64,
                    risk,
                },
            ),
            _ => None,
        }
    }
}

/// The grants the lines `ls` describe, in order, skipping lines that do not
/// describe one.
pub open spec fn grants_of(ls: Seq<Seq<char>>) -> Seq<GrantView>
    decreases ls.len(),
{
    if ls.len() == 0 {
        Seq::empty()
    } else {
        match grant_line(ls.last()) {
            Some(g) => grants_of(ls.drop_last()).push(g),
            None => grants_of(ls.drop_last()),
        }
    }
}

/// Whether a reply to `PING` says the service is alive.
pub fn ping_reply(response: &str) -> (r: bool)
    ensures
        r == is_pong(response@),
{
    crate::text::str_eq(crate::text::trim(response), "PONG")
}

/// Reads a reply to `CHECK`.
pub fn check_reply(response: &str) -> (r: Result<CheckResult, String>)
    ensures
        match r {
            Ok(c) => check_outcome(response@) == Ok::<CheckResult, Seq<char>>(c),
            Err(e) => check_outcome(response@) == Err::<CheckResult, Seq<char>>(e@),
        },
{
    let line = crate::text::trim(response);
    if crate::text::str_eq(line, "ALLOW") {
        return Ok(CheckResult::Allow);
    }
    if crate::text::str_eq(line, "DENY") {
        return Ok(CheckResult::Deny);
    }
    proof {
        reveal_strlit("ASK ");
    }
    if let Some(risk_str) = crate::text::strip_prefix(line, "ASK ") {
        return match Risk::parse(risk_str) {
            Some(risk) => Ok(CheckResult::Ask(risk)),
            None => {
                let mut msg = String::from_str("mitos-service reported an unrecognized risk '");
                msg.append(risk_str);
                msg.append("'");
                Err(msg)
            },
        };
    }
    let mut msg = String::from_str("unexpected reply to CHECK: ");
    msg.append(line);
    Err(msg)
}

/// Reads a reply to `GRANT`.
pub fn grant_reply(response: &str) -> (r: Result<GrantResult, String>)
    ensures
        match r {
            Ok(g) => grant_outcome(response@) == Ok::<GrantResultView, Seq<char>>(g@),
            Err(e) => grant_outcome(response@) == Err::<GrantResultView, Seq<char>>(e@),
        },
{
    let line = crate::text::trim(response);
    if crate::text::str_eq(line, "granted") {
        return Ok(GrantResult::Granted);
    }
    proof {
        reveal_strlit("denied: ");
        reveal_strlit("error: ");
    }
    if let Some(reason) = crate::text::strip_prefix(line, "denied: ") {
        return Ok(GrantResult::Denied(String::from_str(reason)));
    }
    if let Some(reason) = crate::text::strip_prefix(line, "error: ") {
        return Err(String::from_str(reason));
    }
    let mut msg = String::from_str("unexpected reply to GRANT: ");
    msg.append(line);
    Err(msg)
}

/// Reads a reply to `REVOKE`.
pub fn revoke_reply(response: &str) -> (r: Result<(), String>)
    ensures
        match r {
            Ok(()) => revoke_outcome(response@) == Ok::<(), Seq<char>>(()),
            Err(e) => revoke_outcome(response@) == Err::<(), Seq<char>>(e@),
        },
{
    let line = crate::text::trim(response);
    if crate::text::str_eq(line, "revoked") {
        Ok(())
    } else {
        let mut msg = String::from_str("unexpected reply to REVOKE: ");
        msg.append(line);
        Err(msg)
    }
}

/// Reads one `LIST-RAW` line.
fn read_grant_line(line: &str) -> (r: Option<Grant>)
    ensures
        match r {
            Some(g) => grant_line(line@) == Some(g@),
            None => grant_line(line@) is None,
        },
{
    let fields = crate::text::split_on(line, '|');
    let ghost fv = fields@.map_values(|p: &str| p@);
    assert(fv.len() == fields@.len());
    if fields.len() != 6 {
        return None;
    }
    assert(fields@[2]@ == fv[2] && fields@[3]@ == fv[3] && fields@[4]@ == fv[4] && fields@[5]@ == fv[5]);
    assert(fields@[0]@ == fv[0] && fields@[1]@ == fv[1]);
    let decision = Decision::parse(fields[2]);
    let scope = Scope::parse(fields[3]);
    let granted_at = crate::text::parse_unsigned_up_to(fields[4], u64::MAX);
    let risk = Risk::parse(fields[5]);
    match (decision, scope, granted_at, risk) {
        (Some(decision), Some(scope), Some(granted_at), Some(risk)) => Some(
            Grant {
                sha256: String::from_str(fields[0]),
                capability: String::from_str(fields[1]),
                decision,
                scope,
                granted_at,
                risk,
            },
        ),
        _ => None,
    }
}

/// Reads a reply to `LIST-RAW`: every grant mitos-service holds, one per
/// line. A line that is not exactly six `|`-separated fields, or whose
/// decision, scope, time or risk is not one this crate recognizes, is
/// skipped rather than failing the whole list.
pub fn list_reply(response: &str) -> (r: Vec<Grant>)
    ensures
        r@.map_values(|g: Grant| g@) == grants_of(lines(response@)),
{
    let ls = crate::text::lines_of(response);
    let ghost lv = ls@.map_values(|p: &str| p@);
    let mut grants: Vec<Grant> = Vec::new();
    let mut i: usize = 0;
    assert(lv.take(0) =~= Seq::<Seq<char>>::empty());
    assert(grants@.map_values(|g: Grant| g@) =~= Seq::<GrantView>::empty());
    while i < ls.len()
        invariant
            lv == ls@.map_values(|p: &str| p@),
            lv == lines(response@),
            i <= ls@.len(),
            grants@.map_values(|g: Grant| g@) == grants_of(lv.take(i as int)),
        decreases ls.len() - i,
    {
        let ghost before = grants@;
        proof {
            assert(lv.take(i + 1).drop_last() =~= lv.take(i as int));
            assert(lv.take(i + 1).last() == ls@[i as int]@);
        }
        match read_grant_line(ls[i]) {
            Some(g) => {
                let ghost gv = g@;
                grants.push(g);
                assert(grants@.map_values(|g: Grant| g@) =~= before.map_values(|g: Grant| g@).push(gv));
            },
            None => {},
        }
        i += 1;
    }
    assert(lv.take(ls@.len() as int) =~= lv);
    grants
}

// ---------------------------------------------------------------------------
// Hashing a file with `sha256sum`
// ---------------------------------------------------------------------------

/// Index of the first whitespace character of `s`, or its length.
pub open spec fn first_ws(s: Seq<char>) -> nat
    decreases s.len(),
{
    if s.len() == 0 || is_ws(s[0]) {
        0
    } else {
        1 + first_ws(s.drop_first())
    }
}

/// The first whitespace-separated word of `s`, if it has one
/// (`split_whitespace().next()`).
pub open spec fn first_word(s: Seq<char>) -> Option<Seq<char>> {
    let rest = s.skip(leading_ws(s) as int);
    if rest.len() == 0 {
        None
    } else {
        Some(rest.take(first_ws(rest) as int))
    }
}

/// 64 hexadecimal digits.
pub open spec fn is_hex_digest(s: Seq<char>) -> bool {
    s.len() == 64 && forall|i: int| 0 <= i < s.len() ==> is_hex_digit(#[trigger] s[i])
}

/// ASCII lowercase of a character.
pub open spec fn lower_char(c: char) -> char {
    if 'A' <= c && c <= 'Z' {
        ((c as u32) + 32) as char
    } else {
        c
    }
}

/// The digest `sha256sum` printed: its first word, when that is 64
/// hexadecimal digits, in lowercase.
pub open spec fn digest_of(stdout: Seq<char>) -> Option<Seq<char>> {
    match first_word(stdout) {
        Some(w) => if is_hex_digest(w) {
            Some(w.map_values(|c: char| lower_char(c)))
        } else {
            None
        },
        None => None,
    }
}

/// A lowercase hexadecimal digit.
pub open spec fn is_lower_hex_digit(c: char) -> bool {
    ('0' <= c && c <= '9') || ('a' <= c && c <= 'f')
}

/// What is read from `sha256sum`'s output is always the bare lowercase
/// hexadecimal digest: 64 characters, each `0`-`9` or `a`-`f`.
pub proof fn lemma_digest_is_lowercase_hex(stdout: Seq<char>)
    ensures
        digest_of(stdout) matches Some(d) ==> d.len() == 64 && forall|i: int|
            0 <= i < d.len() ==> is_lower_hex_digit(#[trigger] d[i]),
{
    if let Some(d) = digest_of(stdout) {
        let w = first_word(stdout)->0;
        assert forall|i: int| 0 <= i < d.len() implies is_lower_hex_digit(#[trigger] d[i]) by {
            assert(d[i] == lower_char(w[i]));
            assert(is_hex_digit(w[i]));
            if 'A' <= w[i] && w[i] <= 'F' {
                assert(((w[i] as u32) + 32) as char == d[i]);
            }
        }
    }
}

/// `first_ws` counts exactly the run of non-whitespace at the front.
pub proof fn lemma_first_ws(s: Seq<char>, k: int)
    requires
        0 <= k <= s.len(),
        forall|j: int| 0 <= j < k ==> !is_ws(#[trigger] s[j]),
        k == s.len() || is_ws(s[k]),
    ensures
        first_ws(s) == k,
    decreases k,
{
    if k > 0 {
        lemma_first_ws(s.drop_first(), k - 1);
    }
}

/// The lowercase form of a hexadecimal digit, as a one-character string.
fn lower_hex_digit(word: &str, i: usize) -> (r: &str)
    requires
        word@.len() == 64,
        i < 64,
        is_hex_digit(word@[i as int]),
    ensures
        r@ == seq![lower_char(word@[i as int])],
{
    let c = word.get_char(i);
    proof {
        reveal_strlit("a");
        reveal_strlit("b");
        reveal_strlit("c");
        reveal_strlit("d");
        reveal_strlit("e");
        reveal_strlit("f");
    }
    let r = if c == 'A' {
        "a"
    } else if c == 'B' {
        "b"
    } else if c == 'C' {
        "c"
    } else if c == 'D' {
        "d"
    } else if c == 'E' {
        "e"
    } else if c == 'F' {
        "f"
    } else {
        word.substring_char(i, i + 1)
    };
    assert(r@ =~= seq![lower_char(c)]);
    r
}

/// Whether every character of `s` is a hexadecimal digit.
fn all_hex(s: &str) -> (r: bool)
    ensures
        r == forall|j: int| 0 <= j < s@.len() ==> is_hex_digit(#[trigger] s@[j]),
{
    let n = s.unicode_len();
    let mut i: usize = 0;
    while i < n
        invariant
            n == s@.len(),
            i <= n,
            forall|j: int| 0 <= j < i ==> is_hex_digit(#[trigger] s@[j]),
        decreases n - i,
    {
        let c = s.get_char(i);
        if !(('0' <= c && c <= '9') || ('a' <= c && c <= 'f') || ('A' <= c && c <= 'F')) {
            assert(!is_hex_digit(s@[i as int]));
            return false;
        }
        i += 1;
    }
    true
}

/// Reads what `sha256sum <file>` printed: its first word, which must be 64
/// hexadecimal digits, in lowercase; the file-name column after it is
/// dropped.
pub fn sha256_from_output(stdout: &str) -> (r: Result<String, String>)
    ensures
        match r {
            Ok(d) => digest_of(stdout@) == Some(d@),
            Err(e) => digest_of(stdout@) is None && e@ == "could not parse sha256sum output: "@ + stdout@,
        },
{
    let n = stdout.unicode_len();
    let mut start: usize = 0;
    while start < n && crate::text::is_whitespace(stdout.get_char(start))
        invariant
            n == stdout@.len(),
            start <= n,
            forall|j: int| 0 <= j < start ==> is_ws(#[trigger] stdout@[j]),
        decreases n - start,
    {
        start += 1;
    }
    proof {
        crate::text::lemma_leading_ws(stdout@, start as int);
    }
    let ghost rest = stdout@.skip(start as int);
    let mut end: usize = start;
    while end < n && !crate::text::is_whitespace(stdout.get_char(end))
        invariant
            n == stdout@.len(),
            start <= end <= n,
            forall|j: int| start <= j < end ==> !is_ws(#[trigger] stdout@[j]),
        decreases n - end,
    {
        end += 1;
    }
    proof {
        assert forall|j: int| 0 <= j < end - start implies !is_ws(#[trigger] rest[j]) by {
            assert(rest[j] == stdout@[start + j]);
        }
        if end < n {
            assert(rest[end - start] == stdout@[end as int]);
        }
        lemma_first_ws(rest, end - start);
    }
    let word = stdout.substring_char(start, end);
    assert(start == end ==> rest.len() == 0);
    assert(start < end ==> first_word(stdout@) == Some(word@)) by {
        assert(rest.take(end - start) =~= word@);
    }
    let ok = start < end && end - start == 64 && all_hex(word);
    if !ok {
        let mut msg = String::from_str("could not parse sha256sum output: ");
        msg.append(stdout);
        return Err(msg);
    }
    let mut out = String::new();
    let mut i: usize = 0;
    while i < 64
        invariant
            word@.len() == 64,
            is_hex_digest(word@),
            i <= 64,
            out@ == word@.take(i as int).map_values(|c: char| lower_char(c)),
        decreases 64 - i,
    {
        let piece = lower_hex_digit(word, i);
        let ghost before = out@;
        out.append(piece);
        assert(word@.take(i + 1).map_values(|c: char| lower_char(c)) =~= before + piece@);
        i += 1;
    }
    assert(word@.take(64) =~= word@);
    Ok(out)
}

/// The error for a `sha256sum` that ran and failed, carrying what it printed
/// on its standard error.
pub fn sha256sum_failure(stderr: &str) -> (r: String)
    ensures
        r@ == "sha256sum failed: "@ + trim_chars(stderr@),
{
    let mut msg = String::from_str("sha256sum failed: ");
    msg.append(crate::text::trim(stderr));
    msg
}

} // verus!
