//! The decisions behind the graphical "Application permissions" list: how
//! a grant's row is labelled, and whether the "add a grant" form may be
//! sent.

use vstd::prelude::*;
use vstd::string::StringSliceAdditionalSpecFns;
use vstd::utf8::{encode_utf8, is_char_boundary};
use crate::grants::model::{Decision, Risk, Scope};

verus! {

/// A byte that is an ASCII hexadecimal digit.
pub open spec fn is_hex_byte(b: u8) -> bool {
    (48 <= b && b <= 57) || (97 <= b && b <= 102) || (65 <= b && b <= 70)
}

/// Whether text looks like a SHA-256 hash: exactly 64 bytes, each an ASCII
/// hexadecimal digit.
pub open spec fn looks_like_sha256(bytes: Seq<u8>) -> bool {
    bytes.len() == 64 && forall|i: int| 0 <= i < bytes.len() ==> is_hex_byte(#[trigger] bytes[i])
}

/// Whether `text` looks like a SHA-256 hash.
pub fn is_sha256_hex(text: &str) -> (r: bool)
    ensures
        r == looks_like_sha256(text.spec_bytes()),
{
    let bytes = text.as_bytes();
    if bytes.len() != 64 {
        return false;
    }
    let mut i: usize = 0;
    while i < 64
        invariant
            bytes@ == text.spec_bytes(),
            bytes@.len() == 64,
            i <= 64,
            forall|j: int| 0 <= j < i ==> is_hex_byte(#[trigger] bytes@[j]),
        decreases 64 - i,
    {
        let b = bytes[i];
        if !((48 <= b && b <= 57) || (97 <= b && b <= 102) || (65 <= b && b <= 70)) {
            assert(!is_hex_byte(bytes@[i as int]));
            return false;
        }
        i += 1;
    }
    true
}

/// A grant's hash as its row shows it: the first 12 bytes, when they end on
/// a character boundary (otherwise the whole hash), followed by `…`.
pub fn short_hash(sha256: &str) -> (r: String)
    ensures
        r@.len() > 0,
        r@.last() == '…',
        if 12 <= sha256.spec_bytes().len() && is_char_boundary(sha256.spec_bytes(), 12) {
            encode_utf8(r@.drop_last()) == sha256.spec_bytes().take(12)
        } else {
            r@.drop_last() == sha256@
        },
{
    proof {
        reveal_strlit("…");
        vstd::utf8::encode_utf8_valid_utf8(sha256@);
    }
    let byte_len = sha256.as_bytes().len();
    let prefix = if byte_len >= 12 && sha256.is_char_boundary(12) {
        let (head, _) = sha256.split_at(12);
        head
    } else {
        sha256
    };
    let mut out = String::from_str(prefix);
    out.append("…");
    assert(out@.drop_last() =~= prefix@);
    out
}

/// The badge a grant's row carries, as (text, style): none for low and
/// moderate risk, which mitos-service applies without elevating; a password
/// notice for dangerous and critical ones.
pub fn risk_badge(risk: Risk) -> (r: Option<(&'static str, &'static str)>)
    ensures
        match risk {
            Risk::Low | Risk::Moderate => r is None,
            Risk::Dangerous => r matches Some((text, style)) && text@ == "Requires password"@ && style@ == "warning"@,
            Risk::Critical => r matches Some((text, style)) && text@ == "Requires password · Critical"@ && style@
                == "error"@,
        },
{
    match risk {
        Risk::Low | Risk::Moderate => None,
        Risk::Dangerous => Some(("Requires password", "warning")),
        Risk::Critical => Some(("Requires password · Critical", "error")),
    }
}

/// Why the "add a grant" form cannot be sent, if it cannot: the hash must
/// look like a SHA-256 hash, and a capability must be named.
pub fn add_grant_problem(sha256: &str, capability: &str) -> (r: Option<&'static str>)
    ensures
        !looks_like_sha256(sha256.spec_bytes()) ==> r is Some && r->0@
            == "Not a valid SHA-256 hash (64 hex characters)."@,
        looks_like_sha256(sha256.spec_bytes()) && capability@.len() == 0 ==> r is Some && r->0@
            == "Enter a capability name."@,
        looks_like_sha256(sha256.spec_bytes()) && capability@.len() > 0 ==> r is None,
{
    if !is_sha256_hex(sha256) {
        return Some("Not a valid SHA-256 hash (64 hex characters).");
    }
    if capability.unicode_len() == 0 {
        return Some("Enter a capability name.");
    }
    None
}

/// What "Use path" does with the text in the hash field: text that already
/// looks like a hash is left alone with this notice; anything else is taken
/// as a path to hash.
pub fn use_path_notice(text: &str) -> (r: Option<&'static str>)
    ensures
        looks_like_sha256(text.spec_bytes()) ==> r is Some && r->0@ == "That already looks like a hash."@,
        !looks_like_sha256(text.spec_bytes()) ==> r is None,
{
    if is_sha256_hex(text) {
        Some("That already looks like a hash.")
    } else {
        None
    }
}

// ---------------------------------------------------------------------------
// One grant's row
// ---------------------------------------------------------------------------

/// What one grant's row remembers: the decision and scope mitos-service
/// last confirmed, and whether a request for the row is in flight.
#[derive(Debug, Clone, Copy, PartialEq, Eq)]
pub struct GrantRowState {
    pub confirmed_decision: Decision,
    pub confirmed_scope: Scope,
    pub busy: bool,
}

/// What happens to a grant's row: one of its buttons becomes active by the
/// person's hand, Revoke is clicked, or a request sent for the row comes
/// back.
#[derive(Debug, PartialEq, Eq)]
pub enum RowEvent {
    DecisionToggled(Decision),
    ScopeToggled(Scope),
    RevokeClicked,
    /// The answer to a request that asked for this decision and scope.
    SetDone(Decision, Scope, Result<(), String>),
    RevokeDone(Result<(), String>),
}

/// What the row must do next.
#[derive(Debug, Clone, PartialEq, Eq)]
pub enum RowAction {
    Nothing,
    /// Ask mitos-service to record this decision and scope (on a
    /// background thread, with the row's controls disabled).
    SetGrant(Decision, Scope),
    /// Ask mitos-service to revoke the grant.
    Revoke,
    /// Put the toggles back to this decision and scope, without that
    /// counting as a new toggle, and show the error.
    RevertAndShowError(Decision, Scope, String),
    /// Show the error; the row stays as it is.
    ShowError(String),
    /// The grant is gone: rebuild the whole list from mitos-service.
    RefreshList,
}

/// Whether two decisions are the same.
fn same_decision(a: Decision, b: Decision) -> (r: bool)
    ensures
        r == (a == b),
{
    match (a, b) {
        (Decision::Allow, Decision::Allow) | (Decision::Deny, Decision::Deny) => true,
        _ => false,
    }
}

/// Whether two scopes are the same.
fn same_scope(a: Scope, b: Scope) -> (r: bool)
    ensures
        r == (a == b),
{
    match (a, b) {
        (Scope::Once, Scope::Once) | (Scope::Session, Scope::Session) | (Scope::Always, Scope::Always) => true,
        _ => false,
    }
}

/// One step of a grant's row. While a request is in flight the row's
/// buttons do nothing. Toggling to a new decision sends it with the
/// confirmed scope, and toggling to a new scope sends it with the confirmed
/// decision; toggling to what is already confirmed sends nothing. An answer
/// ends the request: success makes what was asked for the confirmed state,
/// failure puts the toggles back to the confirmed state and shows why, so
/// the row never shows what mitos-service did not confirm. A revoke that
/// succeeds rebuilds the list; one that fails shows why.
pub fn grant_row_step(s: GrantRowState, e: RowEvent) -> (r: (GrantRowState, RowAction))
    ensures
        s.busy && !(e is SetDone || e is RevokeDone) ==> r == (s, RowAction::Nothing),
        !s.busy && (e matches RowEvent::DecisionToggled(d) && d == s.confirmed_decision) ==> r == (
        s,
        RowAction::Nothing,
        ),
        !s.busy && (e matches RowEvent::DecisionToggled(d) && d != s.confirmed_decision) ==> r == (
        GrantRowState { busy: true, ..s },
        RowAction::SetGrant(e->DecisionToggled_0, s.confirmed_scope),
        ),
        !s.busy && (e matches RowEvent::ScopeToggled(sc) && sc == s.confirmed_scope) ==> r == (
        s,
        RowAction::Nothing,
        ),
        !s.busy && (e matches RowEvent::ScopeToggled(sc) && sc != s.confirmed_scope) ==> r == (
        GrantRowState { busy: true, ..s },
        RowAction::SetGrant(s.confirmed_decision, e->ScopeToggled_0),
        ),
        !s.busy && e == RowEvent::RevokeClicked ==> r == (GrantRowState { busy: true, ..s }, RowAction::Revoke),
        (e matches RowEvent::SetDone(d, sc, res) && res is Ok) ==> r == (
        GrantRowState { confirmed_decision: e->SetDone_0, confirmed_scope: e->SetDone_1, busy: false },
        RowAction::Nothing,
        ),
        (e matches RowEvent::SetDone(d, sc, res) && res is Err) ==> r == (
        GrantRowState { busy: false, ..s },
        RowAction::RevertAndShowError(s.confirmed_decision, s.confirmed_scope, e->SetDone_2->Err_0),
        ),
        e == RowEvent::RevokeDone(Ok(())) ==> r == (GrantRowState { busy: false, ..s }, RowAction::RefreshList),
        (e matches RowEvent::RevokeDone(res) && res is Err) ==> r == (
        GrantRowState { busy: false, ..s },
        RowAction::ShowError(e->RevokeDone_0->Err_0),
        ),
{
    match e {
        RowEvent::SetDone(d, sc, res) => match res {
            Ok(()) => (GrantRowState { confirmed_decision: d, confirmed_scope: sc, busy: false }, RowAction::Nothing),
            Err(m) => (
                GrantRowState { busy: false, ..s },
                RowAction::RevertAndShowError(s.confirmed_decision, s.confirmed_scope, m),
            ),
        },
        RowEvent::RevokeDone(res) => match res {
            Ok(()) => (GrantRowState { busy: false, ..s }, RowAction::RefreshList),
            Err(m) => (GrantRowState { busy: false, ..s }, RowAction::ShowError(m)),
        },
        RowEvent::DecisionToggled(d) => {
            if s.busy || same_decision(d, s.confirmed_decision) {
                (s, RowAction::Nothing)
            } else {
                (GrantRowState { busy: true, ..s }, RowAction::SetGrant(d, s.confirmed_scope))
            }
        },
        RowEvent::ScopeToggled(sc) => {
            if s.busy || same_scope(sc, s.confirmed_scope) {
                (s, RowAction::Nothing)
            } else {
                (GrantRowState { busy: true, ..s }, RowAction::SetGrant(s.confirmed_decision, sc))
            }
        },
        RowEvent::RevokeClicked => {
            if s.busy {
                (s, RowAction::Nothing)
            } else {
                (GrantRowState { busy: true, ..s }, RowAction::Revoke)
            }
        },
    }
}

// ---------------------------------------------------------------------------
// The "add a grant" form
// ---------------------------------------------------------------------------

/// What happens to the "add a grant" form.
#[derive(Debug, PartialEq, Eq)]
pub enum AddEvent {
    /// "Use path" is clicked with this text in the hash field.
    UsePathClicked(String),
    /// Hashing the file came back.
    HashDone(Result<String, String>),
    /// "Grant" is clicked with these fields and toggles.
    SubmitClicked(String, String, Decision, Scope),
    /// The grant request came back.
    GrantDone(Result<(), String>),
}

/// What the form must do next.
#[derive(Debug, Clone, PartialEq, Eq)]
pub enum AddAction {
    Nothing,
    /// Show this in the status line.
    ShowStatus(String),
    /// Hash the file at this path (on a background thread, showing a
    /// spinner).
    HashPath(String),
    /// Put this hash into the hash field.
    FillHash(String),
    /// Ask mitos-service for this grant (on a background thread, with the
    /// Grant button disabled).
    SendGrant(String, String, Decision, Scope),
    /// The grant was recorded: clear both fields, show `Granted.` and
    /// rebuild the list.
    Granted,
}

/// One step of the "add a grant" form, whose state is whether a request is
/// in flight. While one is, clicks do nothing. "Use path" leaves text that
/// already looks like a hash alone and hashes anything else as a path;
/// "Grant" sends only a well-formed hash with a capability, and otherwise
/// says what is wrong. An answer ends the request: a hash fills the field,
/// a recorded grant clears the form and refreshes the list, and an error is
/// shown.
pub fn add_grant_step(busy: bool, e: AddEvent) -> (r: (bool, AddAction))
    ensures
        busy && (e is UsePathClicked || e is SubmitClicked) ==> r == (true, AddAction::Nothing),
        !busy && (e matches AddEvent::UsePathClicked(t) && looks_like_sha256(encode_utf8(t@))) ==> (!r.0
            && (r.1 matches AddAction::ShowStatus(m) && m@ == "That already looks like a hash."@)),
        !busy && (e matches AddEvent::UsePathClicked(t) && !looks_like_sha256(encode_utf8(t@))) ==> r == (
        true,
        AddAction::HashPath(e->UsePathClicked_0),
        ),
        (e matches AddEvent::HashDone(res) && res is Ok) ==> r == (false, AddAction::FillHash(e->HashDone_0->Ok_0)),
        (e matches AddEvent::HashDone(res) && res is Err) ==> r == (false, AddAction::ShowStatus(e->HashDone_0->Err_0)),
        !busy && (e matches AddEvent::SubmitClicked(sha, cap, d, sc) && !looks_like_sha256(encode_utf8(sha@)))
            ==> (!r.0 && (r.1 matches AddAction::ShowStatus(m) && m@
            == "Not a valid SHA-256 hash (64 hex characters)."@)),
        !busy && (e matches AddEvent::SubmitClicked(sha, cap, d, sc) && looks_like_sha256(encode_utf8(sha@))
            && cap@.len() == 0) ==> (!r.0 && (r.1 matches AddAction::ShowStatus(m) && m@
            == "Enter a capability name."@)),
        !busy && (e matches AddEvent::SubmitClicked(sha, cap, d, sc) && looks_like_sha256(encode_utf8(sha@))
            && cap@.len() > 0) ==> r == (
        true,
        AddAction::SendGrant(e->SubmitClicked_0, e->SubmitClicked_1, e->SubmitClicked_2, e->SubmitClicked_3),
        ),
        e == AddEvent::GrantDone(Ok(())) ==> r == (false, AddAction::Granted),
        (e matches AddEvent::GrantDone(res) && res is Err) ==> r == (false, AddAction::ShowStatus(e->GrantDone_0->Err_0)),
{
    match e {
        AddEvent::UsePathClicked(text) => {
            if busy {
                return (true, AddAction::Nothing);
            }
            match use_path_notice(text.as_str()) {
                Some(notice) => (false, AddAction::ShowStatus(String::from_str(notice))),
                None => (true, AddAction::HashPath(text)),
            }
        },
        AddEvent::HashDone(res) => match res {
            Ok(hash) => (false, AddAction::FillHash(hash)),
            Err(m) => (false, AddAction::ShowStatus(m)),
        },
        AddEvent::SubmitClicked(sha256, capability, decision, scope) => {
            if busy {
                return (true, AddAction::Nothing);
            }
            match add_grant_problem(sha256.as_str(), capability.as_str()) {
                Some(problem) => (false, AddAction::ShowStatus(String::from_str(problem))),
                None => (true, AddAction::SendGrant(sha256, capability, decision, scope)),
            }
        },
        AddEvent::GrantDone(res) => match res {
            Ok(()) => (false, AddAction::Granted),
            Err(m) => (false, AddAction::ShowStatus(m)),
        },
    }
}

} // verus!
