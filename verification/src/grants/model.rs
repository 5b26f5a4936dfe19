//! The shape of a grant, mirroring mitos-service's own rulebook entry and
//! risk tiers: just enough structure to parse its replies into and render
//! them from.

use vstd::prelude::*;

verus! {

/// mitos-service identifies an app by the SHA-256 of its binary, as 64
/// lowercase hex digits; there is no display name anywhere in this data.
pub type Sha256Hex = String;

/// Whether a capability is granted or refused.
#[derive(Debug, Clone, Copy, PartialEq, Eq)]
pub enum Decision {
    Allow,
    Deny,
}

impl Decision {
    /// The wire form.
    pub open spec fn text(self) -> Seq<char> {
        match self {
            Decision::Allow => "allow"@,
            Decision::Deny => "deny"@,
        }
    }

    /// The decision whose wire form is `s`, if any.
    pub open spec fn from_text(s: Seq<char>) -> Option<Decision> {
        if s == "allow"@ {
            Some(Decision::Allow)
        } else if s == "deny"@ {
            Some(Decision::Deny)
        } else {
            None
        }
    }

    pub fn as_str(self) -> (r: &'static str)
        ensures
            r@ == self.text(),
    {
        match self {
            Decision::Allow => "allow",
            Decision::Deny => "deny",
        }
    }

    pub fn parse(s: &str) -> (r: Option<Decision>)
        ensures
            r == Decision::from_text(s@),
    {
        if crate::text::str_eq(s, "allow") {
            Some(Decision::Allow)
        } else if crate::text::str_eq(s, "deny") {
            Some(Decision::Deny)
        } else {
            None
        }
    }
}

/// How long a grant lasts.
#[derive(Debug, Clone, Copy, PartialEq, Eq)]
pub enum Scope {
    /// Consumed by the very next `CHECK` for the same pair, whatever the
    /// result.
    Once,
    /// Lasts until mitos-service restarts.
    Session,
    /// Persisted; survives a restart until explicitly revoked or the
    /// binary's hash changes.
    Always,
}

impl Scope {
    /// The wire form.
    pub open spec fn text(self) -> Seq<char> {
        match self {
            Scope::Once => "once"@,
            Scope::Session => "session"@,
            Scope::Always => "always"@,
        }
    }

    /// The scope whose wire form is `s`, if any.
    pub open spec fn from_text(s: Seq<char>) -> Option<Scope> {
        if s == "once"@ {
            Some(Scope::Once)
        } else if s == "session"@ {
            Some(Scope::Session)
        } else if s == "always"@ {
            Some(Scope::Always)
        } else {
            None
        }
    }

    pub fn as_str(self) -> (r: &'static str)
        ensures
            r@ == self.text(),
    {
        match self {
            Scope::Once => "once",
            Scope::Session => "session",
            Scope::Always => "always",
        }
    }

    pub fn parse(s: &str) -> (r: Option<Scope>)
        ensures
            r == Scope::from_text(s@),
    {
        if crate::text::str_eq(s, "once") {
            Some(Scope::Once)
        } else if crate::text::str_eq(s, "session") {
            Some(Scope::Session)
        } else if crate::text::str_eq(s, "always") {
            Some(Scope::Always)
        } else {
            None
        }
    }
}

/// The risk tier mitos-service classifies a capability at, reported
/// alongside each grant; `Dangerous` and `Critical` are the tiers it
/// blocks a `GRANT` on until a password is verified.
#[derive(Debug, Clone, Copy, PartialEq, Eq, PartialOrd, Ord)]
pub enum Risk {
    Low,
    Moderate,
    Dangerous,
    Critical,
}

impl Risk {
    /// The wire form.
    pub open spec fn text(self) -> Seq<char> {
        match self {
            Risk::Low => "low"@,
            Risk::Moderate => "moderate"@,
            Risk::Dangerous => "dangerous"@,
            Risk::Critical => "critical"@,
        }
    }

    /// The risk whose wire form is `s`, if any.
    pub open spec fn from_text(s: Seq<char>) -> Option<Risk> {
        if s == "low"@ {
            Some(Risk::Low)
        } else if s == "moderate"@ {
            Some(Risk::Moderate)
        } else if s == "dangerous"@ {
            Some(Risk::Dangerous)
        } else if s == "critical"@ {
            Some(Risk::Critical)
        } else {
            None
        }
    }

    pub fn parse(s: &str) -> (r: Option<Risk>)
        ensures
            r == Risk::from_text(s@),
    {
        if crate::text::str_eq(s, "low") {
            Some(Risk::Low)
        } else if crate::text::str_eq(s, "moderate") {
            Some(Risk::Moderate)
        } else if crate::text::str_eq(s, "dangerous") {
            Some(Risk::Dangerous)
        } else if crate::text::str_eq(s, "critical") {
            Some(Risk::Critical)
        } else {
            None
        }
    }

    pub fn as_str(self) -> (r: &'static str)
        ensures
            r@ == self.text(),
    {
        match self {
            Risk::Low => "low",
            Risk::Moderate => "moderate",
            Risk::Dangerous => "dangerous",
            Risk::Critical => "critical",
        }
    }
}

/// Each decision's wire form parses back to that decision, and only a
/// decision's own wire form parses to it.
pub proof fn lemma_decision_text_round_trip(d: Decision, s: Seq<char>)
    ensures
        Decision::from_text(d.text()) == Some(d),
        Decision::from_text(s) == Some(d) ==> s == d.text(),
{
    reveal_strlit("allow");
    reveal_strlit("deny");
    assert("allow"@.len() != "deny"@.len());
}

/// Each scope's wire form parses back to that scope, and only a scope's own
/// wire form parses to it.
pub proof fn lemma_scope_text_round_trip(sc: Scope, s: Seq<char>)
    ensures
        Scope::from_text(sc.text()) == Some(sc),
        Scope::from_text(s) == Some(sc) ==> s == sc.text(),
{
    reveal_strlit("once");
    reveal_strlit("session");
    reveal_strlit("always");
    assert("once"@.len() != "session"@.len());
    assert("once"@.len() != "always"@.len());
    assert("session"@.len() != "always"@.len());
}

/// Each risk tier's wire form parses back to that tier, and only a tier's
/// own wire form parses to it.
pub proof fn lemma_risk_text_round_trip(r: Risk, s: Seq<char>)
    ensures
        Risk::from_text(r.text()) == Some(r),
        Risk::from_text(s) == Some(r) ==> s == r.text(),
{
    reveal_strlit("low");
    reveal_strlit("moderate");
    reveal_strlit("dangerous");
    reveal_strlit("critical");
    assert("low"@.len() != "moderate"@.len());
    assert("low"@.len() != "dangerous"@.len());
    assert("low"@.len() != "critical"@.len());
    assert("moderate"@.len() != "dangerous"@.len());
    assert("moderate"@[0] != "critical"@[0]);
    assert("dangerous"@.len() != "critical"@.len());
}

/// One row of mitos-service's rulebook, as reported by `LIST-RAW`.
#[derive(Debug, Clone, PartialEq, Eq)]
pub struct Grant {
    pub sha256: Sha256Hex,
    pub capability: String,
    pub decision: Decision,
    pub scope: Scope,
    /// Unix seconds, as mitos-service stores it.
    pub granted_at: u64,
    pub risk: Risk,
}

/// A grant as a mathematical object.
pub struct GrantView {
    pub sha256: Seq<char>,
    pub capability: Seq<char>,
    pub decision: Decision,
    pub scope: Scope,
    pub granted_at: u64,
    pub risk: Risk,
}

impl View for Grant {
    type V = GrantView;

    open spec fn view(&self) -> GrantView {
        GrantView {
            sha256: self.sha256@,
            capability: self.capability@,
            decision: self.decision,
            scope: self.scope,
            granted_at: self.granted_at,
            risk: self.risk,
        }
    }
}

} // verus!
