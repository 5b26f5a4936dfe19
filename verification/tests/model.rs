use mitos_settings::grants::{Decision, Risk, Scope};

#[test]
fn decision_scope_and_risk_all_round_trip_through_their_string_form() {
    for d in [Decision::Allow, Decision::Deny] {
        assert_eq!(Decision::parse(d.as_str()), Some(d));
    }
    for s in [Scope::Once, Scope::Session, Scope::Always] {
        assert_eq!(Scope::parse(s.as_str()), Some(s));
    }
    for r in [Risk::Low, Risk::Moderate, Risk::Dangerous, Risk::Critical] {
        assert_eq!(Risk::parse(r.as_str()), Some(r));
    }
}

#[test]
fn unrecognized_strings_parse_to_none_rather_than_guessing() {
    assert_eq!(Decision::parse("maybe"), None);
    assert_eq!(Scope::parse("forever"), None);
    assert_eq!(Risk::parse("extreme"), None);
}

#[test]
fn wire_forms_are_lowercase_words() {
    assert_eq!(Decision::Allow.as_str(), "allow");
    assert_eq!(Decision::Deny.as_str(), "deny");
    assert_eq!(Scope::Once.as_str(), "once");
    assert_eq!(Scope::Session.as_str(), "session");
    assert_eq!(Scope::Always.as_str(), "always");
    assert_eq!(Risk::Low.as_str(), "low");
    assert_eq!(Risk::Moderate.as_str(), "moderate");
    assert_eq!(Risk::Dangerous.as_str(), "dangerous");
    assert_eq!(Risk::Critical.as_str(), "critical");
}

#[test]
fn parsing_is_case_sensitive() {
    assert_eq!(Decision::parse("Allow"), None);
    assert_eq!(Scope::parse("ONCE"), None);
    assert_eq!(Risk::parse(" low"), None);
}
