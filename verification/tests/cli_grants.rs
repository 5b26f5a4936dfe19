use mitos_settings::cli::grants::{execute, list_output, record_output, revoke_output, GrantsCommand, USAGE};
use mitos_settings::grants::{Decision, Grant, Risk, Scope};

#[test]
fn no_subcommand_is_a_usage_error() {
    assert!(execute(&[]).is_err());
}

#[test]
fn unknown_subcommand_is_a_usage_error() {
    assert!(execute(&["frobnicate".to_string()]).is_err());
}

#[test]
fn set_rejects_wrong_argument_count_before_touching_the_network() {
    let err = execute(&["set".to_string(), "onlyonearg".to_string()]).unwrap_err();
    assert!(err.contains("usage"));
}

#[test]
fn set_rejects_an_unrecognized_decision_before_touching_the_network() {
    let err = execute(&[
        "set".to_string(),
        "a".repeat(64),
        "camera".to_string(),
        "maybe".to_string(),
        "always".to_string(),
    ])
    .unwrap_err();
    assert!(err.contains("allow"));
}

#[test]
fn set_rejects_an_unrecognized_scope_before_touching_the_network() {
    let err = execute(&[
        "set".to_string(),
        "a".repeat(64),
        "camera".to_string(),
        "allow".to_string(),
        "forever".to_string(),
    ])
    .unwrap_err();
    assert!(err.contains("once"));
}

#[test]
fn revoke_rejects_wrong_argument_count_before_touching_the_network() {
    assert!(execute(&["revoke".to_string(), "onlyonearg".to_string()]).is_err());
}

#[test]
fn usage_errors_carry_the_exact_messages() {
    assert_eq!(execute(&[]).unwrap_err(), USAGE);
    assert_eq!(
        execute(&["set".to_string()]).unwrap_err(),
        "usage: mitos-settings grants set <sha256> <capability> <allow|deny> <once|session|always>"
    );
    assert_eq!(
        execute(&["revoke".to_string()]).unwrap_err(),
        "usage: mitos-settings grants revoke <sha256> <capability>"
    );
    let bad_decision = execute(&[
        "set".to_string(),
        "h".to_string(),
        "camera".to_string(),
        "maybe".to_string(),
        "always".to_string(),
    ]);
    assert_eq!(bad_decision.unwrap_err(), "'maybe' is not 'allow' or 'deny'");
    let bad_scope = execute(&[
        "set".to_string(),
        "h".to_string(),
        "camera".to_string(),
        "deny".to_string(),
        "forever".to_string(),
    ]);
    assert_eq!(bad_scope.unwrap_err(), "'forever' is not 'once', 'session', or 'always'");
}

#[test]
fn well_formed_subcommands_are_understood() {
    assert_eq!(execute(&["list".to_string(), "extra".to_string()]).unwrap(), GrantsCommand::List);
    assert_eq!(
        execute(&[
            "set".to_string(),
            "abc".to_string(),
            "camera".to_string(),
            "deny".to_string(),
            "session".to_string(),
        ])
        .unwrap(),
        GrantsCommand::Record {
            sha256: "abc".to_string(),
            capability: "camera".to_string(),
            decision: Decision::Deny,
            scope: Scope::Session,
        }
    );
    assert_eq!(
        execute(&["revoke".to_string(), "abc".to_string(), "camera".to_string()]).unwrap(),
        GrantsCommand::Revoke { sha256: "abc".to_string(), capability: "camera".to_string() }
    );
}

#[test]
fn an_empty_rulebook_says_so() {
    assert_eq!(list_output(&[]), "No grants recorded yet.\n");
}

#[test]
fn the_grants_table_pads_its_columns() {
    let grant = Grant {
        sha256: "a".repeat(64),
        capability: "camera".to_string(),
        decision: Decision::Allow,
        scope: Scope::Always,
        granted_at: 1_700_000_000,
        risk: Risk::Low,
    };
    let table = list_output(&[grant]);
    let expected_header = format!("{:<64} {:<24} {:<7} {:<8} {}\n", "SHA-256", "CAPABILITY", "DECISION", "SCOPE", "RISK");
    let expected_row = format!("{:<64} {:<24} {:<7} {:<8} {}\n", "a".repeat(64), "camera", "allow", "always", "low");
    assert_eq!(table, format!("{expected_header}{expected_row}"));
}

#[test]
fn confirmations_name_what_was_done() {
    assert_eq!(
        record_output("abc", "camera", Decision::Allow, Scope::Once),
        "Recorded: abc / camera -> allow (once).\n"
    );
    assert_eq!(revoke_output("abc", "camera"), "Revoked: abc / camera.\n");
}
