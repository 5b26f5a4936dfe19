use mitos_settings::grants::service_client::{
    check_command, check_reply, grant_command, grant_reply, list_command, list_reply, ping_command, ping_reply,
    revoke_command, revoke_reply, sha256_from_output, sha256sum_failure, socket_path, CheckResult, GrantResult,
};
use mitos_settings::grants::{Decision, Risk, Scope};

#[test]
fn commands_are_space_separated_words() {
    assert_eq!(ping_command(), "PING");
    assert_eq!(list_command(), "LIST-RAW");
    assert_eq!(check_command("abc", "camera"), "CHECK abc camera");
    assert_eq!(revoke_command("abc", "camera"), "REVOKE abc camera");
    assert_eq!(
        grant_command("abc", "camera", Decision::Allow, Scope::Session, 1000),
        "GRANT abc camera allow session 1000"
    );
    assert_eq!(grant_command("h", "c", Decision::Deny, Scope::Once, 0), "GRANT h c deny once 0");
    assert_eq!(socket_path(), "/run/mitos-service/control.sock");
}

#[test]
fn ping_wants_pong() {
    assert!(ping_reply("PONG\n"));
    assert!(ping_reply("  PONG  "));
    assert!(!ping_reply("pong"));
    assert!(!ping_reply(""));
}

#[test]
fn check_replies() {
    assert_eq!(check_reply("ALLOW\n"), Ok(CheckResult::Allow));
    assert_eq!(check_reply("DENY"), Ok(CheckResult::Deny));
    assert_eq!(check_reply("ASK dangerous\n"), Ok(CheckResult::Ask(Risk::Dangerous)));
    assert_eq!(
        check_reply("ASK extreme"),
        Err("mitos-service reported an unrecognized risk 'extreme'".to_string())
    );
    assert_eq!(check_reply("WAT\n"), Err("unexpected reply to CHECK: WAT".to_string()));
}

#[test]
fn grant_replies() {
    assert_eq!(grant_reply("granted\n"), Ok(GrantResult::Granted));
    assert_eq!(grant_reply("denied: wrong password\n"), Ok(GrantResult::Denied("wrong password".to_string())));
    assert_eq!(grant_reply("error: no session for uid 1000"), Err("no session for uid 1000".to_string()));
    assert_eq!(grant_reply("huh"), Err("unexpected reply to GRANT: huh".to_string()));
}

#[test]
fn revoke_replies() {
    assert_eq!(revoke_reply("revoked\n"), Ok(()));
    assert_eq!(revoke_reply("nope\n"), Err("unexpected reply to REVOKE: nope".to_string()));
}

#[test]
fn list_reply_skips_malformed_lines() {
    let reply = "abc|camera|allow|always|1700000000|low\n\
                 bad line\n\
                 def|mic|maybe|always|1|low\n\
                 ghi|raw_disk|deny|session|42|critical\n\
                 jkl|x|allow|once|notanumber|low\n\
                 mno|y|allow|once|18446744073709551616|low\n";
    let grants = list_reply(reply);
    assert_eq!(grants.len(), 2);
    assert_eq!(grants[0].sha256, "abc");
    assert_eq!(grants[0].capability, "camera");
    assert_eq!(grants[0].decision, Decision::Allow);
    assert_eq!(grants[0].scope, Scope::Always);
    assert_eq!(grants[0].granted_at, 1_700_000_000);
    assert_eq!(grants[0].risk, Risk::Low);
    assert_eq!(grants[1].sha256, "ghi");
    assert_eq!(grants[1].risk, Risk::Critical);
    assert_eq!(grants[1].granted_at, 42);
    assert!(list_reply("").is_empty());
}

#[test]
fn sha256sum_output_is_read_down_to_the_digest() {
    let upper = format!("{}  /usr/bin/app\n", "AB".repeat(32));
    assert_eq!(sha256_from_output(&upper).unwrap(), "ab".repeat(32));
    let lower = format!("{} file", "0f".repeat(32));
    assert_eq!(sha256_from_output(&lower).unwrap(), "0f".repeat(32));
    let short = "abc  file\n";
    assert_eq!(sha256_from_output(short).unwrap_err(), format!("could not parse sha256sum output: {short}"));
    let not_hex = format!("{}  file\n", "zz".repeat(32));
    assert!(sha256_from_output(&not_hex).is_err());
    assert!(sha256_from_output("   \n").is_err());
    assert_eq!(sha256sum_failure("  no such file\n"), "sha256sum failed: no such file");
}
