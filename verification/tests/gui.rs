use mitos_settings::categories::register_all;
use mitos_settings::grants::Risk;
use mitos_settings::gui::change_password::password_problem;
use mitos_settings::gui::permissions_page::{add_grant_problem, is_sha256_hex, risk_badge, short_hash, use_path_notice};
use mitos_settings::gui::widgets::{control_for, dropdown_index, entry_placeholder, row_label, ControlKind};
use mitos_settings::gui::window::{search_settings, select_hits, LoweredFields};
use mitos_settings::permissions::PrivilegeLevel;
use mitos_settings::settings::schema::{Schema, SettingSpec, ValueFormat};
use mitos_settings::settings::value::{Value, ValueKind};

#[test]
fn short_hash_keeps_twelve_bytes() {
    assert_eq!(short_hash(&"0123456789abcdef".repeat(4)), "0123456789ab…");
    assert_eq!(short_hash("abc"), "abc…");
    assert_eq!(short_hash("ééééééé"), "éééééé…");
    assert_eq!(short_hash("aéééééé"), "aéééééé…");
}

#[test]
fn only_dangerous_and_critical_grants_get_a_badge() {
    assert_eq!(risk_badge(Risk::Low), None);
    assert_eq!(risk_badge(Risk::Moderate), None);
    assert_eq!(risk_badge(Risk::Dangerous), Some(("Requires password", "warning")));
    assert_eq!(risk_badge(Risk::Critical), Some(("Requires password · Critical", "error")));
}

#[test]
fn sha256_shape_is_checked_bytewise() {
    assert!(is_sha256_hex(&"aF09".repeat(16)));
    assert!(!is_sha256_hex(&"a".repeat(63)));
    assert!(!is_sha256_hex(&"g".repeat(64)));
    assert!(!is_sha256_hex(""));
}

#[test]
fn the_add_grant_form_needs_a_hash_and_a_capability() {
    let hash = "a".repeat(64);
    assert_eq!(add_grant_problem("nope", "camera"), Some("Not a valid SHA-256 hash (64 hex characters)."));
    assert_eq!(add_grant_problem(&hash, ""), Some("Enter a capability name."));
    assert_eq!(add_grant_problem(&hash, "camera"), None);
    assert_eq!(use_path_notice(&hash), Some("That already looks like a hash."));
    assert_eq!(use_path_notice("/usr/bin/app"), None);
}

#[test]
fn passwords_must_match_and_be_long_enough() {
    assert_eq!(password_problem("abcdefgh", "abcdefgx"), Some("Passwords do not match"));
    assert_eq!(password_problem("short", "short"), Some("Password must be at least 8 characters"));
    assert_eq!(password_problem("abcdefgh", "abcdefgh"), None);
    assert_eq!(password_problem("éééé", "éééé"), None);
}

fn spec(kind: ValueKind, default: Value) -> SettingSpec {
    SettingSpec::new("x.key", "x", "Label", "A setting", kind, default, PrivilegeLevel::User)
}

#[test]
fn each_kind_of_setting_gets_its_control() {
    assert_eq!(control_for(&spec(ValueKind::Bool, Value::Bool(true))), ControlKind::Switch);
    assert_eq!(control_for(&spec(ValueKind::Int, Value::Int(1))), ControlKind::IntSpin);
    assert_eq!(control_for(&spec(ValueKind::Str, Value::Str("a".to_string()))), ControlKind::Entry);
    assert_eq!(
        control_for(&spec(ValueKind::Str, Value::Str("a".to_string())).choices(&["a", "b"])),
        ControlKind::Dropdown
    );
    assert_eq!(control_for(&spec(ValueKind::StrList, Value::StrList(vec![]))), ControlKind::Entry);
}

#[test]
fn elevated_settings_are_labelled_admin() {
    let user = spec(ValueKind::Bool, Value::Bool(true));
    assert_eq!(row_label(&user), "Label");
    let admin = SettingSpec::new("x.key", "x", "Label", "A setting", ValueKind::Bool, Value::Bool(true), PrivilegeLevel::Admin);
    assert_eq!(row_label(&admin), "Label (admin)");
}

#[test]
fn dropdowns_start_on_the_current_choice() {
    assert_eq!(dropdown_index(&["light", "dark", "auto"], "dark"), 1);
    assert_eq!(dropdown_index(&["light", "dark", "auto"], "sepia"), 0);
    assert_eq!(dropdown_index(&[], "x"), 0);
}

#[test]
fn colour_entries_hint_at_their_form() {
    let colour = spec(ValueKind::Str, Value::Str("#336699".to_string())).format(ValueFormat::HexColor);
    assert_eq!(entry_placeholder(&colour), Some("#RRGGBB"));
    assert_eq!(entry_placeholder(&spec(ValueKind::Str, Value::Str("a".to_string()))), None);
}

#[test]
fn search_matches_label_description_and_category_in_any_case() {
    let mut schema = Schema::new();
    register_all(&mut schema);
    assert!(search_settings(&schema, "   ").is_none());
    let hits = search_settings(&schema, "  VOLUME ").unwrap();
    assert!(!hits.is_empty());
    assert!(hits.iter().any(|(name, s)| s.key == "sound.volume" && *name == "Sound"));
    assert!(search_settings(&schema, "zzzz-no-such-setting").unwrap().is_empty());
}

#[test]
fn hits_are_the_settings_whose_lowered_fields_hold_the_needle() {
    let mut schema = Schema::new();
    register_all(&mut schema);
    let n = schema.len();
    let blank = || LoweredFields { label: String::new(), description: String::new(), category: String::new() };
    let mut lowered: Vec<LoweredFields> = (0..n).map(|_| blank()).collect();
    let idx = schema.all().iter().position(|s| s.key == "sound.volume").unwrap();
    lowered[idx].description = "loud enough".to_string();
    let hits = select_hits(&schema, &lowered, "enough");
    assert_eq!(hits.len(), 1);
    assert_eq!(hits[0].0, "Sound");
    assert_eq!(hits[0].1.key, "sound.volume");
    assert_eq!(select_hits(&schema, &lowered, "").len(), n);
    lowered[idx].description = "loud".to_string();
    lowered[idx].category = "enough".to_string();
    assert_eq!(select_hits(&schema, &lowered, "loud enough").len(), 0);
}

#[test]
fn search_matches_the_category_name_not_its_id() {
    let mut schema = Schema::new();
    register_all(&mut schema);
    let by_name = search_settings(&schema, "Date & Time").unwrap();
    assert!(!by_name.is_empty());
    assert!(by_name.iter().all(|(name, s)| *name == "Date & Time" && s.category == "date_time"));
    let n = schema.by_category("date_time").len();
    assert_eq!(by_name.len(), n);
    assert!(search_settings(&schema, "date_time").unwrap().is_empty());
}
