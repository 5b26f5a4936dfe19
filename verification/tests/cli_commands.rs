use mitos_settings::categories::register_all;
use mitos_settings::cli::history::{self, HistoryEntry};
use mitos_settings::cli::list::category_output;
use mitos_settings::cli::pick_wallpaper::{self, wallpaper_set_output, WallpaperPick};
use mitos_settings::cli::reset::{self, reset_output, ResetRequest};
use mitos_settings::cli::set::{invalid_value, updated_output, SetRequest};
use mitos_settings::cli::{get, import};
use mitos_settings::settings::schema::Schema;
use mitos_settings::settings::value::{Milli, Value, ValueKind};

fn args(list: &[&str]) -> Vec<String> {
    list.iter().map(|s| s.to_string()).collect()
}

#[test]
fn missing_key_argument_is_a_usage_error() {
    assert!(get::execute(&[]).is_err());
    assert_eq!(get::execute(&args(&["sound.volume"])).unwrap(), "sound.volume");
}

#[test]
fn missing_argument_is_a_usage_error() {
    assert_eq!(reset::execute(&[]).unwrap_err(), "usage: mitos-settings reset <key> | --all");
    assert_eq!(reset::execute(&args(&["--all"])).unwrap(), ResetRequest::All);
    assert_eq!(reset::execute(&args(&["sound.volume"])).unwrap(), ResetRequest::Key("sound.volume".to_string()));
    assert_eq!(reset_output(&ResetRequest::All), "Reset every setting to its default.");
    assert_eq!(reset_output(&ResetRequest::Key("a.b".to_string())), "Reset a.b to its default.");
}

#[test]
fn rejects_missing_path_argument() {
    assert!(import::execute(&[]).is_err());
    assert_eq!(import::execute(&args(&["values.json"])).unwrap(), "values.json");
    assert_eq!(import::imported_output(1, "f.json"), "Imported 1 setting(s) from f.json.\n");
    assert_eq!(import::read_error("f.json", "not found"), "couldn't read f.json: not found");
}

#[test]
fn rejects_a_non_numeric_count() {
    assert!(history::execute(&args(&["not-a-number"])).is_err());
    assert_eq!(history::execute(&[]).unwrap(), 20);
    assert_eq!(history::execute(&args(&["5"])).unwrap(), 5);
}

#[test]
fn reports_unavailable_without_history_paths_configured() {
    let output = history::history_output(None);
    assert!(output.contains("isn't available"));
    assert_eq!(history::history_output(Some(&[])), "No changes recorded yet.\n");
}

#[test]
fn shows_a_recorded_change() {
    let entries = vec![HistoryEntry { timestamp_unix: 1_700_000_000, key: "sound.volume".to_string(), value: "11".to_string() }];
    let output = history::history_output(Some(&entries));
    assert!(output.contains("sound.volume"));
    assert!(output.contains("11"));
    assert_eq!(
        output,
        format!(
            "{:<12} {:<32} {}\n{:<12} {:<32} {}\n",
            "WHEN (unix)", "KEY", "VALUE", 1_700_000_000u64, "sound.volume", "11"
        )
    );
}

#[test]
fn rejects_unknown_key() {
    let mut schema = Schema::new();
    register_all(&mut schema);
    assert_eq!(mitos_settings::cli::set::execute(&schema, &args(&["nonexistent.key", "1"])).unwrap_err(), "unknown setting 'nonexistent.key'");
    assert_eq!(mitos_settings::cli::set::execute(&schema, &args(&["sound.volume"])).unwrap_err(), "usage: mitos-settings set <key> <value>");
    assert_eq!(
        mitos_settings::cli::set::execute(&schema, &args(&["sound.volume", "70"])).unwrap(),
        SetRequest { key: "sound.volume".to_string(), value: Value::Int(70) }
    );
    assert_eq!(invalid_value("sound.volume", "not a number"), "invalid value for 'sound.volume': not a number");
    assert_eq!(updated_output("sound.volume"), "Updated sound.volume.");
}

#[test]
fn the_picker_answer_decides_what_happens() {
    assert_eq!(
        pick_wallpaper::execute(Ok(Some("/home/u/a.png".to_string()))).unwrap(),
        WallpaperPick::Apply("/home/u/a.png".to_string())
    );
    assert_eq!(
        pick_wallpaper::execute(Ok(None)).unwrap(),
        WallpaperPick::Nothing("No file selected.".to_string())
    );
    assert_eq!(
        pick_wallpaper::execute(Err("no bus".to_string())).unwrap_err(),
        "could not reach the MITOS file picker: no bus"
    );
    assert_eq!(wallpaper_set_output("/a.png"), "Wallpaper set to /a.png.");
}

#[test]
fn category_listing_shows_values_then_live_rows() {
    let settings = vec![("sound.volume", "50".to_string())];
    let live = vec![("card", "0: HDA".to_string())];
    assert_eq!(
        category_output(&settings, &live),
        format!("{:<32} {}\n{:<32} {} (live)\n", "sound.volume", "50", "card", "0: HDA")
    );
    assert_eq!(category_output(&[], &[]), "");
}

#[test]
fn rejects_invalid_value_before_touching_the_manager() {
    let mut schema = Schema::new();
    register_all(&mut schema);
    let result = mitos_settings::cli::set::execute(&schema, &args(&["sound.volume", "not-a-number"]));
    assert_eq!(result.unwrap_err(), "invalid value for 'sound.volume': expected a whole number");
}

#[test]
fn values_are_read_by_kind() {
    assert_eq!(Value::parse(ValueKind::Bool, "true"), Ok(Value::Bool(true)));
    assert_eq!(Value::parse(ValueKind::Bool, "false"), Ok(Value::Bool(false)));
    assert_eq!(Value::parse(ValueKind::Bool, "yes"), Err("expected true or false".to_string()));
    assert_eq!(Value::parse(ValueKind::Int, "-42"), Ok(Value::Int(-42)));
    assert_eq!(Value::parse(ValueKind::Int, "+7"), Ok(Value::Int(7)));
    assert_eq!(Value::parse(ValueKind::Int, "9223372036854775807"), Ok(Value::Int(i64::MAX)));
    assert_eq!(Value::parse(ValueKind::Int, "-9223372036854775808"), Ok(Value::Int(i64::MIN)));
    assert!(Value::parse(ValueKind::Int, "9223372036854775808").is_err());
    assert!(Value::parse(ValueKind::Int, "-").is_err());
    assert!(Value::parse(ValueKind::Int, "+-1").is_err());
    assert!(Value::parse(ValueKind::Int, "1.5").is_err());
    assert_eq!(Value::parse(ValueKind::Float, "1.5"), Ok(Value::Float(Milli(1500))));
    assert_eq!(Value::parse(ValueKind::Float, "-0.25"), Ok(Value::Float(Milli(-250))));
    assert_eq!(Value::parse(ValueKind::Float, "2"), Ok(Value::Float(Milli(2000))));
    assert_eq!(Value::parse(ValueKind::Float, "0.125"), Ok(Value::Float(Milli(125))));
    assert_eq!(
        Value::parse(ValueKind::Float, "0.1234"),
        Err("expected a number with at most three decimal places".to_string())
    );
    assert!(Value::parse(ValueKind::Float, ".5").is_err());
    assert!(Value::parse(ValueKind::Float, "5.").is_err());
    assert_eq!(Value::parse(ValueKind::Str, " a b "), Ok(Value::Str(" a b ".to_string())));
    assert_eq!(
        Value::parse(ValueKind::StrList, "a, b ,c"),
        Ok(Value::StrList(vec!["a".to_string(), "b".to_string(), "c".to_string()]))
    );
    assert_eq!(Value::parse(ValueKind::StrList, "  "), Ok(Value::StrList(vec![])));
}
