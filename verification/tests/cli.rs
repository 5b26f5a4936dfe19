use mitos_settings::cli::list::{execute, list_categories, ListRequest};
use mitos_settings::cli::{report, route, unknown_command, Route, USAGE};
use mitos_settings::categories::Category;

fn args(list: &[&str]) -> Vec<String> {
    list.iter().map(|s| s.to_string()).collect()
}

#[test]
fn routes_follow_the_first_argument() {
    assert_eq!(route(&[]), Route::Interactive);
    assert_eq!(route(&args(&["--help"])), Route::Help);
    assert_eq!(route(&args(&["-h"])), Route::Help);
    assert_eq!(route(&args(&["grants", "list"])), Route::Grants);
    assert_eq!(route(&args(&["get", "sound.volume"])), Route::Settings);
    assert_eq!(route(&args(&["frobnicate"])), Route::Settings);
}

#[test]
fn an_unknown_command_shows_the_usage() {
    assert_eq!(unknown_command("frob"), format!("unknown command 'frob'\n\n{USAGE}"));
}

#[test]
fn reports_add_a_missing_newline_and_set_the_exit_code() {
    let ok = report(Ok("done".to_string()));
    assert_eq!((ok.code, ok.stdout.as_str(), ok.stderr.as_str()), (0, "done\n", ""));
    let ok_nl = report(Ok("done\n".to_string()));
    assert_eq!(ok_nl.stdout, "done\n");
    let empty = report(Ok(String::new()));
    assert_eq!((empty.code, empty.stdout.as_str()), (0, ""));
    let err = report(Err("boom".to_string()));
    assert_eq!((err.code, err.stdout.as_str(), err.stderr.as_str()), (1, "", "mitos-settings: boom\n"));
}

#[test]
fn list_with_no_arguments_asks_for_the_categories() {
    assert!(matches!(execute(&[]), Ok(ListRequest::Categories)));
    assert!(matches!(execute(&args(&["--json"])), Ok(ListRequest::Json(None))));
}

#[test]
fn list_of_an_unknown_category_is_an_error() {
    assert_eq!(execute(&args(&["not-a-category"])).err().unwrap(), "unknown category 'not-a-category'");
    assert_eq!(
        execute(&args(&["not-a-category", "--json"])).err().unwrap(),
        "unknown category 'not-a-category'"
    );
}

#[test]
fn json_flag_position_does_not_matter() {
    let a = execute(&args(&["--json", "sound"]));
    let b = execute(&args(&["sound", "--json"]));
    match (a, b) {
        (Ok(ListRequest::Json(Some(x))), Ok(ListRequest::Json(Some(y)))) => {
            assert_eq!(x.id(), "sound");
            assert_eq!(y.id(), "sound");
        }
        _ => panic!("expected JSON listings of the sound category"),
    }
    match execute(&args(&["sound"])) {
        Ok(ListRequest::Category(c)) => assert_eq!(c.id(), "sound"),
        _ => panic!("expected the sound category"),
    }
}

#[test]
fn category_listing_has_one_padded_line_per_category() {
    let out = list_categories();
    assert!(out.contains("display"));
    assert!(out.contains("about"));
    assert!(out.starts_with("appearance       Appearance\n"));
    assert_eq!(out.lines().count(), 27);
    assert!(out.ends_with("about            About MITOS\n"));
}
