use mitos_settings::app::application::{root_menu, Action, Application};
use mitos_settings::app::navigation::Navigation;
use mitos_settings::app::state::AppState;
use mitos_settings::categories::Category;

#[test]
fn push_and_pop_track_breadcrumbs() {
    let mut nav = Navigation::new();
    assert!(nav.is_at_root());
    nav.push("display");
    assert!(!nav.is_at_root());
    assert_eq!(nav.path_string(), "Settings > Display");
    assert_eq!(nav.pop(), Some("display".to_string()));
    assert!(nav.is_at_root());
}

#[test]
fn popping_at_the_root_gives_nothing() {
    let mut nav = Navigation::default();
    assert_eq!(nav.pop(), None);
    assert!(nav.is_at_root());
    assert_eq!(nav.path_string(), "Settings");
    assert!(nav.current_category().is_none());
}

#[test]
fn unknown_ids_are_left_out_of_the_path() {
    let mut nav = Navigation::new();
    nav.push("not-a-category");
    assert_eq!(nav.path_string(), "Settings");
    assert!(nav.current_category().is_none());
    nav.push("sound");
    assert_eq!(nav.path_string(), "Settings > Sound");
    assert_eq!(nav.current_category().unwrap().id(), "sound");
}

#[test]
fn app_state_opens_and_closes_categories() {
    let mut state = AppState::new();
    assert_eq!(state.current_category, None);
    assert!(!state.quit);
    assert!(state.search.is_empty());
    state.open_category(3);
    assert_eq!(state.current_category, Some(3));
    state.close_category();
    assert_eq!(state.current_category, None);
    let d = AppState::default();
    assert_eq!(d.current_category, None);
}

#[test]
fn a_number_at_the_root_opens_that_category() {
    let mut app = Application::new();
    assert_eq!(app.handle_command("4"), Action::Nothing);
    assert_eq!(app.nav.path_string(), "Settings > Display");
    assert_eq!(app.state.current_category, Some(3));
    assert!(!app.nav.is_at_root());
}

#[test]
fn out_of_range_and_garbage_at_the_root_are_refused() {
    let mut app = Application::new();
    assert_eq!(app.handle_command("0"), Action::Print("No such category number.".to_string()));
    assert_eq!(app.handle_command("28"), Action::Print("No such category number.".to_string()));
    assert_eq!(
        app.handle_command("display"),
        Action::Print("Unrecognized command 'display'. Type 'help'.".to_string())
    );
    assert!(app.nav.is_at_root());
    assert_eq!(app.state.current_category, None);
}

#[test]
fn the_last_category_is_about() {
    let mut app = Application::new();
    assert_eq!(app.handle_command("27"), Action::Nothing);
    assert_eq!(app.nav.path_string(), "Settings > About MITOS");
    assert_eq!(app.state.current_category, Some(26));
}

#[test]
fn back_quit_and_help_ignore_letter_case() {
    let mut app = Application::new();
    app.handle_command("1");
    assert_eq!(app.handle_command("BACK"), Action::Nothing);
    assert!(app.nav.is_at_root());
    assert_eq!(app.state.current_category, None);
    match app.handle_command("Help") {
        Action::Print(text) => assert!(text.starts_with("Commands:")),
        other => panic!("unexpected {:?}", other),
    }
    assert!(!app.state.quit);
    assert_eq!(app.handle_command("Exit"), Action::Nothing);
    assert!(app.state.quit);
}

#[test]
fn inside_a_category_set_and_reset_go_to_the_store() {
    let mut app = Application::new();
    app.handle_command("5");
    assert_eq!(
        app.handle_command("set sound.volume 70"),
        Action::Update { key: "sound.volume".to_string(), raw_value: "70".to_string() }
    );
    assert_eq!(
        app.handle_command("set appearance.note a b c"),
        Action::Update { key: "appearance.note".to_string(), raw_value: "a b c".to_string() }
    );
    assert_eq!(app.handle_command("reset sound.volume"), Action::Reset { key: "sound.volume".to_string() });
    assert_eq!(app.handle_command("set sound.volume"), Action::Print("usage: set <key> <value>".to_string()));
    assert_eq!(app.handle_command("reset"), Action::Print("usage: reset <key>".to_string()));
    assert_eq!(
        app.handle_command("frobnicate"),
        Action::Print("Unrecognized command 'frobnicate'. Type 'help'.".to_string())
    );
    assert_eq!(app.handle_command("3"), Action::Print("Unrecognized command '3'. Type 'help'.".to_string()));
    assert_eq!(app.nav.path_string(), "Settings > Sound");
}

#[test]
fn empty_input_does_nothing() {
    let mut app = Application::new();
    assert_eq!(app.handle_command(""), Action::Nothing);
    assert!(app.nav.is_at_root());
    assert!(!app.state.quit);
}

#[test]
fn root_menu_numbers_every_category() {
    let menu = root_menu();
    assert!(menu.starts_with("   1. Appearance\n   2. Theme\n"));
    assert!(menu.contains("\n  10. Touchpad\n"));
    assert!(menu.contains("\n  27. About MITOS\n"));
    assert!(menu.ends_with("\nType a number to open a category, or 'quit'.\n"));
}

#[test]
fn the_path_names_each_known_category_in_order() {
    let mut nav = Navigation::new();
    nav.push("display");
    nav.push("nope");
    nav.push("sound");
    assert_eq!(nav.path_string(), "Settings > Display > Sound");
    assert_eq!(nav.current_category().unwrap().id(), "sound");
    assert_eq!(nav.pop(), Some("sound".to_string()));
    assert!(nav.current_category().is_none());
    assert_eq!(nav.pop(), Some("nope".to_string()));
    assert_eq!(nav.pop(), Some("display".to_string()));
    assert_eq!(nav.pop(), None);
    assert!(nav.is_at_root());
}
