use mitos_settings::config::entries::Entries;
use mitos_settings::config::loader::{missing_file_document, parse, RawDocument, CURRENT_VERSION};
use mitos_settings::config::paths;
use mitos_settings::config::writer::render;

#[test]
fn missing_file_yields_empty_current_version_doc() {
    let doc = missing_file_document();
    assert_eq!(doc.version, CURRENT_VERSION);
    assert!(doc.entries.is_empty());
}

#[test]
fn parses_versioned_entries_and_skips_comments() {
    let contents = "__version__=2\n# a comment\ndisplay.brightness=int:80\n";
    let doc = parse(contents);
    assert_eq!(doc.version, 2);
    assert_eq!(doc.entries.get("display.brightness").unwrap(), "int:80");
}

#[test]
fn round_trips_through_load() {
    let mut doc = RawDocument { version: 2, entries: Entries::new() };
    doc.entries.insert("sound.volume".to_string(), "int:65".to_string());
    let text = render(&doc);

    let reloaded = parse(&text);
    assert_eq!(reloaded.version, 2);
    assert_eq!(reloaded.entries.get("sound.volume").unwrap(), "int:65");
}

#[test]
fn a_file_without_a_version_line_is_version_one() {
    let doc = parse("wifi.enabled=bool:true\n");
    assert_eq!(doc.version, 1);
    assert_eq!(doc.entries.get("wifi.enabled").unwrap(), "bool:true");
}

#[test]
fn values_keep_everything_after_the_first_equals_sign() {
    let doc = parse("__version__=2\nappearance.note=str:a=b\n");
    assert_eq!(doc.entries.get("appearance.note").unwrap(), "str:a=b");
}

#[test]
fn blank_and_malformed_lines_are_skipped() {
    let doc = parse("__version__=2\n\n   \nno equals sign here\nsound.volume=int:3\n");
    assert_eq!(doc.entries.len(), 1);
    assert_eq!(doc.entries.get("sound.volume").unwrap(), "int:3");
}

#[test]
fn rendering_writes_the_version_then_sorted_entries() {
    let mut entries = Entries::new();
    entries.insert("sound.volume".to_string(), "int:65".to_string());
    entries.insert("display.brightness".to_string(), "int:80".to_string());
    let doc = RawDocument { version: 2, entries };
    let text = render(&doc);
    let reloaded = parse(&text);
    assert_eq!(reloaded.version, 2);
    assert_eq!(reloaded.entries, doc.entries);
    let first = text.find("display.brightness").unwrap();
    let second = text.find("sound.volume").unwrap();
    assert!(first < second);
}

#[test]
fn entries_insert_replaces_and_remove_reports_the_old_value() {
    let mut entries = Entries::new();
    assert_eq!(entries.insert("a".to_string(), "1".to_string()), None);
    assert_eq!(entries.insert("a".to_string(), "2".to_string()), Some("1".to_string()));
    assert_eq!(entries.len(), 1);
    assert_eq!(entries.remove("a"), Some("2".to_string()));
    assert_eq!(entries.remove("a"), None);
    assert!(entries.is_empty());
}

#[test]
fn user_config_dir_prefers_a_non_empty_xdg_config_home() {
    assert_eq!(paths::user_config_dir_for(Some("/x/cfg"), Some("/home/u")), "/x/cfg/mitos-settings");
    assert_eq!(paths::user_config_dir_for(Some(""), Some("/home/u")), "/home/u/.config/mitos-settings");
    assert_eq!(paths::user_config_dir_for(None, None), "/tmp/.config/mitos-settings");
}

#[test]
fn fixed_paths() {
    assert_eq!(paths::system_config_dir(), "/etc/mitos-settings");
    assert_eq!(paths::system_config_path(), "/etc/mitos-settings/settings.conf");
    assert_eq!(paths::daemon_socket_path(), "/run/mitos-settings/daemon.sock");
    assert_eq!(paths::user_config_path("/home/u/.config/mitos-settings"), "/home/u/.config/mitos-settings/settings.conf");
}

#[test]
fn runtime_and_shared_dirs() {
    assert_eq!(paths::runtime_dir_for(Some("/run/user/1000")), "/run/user/1000");
    assert_eq!(paths::runtime_dir_for(Some("")), "/run");
    assert_eq!(paths::runtime_dir_for(None), "/run");
    assert_eq!(paths::mitos_shared_config_dir_for(None, Some("/home/u/")), "/home/u/.config/mitos");
    assert_eq!(paths::home_conf_path("/home/u/.config/mitos"), "/home/u/.config/mitos/home.conf");
}

#[test]
fn joining_an_absolute_name_replaces_the_base() {
    assert_eq!(paths::join("/a/b", "/c"), "/c");
    assert_eq!(paths::join("", "c"), "c");
    assert_eq!(paths::join("/a/", "c"), "/a/c");
}
