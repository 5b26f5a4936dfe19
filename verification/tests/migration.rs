use mitos_settings::config::entries::Entries;
use mitos_settings::config::loader::{RawDocument, CURRENT_VERSION};
use mitos_settings::config::migration::migrate;

#[test]
fn renames_legacy_wifi_key() {
    let mut entries = Entries::new();
    entries.insert("wifi.enabled".to_string(), "bool:true".to_string());
    let doc = RawDocument { version: 1, entries };

    let migrated = migrate(doc);

    assert_eq!(migrated.version, CURRENT_VERSION);
    assert!(!migrated.entries.contains_key("wifi.enabled"));
    assert_eq!(migrated.entries.get("network.wifi_enabled").unwrap(), "bool:true");
}

#[test]
fn current_version_doc_is_left_untouched() {
    let mut entries = Entries::new();
    entries.insert("display.brightness".to_string(), "int:80".to_string());
    let doc = RawDocument { version: CURRENT_VERSION, entries: entries.clone() };
    let migrated = migrate(doc);
    assert_eq!(migrated.entries, entries);
}

#[test]
fn a_current_version_doc_keeps_a_legacy_looking_key() {
    let mut entries = Entries::new();
    entries.insert("wifi.enabled".to_string(), "bool:false".to_string());
    let migrated = migrate(RawDocument { version: 2, entries });
    assert_eq!(migrated.entries.get("wifi.enabled").unwrap(), "bool:false");
    assert!(!migrated.entries.contains_key("network.wifi_enabled"));
}

#[test]
fn a_version_zero_doc_is_brought_to_the_current_version() {
    let mut entries = Entries::new();
    entries.insert("sound.volume".to_string(), "int:40".to_string());
    let migrated = migrate(RawDocument { version: 0, entries });
    assert_eq!(migrated.version, 2);
    assert_eq!(migrated.entries.get("sound.volume").unwrap(), "int:40");
    assert_eq!(migrated.entries.len(), 1);
}

#[test]
fn migrating_twice_changes_nothing_more() {
    let mut entries = Entries::new();
    entries.insert("wifi.enabled".to_string(), "bool:true".to_string());
    entries.insert("display.brightness".to_string(), "int:80".to_string());
    let once = migrate(RawDocument { version: 1, entries });
    let twice = migrate(once.clone());
    assert_eq!(twice.version, once.version);
    assert_eq!(twice.entries, once.entries);
}
