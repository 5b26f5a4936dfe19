use mitos_settings::categories::glass::GlassCategory;
use mitos_settings::categories::touchscreen::TouchscreenCategory;
use mitos_settings::categories::{all, find, register_all, Category};
use mitos_settings::settings::schema::Schema;
use mitos_settings::settings::value::{Milli, Value};

#[test]
fn every_category_has_a_unique_id() {
    let categories = all();
    let mut ids: Vec<&str> = categories.iter().map(|c| c.id()).collect();
    ids.sort_unstable();
    let mut deduped = ids.clone();
    deduped.dedup();
    assert_eq!(ids.len(), deduped.len(), "duplicate category id found");
}

#[test]
fn register_all_populates_schema() {
    let mut schema = Schema::new();
    register_all(&mut schema);
    assert!(!schema.is_empty());
    assert_eq!(schema.categories().len(), all().len());
}

#[test]
fn the_navigator_holds_twenty_seven_categories_in_order() {
    let cats = all();
    assert_eq!(cats.len(), 27);
    assert_eq!(cats[0].id(), "appearance");
    assert_eq!(cats[3].id(), "display");
    assert_eq!(cats[26].id(), "about");
}

#[test]
fn find_locates_a_category_by_id() {
    assert_eq!(find("display").unwrap().name(), "Display");
    assert_eq!(find("date_time").unwrap().id(), "date_time");
    assert!(find("not-a-category").is_none());
    assert!(find("glass").is_none());
}

#[test]
fn registered_settings_belong_to_their_categories() {
    let mut schema = Schema::new();
    register_all(&mut schema);
    let sound = schema.by_category("sound");
    assert!(!sound.is_empty());
    assert!(sound.iter().all(|s| s.category == "sound"));
    assert!(schema.get("sound.volume").is_some());
    assert!(schema.get("display.brightness").is_some());
    assert!(schema.get("nonexistent.key").is_none());
    assert_eq!(schema.category("sound").unwrap().name, "Sound");
}

#[test]
fn registering_appends_after_what_the_schema_holds() {
    let mut schema = Schema::new();
    register_all(&mut schema);
    let n = schema.len();
    register_all(&mut schema);
    assert_eq!(schema.len(), 2 * n);
    assert_eq!(schema.categories().len(), 54);
}

#[test]
fn only_the_developer_category_reports_a_fixed_live_row() {
    for c in all() {
        let rows = c.live_info();
        if c.id() == "developer" {
            assert_eq!(rows.len(), 1);
            assert_eq!(rows[0].0, "log_directory");
            assert_eq!(rows[0].1, "/var/log/mitos");
        } else {
            assert!(rows.is_empty());
        }
    }
}

#[test]
fn categories_outside_the_navigator_still_describe_themselves() {
    let mut schema = Schema::new();
    GlassCategory.register(&mut schema);
    TouchscreenCategory.register(&mut schema);
    assert!(!schema.is_empty());
    assert_eq!(GlassCategory.id(), "glass");
    assert_eq!(TouchscreenCategory.id(), "touchscreen");
}

#[test]
fn documented_defaults_and_ranges() {
    let mut schema = Schema::new();
    register_all(&mut schema);
    let volume = schema.get("sound.volume").unwrap();
    assert!(matches!(volume.default, Value::Int(50)));
    let brightness = schema.get("display.brightness").unwrap();
    assert!(matches!(brightness.default, Value::Int(80)));
    assert_eq!(brightness.range, Some((Milli(0), Milli(100_000))));
}
