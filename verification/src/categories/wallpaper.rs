//! The "Wallpaper" entry of the settings navigator.

use vstd::prelude::*;
use crate::categories::Category;
use crate::permissions::PrivilegeLevel;
use crate::settings::schema::{strs_view, Schema, SettingSpec, SpecView};
use crate::settings::value::{Milli, Value, ValueKind, ValueView};

verus! {

/// The "Wallpaper" entry of the settings navigator.
#[derive(Clone, Copy)]
pub struct WallpaperCategory;

/// The settings the "Wallpaper" category registers, in registration order.
pub open spec fn wallpaper_settings() -> Seq<SpecView> {
    seq![
        SpecView::new("wallpaper.desktop_path"@, "wallpaper"@, "Desktop background"@, "Path to the current desktop wallpaper image"@, ValueKind::Str, ValueView::Str("/usr/share/mitos/wallpapers/default.png"@), PrivilegeLevel::User),
        SpecView::new("wallpaper.lock_screen_path"@, "wallpaper"@, "Lock screen background"@, "Path to the image shown on the lock screen"@, ValueKind::Str, ValueView::Str("/usr/share/mitos/wallpapers/default.png"@), PrivilegeLevel::User),
        SpecView::new("wallpaper.slideshow_enabled"@, "wallpaper"@, "Slideshow"@, "Cycle through a folder of images instead of a single wallpaper"@, ValueKind::Bool, ValueView::Bool(false), PrivilegeLevel::User),
        SpecView::new("wallpaper.slideshow_interval_minutes"@, "wallpaper"@, "Slideshow interval"@, "Minutes between slideshow image changes"@, ValueKind::Int, ValueView::Int(30), PrivilegeLevel::User)
            .with_range(1000, 1440000),
        SpecView::new("wallpaper.position"@, "wallpaper"@, "Picture position"@, "How the wallpaper image is fit to the screen"@, ValueKind::Str, ValueView::Str("fill"@), PrivilegeLevel::User)
            .with_choices(seq!["fill"@, "fit"@, "stretch"@, "center"@, "tile"@]),
    ]
}

impl Category for WallpaperCategory {
    open spec fn spec_id(&self) -> Seq<char> {
        "wallpaper"@
    }

    open spec fn spec_name(&self) -> Seq<char> {
        "Wallpaper"@
    }

    open spec fn spec_icon(&self) -> Seq<char> {
        "preferences-desktop-wallpaper"@
    }

    open spec fn spec_subitems(&self) -> Seq<Seq<char>> {
        seq!["Desktop background"@, "Lock screen background"@, "Slideshow"@, "Picture position"@]
    }

    open spec fn spec_settings(&self) -> Seq<SpecView> {
        wallpaper_settings()
    }

    open spec fn spec_live_info(&self) -> Seq<(Seq<char>, Seq<char>)> {
        Seq::empty()
    }

    fn id(&self) -> (r: &'static str) {
        "wallpaper"
    }

    fn name(&self) -> (r: &'static str) {
        "Wallpaper"
    }

    fn icon(&self) -> (r: &'static str) {
        "preferences-desktop-wallpaper"
    }

    fn subitems(&self) -> (r: &'static [&'static str]) {
        let r: &'static [&'static str] = &["Desktop background", "Lock screen background", "Slideshow", "Picture position"];
        proof {
            assert(strs_view(r@) =~= self.spec_subitems());
        }
        r
    }

    fn register(&self, schema: &mut Schema) {
        let spec = SettingSpec::new(
            "wallpaper.desktop_path",
            "wallpaper",
            "Desktop background",
            "Path to the current desktop wallpaper image",
            ValueKind::Str,
            Value::Str(String::from_str("/usr/share/mitos/wallpapers/default.png")),
            PrivilegeLevel::User,
        );
        assert(spec@ == wallpaper_settings()[0]);
        schema.register(spec);
        let spec = SettingSpec::new(
            "wallpaper.lock_screen_path",
            "wallpaper",
            "Lock screen background",
            "Path to the image shown on the lock screen",
            ValueKind::Str,
            Value::Str(String::from_str("/usr/share/mitos/wallpapers/default.png")),
            PrivilegeLevel::User,
        );
        assert(spec@ == wallpaper_settings()[1]);
        schema.register(spec);
        let spec = SettingSpec::new(
            "wallpaper.slideshow_enabled",
            "wallpaper",
            "Slideshow",
            "Cycle through a folder of images instead of a single wallpaper",
            ValueKind::Bool,
            Value::Bool(false),
            PrivilegeLevel::User,
        );
        assert(spec@ == wallpaper_settings()[2]);
        schema.register(spec);
        let spec = SettingSpec::new(
            "wallpaper.slideshow_interval_minutes",
            "wallpaper",
            "Slideshow interval",
            "Minutes between slideshow image changes",
            ValueKind::Int,
            Value::Int(30),
            PrivilegeLevel::User,
        )
        .range(Milli(1000), Milli(1440000));
        assert(spec@ == wallpaper_settings()[3]);
        schema.register(spec);
        let spec = SettingSpec::new(
            "wallpaper.position",
            "wallpaper",
            "Picture position",
            "How the wallpaper image is fit to the screen",
            ValueKind::Str,
            Value::Str(String::from_str("fill")),
            PrivilegeLevel::User,
        )
        .choices(&["fill", "fit", "stretch", "center", "tile"]);
        assert(spec@.choices == wallpaper_settings()[4].choices);
        assert(spec@ == wallpaper_settings()[4]);
        schema.register(spec);
        proof {
            assert(schema@.specs =~= old(schema)@.specs + wallpaper_settings());
        }
    }

    fn live_info(&self) -> (r: Vec<(&'static str, String)>) {
        let rows: Vec<(&'static str, String)> = Vec::new();
        proof {
            assert(crate::categories::live_rows_view(rows@) =~= self.spec_live_info());
        }
        rows
    }
}

/// Every setting of the "Wallpaper" category belongs to it, and its default meets
/// the setting's own constraints.
pub proof fn lemma_wallpaper_defaults_valid()
    ensures
        forall|i: int|
            0 <= i < wallpaper_settings().len() ==> #[trigger] wallpaper_settings()[i].default_is_valid()
                && wallpaper_settings()[i].category == "wallpaper"@,
{
    assert(wallpaper_settings()[4].choices->0[0] == wallpaper_settings()[4].default->Str_0);
}

} // verus!
