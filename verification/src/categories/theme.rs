//! The "Theme" entry of the settings navigator.

use vstd::prelude::*;
use crate::categories::Category;
use crate::permissions::PrivilegeLevel;
use crate::settings::schema::{strs_view, Schema, SettingSpec, SpecView};
use crate::settings::value::{Milli, Value, ValueKind, ValueView};

verus! {

/// The "Theme" entry of the settings navigator.
#[derive(Clone, Copy)]
pub struct ThemeCategory;

/// The settings the "Theme" category registers, in registration order.
pub open spec fn theme_settings() -> Seq<SpecView> {
    seq![
        SpecView::new("theme.mode"@, "theme"@, "Appearance mode"@, "Whether the desktop uses a light or dark color scheme"@, ValueKind::Str, ValueView::Str("system"@), PrivilegeLevel::User)
            .with_choices(seq!["light"@, "dark"@, "system"@]),
        SpecView::new("theme.window_theme"@, "theme"@, "Window theme"@, "GTK/Qt-style window decoration theme"@, ValueKind::Str, ValueView::Str("mitos-default"@), PrivilegeLevel::User),
        SpecView::new("theme.cursor_theme"@, "theme"@, "Cursor theme"@, "Mouse pointer icon set"@, ValueKind::Str, ValueView::Str("mitos-default"@), PrivilegeLevel::User),
        SpecView::new("theme.cursor_size"@, "theme"@, "Cursor size"@, "Pointer size in pixels"@, ValueKind::Int, ValueView::Int(24), PrivilegeLevel::User)
            .with_range(16000, 64000),
    ]
}

impl Category for ThemeCategory {
    open spec fn spec_id(&self) -> Seq<char> {
        "theme"@
    }

    open spec fn spec_name(&self) -> Seq<char> {
        "Theme"@
    }

    open spec fn spec_icon(&self) -> Seq<char> {
        "preferences-desktop-theme"@
    }

    open spec fn spec_subitems(&self) -> Seq<Seq<char>> {
        seq!["Light/dark mode"@, "Window theme"@, "Cursor theme"@]
    }

    open spec fn spec_settings(&self) -> Seq<SpecView> {
        theme_settings()
    }

    open spec fn spec_live_info(&self) -> Seq<(Seq<char>, Seq<char>)> {
        Seq::empty()
    }

    fn id(&self) -> (r: &'static str) {
        "theme"
    }

    fn name(&self) -> (r: &'static str) {
        "Theme"
    }

    fn icon(&self) -> (r: &'static str) {
        "preferences-desktop-theme"
    }

    fn subitems(&self) -> (r: &'static [&'static str]) {
        let r: &'static [&'static str] = &["Light/dark mode", "Window theme", "Cursor theme"];
        proof {
            assert(strs_view(r@) =~= self.spec_subitems());
        }
        r
    }

    fn register(&self, schema: &mut Schema) {
        let spec = SettingSpec::new(
            "theme.mode",
            "theme",
            "Appearance mode",
            "Whether the desktop uses a light or dark color scheme",
            ValueKind::Str,
            Value::Str(String::from_str("system")),
            PrivilegeLevel::User,
        )
        .choices(&["light", "dark", "system"]);
        assert(spec@.choices == theme_settings()[0].choices);
        assert(spec@ == theme_settings()[0]);
        schema.register(spec);
        let spec = SettingSpec::new(
            "theme.window_theme",
            "theme",
            "Window theme",
            "GTK/Qt-style window decoration theme",
            ValueKind::Str,
            Value::Str(String::from_str("mitos-default")),
            PrivilegeLevel::User,
        );
        assert(spec@ == theme_settings()[1]);
        schema.register(spec);
        let spec = SettingSpec::new(
            "theme.cursor_theme",
            "theme",
            "Cursor theme",
            "Mouse pointer icon set",
            ValueKind::Str,
            Value::Str(String::from_str("mitos-default")),
            PrivilegeLevel::User,
        );
        assert(spec@ == theme_settings()[2]);
        schema.register(spec);
        let spec = SettingSpec::new(
            "theme.cursor_size",
            "theme",
            "Cursor size",
            "Pointer size in pixels",
            ValueKind::Int,
            Value::Int(24),
            PrivilegeLevel::User,
        )
        .range(Milli(16000), Milli(64000));
        assert(spec@ == theme_settings()[3]);
        schema.register(spec);
        proof {
            assert(schema@.specs =~= old(schema)@.specs + theme_settings());
        }
    }

    fn live_info(&self) -> (r: Vec<(&'static str, String)>) {
        let rows: Vec<(&'static str, String)> = Vec::new();
        proof {
            assert(crate::categories::live_rows_view(rows@) =~= self.spec_live_info());
        }
        rows
    }
}

/// Every setting of the "Theme" category belongs to it, and its default meets
/// the setting's own constraints.
pub proof fn lemma_theme_defaults_valid()
    ensures
        forall|i: int|
            0 <= i < theme_settings().len() ==> #[trigger] theme_settings()[i].default_is_valid()
                && theme_settings()[i].category == "theme"@,
{
    assert(theme_settings()[0].choices->0[2] == theme_settings()[0].default->Str_0);
}

} // verus!
