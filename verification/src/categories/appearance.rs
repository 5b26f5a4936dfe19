//! The "Appearance" entry of the settings navigator.

use vstd::prelude::*;
use crate::categories::Category;
use crate::permissions::PrivilegeLevel;
use crate::settings::schema::{strs_view, Schema, SettingSpec, SpecView, ValueFormat};
use crate::settings::value::{Milli, Value, ValueKind, ValueView};

verus! {

/// The "Appearance" entry of the settings navigator.
#[derive(Clone, Copy)]
pub struct AppearanceCategory;

/// The settings the "Appearance" category registers, in registration order.
pub open spec fn appearance_settings() -> Seq<SpecView> {
    seq![
        SpecView::new("appearance.accent_color"@, "appearance"@, "Accent color"@, "Highlight color used for selections, links, toggles, and the MITOS shell. Hex: #RGB, #RRGGBB, or #RRGGBBAA"@, ValueKind::Str, ValueView::Str("#4d9eff"@), PrivilegeLevel::User)
            .with_format(ValueFormat::HexColor),
        SpecView::new("appearance.font_family"@, "appearance"@, "Font"@, "System-wide default UI font"@, ValueKind::Str, ValueView::Str("Inter"@), PrivilegeLevel::User),
        SpecView::new("appearance.font_size"@, "appearance"@, "Font size"@, "Base UI font size in points"@, ValueKind::Float, ValueView::Float(10000), PrivilegeLevel::User)
            .with_range(7000, 18000),
        SpecView::new("appearance.animations_enabled"@, "appearance"@, "Animations"@, "Enable window and transition animations"@, ValueKind::Bool, ValueView::Bool(true), PrivilegeLevel::User),
        SpecView::new("appearance.icon_theme"@, "appearance"@, "Icon theme"@, "Icon pack used across the desktop"@, ValueKind::Str, ValueView::Str("mitos-default"@), PrivilegeLevel::User),
        SpecView::new("appearance.glass_opacity"@, "appearance"@, "Glass opacity"@, "Translucency of the shell's glass panels (0 = fully transparent, 1 = opaque)"@, ValueKind::Float, ValueView::Float(720), PrivilegeLevel::User)
            .with_range(0, 1000),
        SpecView::new("appearance.panel_radius"@, "appearance"@, "Panel corner radius"@, "Corner rounding, in pixels, for shell panels and windows"@, ValueKind::Float, ValueView::Float(18000), PrivilegeLevel::User)
            .with_range(0, 48000),
        SpecView::new("appearance.top_bar_enabled"@, "appearance"@, "Top bar"@, "Show the top status bar"@, ValueKind::Bool, ValueView::Bool(true), PrivilegeLevel::User),
        SpecView::new("appearance.top_bar_height"@, "appearance"@, "Top bar height"@, "Height of the top bar, in pixels"@, ValueKind::Float, ValueView::Float(38000), PrivilegeLevel::User)
            .with_range(24000, 64000),
        SpecView::new("appearance.dock_enabled"@, "appearance"@, "Dock"@, "Show the application dock"@, ValueKind::Bool, ValueView::Bool(true), PrivilegeLevel::User),
        SpecView::new("appearance.dock_height"@, "appearance"@, "Dock height"@, "Height of the dock, in pixels"@, ValueKind::Float, ValueView::Float(72000), PrivilegeLevel::User)
            .with_range(32000, 160000),
        SpecView::new("appearance.launcher_enabled"@, "appearance"@, "Launcher"@, "Show the application launcher button"@, ValueKind::Bool, ValueView::Bool(true), PrivilegeLevel::User),
    ]
}

impl Category for AppearanceCategory {
    open spec fn spec_id(&self) -> Seq<char> {
        "appearance"@
    }

    open spec fn spec_name(&self) -> Seq<char> {
        "Appearance"@
    }

    open spec fn spec_icon(&self) -> Seq<char> {
        "preferences-desktop-appearance"@
    }

    open spec fn spec_subitems(&self) -> Seq<Seq<char>> {
        seq!["Colors"@, "Fonts"@, "Animations"@, "Icon theme"@, "Glass & panels"@, "Shell layout"@]
    }

    open spec fn spec_settings(&self) -> Seq<SpecView> {
        appearance_settings()
    }

    open spec fn spec_live_info(&self) -> Seq<(Seq<char>, Seq<char>)> {
        Seq::empty()
    }

    fn id(&self) -> (r: &'static str) {
        "appearance"
    }

    fn name(&self) -> (r: &'static str) {
        "Appearance"
    }

    fn icon(&self) -> (r: &'static str) {
        "preferences-desktop-appearance"
    }

    fn subitems(&self) -> (r: &'static [&'static str]) {
        let r: &'static [&'static str] = &["Colors", "Fonts", "Animations", "Icon theme", "Glass & panels", "Shell layout"];
        proof {
            assert(strs_view(r@) =~= self.spec_subitems());
        }
        r
    }

    fn register(&self, schema: &mut Schema) {
        let spec = SettingSpec::new(
            "appearance.accent_color",
            "appearance",
            "Accent color",
            "Highlight color used for selections, links, toggles, and the MITOS shell. Hex: #RGB, #RRGGBB, or #RRGGBBAA",
            ValueKind::Str,
            Value::Str(String::from_str("#4d9eff")),
            PrivilegeLevel::User,
        )
        .format(ValueFormat::HexColor);
        assert(spec@ == appearance_settings()[0]);
        schema.register(spec);
        let spec = SettingSpec::new(
            "appearance.font_family",
            "appearance",
            "Font",
            "System-wide default UI font",
            ValueKind::Str,
            Value::Str(String::from_str("Inter")),
            PrivilegeLevel::User,
        );
        assert(spec@ == appearance_settings()[1]);
        schema.register(spec);
        let spec = SettingSpec::new(
            "appearance.font_size",
            "appearance",
            "Font size",
            "Base UI font size in points",
            ValueKind::Float,
            Value::Float(Milli(10000)),
            PrivilegeLevel::User,
        )
        .range(Milli(7000), Milli(18000));
        assert(spec@ == appearance_settings()[2]);
        schema.register(spec);
        let spec = SettingSpec::new(
            "appearance.animations_enabled",
            "appearance",
            "Animations",
            "Enable window and transition animations",
            ValueKind::Bool,
            Value::Bool(true),
            PrivilegeLevel::User,
        );
        assert(spec@ == appearance_settings()[3]);
        schema.register(spec);
        let spec = SettingSpec::new(
            "appearance.icon_theme",
            "appearance",
            "Icon theme",
            "Icon pack used across the desktop",
            ValueKind::Str,
            Value::Str(String::from_str("mitos-default")),
            PrivilegeLevel::User,
        );
        assert(spec@ == appearance_settings()[4]);
        schema.register(spec);
        let spec = SettingSpec::new(
            "appearance.glass_opacity",
            "appearance",
            "Glass opacity",
            "Translucency of the shell's glass panels (0 = fully transparent, 1 = opaque)",
            ValueKind::Float,
            Value::Float(Milli(720)),
            PrivilegeLevel::User,
        )
        .range(Milli(0), Milli(1000));
        assert(spec@ == appearance_settings()[5]);
        schema.register(spec);
        let spec = SettingSpec::new(
            "appearance.panel_radius",
            "appearance",
            "Panel corner radius",
            "Corner rounding, in pixels, for shell panels and windows",
            ValueKind::Float,
            Value::Float(Milli(18000)),
            PrivilegeLevel::User,
        )
        .range(Milli(0), Milli(48000));
        assert(spec@ == appearance_settings()[6]);
        schema.register(spec);
        let spec = SettingSpec::new(
            "appearance.top_bar_enabled",
            "appearance",
            "Top bar",
            "Show the top status bar",
            ValueKind::Bool,
            Value::Bool(true),
            PrivilegeLevel::User,
        );
        assert(spec@ == appearance_settings()[7]);
        schema.register(spec);
        let spec = SettingSpec::new(
            "appearance.top_bar_height",
            "appearance",
            "Top bar height",
            "Height of the top bar, in pixels",
            ValueKind::Float,
            Value::Float(Milli(38000)),
            PrivilegeLevel::User,
        )
        .range(Milli(24000), Milli(64000));
        assert(spec@ == appearance_settings()[8]);
        schema.register(spec);
        let spec = SettingSpec::new(
            "appearance.dock_enabled",
            "appearance",
            "Dock",
            "Show the application dock",
            ValueKind::Bool,
            Value::Bool(true),
            PrivilegeLevel::User,
        );
        assert(spec@ == appearance_settings()[9]);
        schema.register(spec);
        let spec = SettingSpec::new(
            "appearance.dock_height",
            "appearance",
            "Dock height",
            "Height of the dock, in pixels",
            ValueKind::Float,
            Value::Float(Milli(72000)),
            PrivilegeLevel::User,
        )
        .range(Milli(32000), Milli(160000));
        assert(spec@ == appearance_settings()[10]);
        schema.register(spec);
        let spec = SettingSpec::new(
            "appearance.launcher_enabled",
            "appearance",
            "Launcher",
            "Show the application launcher button",
            ValueKind::Bool,
            Value::Bool(true),
            PrivilegeLevel::User,
        );
        assert(spec@ == appearance_settings()[11]);
        schema.register(spec);
        proof {
            assert(schema@.specs =~= old(schema)@.specs + appearance_settings());
        }
    }

    fn live_info(&self) -> (r: Vec<(&'static str, String)>) {
        let rows: Vec<(&'static str, String)> = Vec::new();
        proof {
            assert(crate::categories::live_rows_view(rows@) =~= self.spec_live_info());
        }
        rows
    }
}

/// Every setting of the "Appearance" category belongs to it, and its default meets
/// the setting's own constraints.
pub proof fn lemma_appearance_defaults_valid()
    ensures
        forall|i: int|
            0 <= i < appearance_settings().len() ==> #[trigger] appearance_settings()[i].default_is_valid()
                && appearance_settings()[i].category == "appearance"@,
{
    reveal_strlit("#4d9eff");
}

} // verus!
