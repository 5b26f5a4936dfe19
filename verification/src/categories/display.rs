//! The "Display" entry of the settings navigator.

use vstd::prelude::*;
use crate::categories::Category;
use crate::permissions::PrivilegeLevel;
use crate::settings::schema::{strs_view, Schema, SettingSpec, SpecView};
use crate::settings::value::{Milli, Value, ValueKind, ValueView};

verus! {

/// The "Display" entry of the settings navigator.
#[derive(Clone, Copy)]
pub struct DisplayCategory;

/// The settings the "Display" category registers, in registration order.
pub open spec fn display_settings() -> Seq<SpecView> {
    seq![
        SpecView::new("display.resolution"@, "display"@, "Resolution"@, "Active display resolution, as WIDTHxHEIGHT"@, ValueKind::Str, ValueView::Str("1920x1080"@), PrivilegeLevel::User),
        SpecView::new("display.refresh_rate"@, "display"@, "Refresh rate"@, "Display refresh rate in Hz"@, ValueKind::Int, ValueView::Int(60), PrivilegeLevel::User)
            .with_range(30000, 360000),
        SpecView::new("display.scaling"@, "display"@, "Scaling"@, "UI scale factor"@, ValueKind::Float, ValueView::Float(1000), PrivilegeLevel::User)
            .with_range(500, 3000),
        SpecView::new("display.brightness"@, "display"@, "Brightness"@, "Screen brightness percentage"@, ValueKind::Int, ValueView::Int(80), PrivilegeLevel::User)
            .with_range(0, 100000),
        SpecView::new("display.night_light"@, "display"@, "Night light"@, "Shift colors warmer in the evening to reduce blue light"@, ValueKind::Bool, ValueView::Bool(false), PrivilegeLevel::User),
        SpecView::new("display.multiple_displays_mode"@, "display"@, "Multiple displays"@, "How additional displays are arranged relative to the primary one"@, ValueKind::Str, ValueView::Str("extend"@), PrivilegeLevel::User)
            .with_choices(seq!["extend"@, "mirror"@, "single"@]),
        SpecView::new("display.orientation"@, "display"@, "Orientation"@, "Screen rotation"@, ValueKind::Str, ValueView::Str("landscape"@), PrivilegeLevel::User)
            .with_choices(seq!["landscape"@, "portrait"@, "landscape-flipped"@, "portrait-flipped"@]),
    ]
}

impl Category for DisplayCategory {
    open spec fn spec_id(&self) -> Seq<char> {
        "display"@
    }

    open spec fn spec_name(&self) -> Seq<char> {
        "Display"@
    }

    open spec fn spec_icon(&self) -> Seq<char> {
        "video-display"@
    }

    open spec fn spec_subitems(&self) -> Seq<Seq<char>> {
        seq!["Resolution"@, "Refresh rate"@, "Scaling"@, "Brightness"@, "Night light"@, "Multiple displays"@, "Orientation"@]
    }

    open spec fn spec_settings(&self) -> Seq<SpecView> {
        display_settings()
    }

    open spec fn spec_live_info(&self) -> Seq<(Seq<char>, Seq<char>)> {
        Seq::empty()
    }

    fn id(&self) -> (r: &'static str) {
        "display"
    }

    fn name(&self) -> (r: &'static str) {
        "Display"
    }

    fn icon(&self) -> (r: &'static str) {
        "video-display"
    }

    fn subitems(&self) -> (r: &'static [&'static str]) {
        let r: &'static [&'static str] = &["Resolution", "Refresh rate", "Scaling", "Brightness", "Night light", "Multiple displays", "Orientation"];
        proof {
            assert(strs_view(r@) =~= self.spec_subitems());
        }
        r
    }

    fn register(&self, schema: &mut Schema) {
        let spec = SettingSpec::new(
            "display.resolution",
            "display",
            "Resolution",
            "Active display resolution, as WIDTHxHEIGHT",
            ValueKind::Str,
            Value::Str(String::from_str("1920x1080")),
            PrivilegeLevel::User,
        );
        assert(spec@ == display_settings()[0]);
        schema.register(spec);
        let spec = SettingSpec::new(
            "display.refresh_rate",
            "display",
            "Refresh rate",
            "Display refresh rate in Hz",
            ValueKind::Int,
            Value::Int(60),
            PrivilegeLevel::User,
        )
        .range(Milli(30000), Milli(360000));
        assert(spec@ == display_settings()[1]);
        schema.register(spec);
        let spec = SettingSpec::new(
            "display.scaling",
            "display",
            "Scaling",
            "UI scale factor",
            ValueKind::Float,
            Value::Float(Milli(1000)),
            PrivilegeLevel::User,
        )
        .range(Milli(500), Milli(3000));
        assert(spec@ == display_settings()[2]);
        schema.register(spec);
        let spec = SettingSpec::new(
            "display.brightness",
            "display",
            "Brightness",
            "Screen brightness percentage",
            ValueKind::Int,
            Value::Int(80),
            PrivilegeLevel::User,
        )
        .range(Milli(0), Milli(100000));
        assert(spec@ == display_settings()[3]);
        schema.register(spec);
        let spec = SettingSpec::new(
            "display.night_light",
            "display",
            "Night light",
            "Shift colors warmer in the evening to reduce blue light",
            ValueKind::Bool,
            Value::Bool(false),
            PrivilegeLevel::User,
        );
        assert(spec@ == display_settings()[4]);
        schema.register(spec);
        let spec = SettingSpec::new(
            "display.multiple_displays_mode",
            "display",
            "Multiple displays",
            "How additional displays are arranged relative to the primary one",
            ValueKind::Str,
            Value::Str(String::from_str("extend")),
            PrivilegeLevel::User,
        )
        .choices(&["extend", "mirror", "single"]);
        assert(spec@.choices == display_settings()[5].choices);
        assert(spec@ == display_settings()[5]);
        schema.register(spec);
        let spec = SettingSpec::new(
            "display.orientation",
            "display",
            "Orientation",
            "Screen rotation",
            ValueKind::Str,
            Value::Str(String::from_str("landscape")),
            PrivilegeLevel::User,
        )
        .choices(&["landscape", "portrait", "landscape-flipped", "portrait-flipped"]);
        assert(spec@.choices == display_settings()[6].choices);
        assert(spec@ == display_settings()[6]);
        schema.register(spec);
        proof {
            assert(schema@.specs =~= old(schema)@.specs + display_settings());
        }
    }

    fn live_info(&self) -> (r: Vec<(&'static str, String)>) {
        let rows: Vec<(&'static str, String)> = Vec::new();
        proof {
            assert(crate::categories::live_rows_view(rows@) =~= self.spec_live_info());
        }
        rows
    }
}

/// Every setting of the "Display" category belongs to it, and its default meets
/// the setting's own constraints.
pub proof fn lemma_display_defaults_valid()
    ensures
        forall|i: int|
            0 <= i < display_settings().len() ==> #[trigger] display_settings()[i].default_is_valid()
                && display_settings()[i].category == "display"@,
{
    assert(display_settings()[5].choices->0[0] == display_settings()[5].default->Str_0);
    assert(display_settings()[6].choices->0[0] == display_settings()[6].default->Str_0);
}

} // verus!
