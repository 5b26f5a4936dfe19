//! The "Mouse" entry of the settings navigator.

use vstd::prelude::*;
use crate::categories::Category;
use crate::permissions::PrivilegeLevel;
use crate::settings::schema::{strs_view, Schema, SettingSpec, SpecView};
use crate::settings::value::{Milli, Value, ValueKind, ValueView};

verus! {

/// The "Mouse" entry of the settings navigator.
#[derive(Clone, Copy)]
pub struct MouseCategory;

/// The settings the "Mouse" category registers, in registration order.
pub open spec fn mouse_settings() -> Seq<SpecView> {
    seq![
        SpecView::new("mouse.pointer_speed"@, "mouse"@, "Pointer speed"@, "Cursor movement speed"@, ValueKind::Float, ValueView::Float(0), PrivilegeLevel::User)
            .with_range(-1000, 1000),
        SpecView::new("mouse.acceleration_enabled"@, "mouse"@, "Acceleration"@, "Scale pointer speed with movement velocity"@, ValueKind::Bool, ValueView::Bool(true), PrivilegeLevel::User),
        SpecView::new("mouse.button_mapping"@, "mouse"@, "Button mapping"@, "Left- or right-handed button layout"@, ValueKind::Str, ValueView::Str("right_handed"@), PrivilegeLevel::User)
            .with_choices(seq!["right_handed"@, "left_handed"@]),
        SpecView::new("mouse.scroll_speed"@, "mouse"@, "Scroll speed"@, "Lines scrolled per wheel notch"@, ValueKind::Int, ValueView::Int(3), PrivilegeLevel::User)
            .with_range(1000, 20000),
        SpecView::new("mouse.natural_scrolling"@, "mouse"@, "Natural scrolling"@, "Content follows finger/wheel direction instead of the traditional convention"@, ValueKind::Bool, ValueView::Bool(false), PrivilegeLevel::User),
    ]
}

impl Category for MouseCategory {
    open spec fn spec_id(&self) -> Seq<char> {
        "mouse"@
    }

    open spec fn spec_name(&self) -> Seq<char> {
        "Mouse"@
    }

    open spec fn spec_icon(&self) -> Seq<char> {
        "input-mouse"@
    }

    open spec fn spec_subitems(&self) -> Seq<Seq<char>> {
        seq!["Pointer speed"@, "Acceleration"@, "Button mapping"@, "Scroll speed"@]
    }

    open spec fn spec_settings(&self) -> Seq<SpecView> {
        mouse_settings()
    }

    open spec fn spec_live_info(&self) -> Seq<(Seq<char>, Seq<char>)> {
        Seq::empty()
    }

    fn id(&self) -> (r: &'static str) {
        "mouse"
    }

    fn name(&self) -> (r: &'static str) {
        "Mouse"
    }

    fn icon(&self) -> (r: &'static str) {
        "input-mouse"
    }

    fn subitems(&self) -> (r: &'static [&'static str]) {
        let r: &'static [&'static str] = &["Pointer speed", "Acceleration", "Button mapping", "Scroll speed"];
        proof {
            assert(strs_view(r@) =~= self.spec_subitems());
        }
        r
    }

    fn register(&self, schema: &mut Schema) {
        let spec = SettingSpec::new(
            "mouse.pointer_speed",
            "mouse",
            "Pointer speed",
            "Cursor movement speed",
            ValueKind::Float,
            Value::Float(Milli(0)),
            PrivilegeLevel::User,
        )
        .range(Milli(-1000), Milli(1000));
        assert(spec@ == mouse_settings()[0]);
        schema.register(spec);
        let spec = SettingSpec::new(
            "mouse.acceleration_enabled",
            "mouse",
            "Acceleration",
            "Scale pointer speed with movement velocity",
            ValueKind::Bool,
            Value::Bool(true),
            PrivilegeLevel::User,
        );
        assert(spec@ == mouse_settings()[1]);
        schema.register(spec);
        let spec = SettingSpec::new(
            "mouse.button_mapping",
            "mouse",
            "Button mapping",
            "Left- or right-handed button layout",
            ValueKind::Str,
            Value::Str(String::from_str("right_handed")),
            PrivilegeLevel::User,
        )
        .choices(&["right_handed", "left_handed"]);
        assert(spec@.choices == mouse_settings()[2].choices);
        assert(spec@ == mouse_settings()[2]);
        schema.register(spec);
        let spec = SettingSpec::new(
            "mouse.scroll_speed",
            "mouse",
            "Scroll speed",
            "Lines scrolled per wheel notch",
            ValueKind::Int,
            Value::Int(3),
            PrivilegeLevel::User,
        )
        .range(Milli(1000), Milli(20000));
        assert(spec@ == mouse_settings()[3]);
        schema.register(spec);
        let spec = SettingSpec::new(
            "mouse.natural_scrolling",
            "mouse",
            "Natural scrolling",
            "Content follows finger/wheel direction instead of the traditional convention",
            ValueKind::Bool,
            Value::Bool(false),
            PrivilegeLevel::User,
        );
        assert(spec@ == mouse_settings()[4]);
        schema.register(spec);
        proof {
            assert(schema@.specs =~= old(schema)@.specs + mouse_settings());
        }
    }

    fn live_info(&self) -> (r: Vec<(&'static str, String)>) {
        let rows: Vec<(&'static str, String)> = Vec::new();
        proof {
            assert(crate::categories::live_rows_view(rows@) =~= self.spec_live_info());
        }
        rows
    }
}

/// Every setting of the "Mouse" category belongs to it, and its default meets
/// the setting's own constraints.
pub proof fn lemma_mouse_defaults_valid()
    ensures
        forall|i: int|
            0 <= i < mouse_settings().len() ==> #[trigger] mouse_settings()[i].default_is_valid()
                && mouse_settings()[i].category == "mouse"@,
{
    assert(mouse_settings()[2].choices->0[0] == mouse_settings()[2].default->Str_0);
}

} // verus!
