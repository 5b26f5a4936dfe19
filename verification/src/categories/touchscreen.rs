//! Touchscreen settings, laid out like every other category. Not yet one of
//! the navigator's entries: `categories::all` leaves it out.

use vstd::prelude::*;
use crate::categories::Category;
use crate::permissions::PrivilegeLevel;
use crate::settings::schema::{strs_view, Schema, SettingSpec, SpecView};
use crate::settings::value::{Milli, Value, ValueKind, ValueView};

verus! {

/// The "Touchscreen" category (not yet in the navigator).
#[derive(Clone, Copy)]
pub struct TouchscreenCategory;

/// The settings the "Touchscreen" category registers, in registration order.
pub open spec fn touchscreen_settings() -> Seq<SpecView> {
    seq![
        SpecView::new("touchscreen.enabled"@, "touchscreen"@, "Touchscreen"@, "Respond to touch input on this display"@, ValueKind::Bool, ValueView::Bool(true), PrivilegeLevel::User),
        SpecView::new("touchscreen.auto_rotate"@, "touchscreen"@, "Auto-rotate"@, "Rotate the display to match how the device is held"@, ValueKind::Bool, ValueView::Bool(true), PrivilegeLevel::User),
        SpecView::new("touchscreen.palm_rejection"@, "touchscreen"@, "Palm rejection"@, "Ignore touches from the edge of your palm while writing or drawing"@, ValueKind::Bool, ValueView::Bool(true), PrivilegeLevel::User),
        SpecView::new("touchscreen.edge_gestures"@, "touchscreen"@, "Edge gestures"@, "Swipe in from a screen edge to switch apps or go back"@, ValueKind::Bool, ValueView::Bool(true), PrivilegeLevel::User),
        SpecView::new("touchscreen.touch_sensitivity"@, "touchscreen"@, "Touch sensitivity"@, "How much pressure a touch needs to register"@, ValueKind::Float, ValueView::Float(0), PrivilegeLevel::User)
            .with_range(-1000, 1000),
    ]
}

impl Category for TouchscreenCategory {
    open spec fn spec_id(&self) -> Seq<char> {
        "touchscreen"@
    }

    open spec fn spec_name(&self) -> Seq<char> {
        "Touchscreen"@
    }

    open spec fn spec_icon(&self) -> Seq<char> {
        "input-tablet"@
    }

    open spec fn spec_subitems(&self) -> Seq<Seq<char>> {
        seq!["Touchscreen"@, "Auto-rotate"@, "Palm rejection"@, "Edge gestures"@, "Touch sensitivity"@]
    }

    open spec fn spec_settings(&self) -> Seq<SpecView> {
        touchscreen_settings()
    }

    open spec fn spec_live_info(&self) -> Seq<(Seq<char>, Seq<char>)> {
        Seq::empty()
    }

    fn id(&self) -> (r: &'static str) {
        "touchscreen"
    }

    fn name(&self) -> (r: &'static str) {
        "Touchscreen"
    }

    fn icon(&self) -> (r: &'static str) {
        "input-tablet"
    }

    fn subitems(&self) -> (r: &'static [&'static str]) {
        let r: &'static [&'static str] = &["Touchscreen", "Auto-rotate", "Palm rejection", "Edge gestures", "Touch sensitivity"];
        proof {
            assert(strs_view(r@) =~= self.spec_subitems());
        }
        r
    }

    fn register(&self, schema: &mut Schema) {
        let spec = SettingSpec::new(
            "touchscreen.enabled",
            "touchscreen",
            "Touchscreen",
            "Respond to touch input on this display",
            ValueKind::Bool,
            Value::Bool(true),
            PrivilegeLevel::User,
        );
        assert(spec@ == touchscreen_settings()[0]);
        schema.register(spec);
        let spec = SettingSpec::new(
            "touchscreen.auto_rotate",
            "touchscreen",
            "Auto-rotate",
            "Rotate the display to match how the device is held",
            ValueKind::Bool,
            Value::Bool(true),
            PrivilegeLevel::User,
        );
        assert(spec@ == touchscreen_settings()[1]);
        schema.register(spec);
        let spec = SettingSpec::new(
            "touchscreen.palm_rejection",
            "touchscreen",
            "Palm rejection",
            "Ignore touches from the edge of your palm while writing or drawing",
            ValueKind::Bool,
            Value::Bool(true),
            PrivilegeLevel::User,
        );
        assert(spec@ == touchscreen_settings()[2]);
        schema.register(spec);
        let spec = SettingSpec::new(
            "touchscreen.edge_gestures",
            "touchscreen",
            "Edge gestures",
            "Swipe in from a screen edge to switch apps or go back",
            ValueKind::Bool,
            Value::Bool(true),
            PrivilegeLevel::User,
        );
        assert(spec@ == touchscreen_settings()[3]);
        schema.register(spec);
        let spec = SettingSpec::new(
            "touchscreen.touch_sensitivity",
            "touchscreen",
            "Touch sensitivity",
            "How much pressure a touch needs to register",
            ValueKind::Float,
            Value::Float(Milli(0)),
            PrivilegeLevel::User,
        )
        .range(Milli(-1000), Milli(1000));
        assert(spec@ == touchscreen_settings()[4]);
        schema.register(spec);
        proof {
            assert(schema@.specs =~= old(schema)@.specs + touchscreen_settings());
        }
    }

    fn live_info(&self) -> (r: Vec<(&'static str, String)>) {
        let rows: Vec<(&'static str, String)> = Vec::new();
        proof {
            assert(crate::categories::live_rows_view(rows@) =~= self.spec_live_info());
        }
        rows
    }
}

/// Every setting of the "Touchscreen" category belongs to it, and its default meets
/// the setting's own constraints.
pub proof fn lemma_touchscreen_defaults_valid()
    ensures
        forall|i: int|
            0 <= i < touchscreen_settings().len() ==> #[trigger] touchscreen_settings()[i].default_is_valid()
                && touchscreen_settings()[i].category == "touchscreen"@,
{
}

} // verus!
