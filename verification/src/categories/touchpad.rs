//! The "Touchpad" entry of the settings navigator.

use vstd::prelude::*;
use crate::categories::Category;
use crate::permissions::PrivilegeLevel;
use crate::settings::schema::{strs_view, Schema, SettingSpec, SpecView};
use crate::settings::value::{Milli, Value, ValueKind, ValueView};

verus! {

/// The "Touchpad" entry of the settings navigator.
#[derive(Clone, Copy)]
pub struct TouchpadCategory;

/// The settings the "Touchpad" category registers, in registration order.
pub open spec fn touchpad_settings() -> Seq<SpecView> {
    seq![
        SpecView::new("touchpad.natural_scrolling"@, "touchpad"@, "Natural scrolling"@, "Content follows finger direction instead of the traditional convention"@, ValueKind::Bool, ValueView::Bool(true), PrivilegeLevel::User),
        SpecView::new("touchpad.tap_to_click"@, "touchpad"@, "Tap to click"@, "Tap the touchpad to register a click"@, ValueKind::Bool, ValueView::Bool(true), PrivilegeLevel::User),
        SpecView::new("touchpad.two_finger_scroll"@, "touchpad"@, "Two-finger scroll"@, "Scroll by dragging two fingers"@, ValueKind::Bool, ValueView::Bool(true), PrivilegeLevel::User),
        SpecView::new("touchpad.gestures_enabled"@, "touchpad"@, "Gestures"@, "Enable multi-finger swipe and pinch gestures"@, ValueKind::Bool, ValueView::Bool(true), PrivilegeLevel::User),
        SpecView::new("touchpad.disable_while_typing"@, "touchpad"@, "Disable while typing"@, "Ignore touchpad input briefly after a keystroke"@, ValueKind::Bool, ValueView::Bool(true), PrivilegeLevel::User),
        SpecView::new("touchpad.pointer_speed"@, "touchpad"@, "Pointer speed"@, "Cursor movement speed"@, ValueKind::Float, ValueView::Float(0), PrivilegeLevel::User)
            .with_range(-1000, 1000),
    ]
}

impl Category for TouchpadCategory {
    open spec fn spec_id(&self) -> Seq<char> {
        "touchpad"@
    }

    open spec fn spec_name(&self) -> Seq<char> {
        "Touchpad"@
    }

    open spec fn spec_icon(&self) -> Seq<char> {
        "input-touchpad"@
    }

    open spec fn spec_subitems(&self) -> Seq<Seq<char>> {
        seq!["Natural scrolling"@, "Tap-to-click"@, "Two-finger scroll"@, "Gestures"@, "Disable while typing"@]
    }

    open spec fn spec_settings(&self) -> Seq<SpecView> {
        touchpad_settings()
    }

    open spec fn spec_live_info(&self) -> Seq<(Seq<char>, Seq<char>)> {
        Seq::empty()
    }

    fn id(&self) -> (r: &'static str) {
        "touchpad"
    }

    fn name(&self) -> (r: &'static str) {
        "Touchpad"
    }

    fn icon(&self) -> (r: &'static str) {
        "input-touchpad"
    }

    fn subitems(&self) -> (r: &'static [&'static str]) {
        let r: &'static [&'static str] = &["Natural scrolling", "Tap-to-click", "Two-finger scroll", "Gestures", "Disable while typing"];
        proof {
            assert(strs_view(r@) =~= self.spec_subitems());
        }
        r
    }

    fn register(&self, schema: &mut Schema) {
        let spec = SettingSpec::new(
            "touchpad.natural_scrolling",
            "touchpad",
            "Natural scrolling",
            "Content follows finger direction instead of the traditional convention",
            ValueKind::Bool,
            Value::Bool(true),
            PrivilegeLevel::User,
        );
        assert(spec@ == touchpad_settings()[0]);
        schema.register(spec);
        let spec = SettingSpec::new(
            "touchpad.tap_to_click",
            "touchpad",
            "Tap to click",
            "Tap the touchpad to register a click",
            ValueKind::Bool,
            Value::Bool(true),
            PrivilegeLevel::User,
        );
        assert(spec@ == touchpad_settings()[1]);
        schema.register(spec);
        let spec = SettingSpec::new(
            "touchpad.two_finger_scroll",
            "touchpad",
            "Two-finger scroll",
            "Scroll by dragging two fingers",
            ValueKind::Bool,
            Value::Bool(true),
            PrivilegeLevel::User,
        );
        assert(spec@ == touchpad_settings()[2]);
        schema.register(spec);
        let spec = SettingSpec::new(
            "touchpad.gestures_enabled",
            "touchpad",
            "Gestures",
            "Enable multi-finger swipe and pinch gestures",
            ValueKind::Bool,
            Value::Bool(true),
            PrivilegeLevel::User,
        );
        assert(spec@ == touchpad_settings()[3]);
        schema.register(spec);
        let spec = SettingSpec::new(
            "touchpad.disable_while_typing",
            "touchpad",
            "Disable while typing",
            "Ignore touchpad input briefly after a keystroke",
            ValueKind::Bool,
            Value::Bool(true),
            PrivilegeLevel::User,
        );
        assert(spec@ == touchpad_settings()[4]);
        schema.register(spec);
        let spec = SettingSpec::new(
            "touchpad.pointer_speed",
            "touchpad",
            "Pointer speed",
            "Cursor movement speed",
            ValueKind::Float,
            Value::Float(Milli(0)),
            PrivilegeLevel::User,
        )
        .range(Milli(-1000), Milli(1000));
        assert(spec@ == touchpad_settings()[5]);
        schema.register(spec);
        proof {
            assert(schema@.specs =~= old(schema)@.specs + touchpad_settings());
        }
    }

    fn live_info(&self) -> (r: Vec<(&'static str, String)>) {
        let rows: Vec<(&'static str, String)> = Vec::new();
        proof {
            assert(crate::categories::live_rows_view(rows@) =~= self.spec_live_info());
        }
        rows
    }
}

/// Every setting of the "Touchpad" category belongs to it, and its default meets
/// the setting's own constraints.
pub proof fn lemma_touchpad_defaults_valid()
    ensures
        forall|i: int|
            0 <= i < touchpad_settings().len() ==> #[trigger] touchpad_settings()[i].default_is_valid()
                && touchpad_settings()[i].category == "touchpad"@,
{
}

} // verus!
