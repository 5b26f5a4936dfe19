//! The "Accessibility" entry of the settings navigator.

use vstd::prelude::*;
use crate::categories::Category;
use crate::permissions::PrivilegeLevel;
use crate::settings::schema::{strs_view, Schema, SettingSpec, SpecView};
use crate::settings::value::{Milli, Value, ValueKind, ValueView};

verus! {

/// The "Accessibility" entry of the settings navigator.
#[derive(Clone, Copy)]
pub struct AccessibilityCategory;

/// The settings the "Accessibility" category registers, in registration order.
pub open spec fn accessibility_settings() -> Seq<SpecView> {
    seq![
        SpecView::new("accessibility.screen_reader_enabled"@, "accessibility"@, "Screen reader"@, "Read screen content aloud"@, ValueKind::Bool, ValueView::Bool(false), PrivilegeLevel::User),
        SpecView::new("accessibility.magnification_enabled"@, "accessibility"@, "Magnification"@, "Zoom into the screen around the pointer"@, ValueKind::Bool, ValueView::Bool(false), PrivilegeLevel::User),
        SpecView::new("accessibility.magnification_level"@, "accessibility"@, "Magnification level"@, "Zoom factor when magnification is on"@, ValueKind::Float, ValueView::Float(2000), PrivilegeLevel::User)
            .with_range(1000, 8000),
        SpecView::new("accessibility.high_contrast"@, "accessibility"@, "High contrast"@, "Increase contrast between foreground and background colors"@, ValueKind::Bool, ValueView::Bool(false), PrivilegeLevel::User),
        SpecView::new("accessibility.large_text"@, "accessibility"@, "Large text"@, "Scale up system text size"@, ValueKind::Bool, ValueView::Bool(false), PrivilegeLevel::User),
        SpecView::new("accessibility.text_scale"@, "accessibility"@, "Text scale"@, "Multiplier applied to text size when large text is on"@, ValueKind::Float, ValueView::Float(1250), PrivilegeLevel::User)
            .with_range(1000, 2500),
        SpecView::new("accessibility.sticky_keys"@, "accessibility"@, "Sticky keys"@, "Press modifier keys one at a time instead of holding them"@, ValueKind::Bool, ValueView::Bool(false), PrivilegeLevel::User),
        SpecView::new("accessibility.mouse_keys"@, "accessibility"@, "Mouse accessibility"@, "Control the pointer using the numeric keypad"@, ValueKind::Bool, ValueView::Bool(false), PrivilegeLevel::User),
    ]
}

impl Category for AccessibilityCategory {
    open spec fn spec_id(&self) -> Seq<char> {
        "accessibility"@
    }

    open spec fn spec_name(&self) -> Seq<char> {
        "Accessibility"@
    }

    open spec fn spec_icon(&self) -> Seq<char> {
        "preferences-desktop-accessibility"@
    }

    open spec fn spec_subitems(&self) -> Seq<Seq<char>> {
        seq!["Screen reader"@, "Magnification"@, "High contrast"@, "Large text"@, "Sticky keys"@, "Mouse accessibility"@]
    }

    open spec fn spec_settings(&self) -> Seq<SpecView> {
        accessibility_settings()
    }

    open spec fn spec_live_info(&self) -> Seq<(Seq<char>, Seq<char>)> {
        Seq::empty()
    }

    fn id(&self) -> (r: &'static str) {
        "accessibility"
    }

    fn name(&self) -> (r: &'static str) {
        "Accessibility"
    }

    fn icon(&self) -> (r: &'static str) {
        "preferences-desktop-accessibility"
    }

    fn subitems(&self) -> (r: &'static [&'static str]) {
        let r: &'static [&'static str] = &["Screen reader", "Magnification", "High contrast", "Large text", "Sticky keys", "Mouse accessibility"];
        proof {
            assert(strs_view(r@) =~= self.spec_subitems());
        }
        r
    }

    fn register(&self, schema: &mut Schema) {
        let spec = SettingSpec::new(
            "accessibility.screen_reader_enabled",
            "accessibility",
            "Screen reader",
            "Read screen content aloud",
            ValueKind::Bool,
            Value::Bool(false),
            PrivilegeLevel::User,
        );
        assert(spec@ == accessibility_settings()[0]);
        schema.register(spec);
        let spec = SettingSpec::new(
            "accessibility.magnification_enabled",
            "accessibility",
            "Magnification",
            "Zoom into the screen around the pointer",
            ValueKind::Bool,
            Value::Bool(false),
            PrivilegeLevel::User,
        );
        assert(spec@ == accessibility_settings()[1]);
        schema.register(spec);
        let spec = SettingSpec::new(
            "accessibility.magnification_level",
            "accessibility",
            "Magnification level",
            "Zoom factor when magnification is on",
            ValueKind::Float,
            Value::Float(Milli(2000)),
            PrivilegeLevel::User,
        )
        .range(Milli(1000), Milli(8000));
        assert(spec@ == accessibility_settings()[2]);
        schema.register(spec);
        let spec = SettingSpec::new(
            "accessibility.high_contrast",
            "accessibility",
            "High contrast",
            "Increase contrast between foreground and background colors",
            ValueKind::Bool,
            Value::Bool(false),
            PrivilegeLevel::User,
        );
        assert(spec@ == accessibility_settings()[3]);
        schema.register(spec);
        let spec = SettingSpec::new(
            "accessibility.large_text",
            "accessibility",
            "Large text",
            "Scale up system text size",
            ValueKind::Bool,
            Value::Bool(false),
            PrivilegeLevel::User,
        );
        assert(spec@ == accessibility_settings()[4]);
        schema.register(spec);
        let spec = SettingSpec::new(
            "accessibility.text_scale",
            "accessibility",
            "Text scale",
            "Multiplier applied to text size when large text is on",
            ValueKind::Float,
            Value::Float(Milli(1250)),
            PrivilegeLevel::User,
        )
        .range(Milli(1000), Milli(2500));
        assert(spec@ == accessibility_settings()[5]);
        schema.register(spec);
        let spec = SettingSpec::new(
            "accessibility.sticky_keys",
            "accessibility",
            "Sticky keys",
            "Press modifier keys one at a time instead of holding them",
            ValueKind::Bool,
            Value::Bool(false),
            PrivilegeLevel::User,
        );
        assert(spec@ == accessibility_settings()[6]);
        schema.register(spec);
        let spec = SettingSpec::new(
            "accessibility.mouse_keys",
            "accessibility",
            "Mouse accessibility",
            "Control the pointer using the numeric keypad",
            ValueKind::Bool,
            Value::Bool(false),
            PrivilegeLevel::User,
        );
        assert(spec@ == accessibility_settings()[7]);
        schema.register(spec);
        proof {
            assert(schema@.specs =~= old(schema)@.specs + accessibility_settings());
        }
    }

    fn live_info(&self) -> (r: Vec<(&'static str, String)>) {
        let rows: Vec<(&'static str, String)> = Vec::new();
        proof {
            assert(crate::categories::live_rows_view(rows@) =~= self.spec_live_info());
        }
        rows
    }
}

/// Every setting of the "Accessibility" category belongs to it, and its default meets
/// the setting's own constraints.
pub proof fn lemma_accessibility_defaults_valid()
    ensures
        forall|i: int|
            0 <= i < accessibility_settings().len() ==> #[trigger] accessibility_settings()[i].default_is_valid()
                && accessibility_settings()[i].category == "accessibility"@,
{
}

} // verus!
