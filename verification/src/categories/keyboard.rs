//! The "Keyboard" entry of the settings navigator.

use vstd::prelude::*;
use crate::categories::Category;
use crate::permissions::PrivilegeLevel;
use crate::settings::schema::{strs_view, Schema, SettingSpec, SpecView};
use crate::settings::value::{Milli, Value, ValueKind, ValueView};

verus! {

/// The "Keyboard" entry of the settings navigator.
#[derive(Clone, Copy)]
pub struct KeyboardCategory;

/// The settings the "Keyboard" category registers, in registration order.
pub open spec fn keyboard_settings() -> Seq<SpecView> {
    seq![
        SpecView::new("keyboard.layout"@, "keyboard"@, "Layout"@, "Active keyboard layout (XKB layout code)"@, ValueKind::Str, ValueView::Str("us"@), PrivilegeLevel::User),
        SpecView::new("keyboard.repeat_enabled"@, "keyboard"@, "Key repeat"@, "Repeat a character while its key is held down"@, ValueKind::Bool, ValueView::Bool(true), PrivilegeLevel::User),
        SpecView::new("keyboard.repeat_rate"@, "keyboard"@, "Repeat rate"@, "Repeats per second once a key is held"@, ValueKind::Int, ValueView::Int(25), PrivilegeLevel::User)
            .with_range(1000, 60000),
        SpecView::new("keyboard.repeat_delay_ms"@, "keyboard"@, "Repeat delay"@, "Milliseconds before a held key starts repeating"@, ValueKind::Int, ValueView::Int(500), PrivilegeLevel::User)
            .with_range(100000, 2000000),
        SpecView::new("keyboard.shortcuts_enabled"@, "keyboard"@, "Shortcuts"@, "Enable global keyboard shortcuts"@, ValueKind::Bool, ValueView::Bool(true), PrivilegeLevel::User),
        SpecView::new("keyboard.compose_key"@, "keyboard"@, "Compose key"@, "Key used to type accented/special characters"@, ValueKind::Str, ValueView::Str("none"@), PrivilegeLevel::User)
            .with_choices(seq!["none"@, "right_alt"@, "caps_lock"@, "right_ctrl"@, "menu"@]),
    ]
}

impl Category for KeyboardCategory {
    open spec fn spec_id(&self) -> Seq<char> {
        "keyboard"@
    }

    open spec fn spec_name(&self) -> Seq<char> {
        "Keyboard"@
    }

    open spec fn spec_icon(&self) -> Seq<char> {
        "input-keyboard"@
    }

    open spec fn spec_subitems(&self) -> Seq<Seq<char>> {
        seq!["Layout"@, "Repeat rate"@, "Shortcuts"@, "Compose key"@]
    }

    open spec fn spec_settings(&self) -> Seq<SpecView> {
        keyboard_settings()
    }

    open spec fn spec_live_info(&self) -> Seq<(Seq<char>, Seq<char>)> {
        Seq::empty()
    }

    fn id(&self) -> (r: &'static str) {
        "keyboard"
    }

    fn name(&self) -> (r: &'static str) {
        "Keyboard"
    }

    fn icon(&self) -> (r: &'static str) {
        "input-keyboard"
    }

    fn subitems(&self) -> (r: &'static [&'static str]) {
        let r: &'static [&'static str] = &["Layout", "Repeat rate", "Shortcuts", "Compose key"];
        proof {
            assert(strs_view(r@) =~= self.spec_subitems());
        }
        r
    }

    fn register(&self, schema: &mut Schema) {
        let spec = SettingSpec::new(
            "keyboard.layout",
            "keyboard",
            "Layout",
            "Active keyboard layout (XKB layout code)",
            ValueKind::Str,
            Value::Str(String::from_str("us")),
            PrivilegeLevel::User,
        );
        assert(spec@ == keyboard_settings()[0]);
        schema.register(spec);
        let spec = SettingSpec::new(
            "keyboard.repeat_enabled",
            "keyboard",
            "Key repeat",
            "Repeat a character while its key is held down",
            ValueKind::Bool,
            Value::Bool(true),
            PrivilegeLevel::User,
        );
        assert(spec@ == keyboard_settings()[1]);
        schema.register(spec);
        let spec = SettingSpec::new(
            "keyboard.repeat_rate",
            "keyboard",
            "Repeat rate",
            "Repeats per second once a key is held",
            ValueKind::Int,
            Value::Int(25),
            PrivilegeLevel::User,
        )
        .range(Milli(1000), Milli(60000));
        assert(spec@ == keyboard_settings()[2]);
        schema.register(spec);
        let spec = SettingSpec::new(
            "keyboard.repeat_delay_ms",
            "keyboard",
            "Repeat delay",
            "Milliseconds before a held key starts repeating",
            ValueKind::Int,
            Value::Int(500),
            PrivilegeLevel::User,
        )
        .range(Milli(100000), Milli(2000000));
        assert(spec@ == keyboard_settings()[3]);
        schema.register(spec);
        let spec = SettingSpec::new(
            "keyboard.shortcuts_enabled",
            "keyboard",
            "Shortcuts",
            "Enable global keyboard shortcuts",
            ValueKind::Bool,
            Value::Bool(true),
            PrivilegeLevel::User,
        );
        assert(spec@ == keyboard_settings()[4]);
        schema.register(spec);
        let spec = SettingSpec::new(
            "keyboard.compose_key",
            "keyboard",
            "Compose key",
            "Key used to type accented/special characters",
            ValueKind::Str,
            Value::Str(String::from_str("none")),
            PrivilegeLevel::User,
        )
        .choices(&["none", "right_alt", "caps_lock", "right_ctrl", "menu"]);
        assert(spec@.choices == keyboard_settings()[5].choices);
        assert(spec@ == keyboard_settings()[5]);
        schema.register(spec);
        proof {
            assert(schema@.specs =~= old(schema)@.specs + keyboard_settings());
        }
    }

    fn live_info(&self) -> (r: Vec<(&'static str, String)>) {
        let rows: Vec<(&'static str, String)> = Vec::new();
        proof {
            assert(crate::categories::live_rows_view(rows@) =~= self.spec_live_info());
        }
        rows
    }
}

/// Every setting of the "Keyboard" category belongs to it, and its default meets
/// the setting's own constraints.
pub proof fn lemma_keyboard_defaults_valid()
    ensures
        forall|i: int|
            0 <= i < keyboard_settings().len() ==> #[trigger] keyboard_settings()[i].default_is_valid()
                && keyboard_settings()[i].category == "keyboard"@,
{
    assert(keyboard_settings()[5].choices->0[0] == keyboard_settings()[5].default->Str_0);
}

} // verus!
