//! The "Sound" entry of the settings navigator.

use vstd::prelude::*;
use crate::categories::Category;
use crate::permissions::PrivilegeLevel;
use crate::settings::schema::{strs_view, Schema, SettingSpec, SpecView};
use crate::settings::value::{Milli, Value, ValueKind, ValueView};

verus! {

/// The "Sound" entry of the settings navigator.
#[derive(Clone, Copy)]
pub struct SoundCategory;

/// The settings the "Sound" category registers, in registration order.
pub open spec fn sound_settings() -> Seq<SpecView> {
    seq![
        SpecView::new("sound.output_device"@, "sound"@, "Output device"@, "Sound card used for audio playback"@, ValueKind::Str, ValueView::Str("default"@), PrivilegeLevel::User),
        SpecView::new("sound.input_device"@, "sound"@, "Input device"@, "Sound card used for audio capture"@, ValueKind::Str, ValueView::Str("default"@), PrivilegeLevel::User),
        SpecView::new("sound.volume"@, "sound"@, "Volume"@, "Output volume percentage"@, ValueKind::Int, ValueView::Int(50), PrivilegeLevel::User)
            .with_range(0, 100000),
        SpecView::new("sound.output_muted"@, "sound"@, "Mute"@, "Mute all audio output"@, ValueKind::Bool, ValueView::Bool(false), PrivilegeLevel::User),
        SpecView::new("sound.microphone_level"@, "sound"@, "Microphone level"@, "Input gain percentage"@, ValueKind::Int, ValueView::Int(70), PrivilegeLevel::User)
            .with_range(0, 100000),
        SpecView::new("sound.alert_sound"@, "sound"@, "Alert sound"@, "Sound played for system alerts"@, ValueKind::Str, ValueView::Str("chime"@), PrivilegeLevel::User)
            .with_choices(seq!["chime"@, "glass"@, "ping"@, "none"@]),
    ]
}

impl Category for SoundCategory {
    open spec fn spec_id(&self) -> Seq<char> {
        "sound"@
    }

    open spec fn spec_name(&self) -> Seq<char> {
        "Sound"@
    }

    open spec fn spec_icon(&self) -> Seq<char> {
        "audio-speakers"@
    }

    open spec fn spec_subitems(&self) -> Seq<Seq<char>> {
        seq!["Output device"@, "Input device"@, "Volume"@, "Applications"@, "Microphone"@, "Alerts"@]
    }

    open spec fn spec_settings(&self) -> Seq<SpecView> {
        sound_settings()
    }

    open spec fn spec_live_info(&self) -> Seq<(Seq<char>, Seq<char>)> {
        Seq::empty()
    }

    fn id(&self) -> (r: &'static str) {
        "sound"
    }

    fn name(&self) -> (r: &'static str) {
        "Sound"
    }

    fn icon(&self) -> (r: &'static str) {
        "audio-speakers"
    }

    fn subitems(&self) -> (r: &'static [&'static str]) {
        let r: &'static [&'static str] = &["Output device", "Input device", "Volume", "Applications", "Microphone", "Alerts"];
        proof {
            assert(strs_view(r@) =~= self.spec_subitems());
        }
        r
    }

    fn register(&self, schema: &mut Schema) {
        let spec = SettingSpec::new(
            "sound.output_device",
            "sound",
            "Output device",
            "Sound card used for audio playback",
            ValueKind::Str,
            Value::Str(String::from_str("default")),
            PrivilegeLevel::User,
        );
        assert(spec@ == sound_settings()[0]);
        schema.register(spec);
        let spec = SettingSpec::new(
            "sound.input_device",
            "sound",
            "Input device",
            "Sound card used for audio capture",
            ValueKind::Str,
            Value::Str(String::from_str("default")),
            PrivilegeLevel::User,
        );
        assert(spec@ == sound_settings()[1]);
        schema.register(spec);
        let spec = SettingSpec::new(
            "sound.volume",
            "sound",
            "Volume",
            "Output volume percentage",
            ValueKind::Int,
            Value::Int(50),
            PrivilegeLevel::User,
        )
        .range(Milli(0), Milli(100000));
        assert(spec@ == sound_settings()[2]);
        schema.register(spec);
        let spec = SettingSpec::new(
            "sound.output_muted",
            "sound",
            "Mute",
            "Mute all audio output",
            ValueKind::Bool,
            Value::Bool(false),
            PrivilegeLevel::User,
        );
        assert(spec@ == sound_settings()[3]);
        schema.register(spec);
        let spec = SettingSpec::new(
            "sound.microphone_level",
            "sound",
            "Microphone level",
            "Input gain percentage",
            ValueKind::Int,
            Value::Int(70),
            PrivilegeLevel::User,
        )
        .range(Milli(0), Milli(100000));
        assert(spec@ == sound_settings()[4]);
        schema.register(spec);
        let spec = SettingSpec::new(
            "sound.alert_sound",
            "sound",
            "Alert sound",
            "Sound played for system alerts",
            ValueKind::Str,
            Value::Str(String::from_str("chime")),
            PrivilegeLevel::User,
        )
        .choices(&["chime", "glass", "ping", "none"]);
        assert(spec@.choices == sound_settings()[5].choices);
        assert(spec@ == sound_settings()[5]);
        schema.register(spec);
        proof {
            assert(schema@.specs =~= old(schema)@.specs + sound_settings());
        }
    }

    fn live_info(&self) -> (r: Vec<(&'static str, String)>) {
        let rows: Vec<(&'static str, String)> = Vec::new();
        proof {
            assert(crate::categories::live_rows_view(rows@) =~= self.spec_live_info());
        }
        rows
    }
}

/// Every setting of the "Sound" category belongs to it, and its default meets
/// the setting's own constraints.
pub proof fn lemma_sound_defaults_valid()
    ensures
        forall|i: int|
            0 <= i < sound_settings().len() ==> #[trigger] sound_settings()[i].default_is_valid()
                && sound_settings()[i].category == "sound"@,
{
    assert(sound_settings()[5].choices->0[0] == sound_settings()[5].default->Str_0);
}

} // verus!
