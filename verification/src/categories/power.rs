//! The "Power" entry of the settings navigator.

use vstd::prelude::*;
use crate::categories::Category;
use crate::permissions::PrivilegeLevel;
use crate::settings::schema::{strs_view, Schema, SettingSpec, SpecView};
use crate::settings::value::{Milli, Value, ValueKind, ValueView};

verus! {

/// The "Power" entry of the settings navigator.
#[derive(Clone, Copy)]
pub struct PowerCategory;

/// The settings the "Power" category registers, in registration order.
pub open spec fn power_settings() -> Seq<SpecView> {
    seq![
        SpecView::new("power.profile"@, "power"@, "Power profile"@, "Balances performance against battery life"@, ValueKind::Str, ValueView::Str("balanced"@), PrivilegeLevel::User)
            .with_choices(seq!["power-saver"@, "balanced"@, "performance"@]),
        SpecView::new("power.screen_timeout_minutes"@, "power"@, "Screen timeout"@, "Minutes of inactivity before the screen turns off (0 = never)"@, ValueKind::Int, ValueView::Int(5), PrivilegeLevel::User)
            .with_range(0, 180000),
        SpecView::new("power.suspend_timeout_minutes"@, "power"@, "Suspend"@, "Minutes of inactivity before the system suspends (0 = never)"@, ValueKind::Int, ValueView::Int(15), PrivilegeLevel::User)
            .with_range(0, 360000),
        SpecView::new("power.suspend_on_battery_low"@, "power"@, "Auto-suspend on low battery"@, "Force-suspend when the battery drops critically low"@, ValueKind::Bool, ValueView::Bool(true), PrivilegeLevel::User),
        SpecView::new("power.lid_close_action"@, "power"@, "Lid behavior"@, "What happens when a laptop lid is closed"@, ValueKind::Str, ValueView::Str("suspend"@), PrivilegeLevel::Admin)
            .with_choices(seq!["suspend"@, "hibernate"@, "shutdown"@, "nothing"@]),
    ]
}

impl Category for PowerCategory {
    open spec fn spec_id(&self) -> Seq<char> {
        "power"@
    }

    open spec fn spec_name(&self) -> Seq<char> {
        "Power"@
    }

    open spec fn spec_icon(&self) -> Seq<char> {
        "preferences-system-power"@
    }

    open spec fn spec_subitems(&self) -> Seq<Seq<char>> {
        seq!["Battery"@, "Power profiles"@, "Screen timeout"@, "Suspend"@, "Lid behavior"@]
    }

    open spec fn spec_settings(&self) -> Seq<SpecView> {
        power_settings()
    }

    open spec fn spec_live_info(&self) -> Seq<(Seq<char>, Seq<char>)> {
        Seq::empty()
    }

    fn id(&self) -> (r: &'static str) {
        "power"
    }

    fn name(&self) -> (r: &'static str) {
        "Power"
    }

    fn icon(&self) -> (r: &'static str) {
        "preferences-system-power"
    }

    fn subitems(&self) -> (r: &'static [&'static str]) {
        let r: &'static [&'static str] = &["Battery", "Power profiles", "Screen timeout", "Suspend", "Lid behavior"];
        proof {
            assert(strs_view(r@) =~= self.spec_subitems());
        }
        r
    }

    fn register(&self, schema: &mut Schema) {
        let spec = SettingSpec::new(
            "power.profile",
            "power",
            "Power profile",
            "Balances performance against battery life",
            ValueKind::Str,
            Value::Str(String::from_str("balanced")),
            PrivilegeLevel::User,
        )
        .choices(&["power-saver", "balanced", "performance"]);
        assert(spec@.choices == power_settings()[0].choices);
        assert(spec@ == power_settings()[0]);
        schema.register(spec);
        let spec = SettingSpec::new(
            "power.screen_timeout_minutes",
            "power",
            "Screen timeout",
            "Minutes of inactivity before the screen turns off (0 = never)",
            ValueKind::Int,
            Value::Int(5),
            PrivilegeLevel::User,
        )
        .range(Milli(0), Milli(180000));
        assert(spec@ == power_settings()[1]);
        schema.register(spec);
        let spec = SettingSpec::new(
            "power.suspend_timeout_minutes",
            "power",
            "Suspend",
            "Minutes of inactivity before the system suspends (0 = never)",
            ValueKind::Int,
            Value::Int(15),
            PrivilegeLevel::User,
        )
        .range(Milli(0), Milli(360000));
        assert(spec@ == power_settings()[2]);
        schema.register(spec);
        let spec = SettingSpec::new(
            "power.suspend_on_battery_low",
            "power",
            "Auto-suspend on low battery",
            "Force-suspend when the battery drops critically low",
            ValueKind::Bool,
            Value::Bool(true),
            PrivilegeLevel::User,
        );
        assert(spec@ == power_settings()[3]);
        schema.register(spec);
        let spec = SettingSpec::new(
            "power.lid_close_action",
            "power",
            "Lid behavior",
            "What happens when a laptop lid is closed",
            ValueKind::Str,
            Value::Str(String::from_str("suspend")),
            PrivilegeLevel::Admin,
        )
        .choices(&["suspend", "hibernate", "shutdown", "nothing"]);
        assert(spec@.choices == power_settings()[4].choices);
        assert(spec@ == power_settings()[4]);
        schema.register(spec);
        proof {
            assert(schema@.specs =~= old(schema)@.specs + power_settings());
        }
    }

    fn live_info(&self) -> (r: Vec<(&'static str, String)>) {
        let rows: Vec<(&'static str, String)> = Vec::new();
        proof {
            assert(crate::categories::live_rows_view(rows@) =~= self.spec_live_info());
        }
        rows
    }
}

/// Every setting of the "Power" category belongs to it, and its default meets
/// the setting's own constraints.
pub proof fn lemma_power_defaults_valid()
    ensures
        forall|i: int|
            0 <= i < power_settings().len() ==> #[trigger] power_settings()[i].default_is_valid()
                && power_settings()[i].category == "power"@,
{
    assert(power_settings()[0].choices->0[1] == power_settings()[0].default->Str_0);
    assert(power_settings()[4].choices->0[0] == power_settings()[4].default->Str_0);
}

} // verus!
