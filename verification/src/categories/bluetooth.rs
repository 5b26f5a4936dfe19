//! The "Bluetooth" entry of the settings navigator.

use vstd::prelude::*;
use crate::categories::Category;
use crate::permissions::PrivilegeLevel;
use crate::settings::schema::{strs_view, Schema, SettingSpec, SpecView};
use crate::settings::value::{Value, ValueKind, ValueView};

verus! {

/// The "Bluetooth" entry of the settings navigator.
#[derive(Clone, Copy)]
pub struct BluetoothCategory;

/// The settings the "Bluetooth" category registers, in registration order.
pub open spec fn bluetooth_settings() -> Seq<SpecView> {
    seq![
        SpecView::new("bluetooth.enabled"@, "bluetooth"@, "Bluetooth"@, "Power the Bluetooth adapter on or off"@, ValueKind::Bool, ValueView::Bool(true), PrivilegeLevel::User),
        SpecView::new("bluetooth.discoverable"@, "bluetooth"@, "Discoverable"@, "Let nearby devices find this machine for pairing"@, ValueKind::Bool, ValueView::Bool(false), PrivilegeLevel::User),
        SpecView::new("bluetooth.auto_scan"@, "bluetooth"@, "Discovery"@, "Continuously scan for nearby devices while Settings is open"@, ValueKind::Bool, ValueView::Bool(true), PrivilegeLevel::User),
    ]
}

impl Category for BluetoothCategory {
    open spec fn spec_id(&self) -> Seq<char> {
        "bluetooth"@
    }

    open spec fn spec_name(&self) -> Seq<char> {
        "Bluetooth"@
    }

    open spec fn spec_icon(&self) -> Seq<char> {
        "bluetooth"@
    }

    open spec fn spec_subitems(&self) -> Seq<Seq<char>> {
        seq!["Devices"@, "Pairing"@, "Discovery"@]
    }

    open spec fn spec_settings(&self) -> Seq<SpecView> {
        bluetooth_settings()
    }

    open spec fn spec_live_info(&self) -> Seq<(Seq<char>, Seq<char>)> {
        Seq::empty()
    }

    fn id(&self) -> (r: &'static str) {
        "bluetooth"
    }

    fn name(&self) -> (r: &'static str) {
        "Bluetooth"
    }

    fn icon(&self) -> (r: &'static str) {
        "bluetooth"
    }

    fn subitems(&self) -> (r: &'static [&'static str]) {
        let r: &'static [&'static str] = &["Devices", "Pairing", "Discovery"];
        proof {
            assert(strs_view(r@) =~= self.spec_subitems());
        }
        r
    }

    fn register(&self, schema: &mut Schema) {
        let spec = SettingSpec::new(
            "bluetooth.enabled",
            "bluetooth",
            "Bluetooth",
            "Power the Bluetooth adapter on or off",
            ValueKind::Bool,
            Value::Bool(true),
            PrivilegeLevel::User,
        );
        assert(spec@ == bluetooth_settings()[0]);
        schema.register(spec);
        let spec = SettingSpec::new(
            "bluetooth.discoverable",
            "bluetooth",
            "Discoverable",
            "Let nearby devices find this machine for pairing",
            ValueKind::Bool,
            Value::Bool(false),
            PrivilegeLevel::User,
        );
        assert(spec@ == bluetooth_settings()[1]);
        schema.register(spec);
        let spec = SettingSpec::new(
            "bluetooth.auto_scan",
            "bluetooth",
            "Discovery",
            "Continuously scan for nearby devices while Settings is open",
            ValueKind::Bool,
            Value::Bool(true),
            PrivilegeLevel::User,
        );
        assert(spec@ == bluetooth_settings()[2]);
        schema.register(spec);
        proof {
            assert(schema@.specs =~= old(schema)@.specs + bluetooth_settings());
        }
    }

    fn live_info(&self) -> (r: Vec<(&'static str, String)>) {
        let rows: Vec<(&'static str, String)> = Vec::new();
        proof {
            assert(crate::categories::live_rows_view(rows@) =~= self.spec_live_info());
        }
        rows
    }
}

/// Every setting of the "Bluetooth" category belongs to it, and its default meets
/// the setting's own constraints.
pub proof fn lemma_bluetooth_defaults_valid()
    ensures
        forall|i: int|
            0 <= i < bluetooth_settings().len() ==> #[trigger] bluetooth_settings()[i].default_is_valid()
                && bluetooth_settings()[i].category == "bluetooth"@,
{
}

} // verus!
