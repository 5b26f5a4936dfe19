//! The "Battery" entry of the settings navigator.

use vstd::prelude::*;
use crate::categories::Category;
use crate::permissions::PrivilegeLevel;
use crate::settings::schema::{strs_view, Schema, SettingSpec, SpecView};
use crate::settings::value::{Milli, Value, ValueKind, ValueView};

verus! {

/// The "Battery" entry of the settings navigator.
#[derive(Clone, Copy)]
pub struct BatteryCategory;

/// The settings the "Battery" category registers, in registration order.
pub open spec fn battery_settings() -> Seq<SpecView> {
    seq![
        SpecView::new("battery.low_battery_threshold"@, "battery"@, "Low battery threshold"@, "Percentage at which a low-battery warning is shown"@, ValueKind::Int, ValueView::Int(15), PrivilegeLevel::User)
            .with_range(1000, 50000),
    ]
}

impl Category for BatteryCategory {
    open spec fn spec_id(&self) -> Seq<char> {
        "battery"@
    }

    open spec fn spec_name(&self) -> Seq<char> {
        "Battery"@
    }

    open spec fn spec_icon(&self) -> Seq<char> {
        "battery"@
    }

    open spec fn spec_subitems(&self) -> Seq<Seq<char>> {
        seq!["Charge level"@, "Status"@, "Low battery threshold"@]
    }

    open spec fn spec_settings(&self) -> Seq<SpecView> {
        battery_settings()
    }

    open spec fn spec_live_info(&self) -> Seq<(Seq<char>, Seq<char>)> {
        Seq::empty()
    }

    fn id(&self) -> (r: &'static str) {
        "battery"
    }

    fn name(&self) -> (r: &'static str) {
        "Battery"
    }

    fn icon(&self) -> (r: &'static str) {
        "battery"
    }

    fn subitems(&self) -> (r: &'static [&'static str]) {
        let r: &'static [&'static str] = &["Charge level", "Status", "Low battery threshold"];
        proof {
            assert(strs_view(r@) =~= self.spec_subitems());
        }
        r
    }

    fn register(&self, schema: &mut Schema) {
        let spec = SettingSpec::new(
            "battery.low_battery_threshold",
            "battery",
            "Low battery threshold",
            "Percentage at which a low-battery warning is shown",
            ValueKind::Int,
            Value::Int(15),
            PrivilegeLevel::User,
        )
        .range(Milli(1000), Milli(50000));
        assert(spec@ == battery_settings()[0]);
        schema.register(spec);
        proof {
            assert(schema@.specs =~= old(schema)@.specs + battery_settings());
        }
    }

    fn live_info(&self) -> (r: Vec<(&'static str, String)>) {
        let rows: Vec<(&'static str, String)> = Vec::new();
        proof {
            assert(crate::categories::live_rows_view(rows@) =~= self.spec_live_info());
        }
        rows
    }
}

/// Every setting of the "Battery" category belongs to it, and its default meets
/// the setting's own constraints.
pub proof fn lemma_battery_defaults_valid()
    ensures
        forall|i: int|
            0 <= i < battery_settings().len() ==> #[trigger] battery_settings()[i].default_is_valid()
                && battery_settings()[i].category == "battery"@,
{
}

} // verus!
