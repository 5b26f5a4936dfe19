//! The "Region" entry of the settings navigator.

use vstd::prelude::*;
use crate::categories::Category;
use crate::permissions::PrivilegeLevel;
use crate::settings::schema::{strs_view, Schema, SettingSpec, SpecView};
use crate::settings::value::{Value, ValueKind, ValueView};

verus! {

/// The "Region" entry of the settings navigator.
#[derive(Clone, Copy)]
pub struct RegionCategory;

/// The settings the "Region" category registers, in registration order.
pub open spec fn region_settings() -> Seq<SpecView> {
    seq![
        SpecView::new("region.country"@, "region"@, "Region"@, "Country/region code used for formatting defaults (ISO 3166-1 alpha-2)"@, ValueKind::Str, ValueView::Str("US"@), PrivilegeLevel::User),
        SpecView::new("region.currency"@, "region"@, "Currency"@, "Currency code used to format prices (ISO 4217)"@, ValueKind::Str, ValueView::Str("USD"@), PrivilegeLevel::User),
        SpecView::new("region.measurement_system"@, "region"@, "Measurement units"@, "Metric or imperial units"@, ValueKind::Str, ValueView::Str("metric"@), PrivilegeLevel::User)
            .with_choices(seq!["metric"@, "imperial"@]),
        SpecView::new("region.first_day_of_week"@, "region"@, "First day of week"@, "Which day calendars start on"@, ValueKind::Str, ValueView::Str("monday"@), PrivilegeLevel::User)
            .with_choices(seq!["sunday"@, "monday"@]),
    ]
}

impl Category for RegionCategory {
    open spec fn spec_id(&self) -> Seq<char> {
        "region"@
    }

    open spec fn spec_name(&self) -> Seq<char> {
        "Region"@
    }

    open spec fn spec_icon(&self) -> Seq<char> {
        "preferences-desktop-locale"@
    }

    open spec fn spec_subitems(&self) -> Seq<Seq<char>> {
        seq!["Region"@, "Currency"@, "Formats"@]
    }

    open spec fn spec_settings(&self) -> Seq<SpecView> {
        region_settings()
    }

    open spec fn spec_live_info(&self) -> Seq<(Seq<char>, Seq<char>)> {
        Seq::empty()
    }

    fn id(&self) -> (r: &'static str) {
        "region"
    }

    fn name(&self) -> (r: &'static str) {
        "Region"
    }

    fn icon(&self) -> (r: &'static str) {
        "preferences-desktop-locale"
    }

    fn subitems(&self) -> (r: &'static [&'static str]) {
        let r: &'static [&'static str] = &["Region", "Currency", "Formats"];
        proof {
            assert(strs_view(r@) =~= self.spec_subitems());
        }
        r
    }

    fn register(&self, schema: &mut Schema) {
        let spec = SettingSpec::new(
            "region.country",
            "region",
            "Region",
            "Country/region code used for formatting defaults (ISO 3166-1 alpha-2)",
            ValueKind::Str,
            Value::Str(String::from_str("US")),
            PrivilegeLevel::User,
        );
        assert(spec@ == region_settings()[0]);
        schema.register(spec);
        let spec = SettingSpec::new(
            "region.currency",
            "region",
            "Currency",
            "Currency code used to format prices (ISO 4217)",
            ValueKind::Str,
            Value::Str(String::from_str("USD")),
            PrivilegeLevel::User,
        );
        assert(spec@ == region_settings()[1]);
        schema.register(spec);
        let spec = SettingSpec::new(
            "region.measurement_system",
            "region",
            "Measurement units",
            "Metric or imperial units",
            ValueKind::Str,
            Value::Str(String::from_str("metric")),
            PrivilegeLevel::User,
        )
        .choices(&["metric", "imperial"]);
        assert(spec@.choices == region_settings()[2].choices);
        assert(spec@ == region_settings()[2]);
        schema.register(spec);
        let spec = SettingSpec::new(
            "region.first_day_of_week",
            "region",
            "First day of week",
            "Which day calendars start on",
            ValueKind::Str,
            Value::Str(String::from_str("monday")),
            PrivilegeLevel::User,
        )
        .choices(&["sunday", "monday"]);
        assert(spec@.choices == region_settings()[3].choices);
        assert(spec@ == region_settings()[3]);
        schema.register(spec);
        proof {
            assert(schema@.specs =~= old(schema)@.specs + region_settings());
        }
    }

    fn live_info(&self) -> (r: Vec<(&'static str, String)>) {
        let rows: Vec<(&'static str, String)> = Vec::new();
        proof {
            assert(crate::categories::live_rows_view(rows@) =~= self.spec_live_info());
        }
        rows
    }
}

/// Every setting of the "Region" category belongs to it, and its default meets
/// the setting's own constraints.
pub proof fn lemma_region_defaults_valid()
    ensures
        forall|i: int|
            0 <= i < region_settings().len() ==> #[trigger] region_settings()[i].default_is_valid()
                && region_settings()[i].category == "region"@,
{
    assert(region_settings()[2].choices->0[0] == region_settings()[2].default->Str_0);
    assert(region_settings()[3].choices->0[1] == region_settings()[3].default->Str_0);
}

} // verus!
