//! The "Date & Time" entry of the settings navigator.

use vstd::prelude::*;
use crate::categories::Category;
use crate::permissions::PrivilegeLevel;
use crate::settings::schema::{strs_view, Schema, SettingSpec, SpecView};
use crate::settings::value::{Value, ValueKind, ValueView};

verus! {

/// The "Date & Time" entry of the settings navigator.
#[derive(Clone, Copy)]
pub struct DateTimeCategory;

/// The settings the "Date & Time" category registers, in registration order.
pub open spec fn date_time_settings() -> Seq<SpecView> {
    seq![
        SpecView::new("date_time.timezone"@, "date_time"@, "Time zone"@, "IANA time zone name, e.g. America/New_York"@, ValueKind::Str, ValueView::Str("UTC"@), PrivilegeLevel::Admin),
        SpecView::new("date_time.automatic_time"@, "date_time"@, "Set automatically"@, "Sync the clock over the network (NTP)"@, ValueKind::Bool, ValueView::Bool(true), PrivilegeLevel::Admin),
        SpecView::new("date_time.date_format"@, "date_time"@, "Date format"@, "How dates are displayed"@, ValueKind::Str, ValueView::Str("YYYY-MM-DD"@), PrivilegeLevel::User)
            .with_choices(seq!["YYYY-MM-DD"@, "MM/DD/YYYY"@, "DD/MM/YYYY"@, "DD Month YYYY"@]),
        SpecView::new("date_time.hour_24"@, "date_time"@, "24-hour time"@, "Use a 24-hour clock instead of AM/PM"@, ValueKind::Bool, ValueView::Bool(true), PrivilegeLevel::User),
    ]
}

impl Category for DateTimeCategory {
    open spec fn spec_id(&self) -> Seq<char> {
        "date_time"@
    }

    open spec fn spec_name(&self) -> Seq<char> {
        "Date & Time"@
    }

    open spec fn spec_icon(&self) -> Seq<char> {
        "preferences-system-time"@
    }

    open spec fn spec_subitems(&self) -> Seq<Seq<char>> {
        seq!["Time zone"@, "Automatic time"@, "Date format"@, "12/24 hour"@]
    }

    open spec fn spec_settings(&self) -> Seq<SpecView> {
        date_time_settings()
    }

    open spec fn spec_live_info(&self) -> Seq<(Seq<char>, Seq<char>)> {
        Seq::empty()
    }

    fn id(&self) -> (r: &'static str) {
        "date_time"
    }

    fn name(&self) -> (r: &'static str) {
        "Date & Time"
    }

    fn icon(&self) -> (r: &'static str) {
        "preferences-system-time"
    }

    fn subitems(&self) -> (r: &'static [&'static str]) {
        let r: &'static [&'static str] = &["Time zone", "Automatic time", "Date format", "12/24 hour"];
        proof {
            assert(strs_view(r@) =~= self.spec_subitems());
        }
        r
    }

    fn register(&self, schema: &mut Schema) {
        let spec = SettingSpec::new(
            "date_time.timezone",
            "date_time",
            "Time zone",
            "IANA time zone name, e.g. America/New_York",
            ValueKind::Str,
            Value::Str(String::from_str("UTC")),
            PrivilegeLevel::Admin,
        );
        assert(spec@ == date_time_settings()[0]);
        schema.register(spec);
        let spec = SettingSpec::new(
            "date_time.automatic_time",
            "date_time",
            "Set automatically",
            "Sync the clock over the network (NTP)",
            ValueKind::Bool,
            Value::Bool(true),
            PrivilegeLevel::Admin,
        );
        assert(spec@ == date_time_settings()[1]);
        schema.register(spec);
        let spec = SettingSpec::new(
            "date_time.date_format",
            "date_time",
            "Date format",
            "How dates are displayed",
            ValueKind::Str,
            Value::Str(String::from_str("YYYY-MM-DD")),
            PrivilegeLevel::User,
        )
        .choices(&["YYYY-MM-DD", "MM/DD/YYYY", "DD/MM/YYYY", "DD Month YYYY"]);
        assert(spec@.choices == date_time_settings()[2].choices);
        assert(spec@ == date_time_settings()[2]);
        schema.register(spec);
        let spec = SettingSpec::new(
            "date_time.hour_24",
            "date_time",
            "24-hour time",
            "Use a 24-hour clock instead of AM/PM",
            ValueKind::Bool,
            Value::Bool(true),
            PrivilegeLevel::User,
        );
        assert(spec@ == date_time_settings()[3]);
        schema.register(spec);
        proof {
            assert(schema@.specs =~= old(schema)@.specs + date_time_settings());
        }
    }

    fn live_info(&self) -> (r: Vec<(&'static str, String)>) {
        let rows: Vec<(&'static str, String)> = Vec::new();
        proof {
            assert(crate::categories::live_rows_view(rows@) =~= self.spec_live_info());
        }
        rows
    }
}

/// Every setting of the "Date & Time" category belongs to it, and its default meets
/// the setting's own constraints.
pub proof fn lemma_date_time_defaults_valid()
    ensures
        forall|i: int|
            0 <= i < date_time_settings().len() ==> #[trigger] date_time_settings()[i].default_is_valid()
                && date_time_settings()[i].category == "date_time"@,
{
    assert(date_time_settings()[2].choices->0[0] == date_time_settings()[2].default->Str_0);
}

} // verus!
