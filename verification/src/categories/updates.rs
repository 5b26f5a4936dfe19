//! The "Updates" entry of the settings navigator.

use vstd::prelude::*;
use crate::categories::Category;
use crate::permissions::PrivilegeLevel;
use crate::settings::schema::{strs_view, Schema, SettingSpec, SpecView};
use crate::settings::value::{Value, ValueKind, ValueView};

verus! {

/// The "Updates" entry of the settings navigator.
#[derive(Clone, Copy)]
pub struct UpdatesCategory;

/// The settings the "Updates" category registers, in registration order.
pub open spec fn updates_settings() -> Seq<SpecView> {
    seq![
        SpecView::new("updates.auto_check"@, "updates"@, "Check for updates automatically"@, "Periodically check for available package updates"@, ValueKind::Bool, ValueView::Bool(true), PrivilegeLevel::User),
        SpecView::new("updates.auto_install_security"@, "updates"@, "Auto-install security updates"@, "Install security patches as soon as they're available"@, ValueKind::Bool, ValueView::Bool(true), PrivilegeLevel::Admin),
        SpecView::new("updates.channel"@, "updates"@, "Update channel"@, "Which release channel to track"@, ValueKind::Str, ValueView::Str("stable"@), PrivilegeLevel::Admin)
            .with_choices(seq!["stable"@, "beta"@]),
    ]
}

impl Category for UpdatesCategory {
    open spec fn spec_id(&self) -> Seq<char> {
        "updates"@
    }

    open spec fn spec_name(&self) -> Seq<char> {
        "Updates"@
    }

    open spec fn spec_icon(&self) -> Seq<char> {
        "system-software-update"@
    }

    open spec fn spec_subitems(&self) -> Seq<Seq<char>> {
        seq!["System updates"@, "Security updates"@, "Update preferences"@]
    }

    open spec fn spec_settings(&self) -> Seq<SpecView> {
        updates_settings()
    }

    open spec fn spec_live_info(&self) -> Seq<(Seq<char>, Seq<char>)> {
        Seq::empty()
    }

    fn id(&self) -> (r: &'static str) {
        "updates"
    }

    fn name(&self) -> (r: &'static str) {
        "Updates"
    }

    fn icon(&self) -> (r: &'static str) {
        "system-software-update"
    }

    fn subitems(&self) -> (r: &'static [&'static str]) {
        let r: &'static [&'static str] = &["System updates", "Security updates", "Update preferences"];
        proof {
            assert(strs_view(r@) =~= self.spec_subitems());
        }
        r
    }

    fn register(&self, schema: &mut Schema) {
        let spec = SettingSpec::new(
            "updates.auto_check",
            "updates",
            "Check for updates automatically",
            "Periodically check for available package updates",
            ValueKind::Bool,
            Value::Bool(true),
            PrivilegeLevel::User,
        );
        assert(spec@ == updates_settings()[0]);
        schema.register(spec);
        let spec = SettingSpec::new(
            "updates.auto_install_security",
            "updates",
            "Auto-install security updates",
            "Install security patches as soon as they're available",
            ValueKind::Bool,
            Value::Bool(true),
            PrivilegeLevel::Admin,
        );
        assert(spec@ == updates_settings()[1]);
        schema.register(spec);
        let spec = SettingSpec::new(
            "updates.channel",
            "updates",
            "Update channel",
            "Which release channel to track",
            ValueKind::Str,
            Value::Str(String::from_str("stable")),
            PrivilegeLevel::Admin,
        )
        .choices(&["stable", "beta"]);
        assert(spec@.choices == updates_settings()[2].choices);
        assert(spec@ == updates_settings()[2]);
        schema.register(spec);
        proof {
            assert(schema@.specs =~= old(schema)@.specs + updates_settings());
        }
    }

    fn live_info(&self) -> (r: Vec<(&'static str, String)>) {
        let rows: Vec<(&'static str, String)> = Vec::new();
        proof {
            assert(crate::categories::live_rows_view(rows@) =~= self.spec_live_info());
        }
        rows
    }
}

/// Every setting of the "Updates" category belongs to it, and its default meets
/// the setting's own constraints.
pub proof fn lemma_updates_defaults_valid()
    ensures
        forall|i: int|
            0 <= i < updates_settings().len() ==> #[trigger] updates_settings()[i].default_is_valid()
                && updates_settings()[i].category == "updates"@,
{
    assert(updates_settings()[2].choices->0[0] == updates_settings()[2].default->Str_0);
}

} // verus!
