//! The "Developer" entry of the settings navigator.

use vstd::prelude::*;
use crate::categories::Category;
use crate::permissions::PrivilegeLevel;
use crate::settings::schema::{strs_view, Schema, SettingSpec, SpecView};
use crate::settings::value::{Value, ValueKind, ValueView};

verus! {

/// The "Developer" entry of the settings navigator.
#[derive(Clone, Copy)]
pub struct DeveloperCategory;

/// The settings the "Developer" category registers, in registration order.
pub open spec fn developer_settings() -> Seq<SpecView> {
    seq![
        SpecView::new("developer.mode_enabled"@, "developer"@, "Developer mode"@, "Unlock developer-only features (local root shell, unsigned packages, ...)"@, ValueKind::Bool, ValueView::Bool(false), PrivilegeLevel::Admin),
        SpecView::new("developer.diagnostics_enabled"@, "developer"@, "Diagnostics"@, "Collect crash reports and diagnostic data locally"@, ValueKind::Bool, ValueView::Bool(false), PrivilegeLevel::User),
        SpecView::new("developer.debug_logging"@, "developer"@, "Debug logging"@, "Increase log verbosity across system services"@, ValueKind::Bool, ValueView::Bool(false), PrivilegeLevel::User),
    ]
}

impl Category for DeveloperCategory {
    open spec fn spec_id(&self) -> Seq<char> {
        "developer"@
    }

    open spec fn spec_name(&self) -> Seq<char> {
        "Developer"@
    }

    open spec fn spec_icon(&self) -> Seq<char> {
        "applications-development"@
    }

    open spec fn spec_subitems(&self) -> Seq<Seq<char>> {
        seq!["Developer mode"@, "Logs"@, "Diagnostics"@, "Debugging"@]
    }

    open spec fn spec_settings(&self) -> Seq<SpecView> {
        developer_settings()
    }

    open spec fn spec_live_info(&self) -> Seq<(Seq<char>, Seq<char>)> {
        seq![("log_directory"@, "/var/log/mitos"@)]
    }

    fn id(&self) -> (r: &'static str) {
        "developer"
    }

    fn name(&self) -> (r: &'static str) {
        "Developer"
    }

    fn icon(&self) -> (r: &'static str) {
        "applications-development"
    }

    fn subitems(&self) -> (r: &'static [&'static str]) {
        let r: &'static [&'static str] = &["Developer mode", "Logs", "Diagnostics", "Debugging"];
        proof {
            assert(strs_view(r@) =~= self.spec_subitems());
        }
        r
    }

    fn register(&self, schema: &mut Schema) {
        let spec = SettingSpec::new(
            "developer.mode_enabled",
            "developer",
            "Developer mode",
            "Unlock developer-only features (local root shell, unsigned packages, ...)",
            ValueKind::Bool,
            Value::Bool(false),
            PrivilegeLevel::Admin,
        );
        assert(spec@ == developer_settings()[0]);
        schema.register(spec);
        let spec = SettingSpec::new(
            "developer.diagnostics_enabled",
            "developer",
            "Diagnostics",
            "Collect crash reports and diagnostic data locally",
            ValueKind::Bool,
            Value::Bool(false),
            PrivilegeLevel::User,
        );
        assert(spec@ == developer_settings()[1]);
        schema.register(spec);
        let spec = SettingSpec::new(
            "developer.debug_logging",
            "developer",
            "Debug logging",
            "Increase log verbosity across system services",
            ValueKind::Bool,
            Value::Bool(false),
            PrivilegeLevel::User,
        );
        assert(spec@ == developer_settings()[2]);
        schema.register(spec);
        proof {
            assert(schema@.specs =~= old(schema)@.specs + developer_settings());
        }
    }

    fn live_info(&self) -> (r: Vec<(&'static str, String)>) {
        let mut rows: Vec<(&'static str, String)> = Vec::new();
        rows.push(("log_directory", String::from_str("/var/log/mitos")));
        proof {
            assert(crate::categories::live_rows_view(rows@) =~= self.spec_live_info());
        }
        rows
    }
}

/// Every setting of the "Developer" category belongs to it, and its default meets
/// the setting's own constraints.
pub proof fn lemma_developer_defaults_valid()
    ensures
        forall|i: int|
            0 <= i < developer_settings().len() ==> #[trigger] developer_settings()[i].default_is_valid()
                && developer_settings()[i].category == "developer"@,
{
}

} // verus!
