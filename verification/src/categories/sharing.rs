//! The "Sharing" entry of the settings navigator.

use vstd::prelude::*;
use crate::categories::Category;
use crate::permissions::PrivilegeLevel;
use crate::settings::schema::{strs_view, Schema, SettingSpec, SpecView};
use crate::settings::value::{Value, ValueKind, ValueView};

verus! {

/// The "Sharing" entry of the settings navigator.
#[derive(Clone, Copy)]
pub struct SharingCategory;

/// The settings the "Sharing" category registers, in registration order.
pub open spec fn sharing_settings() -> Seq<SpecView> {
    seq![
        SpecView::new("sharing.file_sharing_enabled"@, "sharing"@, "File sharing"@, "Share folders with other devices on the network"@, ValueKind::Bool, ValueView::Bool(false), PrivilegeLevel::Admin),
        SpecView::new("sharing.screen_sharing_enabled"@, "sharing"@, "Screen sharing"@, "Allow other devices to view or control this screen"@, ValueKind::Bool, ValueView::Bool(false), PrivilegeLevel::Admin),
        SpecView::new("sharing.remote_access_ssh_enabled"@, "sharing"@, "Remote access (SSH)"@, "Allow incoming SSH connections"@, ValueKind::Bool, ValueView::Bool(false), PrivilegeLevel::Admin),
    ]
}

impl Category for SharingCategory {
    open spec fn spec_id(&self) -> Seq<char> {
        "sharing"@
    }

    open spec fn spec_name(&self) -> Seq<char> {
        "Sharing"@
    }

    open spec fn spec_icon(&self) -> Seq<char> {
        "preferences-system-sharing"@
    }

    open spec fn spec_subitems(&self) -> Seq<Seq<char>> {
        seq!["File sharing"@, "Screen sharing"@, "Remote access"@]
    }

    open spec fn spec_settings(&self) -> Seq<SpecView> {
        sharing_settings()
    }

    open spec fn spec_live_info(&self) -> Seq<(Seq<char>, Seq<char>)> {
        Seq::empty()
    }

    fn id(&self) -> (r: &'static str) {
        "sharing"
    }

    fn name(&self) -> (r: &'static str) {
        "Sharing"
    }

    fn icon(&self) -> (r: &'static str) {
        "preferences-system-sharing"
    }

    fn subitems(&self) -> (r: &'static [&'static str]) {
        let r: &'static [&'static str] = &["File sharing", "Screen sharing", "Remote access"];
        proof {
            assert(strs_view(r@) =~= self.spec_subitems());
        }
        r
    }

    fn register(&self, schema: &mut Schema) {
        let spec = SettingSpec::new(
            "sharing.file_sharing_enabled",
            "sharing",
            "File sharing",
            "Share folders with other devices on the network",
            ValueKind::Bool,
            Value::Bool(false),
            PrivilegeLevel::Admin,
        );
        assert(spec@ == sharing_settings()[0]);
        schema.register(spec);
        let spec = SettingSpec::new(
            "sharing.screen_sharing_enabled",
            "sharing",
            "Screen sharing",
            "Allow other devices to view or control this screen",
            ValueKind::Bool,
            Value::Bool(false),
            PrivilegeLevel::Admin,
        );
        assert(spec@ == sharing_settings()[1]);
        schema.register(spec);
        let spec = SettingSpec::new(
            "sharing.remote_access_ssh_enabled",
            "sharing",
            "Remote access (SSH)",
            "Allow incoming SSH connections",
            ValueKind::Bool,
            Value::Bool(false),
            PrivilegeLevel::Admin,
        );
        assert(spec@ == sharing_settings()[2]);
        schema.register(spec);
        proof {
            assert(schema@.specs =~= old(schema)@.specs + sharing_settings());
        }
    }

    fn live_info(&self) -> (r: Vec<(&'static str, String)>) {
        let rows: Vec<(&'static str, String)> = Vec::new();
        proof {
            assert(crate::categories::live_rows_view(rows@) =~= self.spec_live_info());
        }
        rows
    }
}

/// Every setting of the "Sharing" category belongs to it, and its default meets
/// the setting's own constraints.
pub proof fn lemma_sharing_defaults_valid()
    ensures
        forall|i: int|
            0 <= i < sharing_settings().len() ==> #[trigger] sharing_settings()[i].default_is_valid()
                && sharing_settings()[i].category == "sharing"@,
{
}

} // verus!
