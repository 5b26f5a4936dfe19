//! The "Security" entry of the settings navigator.

use vstd::prelude::*;
use crate::categories::Category;
use crate::permissions::PrivilegeLevel;
use crate::settings::schema::{strs_view, Schema, SettingSpec, SpecView};
use crate::settings::value::{Value, ValueKind, ValueView};

verus! {

/// The "Security" entry of the settings navigator.
#[derive(Clone, Copy)]
pub struct SecurityCategory;

/// The settings the "Security" category registers, in registration order.
pub open spec fn security_settings() -> Seq<SpecView> {
    seq![
        SpecView::new("security.firewall_status"@, "security"@, "Firewall status"@, "Read-only summary; toggle the firewall itself under Network"@, ValueKind::Str, ValueView::Str("unknown"@), PrivilegeLevel::Admin)
            .with_read_only(),
        SpecView::new("security.disk_encryption_status"@, "security"@, "Disk encryption"@, "Whether the root filesystem is encrypted at rest"@, ValueKind::Str, ValueView::Str("unknown"@), PrivilegeLevel::Admin)
            .with_read_only(),
        SpecView::new("security.secure_boot_status"@, "security"@, "Secure boot"@, "Whether UEFI Secure Boot is currently enforced"@, ValueKind::Str, ValueView::Str("unknown"@), PrivilegeLevel::Admin)
            .with_read_only(),
        SpecView::new("security.require_password_immediately"@, "security"@, "Require password immediately"@, "No grace period before the lock screen demands a password"@, ValueKind::Bool, ValueView::Bool(true), PrivilegeLevel::Admin),
        SpecView::new("security.automatic_security_updates"@, "security"@, "Automatic security updates"@, "Install security patches without waiting for manual approval"@, ValueKind::Bool, ValueView::Bool(true), PrivilegeLevel::Admin),
    ]
}

impl Category for SecurityCategory {
    open spec fn spec_id(&self) -> Seq<char> {
        "security"@
    }

    open spec fn spec_name(&self) -> Seq<char> {
        "Security"@
    }

    open spec fn spec_icon(&self) -> Seq<char> {
        "security-high"@
    }

    open spec fn spec_subitems(&self) -> Seq<Seq<char>> {
        seq!["Firewall"@, "Disk encryption status"@, "Secure boot status"@, "Login security"@, "Security updates"@]
    }

    open spec fn spec_settings(&self) -> Seq<SpecView> {
        security_settings()
    }

    open spec fn spec_live_info(&self) -> Seq<(Seq<char>, Seq<char>)> {
        Seq::empty()
    }

    fn id(&self) -> (r: &'static str) {
        "security"
    }

    fn name(&self) -> (r: &'static str) {
        "Security"
    }

    fn icon(&self) -> (r: &'static str) {
        "security-high"
    }

    fn subitems(&self) -> (r: &'static [&'static str]) {
        let r: &'static [&'static str] = &["Firewall", "Disk encryption status", "Secure boot status", "Login security", "Security updates"];
        proof {
            assert(strs_view(r@) =~= self.spec_subitems());
        }
        r
    }

    fn register(&self, schema: &mut Schema) {
        let spec = SettingSpec::new(
            "security.firewall_status",
            "security",
            "Firewall status",
            "Read-only summary; toggle the firewall itself under Network",
            ValueKind::Str,
            Value::Str(String::from_str("unknown")),
            PrivilegeLevel::Admin,
        )
        .read_only();
        assert(spec@ == security_settings()[0]);
        schema.register(spec);
        let spec = SettingSpec::new(
            "security.disk_encryption_status",
            "security",
            "Disk encryption",
            "Whether the root filesystem is encrypted at rest",
            ValueKind::Str,
            Value::Str(String::from_str("unknown")),
            PrivilegeLevel::Admin,
        )
        .read_only();
        assert(spec@ == security_settings()[1]);
        schema.register(spec);
        let spec = SettingSpec::new(
            "security.secure_boot_status",
            "security",
            "Secure boot",
            "Whether UEFI Secure Boot is currently enforced",
            ValueKind::Str,
            Value::Str(String::from_str("unknown")),
            PrivilegeLevel::Admin,
        )
        .read_only();
        assert(spec@ == security_settings()[2]);
        schema.register(spec);
        let spec = SettingSpec::new(
            "security.require_password_immediately",
            "security",
            "Require password immediately",
            "No grace period before the lock screen demands a password",
            ValueKind::Bool,
            Value::Bool(true),
            PrivilegeLevel::Admin,
        );
        assert(spec@ == security_settings()[3]);
        schema.register(spec);
        let spec = SettingSpec::new(
            "security.automatic_security_updates",
            "security",
            "Automatic security updates",
            "Install security patches without waiting for manual approval",
            ValueKind::Bool,
            Value::Bool(true),
            PrivilegeLevel::Admin,
        );
        assert(spec@ == security_settings()[4]);
        schema.register(spec);
        proof {
            assert(schema@.specs =~= old(schema)@.specs + security_settings());
        }
    }

    fn live_info(&self) -> (r: Vec<(&'static str, String)>) {
        let rows: Vec<(&'static str, String)> = Vec::new();
        proof {
            assert(crate::categories::live_rows_view(rows@) =~= self.spec_live_info());
        }
        rows
    }
}

/// Every setting of the "Security" category belongs to it, and its default meets
/// the setting's own constraints.
pub proof fn lemma_security_defaults_valid()
    ensures
        forall|i: int|
            0 <= i < security_settings().len() ==> #[trigger] security_settings()[i].default_is_valid()
                && security_settings()[i].category == "security"@,
{
}

} // verus!
