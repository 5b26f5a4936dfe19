//! The "Privacy" entry of the settings navigator.

use vstd::prelude::*;
use crate::categories::Category;
use crate::permissions::PrivilegeLevel;
use crate::settings::schema::{strs_view, Schema, SettingSpec, SpecView};
use crate::settings::value::{Value, ValueKind, ValueView};

verus! {

/// The "Privacy" entry of the settings navigator.
#[derive(Clone, Copy)]
pub struct PrivacyCategory;

/// The settings the "Privacy" category registers, in registration order.
pub open spec fn privacy_settings() -> Seq<SpecView> {
    seq![
        SpecView::new("privacy.location_services_enabled"@, "privacy"@, "Location services"@, "Allow apps to request the device's location"@, ValueKind::Bool, ValueView::Bool(false), PrivilegeLevel::User),
        SpecView::new("privacy.camera_access_enabled"@, "privacy"@, "Camera access"@, "Allow apps to use the camera"@, ValueKind::Bool, ValueView::Bool(true), PrivilegeLevel::User),
        SpecView::new("privacy.microphone_access_enabled"@, "privacy"@, "Microphone access"@, "Allow apps to use the microphone"@, ValueKind::Bool, ValueView::Bool(true), PrivilegeLevel::User),
        SpecView::new("privacy.lock_screen_notifications"@, "privacy"@, "Notifications on lock screen"@, "Show notification content while the screen is locked"@, ValueKind::Bool, ValueView::Bool(false), PrivilegeLevel::User),
        SpecView::new("privacy.recent_files_tracking"@, "privacy"@, "Recent files"@, "Remember recently opened files and folders"@, ValueKind::Bool, ValueView::Bool(true), PrivilegeLevel::User),
        SpecView::new("privacy.prompt_for_app_permissions"@, "privacy"@, "Application permissions"@, "Ask for confirmation the first time an app requests a sensitive permission"@, ValueKind::Bool, ValueView::Bool(true), PrivilegeLevel::User),
    ]
}

impl Category for PrivacyCategory {
    open spec fn spec_id(&self) -> Seq<char> {
        "privacy"@
    }

    open spec fn spec_name(&self) -> Seq<char> {
        "Privacy"@
    }

    open spec fn spec_icon(&self) -> Seq<char> {
        "preferences-system-privacy"@
    }

    open spec fn spec_subitems(&self) -> Seq<Seq<char>> {
        seq!["Location"@, "Camera"@, "Microphone"@, "Notifications"@, "Recent files"@, "Application permissions"@]
    }

    open spec fn spec_settings(&self) -> Seq<SpecView> {
        privacy_settings()
    }

    open spec fn spec_live_info(&self) -> Seq<(Seq<char>, Seq<char>)> {
        Seq::empty()
    }

    fn id(&self) -> (r: &'static str) {
        "privacy"
    }

    fn name(&self) -> (r: &'static str) {
        "Privacy"
    }

    fn icon(&self) -> (r: &'static str) {
        "preferences-system-privacy"
    }

    fn subitems(&self) -> (r: &'static [&'static str]) {
        let r: &'static [&'static str] = &["Location", "Camera", "Microphone", "Notifications", "Recent files", "Application permissions"];
        proof {
            assert(strs_view(r@) =~= self.spec_subitems());
        }
        r
    }

    fn register(&self, schema: &mut Schema) {
        let spec = SettingSpec::new(
            "privacy.location_services_enabled",
            "privacy",
            "Location services",
            "Allow apps to request the device's location",
            ValueKind::Bool,
            Value::Bool(false),
            PrivilegeLevel::User,
        );
        assert(spec@ == privacy_settings()[0]);
        schema.register(spec);
        let spec = SettingSpec::new(
            "privacy.camera_access_enabled",
            "privacy",
            "Camera access",
            "Allow apps to use the camera",
            ValueKind::Bool,
            Value::Bool(true),
            PrivilegeLevel::User,
        );
        assert(spec@ == privacy_settings()[1]);
        schema.register(spec);
        let spec = SettingSpec::new(
            "privacy.microphone_access_enabled",
            "privacy",
            "Microphone access",
            "Allow apps to use the microphone",
            ValueKind::Bool,
            Value::Bool(true),
            PrivilegeLevel::User,
        );
        assert(spec@ == privacy_settings()[2]);
        schema.register(spec);
        let spec = SettingSpec::new(
            "privacy.lock_screen_notifications",
            "privacy",
            "Notifications on lock screen",
            "Show notification content while the screen is locked",
            ValueKind::Bool,
            Value::Bool(false),
            PrivilegeLevel::User,
        );
        assert(spec@ == privacy_settings()[3]);
        schema.register(spec);
        let spec = SettingSpec::new(
            "privacy.recent_files_tracking",
            "privacy",
            "Recent files",
            "Remember recently opened files and folders",
            ValueKind::Bool,
            Value::Bool(true),
            PrivilegeLevel::User,
        );
        assert(spec@ == privacy_settings()[4]);
        schema.register(spec);
        let spec = SettingSpec::new(
            "privacy.prompt_for_app_permissions",
            "privacy",
            "Application permissions",
            "Ask for confirmation the first time an app requests a sensitive permission",
            ValueKind::Bool,
            Value::Bool(true),
            PrivilegeLevel::User,
        );
        assert(spec@ == privacy_settings()[5]);
        schema.register(spec);
        proof {
            assert(schema@.specs =~= old(schema)@.specs + privacy_settings());
        }
    }

    fn live_info(&self) -> (r: Vec<(&'static str, String)>) {
        let rows: Vec<(&'static str, String)> = Vec::new();
        proof {
            assert(crate::categories::live_rows_view(rows@) =~= self.spec_live_info());
        }
        rows
    }
}

/// Every setting of the "Privacy" category belongs to it, and its default meets
/// the setting's own constraints.
pub proof fn lemma_privacy_defaults_valid()
    ensures
        forall|i: int|
            0 <= i < privacy_settings().len() ==> #[trigger] privacy_settings()[i].default_is_valid()
                && privacy_settings()[i].category == "privacy"@,
{
}

} // verus!
