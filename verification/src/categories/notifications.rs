//! The "Notifications" entry of the settings navigator.

use vstd::prelude::*;
use crate::categories::Category;
use crate::permissions::PrivilegeLevel;
use crate::settings::schema::{strs_view, Schema, SettingSpec, SpecView};
use crate::settings::value::{Value, ValueKind, ValueView};

verus! {

/// The "Notifications" entry of the settings navigator.
#[derive(Clone, Copy)]
pub struct NotificationsCategory;

/// The settings the "Notifications" category registers, in registration order.
pub open spec fn notifications_settings() -> Seq<SpecView> {
    seq![
        SpecView::new("notifications.do_not_disturb"@, "notifications"@, "Do Not Disturb"@, "Suppress notification banners and sounds"@, ValueKind::Bool, ValueView::Bool(false), PrivilegeLevel::User),
        SpecView::new("notifications.show_on_lock_screen"@, "notifications"@, "Show on lock screen"@, "Display notification banners while the screen is locked"@, ValueKind::Bool, ValueView::Bool(false), PrivilegeLevel::User),
        SpecView::new("notifications.sounds_enabled"@, "notifications"@, "Notification sounds"@, "Play a sound when a notification arrives"@, ValueKind::Bool, ValueView::Bool(true), PrivilegeLevel::User),
        SpecView::new("notifications.banner_style"@, "notifications"@, "Banner style"@, "How application notifications are presented"@, ValueKind::Str, ValueView::Str("banner"@), PrivilegeLevel::User)
            .with_choices(seq!["banner"@, "alert"@, "none"@]),
    ]
}

impl Category for NotificationsCategory {
    open spec fn spec_id(&self) -> Seq<char> {
        "notifications"@
    }

    open spec fn spec_name(&self) -> Seq<char> {
        "Notifications"@
    }

    open spec fn spec_icon(&self) -> Seq<char> {
        "preferences-system-notifications"@
    }

    open spec fn spec_subitems(&self) -> Seq<Seq<char>> {
        seq!["Do Not Disturb"@, "Application notifications"@, "Notification sounds"@]
    }

    open spec fn spec_settings(&self) -> Seq<SpecView> {
        notifications_settings()
    }

    open spec fn spec_live_info(&self) -> Seq<(Seq<char>, Seq<char>)> {
        Seq::empty()
    }

    fn id(&self) -> (r: &'static str) {
        "notifications"
    }

    fn name(&self) -> (r: &'static str) {
        "Notifications"
    }

    fn icon(&self) -> (r: &'static str) {
        "preferences-system-notifications"
    }

    fn subitems(&self) -> (r: &'static [&'static str]) {
        let r: &'static [&'static str] = &["Do Not Disturb", "Application notifications", "Notification sounds"];
        proof {
            assert(strs_view(r@) =~= self.spec_subitems());
        }
        r
    }

    fn register(&self, schema: &mut Schema) {
        let spec = SettingSpec::new(
            "notifications.do_not_disturb",
            "notifications",
            "Do Not Disturb",
            "Suppress notification banners and sounds",
            ValueKind::Bool,
            Value::Bool(false),
            PrivilegeLevel::User,
        );
        assert(spec@ == notifications_settings()[0]);
        schema.register(spec);
        let spec = SettingSpec::new(
            "notifications.show_on_lock_screen",
            "notifications",
            "Show on lock screen",
            "Display notification banners while the screen is locked",
            ValueKind::Bool,
            Value::Bool(false),
            PrivilegeLevel::User,
        );
        assert(spec@ == notifications_settings()[1]);
        schema.register(spec);
        let spec = SettingSpec::new(
            "notifications.sounds_enabled",
            "notifications",
            "Notification sounds",
            "Play a sound when a notification arrives",
            ValueKind::Bool,
            Value::Bool(true),
            PrivilegeLevel::User,
        );
        assert(spec@ == notifications_settings()[2]);
        schema.register(spec);
        let spec = SettingSpec::new(
            "notifications.banner_style",
            "notifications",
            "Banner style",
            "How application notifications are presented",
            ValueKind::Str,
            Value::Str(String::from_str("banner")),
            PrivilegeLevel::User,
        )
        .choices(&["banner", "alert", "none"]);
        assert(spec@.choices == notifications_settings()[3].choices);
        assert(spec@ == notifications_settings()[3]);
        schema.register(spec);
        proof {
            assert(schema@.specs =~= old(schema)@.specs + notifications_settings());
        }
    }

    fn live_info(&self) -> (r: Vec<(&'static str, String)>) {
        let rows: Vec<(&'static str, String)> = Vec::new();
        proof {
            assert(crate::categories::live_rows_view(rows@) =~= self.spec_live_info());
        }
        rows
    }
}

/// Every setting of the "Notifications" category belongs to it, and its default meets
/// the setting's own constraints.
pub proof fn lemma_notifications_defaults_valid()
    ensures
        forall|i: int|
            0 <= i < notifications_settings().len() ==> #[trigger] notifications_settings()[i].default_is_valid()
                && notifications_settings()[i].category == "notifications"@,
{
    assert(notifications_settings()[3].choices->0[0] == notifications_settings()[3].default->Str_0);
}

} // verus!
