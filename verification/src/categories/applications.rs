//! The "Applications" entry of the settings navigator.

use vstd::prelude::*;
use crate::categories::Category;
use crate::permissions::PrivilegeLevel;
use crate::settings::schema::{strs_view, Schema, SettingSpec, SpecView};
use crate::settings::value::{Value, ValueKind, ValueView};

verus! {

/// The "Applications" entry of the settings navigator.
#[derive(Clone, Copy)]
pub struct ApplicationsCategory;

/// The settings the "Applications" category registers, in registration order.
pub open spec fn applications_settings() -> Seq<SpecView> {
    seq![
        SpecView::new("applications.default_browser"@, "applications"@, "Default web browser"@, "Application used to open web links"@, ValueKind::Str, ValueView::Str("mitos-browser.desktop"@), PrivilegeLevel::User),
        SpecView::new("applications.default_terminal"@, "applications"@, "Default terminal"@, "Application used to open a terminal"@, ValueKind::Str, ValueView::Str("mitos-terminal.desktop"@), PrivilegeLevel::User),
        SpecView::new("applications.default_file_manager"@, "applications"@, "Default file manager"@, "Application used to browse files"@, ValueKind::Str, ValueView::Str("mitos-files.desktop"@), PrivilegeLevel::User),
        SpecView::new("applications.default_email_client"@, "applications"@, "Default email client"@, "Application used to open mailto: links"@, ValueKind::Str, ValueView::Str("mitos-mail.desktop"@), PrivilegeLevel::User),
        SpecView::new("applications.startup_applications"@, "applications"@, "Startup applications"@, "Applications launched automatically at login"@, ValueKind::StrList, ValueView::StrList(Seq::empty()), PrivilegeLevel::User),
    ]
}

impl Category for ApplicationsCategory {
    open spec fn spec_id(&self) -> Seq<char> {
        "applications"@
    }

    open spec fn spec_name(&self) -> Seq<char> {
        "Applications"@
    }

    open spec fn spec_icon(&self) -> Seq<char> {
        "preferences-desktop-default-applications"@
    }

    open spec fn spec_subitems(&self) -> Seq<Seq<char>> {
        seq!["Default applications"@, "Startup applications"@, "Installed applications"@, "Application permissions"@]
    }

    open spec fn spec_settings(&self) -> Seq<SpecView> {
        applications_settings()
    }

    open spec fn spec_live_info(&self) -> Seq<(Seq<char>, Seq<char>)> {
        Seq::empty()
    }

    fn id(&self) -> (r: &'static str) {
        "applications"
    }

    fn name(&self) -> (r: &'static str) {
        "Applications"
    }

    fn icon(&self) -> (r: &'static str) {
        "preferences-desktop-default-applications"
    }

    fn subitems(&self) -> (r: &'static [&'static str]) {
        let r: &'static [&'static str] = &["Default applications", "Startup applications", "Installed applications", "Application permissions"];
        proof {
            assert(strs_view(r@) =~= self.spec_subitems());
        }
        r
    }

    fn register(&self, schema: &mut Schema) {
        let spec = SettingSpec::new(
            "applications.default_browser",
            "applications",
            "Default web browser",
            "Application used to open web links",
            ValueKind::Str,
            Value::Str(String::from_str("mitos-browser.desktop")),
            PrivilegeLevel::User,
        );
        assert(spec@ == applications_settings()[0]);
        schema.register(spec);
        let spec = SettingSpec::new(
            "applications.default_terminal",
            "applications",
            "Default terminal",
            "Application used to open a terminal",
            ValueKind::Str,
            Value::Str(String::from_str("mitos-terminal.desktop")),
            PrivilegeLevel::User,
        );
        assert(spec@ == applications_settings()[1]);
        schema.register(spec);
        let spec = SettingSpec::new(
            "applications.default_file_manager",
            "applications",
            "Default file manager",
            "Application used to browse files",
            ValueKind::Str,
            Value::Str(String::from_str("mitos-files.desktop")),
            PrivilegeLevel::User,
        );
        assert(spec@ == applications_settings()[2]);
        schema.register(spec);
        let spec = SettingSpec::new(
            "applications.default_email_client",
            "applications",
            "Default email client",
            "Application used to open mailto: links",
            ValueKind::Str,
            Value::Str(String::from_str("mitos-mail.desktop")),
            PrivilegeLevel::User,
        );
        assert(spec@ == applications_settings()[3]);
        schema.register(spec);
        let spec = SettingSpec::new(
            "applications.startup_applications",
            "applications",
            "Startup applications",
            "Applications launched automatically at login",
            ValueKind::StrList,
            Value::StrList(Vec::new()),
            PrivilegeLevel::User,
        );
        assert(spec@.default->StrList_0 =~= applications_settings()[4].default->StrList_0);
        assert(spec@ == applications_settings()[4]);
        schema.register(spec);
        proof {
            assert(schema@.specs =~= old(schema)@.specs + applications_settings());
        }
    }

    fn live_info(&self) -> (r: Vec<(&'static str, String)>) {
        let rows: Vec<(&'static str, String)> = Vec::new();
        proof {
            assert(crate::categories::live_rows_view(rows@) =~= self.spec_live_info());
        }
        rows
    }
}

/// Every setting of the "Applications" category belongs to it, and its default meets
/// the setting's own constraints.
pub proof fn lemma_applications_defaults_valid()
    ensures
        forall|i: int|
            0 <= i < applications_settings().len() ==> #[trigger] applications_settings()[i].default_is_valid()
                && applications_settings()[i].category == "applications"@,
{
}

} // verus!
