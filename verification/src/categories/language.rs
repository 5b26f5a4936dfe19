//! The "Language" entry of the settings navigator.

use vstd::prelude::*;
use crate::categories::Category;
use crate::permissions::PrivilegeLevel;
use crate::settings::schema::{strs_view, Schema, SettingSpec, SpecView};
use crate::settings::value::{Value, ValueKind, ValueView};

verus! {

/// The "Language" entry of the settings navigator.
#[derive(Clone, Copy)]
pub struct LanguageCategory;

/// The settings the "Language" category registers, in registration order.
pub open spec fn language_settings() -> Seq<SpecView> {
    seq![
        SpecView::new("language.system_language"@, "language"@, "Language"@, "System-wide display language, as a POSIX locale (e.g. en_US.UTF-8)"@, ValueKind::Str, ValueView::Str("en_US.UTF-8"@), PrivilegeLevel::Admin),
        SpecView::new("language.keyboard_layouts"@, "language"@, "Keyboard layouts"@, "Input sources available via the layout switcher (first is active)"@, ValueKind::StrList, ValueView::StrList(seq!["us"@]), PrivilegeLevel::User),
    ]
}

impl Category for LanguageCategory {
    open spec fn spec_id(&self) -> Seq<char> {
        "language"@
    }

    open spec fn spec_name(&self) -> Seq<char> {
        "Language"@
    }

    open spec fn spec_icon(&self) -> Seq<char> {
        "preferences-desktop-locale"@
    }

    open spec fn spec_subitems(&self) -> Seq<Seq<char>> {
        seq!["Language"@, "Keyboard layouts"@]
    }

    open spec fn spec_settings(&self) -> Seq<SpecView> {
        language_settings()
    }

    open spec fn spec_live_info(&self) -> Seq<(Seq<char>, Seq<char>)> {
        Seq::empty()
    }

    fn id(&self) -> (r: &'static str) {
        "language"
    }

    fn name(&self) -> (r: &'static str) {
        "Language"
    }

    fn icon(&self) -> (r: &'static str) {
        "preferences-desktop-locale"
    }

    fn subitems(&self) -> (r: &'static [&'static str]) {
        let r: &'static [&'static str] = &["Language", "Keyboard layouts"];
        proof {
            assert(strs_view(r@) =~= self.spec_subitems());
        }
        r
    }

    fn register(&self, schema: &mut Schema) {
        let spec = SettingSpec::new(
            "language.system_language",
            "language",
            "Language",
            "System-wide display language, as a POSIX locale (e.g. en_US.UTF-8)",
            ValueKind::Str,
            Value::Str(String::from_str("en_US.UTF-8")),
            PrivilegeLevel::Admin,
        );
        assert(spec@ == language_settings()[0]);
        schema.register(spec);
        let spec = SettingSpec::new(
            "language.keyboard_layouts",
            "language",
            "Keyboard layouts",
            "Input sources available via the layout switcher (first is active)",
            ValueKind::StrList,
            Value::StrList(vec![String::from_str("us")]),
            PrivilegeLevel::User,
        );
        assert(spec@.default->StrList_0 =~= language_settings()[1].default->StrList_0);
        assert(spec@ == language_settings()[1]);
        schema.register(spec);
        proof {
            assert(schema@.specs =~= old(schema)@.specs + language_settings());
        }
    }

    fn live_info(&self) -> (r: Vec<(&'static str, String)>) {
        let rows: Vec<(&'static str, String)> = Vec::new();
        proof {
            assert(crate::categories::live_rows_view(rows@) =~= self.spec_live_info());
        }
        rows
    }
}

/// Every setting of the "Language" category belongs to it, and its default meets
/// the setting's own constraints.
pub proof fn lemma_language_defaults_valid()
    ensures
        forall|i: int|
            0 <= i < language_settings().len() ==> #[trigger] language_settings()[i].default_is_valid()
                && language_settings()[i].category == "language"@,
{
}

} // verus!
