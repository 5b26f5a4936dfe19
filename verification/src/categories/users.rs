//! The "Users" entry of the settings navigator.

use vstd::prelude::*;
use crate::categories::Category;
use crate::permissions::PrivilegeLevel;
use crate::settings::schema::{strs_view, Schema, SettingSpec, SpecView};
use crate::settings::value::{Value, ValueKind, ValueView};

verus! {

/// The "Users" entry of the settings navigator.
#[derive(Clone, Copy)]
pub struct UsersCategory;

/// The settings the "Users" category registers, in registration order.
pub open spec fn users_settings() -> Seq<SpecView> {
    seq![
        SpecView::new("users.require_password_on_wake"@, "users"@, "Require password on wake"@, "Ask for a password when returning from sleep or the screensaver"@, ValueKind::Bool, ValueView::Bool(true), PrivilegeLevel::User),
        SpecView::new("users.auto_login"@, "users"@, "Automatic login"@, "Sign in automatically without a password at boot"@, ValueKind::Bool, ValueView::Bool(false), PrivilegeLevel::Admin),
        SpecView::new("users.guest_account_enabled"@, "users"@, "Guest account"@, "Allow signing in as a temporary, unprivileged guest"@, ValueKind::Bool, ValueView::Bool(false), PrivilegeLevel::Admin),
    ]
}

impl Category for UsersCategory {
    open spec fn spec_id(&self) -> Seq<char> {
        "users"@
    }

    open spec fn spec_name(&self) -> Seq<char> {
        "Users"@
    }

    open spec fn spec_icon(&self) -> Seq<char> {
        "system-users"@
    }

    open spec fn spec_subitems(&self) -> Seq<Seq<char>> {
        seq!["Accounts"@, "Password"@, "Administrator"@, "Login options"@]
    }

    open spec fn spec_settings(&self) -> Seq<SpecView> {
        users_settings()
    }

    open spec fn spec_live_info(&self) -> Seq<(Seq<char>, Seq<char>)> {
        Seq::empty()
    }

    fn id(&self) -> (r: &'static str) {
        "users"
    }

    fn name(&self) -> (r: &'static str) {
        "Users"
    }

    fn icon(&self) -> (r: &'static str) {
        "system-users"
    }

    fn subitems(&self) -> (r: &'static [&'static str]) {
        let r: &'static [&'static str] = &["Accounts", "Password", "Administrator", "Login options"];
        proof {
            assert(strs_view(r@) =~= self.spec_subitems());
        }
        r
    }

    fn register(&self, schema: &mut Schema) {
        let spec = SettingSpec::new(
            "users.require_password_on_wake",
            "users",
            "Require password on wake",
            "Ask for a password when returning from sleep or the screensaver",
            ValueKind::Bool,
            Value::Bool(true),
            PrivilegeLevel::User,
        );
        assert(spec@ == users_settings()[0]);
        schema.register(spec);
        let spec = SettingSpec::new(
            "users.auto_login",
            "users",
            "Automatic login",
            "Sign in automatically without a password at boot",
            ValueKind::Bool,
            Value::Bool(false),
            PrivilegeLevel::Admin,
        );
        assert(spec@ == users_settings()[1]);
        schema.register(spec);
        let spec = SettingSpec::new(
            "users.guest_account_enabled",
            "users",
            "Guest account",
            "Allow signing in as a temporary, unprivileged guest",
            ValueKind::Bool,
            Value::Bool(false),
            PrivilegeLevel::Admin,
        );
        assert(spec@ == users_settings()[2]);
        schema.register(spec);
        proof {
            assert(schema@.specs =~= old(schema)@.specs + users_settings());
        }
    }

    fn live_info(&self) -> (r: Vec<(&'static str, String)>) {
        let rows: Vec<(&'static str, String)> = Vec::new();
        proof {
            assert(crate::categories::live_rows_view(rows@) =~= self.spec_live_info());
        }
        rows
    }
}

/// Every setting of the "Users" category belongs to it, and its default meets
/// the setting's own constraints.
pub proof fn lemma_users_defaults_valid()
    ensures
        forall|i: int|
            0 <= i < users_settings().len() ==> #[trigger] users_settings()[i].default_is_valid()
                && users_settings()[i].category == "users"@,
{
}

} // verus!
