//! The check the "Change Password" dialog makes before sending anything.

use vstd::prelude::*;
use vstd::string::StringSliceAdditionalSpecFns;

verus! {

/// Why a new password is refused, if it is: the two entries must match, and
/// the password must be at least 8 bytes long.
pub fn password_problem(new_password: &str, confirmation: &str) -> (r: Option<&'static str>)
    ensures
        new_password@ != confirmation@ ==> r is Some && r->0@ == "Passwords do not match"@,
        new_password@ == confirmation@ && new_password.spec_bytes().len() < 8 ==> r is Some && r->0@
            == "Password must be at least 8 characters"@,
        new_password@ == confirmation@ && new_password.spec_bytes().len() >= 8 ==> r is None,
{
    if !crate::text::str_eq(new_password, confirmation) {
        return Some("Passwords do not match");
    }
    if new_password.as_bytes().len() < 8 {
        return Some("Password must be at least 8 characters");
    }
    None
}

} // verus!
