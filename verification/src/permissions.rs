//! Privilege levels a setting can demand of whoever changes it.

use vstd::prelude::*;

verus! {

/// Who may change a setting: any logged-in user, an administrator, or root
/// alone. Ordered from least to most privileged, so `a > b` reads "a demands
/// more than b".
#[derive(Debug, Clone, Copy, PartialEq, Eq, PartialOrd, Ord, Hash)]
pub enum PrivilegeLevel {
    User,
    Admin,
    Root,
}

impl PrivilegeLevel {
    /// Rank of a level in the order `User < Admin < Root`.
    pub open spec fn rank(self) -> int {
        match self {
            PrivilegeLevel::User => 0,
            PrivilegeLevel::Admin => 1,
            PrivilegeLevel::Root => 2,
        }
    }

    /// Whether this level demands more than an ordinary user has (shown as an
    /// "admin" tag next to the setting).
    pub fn is_elevated(self) -> (r: bool)
        ensures
            r == (self.rank() > 0),
    {
        match self {
            PrivilegeLevel::User => false,
            _ => true,
        }
    }
}

} // verus!
