use vstd::prelude::*;

use crate::text::str_eq;

verus! {

/// The account class of an authenticated user.
#[derive(Debug, Clone, Copy, PartialEq, Eq, Structural)]
pub enum UserType {
    SuperAdmin,
    Staff,
    Team,
}

pub const CONTEST_MANAGE: &'static str = "CONTEST_MANAGE";

pub const CLARIFICATION_MANAGE: &'static str = "CLARIFICATION_MANAGE";

pub const PRINTING_MANAGE: &'static str = "PRINTING_MANAGE";

pub const BALLOON_MANAGE: &'static str = "BALLOON_MANAGE";

pub const RESOLVER_MANAGE: &'static str = "RESOLVER_MANAGE";

pub const AWARD_MANAGE: &'static str = "AWARD_MANAGE";

pub const SCREEN_MANAGE: &'static str = "SCREEN_MANAGE";

pub const LIVE_MANAGE: &'static str = "LIVE_MANAGE";

/// An authenticated user with the permissions granted to it.
pub struct AuthUser {
    pub id: i64,
    pub username: String,
    pub display_name: String,
    pub user_type: UserType,
    pub permissions: Vec<String>,
    pub password_reset_required: bool,
}

impl AuthUser {
    pub open spec fn super_admin(&self) -> bool {
        self.user_type == UserType::SuperAdmin
    }

    /// Whether `permission` is among the user's granted permissions.
    pub open spec fn holds(&self, permission: Seq<char>) -> bool {
        exists|i: int| 0 <= i < self.permissions@.len() && #[trigger] self.permissions@[i]@ == permission
    }

    pub fn is_super_admin(&self) -> (b: bool)
        ensures
            b == self.super_admin(),
    {
        self.user_type == UserType::SuperAdmin
    }

    pub fn has_permission(&self, permission: &str) -> (b: bool)
        ensures
            b == self.holds(permission@),
    {
        let mut k: usize = 0;
        while k < self.permissions.len()
            invariant
                k <= self.permissions.len(),
                forall|i: int| 0 <= i < k ==> #[trigger] self.permissions@[i]@ != permission@,
            decreases self.permissions.len() - k,
        {
            if str_eq(self.permissions[k].as_str(), permission) {
                return true;
            }
            k += 1;
        }
        false
    }
}

} // verus!
