//! Membership of a user in a space.

use vstd::prelude::*;

verus! {

/// Administrator.
pub const ROLE_ADMIN: &'static str = "admin";

/// May edit.
pub const ROLE_EDITOR: &'static str = "editor";

/// Read only.
pub const ROLE_VIEWER: &'static str = "viewer";

/// Whether a member with role `role` may change the space's content.
pub open spec fn role_can_edit(role: Seq<char>) -> bool {
    role == ROLE_ADMIN@ || role == ROLE_EDITOR@
}

/// A row of the `space_members` table, keyed by `(space_id, user_id)`.
#[derive(Clone, Debug, PartialEq, Eq)]
pub struct Model {
    /// Space.
    pub space_id: u128,
    /// User.
    pub user_id: u128,
    /// Role.
    pub role: String,
    /// Time of joining.
    pub joined_at: i64,
}

} // verus!
