//! A document space.

use vstd::prelude::*;

verus! {

/// Team space.
pub const TYPE_TEAM: &'static str = "team";

/// Personal space.
pub const TYPE_PERSONAL: &'static str = "personal";

/// Public space.
pub const TYPE_PUBLIC: &'static str = "public";

/// Whether `s` names one of the three space types.
pub open spec fn is_space_type(s: Seq<char>) -> bool {
    s == TYPE_TEAM@ || s == TYPE_PERSONAL@ || s == TYPE_PUBLIC@
}

/// A row of the `spaces` table. Ids are UUIDs held as their 128-bit value;
/// times are microseconds since the Unix epoch.
#[derive(Clone, Debug, PartialEq, Eq)]
pub struct Model {
    /// Id.
    pub id: u128,
    /// Name.
    pub name: String,
    /// Type (`team`, `personal` or `public`).
    pub space_type: String,
    /// Owner.
    pub owner_id: u128,
    /// Creation time.
    pub created_at: i64,
}

} // verus!
