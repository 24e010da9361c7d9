//! A stored earlier version of a page.

use vstd::prelude::*;

verus! {

/// A row of the `page_versions` table.
#[derive(Clone, Debug, PartialEq, Eq)]
pub struct Model {
    /// Id.
    pub id: u128,
    /// The page.
    pub node_id: u128,
    /// Version number.
    pub version: i64,
    /// The page's text at that version.
    pub content_md: String,
    /// Who wrote that version.
    pub author_id: u128,
    /// When it was stored.
    pub created_at: i64,
}

} // verus!
