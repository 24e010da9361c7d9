//! A node of a space: a folder or a page.

use vstd::prelude::*;

verus! {

/// Folder.
pub const KIND_FOLDER: &'static str = "folder";

/// Page.
pub const KIND_PAGE: &'static str = "page";

/// Whether `s` names one of the two node kinds.
pub open spec fn is_node_kind(s: Seq<char>) -> bool {
    s == KIND_FOLDER@ || s == KIND_PAGE@
}

/// A row of the `nodes` table. A page's text and its current version number
/// live on the row; earlier versions are kept in `page_versions`.
#[derive(Clone, Debug, PartialEq, Eq)]
pub struct Model {
    /// Id.
    pub id: u128,
    /// Space it belongs to.
    pub space_id: u128,
    /// Parent node, `None` at the top level.
    pub parent_id: Option<u128>,
    /// `folder` or `page`.
    pub kind: String,
    /// Title.
    pub title: String,
    /// Order among siblings.
    pub position: i64,
    /// Current version number, starting at 1.
    pub version: i64,
    /// Current Markdown text (empty for a folder).
    pub content_md: String,
    /// Creator or last editor.
    pub updated_by: u128,
    /// Time of soft deletion.
    pub deleted_at: Option<i64>,
    /// Creation time.
    pub created_at: i64,
    /// Time of the last change.
    pub updated_at: i64,
}

} // verus!
