//! The decisions of the data-access layer: which records a write stores, and
//! what a read's result means for the request. The queries themselves run
//! against the database outside this crate.

use vstd::prelude::*;

use crate::entity::{node, space, space_member, version};
use crate::error::{spec_code, spec_status, DocError};

verus! {

/// The position a new node gets when `max` is the largest position among its
/// future siblings (`None` when it has none).
pub open spec fn next_position(max: Option<i64>) -> int {
    match max {
        Some(m) => m + 1,
        None => 1,
    }
}

/// The position of a new node: one after the largest position among its
/// siblings, or 1 when it has none (smaller positions come first).
pub fn next_position_from(max: Option<i64>) -> (r: i64)
    requires
        max != Some(i64::MAX),
    ensures
        r == next_position(max),
{
    match max {
        Some(m) => m + 1,
        None => 1,
    }
}

/// Whether `max` is the largest of `positions`, `None` when there are none.
pub open spec fn is_largest(max: Option<i64>, positions: Seq<i64>) -> bool {
    match max {
        None => positions.len() == 0,
        Some(m) => positions.contains(m) && forall|i: int|
            0 <= i < positions.len() ==> positions[i] <= m,
    }
}

/// A new node comes after all of its siblings: given the largest sibling
/// position, the new position is greater than every sibling's, and at least 1.
pub proof fn law_new_node_comes_last(max: Option<i64>, positions: Seq<i64>)
    requires
        is_largest(max, positions),
    ensures
        forall|i: int| 0 <= i < positions.len() ==> positions[i] < next_position(max),
{
}

/// The records that creating a space stores: the space itself, and the
/// membership that makes its owner an administrator of it.
pub fn create_space_records(id: u128, owner_id: u128, name: &str, kind: &str, now: i64) -> (r: (
    space::Model,
    space_member::Model,
))
    ensures
        r.0.id == id,
        r.0.name@ == name@,
        r.0.space_type@ == kind@,
        r.0.owner_id == owner_id,
        r.0.created_at == now,
        r.1.space_id == id,
        r.1.user_id == owner_id,
        r.1.role@ == space_member::ROLE_ADMIN@,
        r.1.joined_at == now,
{
    let space = space::Model {
        id,
        name: name.to_owned(),
        space_type: kind.to_owned(),
        owner_id,
        created_at: now,
    };
    let member = space_member::Model {
        space_id: id,
        user_id: owner_id,
        role: String::from_str(space_member::ROLE_ADMIN),
        joined_at: now,
    };
    (space, member)
}

/// The ids of the spaces that a user's memberships name, in their order: the
/// spaces the user may see.
pub fn space_ids_of(members: &Vec<space_member::Model>) -> (r: Vec<u128>)
    ensures
        r@ == members@.map_values(|m: space_member::Model| m.space_id),
{
    let mut r: Vec<u128> = Vec::new();
    for i in 0..members.len()
        invariant
            r@ == members@.take(i as int).map_values(|m: space_member::Model| m.space_id),
    {
        r.push(members[i].space_id);
        assert(members@.take(i + 1).drop_last() =~= members@.take(i as int));
    }
    assert(members@.take(members.len() as int) =~= members@);
    r
}

/// What a membership lookup means for a request that reads the space: the
/// membership, or `NotMember` when there is none.
pub open spec fn member_outcome(found: Option<space_member::Model>) -> Result<
    space_member::Model,
    DocError,
> {
    match found {
        Some(m) => Ok(m),
        None => Err(DocError::NotMember),
    }
}

/// What a membership lookup means for a request that changes the space: the
/// membership of an administrator or editor; `NotMember` without a membership;
/// `NotEditor` for any other role.
pub open spec fn editor_outcome(found: Option<space_member::Model>) -> Result<
    space_member::Model,
    DocError,
> {
    match found {
        None => Err(DocError::NotMember),
        Some(m) => if space_member::role_can_edit(m.role@) {
            Ok(m)
        } else {
            Err(DocError::NotEditor)
        },
    }
}

/// The outcome of looking up a user's membership of a space, for a request
/// that reads the space.
pub fn ensure_member(found: Option<space_member::Model>) -> (r: Result<
    space_member::Model,
    DocError,
>)
    ensures
        r == member_outcome(found),
        (r is Ok) <==> (found is Some),
        (r is Ok) ==> r == Ok::<space_member::Model, DocError>(found.unwrap()),
        (found is None) ==> r == Err::<space_member::Model, DocError>(DocError::NotMember),
{
    match found {
        Some(m) => Ok(m),
        None => Err(DocError::NotMember),
    }
}

/// The outcome of looking up a user's membership of a space, for a request
/// that changes the space.
pub fn ensure_editor(found: Option<space_member::Model>) -> (r: Result<
    space_member::Model,
    DocError,
>)
    ensures
        r == editor_outcome(found),
        (r is Ok) <==> (found is Some) && space_member::role_can_edit(found.unwrap().role@),
        (r is Ok) ==> r == Ok::<space_member::Model, DocError>(found.unwrap()),
        (found is None) ==> r == Err::<space_member::Model, DocError>(DocError::NotMember),
        (found is Some) && !space_member::role_can_edit(found.unwrap().role@)
            ==> r == Err::<space_member::Model, DocError>(DocError::NotEditor),
{
    let member = ensure_member(found)?;
    let admin = String::from_str(space_member::ROLE_ADMIN);
    let editor = String::from_str(space_member::ROLE_EDITOR);
    if member.role == admin || member.role == editor {
        Ok(member)
    } else {
        Err(DocError::NotEditor)
    }
}

/// Whoever may change a space may also read it: when the edit check lets a
/// membership through, the read check lets the same membership through; and a
/// user the read check turns away is turned away by the edit check too, for
/// the same reason.
pub proof fn law_editor_is_member(found: Option<space_member::Model>)
    ensures
        editor_outcome(found) is Ok ==> member_outcome(found) == editor_outcome(found),
        member_outcome(found) is Err ==> editor_outcome(found) == member_outcome(found),
{
}

/// The creator of a space may change it: the membership stored with a new
/// space (for that space, its owner, role `admin`) passes the edit check.
pub proof fn law_owner_may_edit(space: space::Model, member: space_member::Model)
    requires
        member.space_id == space.id,
        member.user_id == space.owner_id,
        member.role@ == space_member::ROLE_ADMIN@,
    ensures
        editor_outcome(Some(member)) == Ok::<space_member::Model, DocError>(member),
{
}

/// The record that creating a node stores: version 1, empty text, not deleted,
/// placed after the siblings whose largest position is `max_position`.
pub fn create_node_record(
    id: u128,
    space_id: u128,
    parent_id: Option<u128>,
    kind: &str,
    title: &str,
    user_id: u128,
    now: i64,
    max_position: Option<i64>,
) -> (r: node::Model)
    requires
        max_position != Some(i64::MAX),
    ensures
        r.id == id,
        r.space_id == space_id,
        r.parent_id == parent_id,
        r.kind@ == kind@,
        r.title@ == title@,
        r.position == next_position(max_position),
        r.version == 1,
        r.content_md@ == Seq::<char>::empty(),
        r.updated_by == user_id,
        r.deleted_at is None,
        r.created_at == now,
        r.updated_at == now,
{
    node::Model {
        id,
        space_id,
        parent_id,
        kind: kind.to_owned(),
        title: title.to_owned(),
        position: next_position_from(max_position),
        version: 1,
        content_md: String::new(),
        updated_by: user_id,
        deleted_at: None,
        created_at: now,
        updated_at: now,
    }
}

/// The statement that runs a `ContentUpdate` on the `nodes` table, with the
/// parameters `$1` = `node_id`, `$2` = `content_md`, `$3` = `editor`,
/// `$4` = `now` and `$5` = `expected_version`; `ContentUpdate::apply` states
/// what it does to a row.
pub const CONTENT_UPDATE_SQL: &'static str = "UPDATE nodes SET content_md = $2, version = version + 1, updated_by = $3, updated_at = $4 WHERE id = $1 AND version = $5 RETURNING version";

/// The conditional update of a page's text: it takes effect only on the row of
/// `node_id` whose version is still `expected_version`, and then stores the new
/// text, the next version number, the editor and the time.
pub struct ContentUpdate {
    /// The page.
    pub node_id: u128,
    /// The new text.
    pub content_md: String,
    /// The editor.
    pub editor: u128,
    /// The time of the change.
    pub now: i64,
    /// The version the change was made against.
    pub expected_version: i64,
}

impl ContentUpdate {
    /// What the update does to the row `row`: the changed row, or `None` where
    /// the row is another node's or its version has moved on.
    pub open spec fn apply(self, row: node::Model) -> Option<node::Model> {
        if row.id == self.node_id && row.version == self.expected_version {
            Some(
                node::Model {
                    content_md: self.content_md,
                    version: (row.version + 1) as i64,
                    updated_by: self.editor,
                    updated_at: self.now,
                    ..row
                },
            )
        } else {
            None
        }
    }
}

/// The two writes of a text change: first the conditional update, then, only
/// once the update took effect, the snapshot of the version it replaced (see
/// `content_change_outcome`). Both run in one transaction.
pub struct ContentUpdatePlan {
    /// The row to store in `page_versions` once the update took effect.
    pub snapshot: version::Model,
    /// The conditional update of the page's row.
    pub update: ContentUpdate,
}

/// Whether `plan` is the text change of `node` to `content`, made against
/// `base_version` by `editor` at `now`: the update is conditional on
/// `base_version`, and the snapshot keeps the page's number, text and author
/// as read.
pub open spec fn plan_matches(
    plan: ContentUpdatePlan,
    node: node::Model,
    base_version: i64,
    content: Seq<char>,
    editor: u128,
    now: i64,
    snapshot_id: u128,
) -> bool {
    &&& plan.snapshot.id == snapshot_id
    &&& plan.snapshot.node_id == node.id
    &&& plan.snapshot.version == node.version
    &&& plan.snapshot.content_md@ == node.content_md@
    &&& plan.snapshot.author_id == node.updated_by
    &&& plan.snapshot.created_at == now
    &&& plan.update.node_id == node.id
    &&& plan.update.content_md@ == content
    &&& plan.update.editor == editor
    &&& plan.update.now == now
    &&& plan.update.expected_version == base_version
}

/// The optimistic-lock check of a text change, and the writes it leads to. A
/// `base_version` other than the page's current version is a conflict;
/// otherwise the page's row is updated on condition that its version is still
/// `base_version`, and the version it replaces is kept as a snapshot (with its
/// text, its author and the time `now`).
pub fn update_content(
    node: &node::Model,
    base_version: i64,
    content: &str,
    editor: u128,
    now: i64,
    snapshot_id: u128,
) -> (r: Result<ContentUpdatePlan, DocError>)
    ensures
        match r {
            Ok(plan) => node.version == base_version && plan_matches(
                plan,
                *node,
                base_version,
                content@,
                editor,
                now,
                snapshot_id,
            ),
            Err(e) => node.version != base_version && e == DocError::VersionConflict,
        },
        (r is Ok) <==> node.version == base_version,
        (r is Ok) ==> r->Ok_0.update.node_id == node.id && r->Ok_0.update.expected_version == base_version,
        (r is Ok) ==> r->Ok_0.update.content_md@ == content@ && r->Ok_0.update.editor == editor,
        (r is Ok) ==> r->Ok_0.update.now == now && r->Ok_0.snapshot.id == snapshot_id,
        (r is Ok) ==> r->Ok_0.snapshot.node_id == node.id && r->Ok_0.snapshot.version == node.version,
        (r is Ok) ==> r->Ok_0.snapshot.content_md@ == node.content_md@,
        (r is Ok) ==> r->Ok_0.snapshot.author_id == node.updated_by && r->Ok_0.snapshot.created_at == now,
{
    if node.version != base_version {
        return Err(DocError::VersionConflict);
    }
    let snapshot = version::Model {
        id: snapshot_id,
        node_id: node.id,
        version: node.version,
        content_md: node.content_md.clone(),
        author_id: node.updated_by,
        created_at: now,
    };
    let update = ContentUpdate {
        node_id: node.id,
        content_md: content.to_owned(),
        editor,
        now,
        expected_version: base_version,
    };
    Ok(ContentUpdatePlan { snapshot, update })
}

/// What the conditional update's answer means: when it returned the row's new
/// version, the snapshot to store; when it returned nothing (another change
/// came first), `VersionConflict`, and nothing is to be stored.
pub fn content_change_outcome(snapshot: version::Model, returned: Option<i64>) -> (r: Result<
    version::Model,
    DocError,
>)
    ensures
        match returned {
            Some(_) => r == Ok::<version::Model, DocError>(snapshot),
            None => r == Err::<version::Model, DocError>(DocError::VersionConflict),
        },
{
    match returned {
        Some(_) => Ok(snapshot),
        None => Err(DocError::VersionConflict),
    }
}

/// The outcome of reading a page back after its update: the row, or
/// `NodeNotFound` when it is gone.
pub fn reloaded_node(found: Option<node::Model>) -> (r: Result<node::Model, DocError>)
    ensures
        match found {
            Some(m) => r == Ok::<node::Model, DocError>(m),
            None => r == Err::<node::Model, DocError>(DocError::NodeNotFound),
        },
{
    match found {
        Some(m) => Ok(m),
        None => Err(DocError::NodeNotFound),
    }
}

/// A text change made against the current version takes effect: the page gets
/// the new text and the next version number, the editor and the time, and
/// keeps everything else; the snapshot keeps the previous version's number,
/// text and author, so that the stored versions and the page together hold
/// every version.
pub proof fn law_update_writes_next_version(
    node: node::Model,
    snapshot: version::Model,
    update: ContentUpdate,
)
    requires
        snapshot.node_id == node.id,
        snapshot.version == node.version,
        snapshot.content_md@ == node.content_md@,
        snapshot.author_id == node.updated_by,
        update.node_id == node.id,
        update.expected_version == node.version,
        node.version < i64::MAX,
    ensures
        update.apply(node) matches Some(m) && {
            &&& m.id == node.id
            &&& m.version == node.version + 1
            &&& m.content_md@ == update.content_md@
            &&& m.updated_by == update.editor
            &&& m.updated_at == update.now
            &&& m.space_id == node.space_id
            &&& m.parent_id == node.parent_id
            &&& m.kind@ == node.kind@
            &&& m.title@ == node.title@
            &&& m.position == node.position
            &&& m.deleted_at == node.deleted_at
            &&& m.created_at == node.created_at
            &&& snapshot.version + 1 == m.version
        },
{
}

/// Of two changes made against the same version of a page, only the first to
/// run takes effect: once it has, the second finds the version moved on and
/// changes nothing.
pub proof fn law_only_one_concurrent_update_succeeds(
    node: node::Model,
    first: ContentUpdate,
    second: ContentUpdate,
)
    requires
        first.expected_version == second.expected_version,
        node.version < i64::MAX,
        first.apply(node) is Some,
    ensures
        second.apply(first.apply(node).unwrap()) is None,
{
}

/// A change made against a version the page no longer has changes nothing.
pub proof fn law_stale_update_changes_nothing(row: node::Model, update: ContentUpdate)
    requires
        row.version != update.expected_version,
    ensures
        update.apply(row) is None,
{
}

/// A page as the database holds it: its row, and the snapshots of its earlier
/// versions in the order they were stored.
pub struct PageHistory {
    /// The page's row.
    pub row: node::Model,
    /// Its stored snapshots.
    pub snapshots: Seq<version::Model>,
}

/// What a text change does to a page: where the conditional update takes
/// effect, the changed row and the snapshot stored after it; otherwise
/// nothing at all.
pub open spec fn change_page(h: PageHistory, update: ContentUpdate, snapshot: version::Model) -> PageHistory {
    match update.apply(h.row) {
        Some(r) => PageHistory { row: r, snapshots: h.snapshots.push(snapshot) },
        None => h,
    }
}

/// A change that loses a race answers 409 and changes nothing: when the page's
/// stored version is no longer the one the change was made against, the
/// conditional update returns no row, `content_change_outcome` answers
/// `VersionConflict` (status 409), and neither the row nor the snapshots change.
pub proof fn law_lost_race_is_conflict_and_changes_nothing(h: PageHistory, plan: ContentUpdatePlan)
    requires
        h.row.version != plan.update.expected_version,
    ensures
        plan.update.apply(h.row) is None,
        change_page(h, plan.update, plan.snapshot) == h,
        spec_status(DocError::VersionConflict) == 409,
        spec_code(DocError::VersionConflict) == "DOC_VERSION_CONFLICT"@,
{
}

/// Whether a page's history is whole: its version is one more than the number
/// of its snapshots, and the snapshots, in order, are of its versions 1, 2, ...
pub open spec fn history_ok(h: PageHistory) -> bool {
    &&& h.row.version == h.snapshots.len() + 1
    &&& forall|i: int|
        0 <= i < h.snapshots.len() ==> (#[trigger] h.snapshots[i]).node_id == h.row.id
            && h.snapshots[i].version == i + 1
}

/// Whether a step was planned by `update_content` for the page `page_id`:
/// both writes are for that page, and the snapshot is of the version the
/// update was made against.
pub open spec fn planned_for(step: (ContentUpdate, version::Model), page_id: u128) -> bool {
    step.0.node_id == page_id && step.1.node_id == page_id && step.1.version == step.0.expected_version
}

/// The page after the text changes `steps`, one after the other.
pub open spec fn run_changes(h: PageHistory, steps: Seq<(ContentUpdate, version::Model)>) -> PageHistory
    decreases steps.len(),
{
    if steps.len() == 0 {
        h
    } else {
        change_page(run_changes(h, steps.drop_last()), steps.last().0, steps.last().1)
    }
}

/// A new page's history is whole: version 1 and no snapshots.
pub proof fn law_new_page_history(row: node::Model)
    requires
        row.version == 1,
    ensures
        history_ok(PageHistory { row, snapshots: Seq::empty() }),
{
}

/// Every version of a page is kept exactly once: after any series of text
/// changes planned for a page whose history is whole (such as a new page),
/// whether each takes effect or loses a race, the page's version is one more
/// than the number of its snapshots, the snapshots are of versions 1 to the
/// current version minus one, each once, and the current version is never
/// among them.
pub proof fn law_history_holds_every_version(h: PageHistory, steps: Seq<(ContentUpdate, version::Model)>)
    requires
        history_ok(h),
        forall|i: int| 0 <= i < steps.len() ==> planned_for(#[trigger] steps[i], h.row.id),
        h.row.version + steps.len() < i64::MAX,
    ensures
        history_ok(run_changes(h, steps)),
        run_changes(h, steps).row.id == h.row.id,
        run_changes(h, steps).row.version <= h.row.version + steps.len(),
        forall|i: int|
            0 <= i < run_changes(h, steps).snapshots.len() ==> (#[trigger] run_changes(
                h,
                steps,
            ).snapshots[i]).version < run_changes(h, steps).row.version,
    decreases steps.len(),
{
    if steps.len() > 0 {
        let rest = steps.drop_last();
        assert forall|i: int| 0 <= i < rest.len() implies planned_for(#[trigger] rest[i], h.row.id) by {
            assert(rest[i] == steps[i]);
        }
        law_history_holds_every_version(h, rest);
        let p = run_changes(h, rest);
        let step = steps.last();
        assert(planned_for(steps[steps.len() - 1], h.row.id));
        let q = change_page(p, step.0, step.1);
        assert(run_changes(h, steps) == q);
        if step.0.apply(p.row) is Some {
            assert(q.snapshots.len() == p.snapshots.len() + 1);
            assert forall|i: int| 0 <= i < q.snapshots.len() implies (#[trigger] q.snapshots[i]).node_id
                == q.row.id && q.snapshots[i].version == i + 1 by {
                if i < p.snapshots.len() {
                    assert(q.snapshots[i] == p.snapshots[i]);
                } else {
                    assert(q.snapshots[i] == step.1);
                }
            }
        }
    }
}

/// The memberships of `user` in the membership table `table`, in order: what
/// the membership query of the space list returns.
pub open spec fn memberships_of(table: Seq<space_member::Model>, user: u128) -> Seq<space_member::Model>
    decreases table.len(),
{
    if table.len() == 0 {
        Seq::empty()
    } else {
        let rest = memberships_of(table.drop_last(), user);
        if table.last().user_id == user {
            rest.push(table.last())
        } else {
            rest
        }
    }
}

/// The ids of the spaces `user` sees: `space_ids_of` over the user's memberships.
pub open spec fn visible_space_ids(table: Seq<space_member::Model>, user: u128) -> Seq<u128> {
    memberships_of(table, user).map_values(|m: space_member::Model| m.space_id)
}

/// A new space shows up in its owner's list and in nobody else's: once the
/// membership stored with it is in the table, the owner's visible spaces
/// include it, and every other user sees the same spaces as before.
pub proof fn law_new_space_visible_to_owner_only(
    table: Seq<space_member::Model>,
    space: space::Model,
    member: space_member::Model,
    other: u128,
)
    requires
        member.space_id == space.id,
        member.user_id == space.owner_id,
        other != space.owner_id,
    ensures
        visible_space_ids(table.push(member), space.owner_id).contains(space.id),
        visible_space_ids(table.push(member), other) == visible_space_ids(table, other),
        !visible_space_ids(table, other).contains(space.id) ==> !visible_space_ids(
            table.push(member),
            other,
        ).contains(space.id),
{
    let t = table.push(member);
    assert(t.drop_last() =~= table);
    assert(t.last() == member);
    let mine = memberships_of(t, space.owner_id);
    assert(mine == memberships_of(table, space.owner_id).push(member));
    let ids = visible_space_ids(t, space.owner_id);
    assert(ids[ids.len() - 1] == space.id);
    assert(memberships_of(t, other) == memberships_of(table, other));
}

} // verus!
