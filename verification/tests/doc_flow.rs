//! The service's flows, run through the library's decisions; the database's
//! part (storing rows, the conditional update) is played by the test.

use doc_service::entity::{node, space_member, version};
use doc_service::error::DocError;
use doc_service::repo::{
    content_change_outcome, create_node_record, create_space_records, ensure_editor,
    ensure_member, reloaded_node, update_content, ContentUpdate,
};
use doc_service::routes::{
    check_create_node, check_create_space, check_editable, check_parent, find_target_version,
    load_node, readiness, restore_version, user_id_of, CreateNodeRequest, CreateSpaceRequest,
};
use doc_service::tree::build_tree;

const OWNER: &str = "018f0f6e-2c3a-7b1e-9a4d-5c6e7f809112";
const OUTSIDER: &str = "018f0f6e-2c3a-7b1e-9a4d-5c6e7f809113";

/// What the conditional `UPDATE ... WHERE id = $1 AND version = $5` does to a row.
fn run_update(update: &ContentUpdate, row: &node::Model) -> Option<node::Model> {
    if row.id == update.node_id && row.version == update.expected_version {
        let mut changed = row.clone();
        changed.content_md = update.content_md.clone();
        changed.version = row.version + 1;
        changed.updated_by = update.editor;
        changed.updated_at = update.now;
        Some(changed)
    } else {
        None
    }
}

struct Space {
    id: u128,
    owner: space_member::Model,
}

fn create_space(user: u128) -> Space {
    let request = CreateSpaceRequest { name: "知识库".to_string(), kind: Some("team".to_string()) };
    let (name, kind) = check_create_space(&request).unwrap();
    let (space, owner) = create_space_records(1000, user, &name, &kind, 1);
    assert_eq!(space.space_type, "team");
    Space { id: space.id, owner }
}

fn create_node(
    space: &Space,
    user: u128,
    id: u128,
    kind: &str,
    title: &str,
    parent: Option<&node::Model>,
    siblings_max: Option<i64>,
) -> Result<node::Model, DocError> {
    ensure_editor(Some(space.owner.clone()))?;
    let request = CreateNodeRequest {
        kind: kind.to_string(),
        title: title.to_string(),
        parent_id: parent.map(|p| p.id),
    };
    let title = check_create_node(&request)?;
    if request.parent_id.is_some() {
        check_parent(parent.cloned(), space.id)?;
    }
    Ok(create_node_record(id, space.id, request.parent_id, &request.kind, &title, user, 2, siblings_max))
}

/// Writes `content` against `base`, as `PUT .../content` does; returns the
/// page after the change and the stored snapshot.
fn put_content(
    page: &node::Model,
    base: i64,
    content: &str,
    user: u128,
    now: i64,
    snapshot_id: u128,
) -> Result<(node::Model, version::Model), DocError> {
    check_editable(page)?;
    let plan = update_content(page, base, content, user, now, snapshot_id)?;
    let changed = run_update(&plan.update, page);
    let snapshot = content_change_outcome(plan.snapshot, changed.as_ref().map(|m| m.version))?;
    let reloaded = reloaded_node(changed)?;
    Ok((reloaded, snapshot))
}

#[test]
fn page_tree_update_conflict_and_restore() {
    let user = user_id_of(OWNER).unwrap();
    let space = create_space(user);

    let folder = create_node(&space, user, 1, "folder", "手册", None, None).unwrap();
    let page = create_node(&space, user, 2, "page", "快速开始", Some(&folder), None).unwrap();
    assert_eq!(page.version, 1);

    let tree = build_tree(&[folder.clone(), page.clone()]);
    assert_eq!(tree[0].node.title, "手册");
    assert_eq!(tree[0].children[0].node.title, "快速开始");

    let mut versions: Vec<version::Model> = Vec::new();
    let (page, snap) = put_content(&page, 1, "# 第一版", user, 3, 101).unwrap();
    versions.push(snap);
    assert_eq!(page.version, 2);

    let conflict = put_content(&page, 1, "# 冲突", user, 4, 102).unwrap_err();
    assert_eq!(conflict.status(), 409);
    assert_eq!(conflict.code(), "DOC_VERSION_CONFLICT");

    let (page, snap) = put_content(&page, 2, "# 第二版", user, 5, 103).unwrap();
    versions.push(snap);
    assert_eq!(page.version, 3);

    versions.sort_by(|a, b| b.version.cmp(&a.version));
    assert_eq!(versions.len(), 2);
    assert_eq!(versions[0].version, 2);

    let target = find_target_version(versions.iter().find(|v| v.version == 1).cloned()).unwrap();
    let plan = restore_version(&page, &target, user, 6, 104).unwrap();
    let restored = reloaded_node(run_update(&plan.update, &page)).unwrap();
    assert_eq!(restored.version, 4);
    let detail = load_node(Some(restored), space.id).unwrap();
    assert_eq!(detail.content_md, "");
    assert_eq!(detail.version, 4);
}

#[test]
fn permissions_and_validation() {
    let owner = user_id_of(OWNER).unwrap();
    let outsider = user_id_of(OUTSIDER).unwrap();
    assert_ne!(owner, outsider);
    let space = create_space(owner);

    let denied = ensure_member(None).unwrap_err();
    assert_eq!(denied.status(), 403);

    let bad_kind = create_node(&space, owner, 1, "sheet", "x", None, None).unwrap_err();
    assert_eq!(bad_kind.status(), 422);
    let bad_title = create_node(&space, owner, 1, "page", "  ", None, None).unwrap_err();
    assert_eq!(bad_title.status(), 422);

    let folder = create_node(&space, owner, 1, "folder", "资料", None, None).unwrap();
    let edit_folder = put_content(&folder, 1, "x", owner, 3, 50).unwrap_err();
    assert_eq!(edit_folder.status(), 422);

    let ready = readiness(true);
    assert_eq!(ready.database, "ok");
}

#[test]
fn not_found_and_restore_error_paths() {
    let user = user_id_of(OWNER).unwrap();
    let space = create_space(user);

    let missing_parent = {
        let request = CreateNodeRequest { kind: "page".to_string(), title: "x".to_string(), parent_id: Some(77) };
        check_create_node(&request).unwrap();
        check_parent(None, space.id).unwrap_err()
    };
    assert_eq!(missing_parent.status(), 404);

    assert_eq!(load_node(None, space.id).unwrap_err().status(), 404);

    let _page = create_node(&space, user, 2, "page", "p", None, None).unwrap();
    assert_eq!(find_target_version(None).unwrap_err().status(), 404);

    let bad_type = check_create_space(&CreateSpaceRequest {
        name: "x".to_string(),
        kind: Some("wiki".to_string()),
    });
    assert_eq!(bad_type.unwrap_err().status(), 422);
    let long_name = "a".repeat(65);
    let bad_name = check_create_space(&CreateSpaceRequest { name: long_name, kind: None });
    assert_eq!(bad_name.unwrap_err().status(), 422);

    assert_eq!(user_id_of("invalid").unwrap_err().status(), 401);
}

#[test]
fn concurrent_changes_only_one_wins() {
    let user = user_id_of(OWNER).unwrap();
    let space = create_space(user);
    let page = create_node(&space, user, 2, "page", "p", None, None).unwrap();
    // both editors read version 1
    let first = update_content(&page, 1, "A", user, 3, 201).unwrap();
    let second = update_content(&page, 1, "B", user, 3, 202).unwrap();
    let after_first = run_update(&first.update, &page).unwrap();
    assert_eq!(after_first.version, 2);
    assert_eq!(after_first.content_md, "A");
    let second_result = run_update(&second.update, &after_first);
    assert!(second_result.is_none());
    // the loser stores no snapshot and answers 409
    let answer = content_change_outcome(second.snapshot, second_result.map(|m| m.version));
    assert_eq!(answer, Err(DocError::VersionConflict));
    assert_eq!(answer.unwrap_err().status(), 409);
}

#[test]
fn history_holds_every_version_once() {
    let user = user_id_of(OWNER).unwrap();
    let space = create_space(user);
    let mut page = create_node(&space, user, 2, "page", "p", None, None).unwrap();
    let mut snapshots: Vec<version::Model> = Vec::new();
    let stale = update_content(&page, 1, "late", user, 3, 300).unwrap();
    for k in 0..5u128 {
        let (next, snap) = put_content(&page, page.version, &format!("v{}", k + 2), user, 4, 310 + k).unwrap();
        snapshots.push(snap);
        page = next;
    }
    // a change planned against version 1 loses and stores nothing
    assert!(run_update(&stale.update, &page).is_none());
    assert_eq!(page.version, 1 + snapshots.len() as i64);
    for (i, snap) in snapshots.iter().enumerate() {
        assert_eq!(snap.version, i as i64 + 1);
        assert_eq!(snap.node_id, page.id);
    }
    assert!(snapshots.iter().all(|s| s.version != page.version));
    assert_eq!(snapshots[0].content_md, "");
    assert_eq!(snapshots[1].content_md, "v2");
}

#[test]
fn new_space_is_listed_for_its_owner_only() {
    let owner = user_id_of(OWNER).unwrap();
    let other = user_id_of(OUTSIDER).unwrap();
    let mut table = vec![space_member::Model { space_id: 7, user_id: other, role: "viewer".to_string(), joined_at: 0 }];
    let (space, member) = create_space_records(1000, owner, "知识库", "team", 1);
    table.push(member);
    let mine: Vec<space_member::Model> = table.iter().filter(|m| m.user_id == owner).cloned().collect();
    let theirs: Vec<space_member::Model> = table.iter().filter(|m| m.user_id == other).cloned().collect();
    assert!(doc_service::repo::space_ids_of(&mine).contains(&space.id));
    assert_eq!(doc_service::repo::space_ids_of(&theirs), vec![7]);
}
