use doc_service::entity::{node, space_member};
use doc_service::error::DocError;
use doc_service::repo::{
    content_change_outcome, create_node_record, create_space_records, ensure_editor,
    ensure_member, next_position_from, reloaded_node, space_ids_of, update_content,
};
use doc_service::routes::restore_version;
use doc_service::entity::version;

fn member(role: &str) -> space_member::Model {
    space_member::Model { space_id: 1, user_id: 2, role: role.to_string(), joined_at: 3 }
}

fn page(version: i64, content: &str) -> node::Model {
    node::Model {
        id: 10,
        space_id: 1,
        parent_id: None,
        kind: "page".to_string(),
        title: "p".to_string(),
        position: 1,
        version,
        content_md: content.to_string(),
        updated_by: 2,
        deleted_at: None,
        created_at: 100,
        updated_at: 150,
    }
}

#[test]
fn next_position_is_one_after_the_largest() {
    assert_eq!(next_position_from(None), 1);
    assert_eq!(next_position_from(Some(3)), 4);
    assert_eq!(next_position_from(Some(0)), 1);
    assert_eq!(next_position_from(Some(-2)), -1);
}

#[test]
fn new_space_makes_owner_admin() {
    let (space, owner) = create_space_records(11, 22, "知识库", "team", 33);
    assert_eq!(space.id, 11);
    assert_eq!(space.name, "知识库");
    assert_eq!(space.space_type, "team");
    assert_eq!(space.owner_id, 22);
    assert_eq!(space.created_at, 33);
    assert_eq!(owner.space_id, 11);
    assert_eq!(owner.user_id, 22);
    assert_eq!(owner.role, "admin");
    assert_eq!(owner.joined_at, 33);
    assert_eq!(ensure_editor(Some(owner.clone())), Ok(owner));
}

#[test]
fn visible_spaces_are_those_of_the_memberships() {
    let members = vec![
        space_member::Model { space_id: 5, user_id: 2, role: "viewer".to_string(), joined_at: 1 },
        space_member::Model { space_id: 3, user_id: 2, role: "admin".to_string(), joined_at: 2 },
    ];
    assert_eq!(space_ids_of(&members), vec![5, 3]);
    assert!(space_ids_of(&Vec::new()).is_empty());
}

#[test]
fn membership_and_edit_rights() {
    assert_eq!(ensure_member(None), Err(DocError::NotMember));
    assert_eq!(ensure_member(Some(member("viewer"))), Ok(member("viewer")));
    assert_eq!(ensure_editor(None), Err(DocError::NotMember));
    assert_eq!(ensure_editor(Some(member("admin"))), Ok(member("admin")));
    assert_eq!(ensure_editor(Some(member("editor"))), Ok(member("editor")));
    assert_eq!(ensure_editor(Some(member("viewer"))), Err(DocError::NotEditor));
    assert_eq!(ensure_editor(Some(member("Admin"))), Err(DocError::NotEditor));
}

#[test]
fn new_node_starts_at_version_one_after_its_siblings() {
    let n = create_node_record(40, 1, Some(30), "page", "快速开始", 2, 500, Some(7));
    assert_eq!(n.id, 40);
    assert_eq!(n.space_id, 1);
    assert_eq!(n.parent_id, Some(30));
    assert_eq!(n.kind, "page");
    assert_eq!(n.title, "快速开始");
    assert_eq!(n.position, 8);
    assert_eq!(n.version, 1);
    assert_eq!(n.content_md, "");
    assert_eq!(n.updated_by, 2);
    assert_eq!(n.deleted_at, None);
    assert_eq!(n.created_at, 500);
    assert_eq!(n.updated_at, 500);
    let first = create_node_record(41, 1, None, "folder", "手册", 2, 500, None);
    assert_eq!(first.position, 1);
}

#[test]
fn stale_base_version_is_a_conflict() {
    let p = page(2, "# 第一版");
    assert!(matches!(update_content(&p, 1, "# 冲突", 3, 600, 90), Err(DocError::VersionConflict)));
    assert!(matches!(update_content(&p, 3, "x", 3, 600, 90), Err(DocError::VersionConflict)));
}

#[test]
fn update_snapshots_current_version() {
    let p = page(1, "");
    let plan = update_content(&p, 1, "# 第一版", 3, 600, 90).unwrap();
    assert_eq!(plan.snapshot.id, 90);
    assert_eq!(plan.snapshot.node_id, 10);
    assert_eq!(plan.snapshot.version, 1);
    assert_eq!(plan.snapshot.content_md, "");
    assert_eq!(plan.snapshot.author_id, 2);
    assert_eq!(plan.snapshot.created_at, 600);
    assert_eq!(plan.update.node_id, 10);
    assert_eq!(plan.update.content_md, "# 第一版");
    assert_eq!(plan.update.editor, 3);
    assert_eq!(plan.update.now, 600);
    assert_eq!(plan.update.expected_version, 1);
}

#[test]
fn change_and_reload_outcomes() {
    let snap = version::Model {
        id: 1,
        node_id: 10,
        version: 1,
        content_md: String::new(),
        author_id: 2,
        created_at: 3,
    };
    assert_eq!(content_change_outcome(snap.clone(), Some(2)), Ok(snap.clone()));
    assert_eq!(content_change_outcome(snap, None), Err(DocError::VersionConflict));
    assert_eq!(reloaded_node(None), Err(DocError::NodeNotFound));
    assert_eq!(reloaded_node(Some(page(2, "x"))), Ok(page(2, "x")));
}

#[test]
fn restore_writes_target_text_as_next_version() {
    let p = page(3, "# 第二版");
    let target = version::Model {
        id: 70,
        node_id: 10,
        version: 1,
        content_md: String::new(),
        author_id: 2,
        created_at: 100,
    };
    let plan = restore_version(&p, &target, 3, 900, 91).unwrap();
    assert_eq!(plan.update.expected_version, 3);
    assert_eq!(plan.update.content_md, "");
    assert_eq!(plan.snapshot.version, 3);
    assert_eq!(plan.snapshot.content_md, "# 第二版");
}
