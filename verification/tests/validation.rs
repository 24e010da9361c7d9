use doc_service::error::{DocError, ValidationIssue};
use doc_service::routes::{
    check_create_node, check_create_space, check_editable, check_parent, find_target_version,
    load_node, readiness, user_id_of, CreateNodeRequest, CreateSpaceRequest,
};
use doc_service::entity::{node, version};

fn node_model(id: u128, space_id: u128, parent_id: Option<u128>, kind: &str) -> node::Model {
    node::Model {
        id,
        space_id,
        parent_id,
        kind: kind.to_string(),
        title: "t".to_string(),
        position: 1,
        version: 1,
        content_md: String::new(),
        updated_by: 7,
        deleted_at: None,
        created_at: 100,
        updated_at: 100,
    }
}

fn space_request(name: &str, kind: Option<&str>) -> CreateSpaceRequest {
    CreateSpaceRequest { name: name.to_string(), kind: kind.map(|k| k.to_string()) }
}

#[test]
fn space_request_trims_and_defaults_to_team() {
    let r = check_create_space(&space_request("  知识库 ", None)).unwrap();
    assert_eq!(r.0, "知识库");
    assert_eq!(r.1, "team");
    let r = check_create_space(&space_request("知识库", Some("personal"))).unwrap();
    assert_eq!(r, ("知识库".to_string(), "personal".to_string()));
    let r = check_create_space(&space_request("x", Some("public"))).unwrap();
    assert_eq!(r.1, "public");
}

#[test]
fn space_request_trims_unicode_white_space() {
    let r = check_create_space(&space_request("\u{3000}\t名\u{a0}\n", Some("team"))).unwrap();
    assert_eq!(r.0, "名");
    let r = check_create_space(&space_request(" a b ", None)).unwrap();
    assert_eq!(r.0, "a b");
}

#[test]
fn space_name_limits() {
    let long_name = "a".repeat(65);
    assert_eq!(
        check_create_space(&space_request(&long_name, None)),
        Err(DocError::Validation(ValidationIssue::SpaceName))
    );
    let max_name = "a".repeat(64);
    assert_eq!(check_create_space(&space_request(&max_name, None)).unwrap().0, max_name);
    // characters, not bytes, are counted
    let wide = "文".repeat(64);
    assert_eq!(check_create_space(&space_request(&wide, None)).unwrap().0, wide);
    assert_eq!(
        check_create_space(&space_request("   ", None)),
        Err(DocError::Validation(ValidationIssue::SpaceName))
    );
    assert_eq!(
        check_create_space(&space_request("", None)),
        Err(DocError::Validation(ValidationIssue::SpaceName))
    );
}

#[test]
fn space_type_must_be_known() {
    assert_eq!(
        check_create_space(&space_request("x", Some("wiki"))),
        Err(DocError::Validation(ValidationIssue::SpaceType))
    );
    assert_eq!(
        check_create_space(&space_request("x", Some("Team"))),
        Err(DocError::Validation(ValidationIssue::SpaceType))
    );
    // the name is checked first
    assert_eq!(
        check_create_space(&space_request(" ", Some("wiki"))),
        Err(DocError::Validation(ValidationIssue::SpaceName))
    );
}

fn node_request(kind: &str, title: &str) -> CreateNodeRequest {
    CreateNodeRequest { kind: kind.to_string(), title: title.to_string(), parent_id: None }
}

#[test]
fn node_request_checks_kind_then_title() {
    assert_eq!(
        check_create_node(&node_request("sheet", "x")),
        Err(DocError::Validation(ValidationIssue::NodeKind))
    );
    assert_eq!(
        check_create_node(&node_request("page", "  ")),
        Err(DocError::Validation(ValidationIssue::NodeTitle))
    );
    assert_eq!(
        check_create_node(&node_request("sheet", "  ")),
        Err(DocError::Validation(ValidationIssue::NodeKind))
    );
    assert_eq!(check_create_node(&node_request("folder", " 手册 ")), Ok("手册".to_string()));
    assert_eq!(check_create_node(&node_request("page", "快速开始")), Ok("快速开始".to_string()));
}

#[test]
fn node_title_limits() {
    let max_title = "b".repeat(255);
    assert_eq!(check_create_node(&node_request("page", &max_title)), Ok(max_title.clone()));
    let long_title = "b".repeat(256);
    assert_eq!(
        check_create_node(&node_request("page", &long_title)),
        Err(DocError::Validation(ValidationIssue::NodeTitle))
    );
}

#[test]
fn parent_must_be_visible_folder_of_the_space() {
    assert_eq!(check_parent(None, 1), Err(DocError::ParentNotFound));
    assert_eq!(check_parent(Some(node_model(5, 2, None, "folder")), 1), Err(DocError::ParentNotFound));
    let mut deleted = node_model(5, 1, None, "folder");
    deleted.deleted_at = Some(200);
    assert_eq!(check_parent(Some(deleted), 1), Err(DocError::ParentNotFound));
    assert_eq!(
        check_parent(Some(node_model(5, 1, None, "page")), 1),
        Err(DocError::Validation(ValidationIssue::ParentNotFolder))
    );
    assert_eq!(check_parent(Some(node_model(5, 1, None, "folder")), 1), Ok(()));
}

#[test]
fn load_node_hides_other_spaces_and_deleted_nodes() {
    assert_eq!(load_node(None, 1), Err(DocError::NodeNotFound));
    assert_eq!(load_node(Some(node_model(5, 2, None, "page")), 1), Err(DocError::NodeNotFound));
    let mut deleted = node_model(5, 1, None, "page");
    deleted.deleted_at = Some(1);
    assert_eq!(load_node(Some(deleted), 1), Err(DocError::NodeNotFound));
    let visible = node_model(5, 1, Some(4), "page");
    assert_eq!(load_node(Some(visible.clone()), 1), Ok(visible));
}

#[test]
fn only_pages_have_text() {
    assert_eq!(check_editable(&node_model(1, 1, None, "page")), Ok(()));
    assert_eq!(
        check_editable(&node_model(1, 1, None, "folder")),
        Err(DocError::Validation(ValidationIssue::FolderContent))
    );
}

#[test]
fn missing_version_is_not_found() {
    assert_eq!(find_target_version(None), Err(DocError::VersionNotFound));
    let v = version::Model {
        id: 9,
        node_id: 1,
        version: 1,
        content_md: String::new(),
        author_id: 7,
        created_at: 5,
    };
    assert_eq!(find_target_version(Some(v.clone())), Ok(v));
}

#[test]
fn token_subject_must_be_a_uuid() {
    assert_eq!(
        user_id_of("550e8400-e29b-41d4-a716-446655440000"),
        Ok(0x550e8400e29b41d4a716446655440000)
    );
    assert_eq!(
        user_id_of("550E8400E29B41D4A716446655440000"),
        Ok(0x550e8400e29b41d4a716446655440000)
    );
    assert_eq!(
        user_id_of("{550e8400-e29b-41d4-a716-446655440000}"),
        Ok(0x550e8400e29b41d4a716446655440000)
    );
    assert_eq!(
        user_id_of("URN:uuid:550e8400-e29b-41d4-a716-446655440000"),
        Ok(0x550e8400e29b41d4a716446655440000)
    );
    assert_eq!(user_id_of("550e8400-e29b-41d4-a716-44665544000g"), Err(DocError::InvalidToken));
    assert_eq!(user_id_of("550e8400e29b-41d4-a716-4466554400000"), Err(DocError::InvalidToken));
    assert_eq!(user_id_of("(550e8400-e29b-41d4-a716-446655440000)"), Err(DocError::InvalidToken));
    assert_eq!(user_id_of("invalid"), Err(DocError::InvalidToken));
    assert_eq!(user_id_of(""), Err(DocError::InvalidToken));
}

#[test]
fn readiness_reports_database() {
    let ok = readiness(true);
    assert_eq!((ok.status.as_str(), ok.database.as_str()), ("ready", "ok"));
    let bad = readiness(false);
    assert_eq!((bad.status.as_str(), bad.database.as_str()), ("degraded", "error"));
}

#[test]
fn error_answers() {
    let conflict = DocError::VersionConflict;
    assert_eq!(conflict.status(), 409);
    assert_eq!(conflict.code(), "DOC_VERSION_CONFLICT");
    assert_eq!(conflict.message(), "内容已被他人修改，请刷新后重试");
    assert!(conflict.field_errors().is_empty());
    assert_eq!(DocError::NotMember.status(), 403);
    assert_eq!(DocError::NotMember.code(), "DOC_NOT_MEMBER");
    assert_eq!(DocError::NotEditor.code(), "DOC_FORBIDDEN");
    assert_eq!(DocError::InvalidToken.status(), 401);
    assert_eq!(DocError::InvalidToken.code(), "AUTH_INVALID_TOKEN");
    assert_eq!(DocError::NodeNotFound.status(), 404);
    assert_eq!(DocError::ParentNotFound.code(), "DOC_NODE_NOT_FOUND");
    assert_eq!(DocError::ParentNotFound.message(), "父节点不存在");
    assert_eq!(DocError::VersionNotFound.code(), "DOC_VERSION_NOT_FOUND");
    let bad_type = DocError::Validation(ValidationIssue::SpaceType);
    assert_eq!(bad_type.status(), 422);
    assert_eq!(bad_type.code(), "DOC_VALIDATION");
    assert_eq!(bad_type.message(), "空间类型不合法");
    let fields = bad_type.field_errors();
    assert_eq!(fields.len(), 1);
    assert_eq!(fields[0].field, "type");
    assert_eq!(fields[0].message, "仅支持 team/personal/public");
    let parent = DocError::Validation(ValidationIssue::ParentNotFolder).field_errors();
    assert_eq!(parent[0].field, "parentId");
}

#[test]
fn checked_input_passes_again_unchanged() {
    let (name, kind) = check_create_space(&space_request("\t 知识库\u{2003}", None)).unwrap();
    let again = check_create_space(&CreateSpaceRequest { name: name.clone(), kind: Some(kind.clone()) });
    assert_eq!(again, Ok((name, kind)));
    let title = check_create_node(&node_request("page", "  快速 开始  ")).unwrap();
    assert_eq!(title, "快速 开始");
    assert_eq!(check_create_node(&node_request("page", &title)), Ok(title.clone()));
}
