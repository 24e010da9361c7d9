//! The checks the HTTP handlers make, in the order they make them, and the
//! view of a node that they answer with. The handlers themselves, which read
//! requests and talk to the database, stand outside this crate.

use vstd::prelude::*;

use crate::entity::{node, space, space_member, version};
use crate::error::{DocError, ValidationIssue};
use crate::ids::{law_uuid_text_reads_back, parse_uuid, uuid_parse, uuid_text, uuid_to_string};
use crate::repo::{editor_outcome, ensure_editor, ensure_member, member_outcome, plan_matches, update_content, ContentUpdate, ContentUpdatePlan};
use crate::text::{law_trim_idempotent, trim, trim_str};

verus! {

/// What the readiness check answers: `ready`/`ok` when the database answers,
/// `degraded`/`error` when it does not.
pub struct Readiness {
    /// Overall status.
    pub status: String,
    /// Database status.
    pub database: String,
}

/// The answer of the readiness check, given whether the database answered.
pub fn readiness(database_ok: bool) -> (r: Readiness)
    ensures
        database_ok ==> r.status@ == "ready"@ && r.database@ == "ok"@,
        !database_ok ==> r.status@ == "degraded"@ && r.database@ == "error"@,
{
    if database_ok {
        Readiness { status: String::from_str("ready"), database: String::from_str("ok") }
    } else {
        Readiness { status: String::from_str("degraded"), database: String::from_str("error") }
    }
}

/// The user that a token subject names: its UUID, or `InvalidToken` when the
/// subject is not one.
pub open spec fn spec_user_id_from(parsed: Option<u128>) -> Result<u128, DocError> {
    match parsed {
        Some(v) => Ok(v),
        None => Err(DocError::InvalidToken),
    }
}

/// The user that a parsed token subject names.
pub fn user_id_from(parsed: Option<u128>) -> (r: Result<u128, DocError>)
    ensures
        r == spec_user_id_from(parsed),
        (r is Ok) <==> (parsed is Some),
        (r is Ok) ==> r == Ok::<u128, DocError>(parsed.unwrap()),
        (parsed is None) ==> r == Err::<u128, DocError>(DocError::InvalidToken),
{
    match parsed {
        Some(v) => Ok(v),
        None => Err(DocError::InvalidToken),
    }
}

/// The user id of an access token's subject `sub`.
pub fn user_id_of(sub: &str) -> (r: Result<u128, DocError>)
    ensures
        r == spec_user_id_from(uuid_parse(sub@)),
        forall|v: u128| sub@ == uuid_text(v) ==> r == Ok::<u128, DocError>(v),
{
    proof {
        assert forall|v: u128| sub@ == uuid_text(v) implies uuid_parse(sub@) == Some(v) by {
            law_uuid_text_reads_back(v);
        }
    }
    user_id_from(parse_uuid(sub))
}

/// The body of `POST /spaces`.
pub struct CreateSpaceRequest {
    /// Name.
    pub name: String,
    /// `team`, `personal` or `public`; `team` when absent.
    pub kind: Option<String>,
}

/// The most characters a space name may have (the `spaces.name` column holds as many).
pub const SPACE_NAME_MAX_CHARS: usize = 64;

/// The most characters a node title may have (the `nodes.title` column holds as many).
pub const NODE_TITLE_MAX_CHARS: usize = 255;

/// Whether a name, once trimmed, has 1 to 64 characters.
pub open spec fn space_name_ok(name: Seq<char>) -> bool {
    1 <= trim(name).len() <= SPACE_NAME_MAX_CHARS
}

/// The space type a request asks for.
pub open spec fn requested_space_type(kind: Option<String>) -> Seq<char> {
    match kind {
        Some(k) => k@,
        None => space::TYPE_TEAM@,
    }
}

/// The check of a `POST /spaces` body: the trimmed name and the space type,
/// or the first field that is invalid (the name is checked first).
pub fn check_create_space(input: &CreateSpaceRequest) -> (r: Result<(String, String), DocError>)
    ensures
        !space_name_ok(input.name@) ==> r == Err::<(String, String), DocError>(
            DocError::Validation(ValidationIssue::SpaceName),
        ),
        space_name_ok(input.name@) && !space::is_space_type(requested_space_type(input.kind))
            ==> r == Err::<(String, String), DocError>(
            DocError::Validation(ValidationIssue::SpaceType),
        ),
        space_name_ok(input.name@) && space::is_space_type(requested_space_type(input.kind))
            ==> (r matches Ok((name, kind)) && name@ == trim(input.name@) && kind@
            == requested_space_type(input.kind)),
{
    let name = trim_str(input.name.as_str());
    let count = name.as_str().unicode_len();
    if count == 0 || count > SPACE_NAME_MAX_CHARS {
        return Err(DocError::Validation(ValidationIssue::SpaceName));
    }
    let kind = match &input.kind {
        Some(k) => k.clone(),
        None => String::from_str(space::TYPE_TEAM),
    };
    let team = String::from_str(space::TYPE_TEAM);
    let personal = String::from_str(space::TYPE_PERSONAL);
    let public = String::from_str(space::TYPE_PUBLIC);
    if !(kind == team || kind == personal || kind == public) {
        return Err(DocError::Validation(ValidationIssue::SpaceType));
    }
    Ok((name, kind))
}

/// A space name that passed the check passes it again unchanged: the stored
/// name is already trimmed and within the limits.
pub proof fn law_space_name_check_is_stable(name: Seq<char>)
    requires
        space_name_ok(name),
    ensures
        space_name_ok(trim(name)),
        trim(trim(name)) == trim(name),
{
    law_trim_idempotent(name);
}

/// The body of `POST /spaces/{id}/nodes`.
pub struct CreateNodeRequest {
    /// `folder` or `page`.
    pub kind: String,
    /// Title.
    pub title: String,
    /// Parent node, `None` for the top level.
    pub parent_id: Option<u128>,
}

/// Whether a title, once trimmed, has 1 to 255 characters.
pub open spec fn node_title_ok(title: Seq<char>) -> bool {
    1 <= trim(title).len() <= NODE_TITLE_MAX_CHARS
}

/// The check of a `POST /spaces/{id}/nodes` body: the trimmed title, or the
/// first field that is invalid (the kind is checked first).
pub fn check_create_node(input: &CreateNodeRequest) -> (r: Result<String, DocError>)
    ensures
        !node::is_node_kind(input.kind@) ==> r == Err::<String, DocError>(
            DocError::Validation(ValidationIssue::NodeKind),
        ),
        node::is_node_kind(input.kind@) && !node_title_ok(input.title@) ==> r == Err::<
            String,
            DocError,
        >(DocError::Validation(ValidationIssue::NodeTitle)),
        node::is_node_kind(input.kind@) && node_title_ok(input.title@) ==> (r matches Ok(title)
            && title@ == trim(input.title@)),
{
    let folder = String::from_str(node::KIND_FOLDER);
    let page = String::from_str(node::KIND_PAGE);
    if !(input.kind == folder || input.kind == page) {
        return Err(DocError::Validation(ValidationIssue::NodeKind));
    }
    let title = trim_str(input.title.as_str());
    let count = title.as_str().unicode_len();
    if count == 0 || count > NODE_TITLE_MAX_CHARS {
        return Err(DocError::Validation(ValidationIssue::NodeTitle));
    }
    Ok(title)
}

/// A title that passed the check passes it again unchanged.
pub proof fn law_node_title_check_is_stable(title: Seq<char>)
    requires
        node_title_ok(title),
    ensures
        node_title_ok(trim(title)),
        trim(trim(title)) == trim(title),
{
    law_trim_idempotent(title);
}

/// Whether a node can be seen in the space `space_id`: it lies there and is
/// not deleted.
pub open spec fn visible_in(m: node::Model, space_id: u128) -> bool {
    m.space_id == space_id && m.deleted_at is None
}

/// The check of the parent that a new node asks for, given what looking it up
/// found: it must be a visible node of the space (else `ParentNotFound`), and
/// a folder.
pub fn check_parent(found: Option<node::Model>, space_id: u128) -> (r: Result<(), DocError>)
    ensures
        match found {
            Some(p) => if !visible_in(p, space_id) {
                r == Err::<(), DocError>(DocError::ParentNotFound)
            } else if p.kind@ != node::KIND_FOLDER@ {
                r == Err::<(), DocError>(DocError::Validation(ValidationIssue::ParentNotFolder))
            } else {
                r is Ok
            },
            None => r == Err::<(), DocError>(DocError::ParentNotFound),
        },
{
    match found {
        Some(p) => {
            if !(p.space_id == space_id && p.deleted_at.is_none()) {
                return Err(DocError::ParentNotFound);
            }
            let folder = String::from_str(node::KIND_FOLDER);
            if p.kind != folder {
                return Err(DocError::Validation(ValidationIssue::ParentNotFolder));
            }
            Ok(())
        },
        None => Err(DocError::ParentNotFound),
    }
}

/// The node a request names, given what looking it up found: a visible node
/// of the space, else `NodeNotFound`.
pub fn load_node(found: Option<node::Model>, space_id: u128) -> (r: Result<node::Model, DocError>)
    ensures
        r is Ok <==> (found matches Some(m) && m.space_id == space_id && m.deleted_at is None),
        r is Ok ==> r == Ok::<node::Model, DocError>(found.unwrap()),
        match found {
            Some(m) => if visible_in(m, space_id) {
                r == Ok::<node::Model, DocError>(m)
            } else {
                r == Err::<node::Model, DocError>(DocError::NodeNotFound)
            },
            None => r == Err::<node::Model, DocError>(DocError::NodeNotFound),
        },
{
    match found {
        Some(m) => {
            if m.space_id == space_id && m.deleted_at.is_none() {
                Ok(m)
            } else {
                Err(DocError::NodeNotFound)
            }
        },
        None => Err(DocError::NodeNotFound),
    }
}

/// The body of `PUT /spaces/{id}/nodes/{node_id}/content`.
pub struct UpdateContentRequest {
    /// The new Markdown text.
    pub content_md: String,
    /// The version the editor started from.
    pub base_version: i64,
}

/// Only a page has text to edit: `FolderContent` for a folder (or any other kind).
pub fn check_editable(model: &node::Model) -> (r: Result<(), DocError>)
    ensures
        model.kind@ == node::KIND_PAGE@ ==> r is Ok,
        model.kind@ != node::KIND_PAGE@ ==> r == Err::<(), DocError>(
            DocError::Validation(ValidationIssue::FolderContent),
        ),
{
    let page = String::from_str(node::KIND_PAGE);
    if model.kind != page {
        Err(DocError::Validation(ValidationIssue::FolderContent))
    } else {
        Ok(())
    }
}

/// The earlier version a restore asks for, given what looking it up found, or
/// `VersionNotFound`.
pub fn find_target_version(found: Option<version::Model>) -> (r: Result<version::Model, DocError>)
    ensures
        match found {
            Some(v) => r == Ok::<version::Model, DocError>(v),
            None => r == Err::<version::Model, DocError>(DocError::VersionNotFound),
        },
{
    match found {
        Some(v) => Ok(v),
        None => Err(DocError::VersionNotFound),
    }
}

/// The writes that restore the earlier version `target` of the page `model`:
/// a text change to the target's text, made against the page's current
/// version, so that the restored text becomes a new version.
pub fn restore_version(
    model: &node::Model,
    target: &version::Model,
    editor: u128,
    now: i64,
    snapshot_id: u128,
) -> (r: Result<ContentUpdatePlan, DocError>)
    ensures
        r matches Ok(plan) && plan_matches(
            plan,
            *model,
            model.version,
            target.content_md@,
            editor,
            now,
            snapshot_id,
        ),
        (r is Ok),
        (r is Ok) ==> r->Ok_0.update.expected_version == model.version,
        (r is Ok) ==> r->Ok_0.update.content_md@ == target.content_md@,
        (r is Ok) ==> r->Ok_0.snapshot.version == model.version,
{
    update_content(model, model.version, target.content_md.as_str(), editor, now, snapshot_id)
}

/// Restoring an earlier version makes its text current as a new version: on
/// the page as it was read, the restore's update takes effect, with the
/// target's text and the next version number.
pub proof fn law_restore_makes_target_current(
    model: node::Model,
    target: version::Model,
    update: ContentUpdate,
)
    requires
        update.node_id == model.id,
        update.expected_version == model.version,
        update.content_md@ == target.content_md@,
        model.version < i64::MAX,
    ensures
        update.apply(model) matches Some(m) && m.content_md@ == target.content_md@ && m.version
            == model.version + 1,
{
}

/// The first check a `POST /spaces` body fails, if any: the name, then the type.
pub open spec fn space_input_refusal(name: Seq<char>, kind: Option<String>) -> Option<DocError> {
    if !space_name_ok(name) {
        Some(DocError::Validation(ValidationIssue::SpaceName))
    } else if !space::is_space_type(requested_space_type(kind)) {
        Some(DocError::Validation(ValidationIssue::SpaceType))
    } else {
        None
    }
}

/// The decision of `POST /spaces`: the caller's id from the token subject
/// first, then the body's checks; the caller, the trimmed name and the type.
pub fn decide_create_space(sub: &str, input: &CreateSpaceRequest) -> (r: Result<
    (u128, String, String),
    DocError,
>)
    ensures
        match spec_user_id_from(uuid_parse(sub@)) {
            Err(e) => r == Err::<(u128, String, String), DocError>(e),
            Ok(user) => match space_input_refusal(input.name@, input.kind) {
                Some(e) => r == Err::<(u128, String, String), DocError>(e),
                None => r matches Ok((u, name, kind)) && u == user && name@ == trim(input.name@)
                    && kind@ == requested_space_type(input.kind),
            },
        },
        r matches Ok((u, name, kind)) ==> {
            &&& uuid_parse(sub@) == Some(u)
            &&& space::is_space_type(kind@)
            &&& kind@ == requested_space_type(input.kind)
            &&& 1 <= name@.len() <= SPACE_NAME_MAX_CHARS
            &&& name@ == trim(input.name@)
        },
        uuid_parse(sub@) is Some && space_name_ok(input.name@) && !space::is_space_type(
            requested_space_type(input.kind),
        ) ==> r == Err::<(u128, String, String), DocError>(
            DocError::Validation(ValidationIssue::SpaceType),
        ),
{
    let user = user_id_of(sub)?;
    let (name, kind) = check_create_space(input)?;
    Ok((user, name, kind))
}

/// The node a lookup finds, if visible in the space, else `NodeNotFound`.
pub open spec fn load_outcome(found: Option<node::Model>, space_id: u128) -> Result<
    node::Model,
    DocError,
> {
    match found {
        Some(m) => if visible_in(m, space_id) {
            Ok(m)
        } else {
            Err(DocError::NodeNotFound)
        },
        None => Err(DocError::NodeNotFound),
    }
}

/// The decision of the requests that read a node (`GET .../nodes/{node_id}`
/// and `GET .../versions`): membership first, then the node.
pub fn decide_read_node(
    member: Option<space_member::Model>,
    found: Option<node::Model>,
    space_id: u128,
) -> (r: Result<node::Model, DocError>)
    ensures
        r == match member_outcome(member) {
            Err(e) => Err(e),
            Ok(_) => load_outcome(found, space_id),
        },
        (r is Ok) ==> (member is Some) && (found is Some),
        (r is Ok) ==> found.unwrap().space_id == space_id && (found.unwrap().deleted_at is None),
        (r is Ok) ==> r == Ok::<node::Model, DocError>(found.unwrap()),
{
    ensure_member(member)?;
    load_node(found, space_id)
}

/// The first check of a new node's kind and title it fails, if any.
pub open spec fn node_input_refusal(kind: Seq<char>, title: Seq<char>) -> Option<DocError> {
    if !node::is_node_kind(kind) {
        Some(DocError::Validation(ValidationIssue::NodeKind))
    } else if !node_title_ok(title) {
        Some(DocError::Validation(ValidationIssue::NodeTitle))
    } else {
        None
    }
}

/// What the lookup of a requested parent means, if it is refused.
pub open spec fn parent_refusal(found: Option<node::Model>, space_id: u128) -> Option<DocError> {
    match found {
        Some(p) => if !visible_in(p, space_id) {
            Some(DocError::ParentNotFound)
        } else if p.kind@ != node::KIND_FOLDER@ {
            Some(DocError::Validation(ValidationIssue::ParentNotFolder))
        } else {
            None
        },
        None => Some(DocError::ParentNotFound),
    }
}

/// The first check a `POST /spaces/{id}/nodes` request fails, if any: edit
/// rights, then the kind, the title, and the parent (when one is asked for).
pub open spec fn create_node_refusal(
    member: Option<space_member::Model>,
    kind: Seq<char>,
    title: Seq<char>,
    parent_id: Option<u128>,
    parent: Option<node::Model>,
    space_id: u128,
) -> Option<DocError> {
    match editor_outcome(member) {
        Err(e) => Some(e),
        Ok(_) => match node_input_refusal(kind, title) {
            Some(e) => Some(e),
            None => if parent_id is Some {
                parent_refusal(parent, space_id)
            } else {
                None
            },
        },
    }
}

/// The decision of `POST /spaces/{id}/nodes`, given the caller's membership
/// lookup and, where the body names a parent, the lookup of that parent: the
/// trimmed title, or the first check that fails.
pub fn decide_create_node(
    member: Option<space_member::Model>,
    input: &CreateNodeRequest,
    parent: Option<node::Model>,
    space_id: u128,
) -> (r: Result<String, DocError>)
    ensures
        match create_node_refusal(
            member,
            input.kind@,
            input.title@,
            input.parent_id,
            parent,
            space_id,
        ) {
            Some(e) => r == Err::<String, DocError>(e),
            None => r matches Ok(t) && t@ == trim(input.title@),
        },
        (r is Ok) ==> (member is Some) && space_member::role_can_edit(member.unwrap().role@),
        (r is Ok) ==> node::is_node_kind(input.kind@) && node_title_ok(input.title@),
        (r is Ok) && (input.parent_id is Some) ==> (parent is Some),
        (r is Ok) && (input.parent_id is Some) ==> parent.unwrap().space_id == space_id,
        (r is Ok) && (input.parent_id is Some) ==> (parent.unwrap().deleted_at is None),
        (r is Ok) && (input.parent_id is Some) ==> parent.unwrap().kind@ == node::KIND_FOLDER@,
        (member is Some) && space_member::role_can_edit(member.unwrap().role@)
            && node::is_node_kind(input.kind@) && node_title_ok(input.title@) && (input.parent_id is Some)
            && (parent is Some) && (parent.unwrap().space_id != space_id || (parent.unwrap().deleted_at is Some))
            ==> r == Err::<String, DocError>(DocError::ParentNotFound),
{
    ensure_editor(member)?;
    let title = check_create_node(input)?;
    if input.parent_id.is_some() {
        check_parent(parent, space_id)?;
    }
    Ok(title)
}

/// The first check a `PUT .../content` request fails, if any: edit rights,
/// then the node, then that it is a page, then the optimistic lock.
pub open spec fn content_change_refusal(
    member: Option<space_member::Model>,
    found: Option<node::Model>,
    space_id: u128,
    base_version: i64,
) -> Option<DocError> {
    match editor_outcome(member) {
        Err(e) => Some(e),
        Ok(_) => match load_outcome(found, space_id) {
            Err(e) => Some(e),
            Ok(m) => if m.kind@ != node::KIND_PAGE@ {
                Some(DocError::Validation(ValidationIssue::FolderContent))
            } else if m.version != base_version {
                Some(DocError::VersionConflict)
            } else {
                None
            },
        },
    }
}

/// The decision of `PUT /spaces/{id}/nodes/{node_id}/content`, given the
/// caller's membership lookup and the node's lookup: the writes of the change,
/// or the first check that fails.
pub fn decide_content_change(
    member: Option<space_member::Model>,
    found: Option<node::Model>,
    space_id: u128,
    base_version: i64,
    content: &str,
    editor: u128,
    now: i64,
    snapshot_id: u128,
) -> (r: Result<ContentUpdatePlan, DocError>)
    ensures
        match content_change_refusal(member, found, space_id, base_version) {
            Some(e) => r matches Err(x) && x == e,
            None => r matches Ok(plan) && plan_matches(
                plan,
                found.unwrap(),
                base_version,
                content@,
                editor,
                now,
                snapshot_id,
            ),
        },
        (r is Ok) ==> (member is Some) && space_member::role_can_edit(member.unwrap().role@),
        (r is Ok) ==> (found is Some) && found.unwrap().space_id == space_id,
        (r is Ok) ==> (found.unwrap().deleted_at is None),
        (r is Ok) ==> found.unwrap().kind@ == node::KIND_PAGE@ && found.unwrap().version == base_version,
        (member is Some) && space_member::role_can_edit(member.unwrap().role@) && (found is Some)
            && (found.unwrap().space_id != space_id || (found.unwrap().deleted_at is Some))
            ==> (r is Err) && r->Err_0 == DocError::NodeNotFound,
        (r is Ok) ==> r->Ok_0.update.node_id == found.unwrap().id && r->Ok_0.update.expected_version == base_version,
        (r is Ok) ==> r->Ok_0.update.content_md@ == content@ && r->Ok_0.update.editor == editor,
        (r is Ok) ==> r->Ok_0.snapshot.version == found.unwrap().version,
        (r is Ok) ==> r->Ok_0.snapshot.content_md@ == found.unwrap().content_md@,
        (r is Ok) ==> r->Ok_0.snapshot.author_id == found.unwrap().updated_by,
{
    ensure_editor(member)?;
    let model = load_node(found, space_id)?;
    check_editable(&model)?;
    update_content(&model, base_version, content, editor, now, snapshot_id)
}

/// A folder's text is never changed: a text change of a visible folder is
/// always refused, whoever asks and whatever the version.
pub proof fn law_folder_text_never_changes(
    member: Option<space_member::Model>,
    folder: node::Model,
    space_id: u128,
    base_version: i64,
)
    requires
        visible_in(folder, space_id),
        folder.kind@ == node::KIND_FOLDER@,
    ensures
        content_change_refusal(member, Some(folder), space_id, base_version) is Some,
{
    reveal_strlit("folder");
    reveal_strlit("page");
    assert(node::KIND_FOLDER@ != node::KIND_PAGE@) by {
        assert(node::KIND_FOLDER@[0] != node::KIND_PAGE@[0]);
    }
}

/// The first check a restore fails, if any: edit rights, then the node, then
/// the requested version.
pub open spec fn restore_refusal(
    member: Option<space_member::Model>,
    found: Option<node::Model>,
    target: Option<version::Model>,
    space_id: u128,
) -> Option<DocError> {
    match editor_outcome(member) {
        Err(e) => Some(e),
        Ok(_) => match load_outcome(found, space_id) {
            Err(e) => Some(e),
            Ok(_) => if target is None {
                Some(DocError::VersionNotFound)
            } else {
                None
            },
        },
    }
}

/// The decision of `POST .../versions/{version}/restore`, given the lookups of
/// the caller's membership, the node and the requested version: the writes
/// that make the version's text current, or the first check that fails.
pub fn decide_restore(
    member: Option<space_member::Model>,
    found: Option<node::Model>,
    target: Option<version::Model>,
    space_id: u128,
    editor: u128,
    now: i64,
    snapshot_id: u128,
) -> (r: Result<ContentUpdatePlan, DocError>)
    ensures
        match restore_refusal(member, found, target, space_id) {
            Some(e) => r matches Err(x) && x == e,
            None => r matches Ok(plan) && plan_matches(
                plan,
                found.unwrap(),
                found.unwrap().version,
                target.unwrap().content_md@,
                editor,
                now,
                snapshot_id,
            ),
        },
        (r is Ok) ==> (member is Some) && space_member::role_can_edit(member.unwrap().role@),
        (r is Ok) ==> (found is Some) && found.unwrap().space_id == space_id,
        (r is Ok) ==> (found.unwrap().deleted_at is None) && (target is Some),
        (member is Some) && space_member::role_can_edit(member.unwrap().role@) && (found is Some)
            && (found.unwrap().space_id != space_id || (found.unwrap().deleted_at is Some))
            ==> (r is Err) && r->Err_0 == DocError::NodeNotFound,
        (r is Ok) ==> r->Ok_0.update.node_id == found.unwrap().id,
        (r is Ok) ==> r->Ok_0.update.expected_version == found.unwrap().version,
        (r is Ok) ==> r->Ok_0.update.content_md@ == target.unwrap().content_md@,
        (r is Ok) ==> r->Ok_0.snapshot.version == found.unwrap().version,
        (r is Ok) ==> r->Ok_0.snapshot.content_md@ == found.unwrap().content_md@,
{
    ensure_editor(member)?;
    let model = load_node(found, space_id)?;
    let target = find_target_version(target)?;
    restore_version(&model, &target, editor, now, snapshot_id)
}

/// A space is created only with a known type: when the body's checks pass, the
/// name trims to 1..64 characters and the requested type (team when absent) is
/// team, personal or public; a valid name with any other type is refused as
/// `SpaceType`.
pub proof fn law_space_type_is_checked(name: Seq<char>, kind: Option<String>)
    ensures
        (space_input_refusal(name, kind) is None) ==> 1 <= trim(name).len() <= SPACE_NAME_MAX_CHARS,
        (space_input_refusal(name, kind) is None) ==> space::is_space_type(requested_space_type(kind)),
        space_name_ok(name) && !space::is_space_type(requested_space_type(kind))
            ==> space_input_refusal(name, kind) == Some(DocError::Validation(ValidationIssue::SpaceType)),
{
}

/// Only visible nodes load: a lookup is accepted exactly when it found a node
/// of the space that is not deleted, and then it is that node.
pub proof fn law_only_visible_nodes_load(found: Option<node::Model>, space_id: u128)
    ensures
        (load_outcome(found, space_id) is Ok) <==> (found is Some) && found.unwrap().space_id == space_id
            && (found.unwrap().deleted_at is None),
        (load_outcome(found, space_id) is Ok) ==> load_outcome(found, space_id) == Ok::<node::Model, DocError>(found.unwrap()),
        (found is Some) && (found.unwrap().deleted_at is Some) ==> load_outcome(found, space_id) == Err::<node::Model, DocError>(DocError::NodeNotFound),
{
}

/// A node is created only under a visible folder of its space: when a request
/// that names a parent passes, the parent exists, lies in the space, is not
/// deleted and is a folder; an editor's valid request whose parent is deleted
/// or in another space is refused as `ParentNotFound`.
pub proof fn law_parent_is_visible_folder(
    member: Option<space_member::Model>,
    kind: Seq<char>,
    title: Seq<char>,
    parent_id: Option<u128>,
    parent: Option<node::Model>,
    space_id: u128,
)
    ensures
        (create_node_refusal(member, kind, title, parent_id, parent, space_id) is None) && (parent_id is Some)
            ==> (parent is Some) && parent.unwrap().space_id == space_id,
        (create_node_refusal(member, kind, title, parent_id, parent, space_id) is None) && (parent_id is Some)
            ==> (parent.unwrap().deleted_at is None) && parent.unwrap().kind@ == node::KIND_FOLDER@,
        (create_node_refusal(member, kind, title, parent_id, parent, space_id) is None)
            ==> (member is Some) && space_member::role_can_edit(member.unwrap().role@),
        (member is Some) && space_member::role_can_edit(member.unwrap().role@) && node::is_node_kind(kind)
            && node_title_ok(title) && (parent_id is Some) && (parent is Some)
            && (parent.unwrap().space_id != space_id || (parent.unwrap().deleted_at is Some))
            ==> create_node_refusal(member, kind, title, parent_id, parent, space_id) == Some(DocError::ParentNotFound),
{
}

/// Only a visible page's text changes: a text change passes only for an
/// editor, on a node of the space that is not deleted, is a page and is still
/// at the base version; an editor's change of a deleted node or a node of
/// another space is refused as `NodeNotFound`.
pub proof fn law_content_change_needs_visible_page(
    member: Option<space_member::Model>,
    found: Option<node::Model>,
    space_id: u128,
    base_version: i64,
)
    ensures
        (content_change_refusal(member, found, space_id, base_version) is None)
            ==> (member is Some) && space_member::role_can_edit(member.unwrap().role@),
        (content_change_refusal(member, found, space_id, base_version) is None)
            ==> (found is Some) && found.unwrap().space_id == space_id && (found.unwrap().deleted_at is None),
        (content_change_refusal(member, found, space_id, base_version) is None)
            ==> found.unwrap().kind@ == node::KIND_PAGE@ && found.unwrap().version == base_version,
        (member is Some) && space_member::role_can_edit(member.unwrap().role@) && (found is Some)
            && (found.unwrap().space_id != space_id || (found.unwrap().deleted_at is Some))
            ==> content_change_refusal(member, found, space_id, base_version) == Some(DocError::NodeNotFound),
{
}

/// Only a visible page is restored: a restore passes only for an editor, on a
/// node of the space that is not deleted, with the requested version found;
/// an editor's restore on a deleted node or a node of another space is refused
/// as `NodeNotFound`.
pub proof fn law_restore_needs_visible_node(
    member: Option<space_member::Model>,
    found: Option<node::Model>,
    target: Option<version::Model>,
    space_id: u128,
)
    ensures
        (restore_refusal(member, found, target, space_id) is None)
            ==> (member is Some) && space_member::role_can_edit(member.unwrap().role@),
        (restore_refusal(member, found, target, space_id) is None)
            ==> (found is Some) && found.unwrap().space_id == space_id && (found.unwrap().deleted_at is None),
        (restore_refusal(member, found, target, space_id) is None) ==> (target is Some),
        (member is Some) && space_member::role_can_edit(member.unwrap().role@) && (found is Some)
            && (found.unwrap().space_id != space_id || (found.unwrap().deleted_at is Some))
            ==> restore_refusal(member, found, target, space_id) == Some(DocError::NodeNotFound),
{
}

/// The view of a node in answers.
pub struct NodeDto {
    /// Id, hyphenated.
    pub id: String,
    /// Parent id, hyphenated.
    pub parent_id: Option<String>,
    /// `folder` or `page`.
    pub kind: String,
    /// Title.
    pub title: String,
    /// Order among siblings.
    pub position: i64,
    /// Version.
    pub version: i64,
    /// Time of the last change, in microseconds since the Unix epoch.
    pub updated_at: i64,
}

/// The contents of a `NodeDto`.
pub struct NodeDtoView {
    /// Id.
    pub id: Seq<char>,
    /// Parent id.
    pub parent_id: Option<Seq<char>>,
    /// Kind.
    pub kind: Seq<char>,
    /// Title.
    pub title: Seq<char>,
    /// Position.
    pub position: i64,
    /// Version.
    pub version: i64,
    /// Time of the last change.
    pub updated_at: i64,
}

impl View for NodeDto {
    type V = NodeDtoView;

    open spec fn view(&self) -> NodeDtoView {
        NodeDtoView {
            id: self.id@,
            parent_id: match self.parent_id {
                Some(p) => Some(p@),
                None => None,
            },
            kind: self.kind@,
            title: self.title@,
            position: self.position,
            version: self.version,
            updated_at: self.updated_at,
        }
    }
}

/// The view of the node `m`.
pub open spec fn dto_of(m: node::Model) -> NodeDtoView {
    NodeDtoView {
        id: uuid_text(m.id),
        parent_id: match m.parent_id {
            Some(p) => Some(uuid_text(p)),
            None => None,
        },
        kind: m.kind@,
        title: m.title@,
        position: m.position,
        version: m.version,
        updated_at: m.updated_at,
    }
}

impl NodeDto {
    /// The view of a node: its ids in hyphenated form, its kind, title,
    /// position, version and time of the last change.
    pub fn from(model: &node::Model) -> (r: NodeDto)
        ensures
            r@ == dto_of(*model),
            r.id@ == uuid_text(model.id),
            r.kind@ == model.kind@,
            r.title@ == model.title@,
            r.position == model.position,
            r.version == model.version,
            r.updated_at == model.updated_at,
            r.parent_id is Some <==> model.parent_id is Some,
            model.parent_id matches Some(p) ==> r.parent_id.unwrap()@ == uuid_text(p),
    {
        NodeDto {
            id: uuid_to_string(model.id),
            parent_id: match model.parent_id {
                Some(p) => Some(uuid_to_string(p)),
                None => None,
            },
            kind: model.kind.clone(),
            title: model.title.clone(),
            position: model.position,
            version: model.version,
            updated_at: model.updated_at,
        }
    }
}

/// The view of a node shows that node: its own kind, title, position, version
/// and time of the last change, and its ids in hyphenated form.
pub proof fn law_node_view_shows_the_node(m: node::Model)
    ensures
        dto_of(m).kind == m.kind@,
        dto_of(m).title == m.title@,
        dto_of(m).position == m.position,
        dto_of(m).version == m.version,
        dto_of(m).updated_at == m.updated_at,
        dto_of(m).id == uuid_text(m.id),
        (dto_of(m).parent_id is Some) <==> (m.parent_id is Some),
        (m.parent_id is Some) ==> dto_of(m).parent_id.unwrap() == uuid_text(m.parent_id.unwrap()),
{
}

} // verus!
