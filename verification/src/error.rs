//! The errors the service answers with.

use vstd::prelude::*;

verus! {

/// Which request field a validation failure is about.
#[derive(Clone, Copy, Debug, PartialEq, Eq, Structural)]
pub enum ValidationIssue {
    /// Space name empty or longer than 64 characters.
    SpaceName,
    /// Space type not one of team/personal/public.
    SpaceType,
    /// Node kind not one of folder/page.
    NodeKind,
    /// Node title empty or longer than 255 characters.
    NodeTitle,
    /// The parent node is not a folder.
    ParentNotFolder,
    /// Text written to a folder.
    FolderContent,
}

/// An error answer of the service.
#[derive(Clone, Copy, Debug, PartialEq, Eq, Structural)]
pub enum DocError {
    /// The access token's subject is not a UUID.
    InvalidToken,
    /// The user is not a member of the space.
    NotMember,
    /// The user is a member but neither admin nor editor.
    NotEditor,
    /// A request field is invalid.
    Validation(ValidationIssue),
    /// The node does not exist, is deleted or lies in another space.
    NodeNotFound,
    /// The requested parent node does not exist, is deleted or lies in another space.
    ParentNotFound,
    /// The requested earlier version does not exist.
    VersionNotFound,
    /// The page changed since the version the editor started from.
    VersionConflict,
}

/// The HTTP status of an error.
pub open spec fn spec_status(e: DocError) -> u16 {
    match e {
        DocError::InvalidToken => 401,
        DocError::NotMember => 403,
        DocError::NotEditor => 403,
        DocError::Validation(_) => 422,
        DocError::NodeNotFound => 404,
        DocError::ParentNotFound => 404,
        DocError::VersionNotFound => 404,
        DocError::VersionConflict => 409,
    }
}

/// The machine-readable code of an error.
pub open spec fn spec_code(e: DocError) -> Seq<char> {
    match e {
        DocError::InvalidToken => "AUTH_INVALID_TOKEN"@,
        DocError::NotMember => "DOC_NOT_MEMBER"@,
        DocError::NotEditor => "DOC_FORBIDDEN"@,
        DocError::Validation(_) => "DOC_VALIDATION"@,
        DocError::NodeNotFound => "DOC_NODE_NOT_FOUND"@,
        DocError::ParentNotFound => "DOC_NODE_NOT_FOUND"@,
        DocError::VersionNotFound => "DOC_VERSION_NOT_FOUND"@,
        DocError::VersionConflict => "DOC_VERSION_CONFLICT"@,
    }
}

/// The human-readable message of an error.
pub open spec fn spec_message(e: DocError) -> Seq<char> {
    match e {
        DocError::InvalidToken => "访问令牌无效"@,
        DocError::NotMember => "无权访问该空间"@,
        DocError::NotEditor => "仅管理员/编辑者可修改"@,
        DocError::Validation(ValidationIssue::SpaceName) => "空间名称需为 1 ~ 64 字符"@,
        DocError::Validation(ValidationIssue::SpaceType) => "空间类型不合法"@,
        DocError::Validation(ValidationIssue::NodeKind) => "节点类型不合法"@,
        DocError::Validation(ValidationIssue::NodeTitle) => "标题需为 1 ~ 255 字符"@,
        DocError::Validation(ValidationIssue::ParentNotFolder) => "父节点必须是文件夹"@,
        DocError::Validation(ValidationIssue::FolderContent) => "仅页面可编辑正文"@,
        DocError::NodeNotFound => "节点不存在"@,
        DocError::ParentNotFound => "父节点不存在"@,
        DocError::VersionNotFound => "历史版本不存在"@,
        DocError::VersionConflict => "内容已被他人修改，请刷新后重试"@,
    }
}

/// The field a validation failure names, and what it says of it.
pub open spec fn spec_field(issue: ValidationIssue) -> (Seq<char>, Seq<char>) {
    match issue {
        ValidationIssue::SpaceName => ("name"@, "非法"@),
        ValidationIssue::SpaceType => ("type"@, "仅支持 team/personal/public"@),
        ValidationIssue::NodeKind => ("kind"@, "仅支持 folder/page"@),
        ValidationIssue::NodeTitle => ("title"@, "非法"@),
        ValidationIssue::ParentNotFolder => ("parentId"@, "必须是文件夹"@),
        ValidationIssue::FolderContent => ("contentMd"@, "文件夹无正文"@),
    }
}

/// One invalid request field and what is wrong with it.
#[derive(Clone, Debug, PartialEq, Eq)]
pub struct FieldError {
    /// The field's name in the request.
    pub field: String,
    /// What is wrong with it.
    pub message: String,
}

impl DocError {
    /// The HTTP status of this error.
    pub fn status(&self) -> (r: u16)
        ensures
            r == spec_status(*self),
    {
        match self {
            DocError::InvalidToken => 401,
            DocError::NotMember => 403,
            DocError::NotEditor => 403,
            DocError::Validation(_) => 422,
            DocError::NodeNotFound => 404,
            DocError::ParentNotFound => 404,
            DocError::VersionNotFound => 404,
            DocError::VersionConflict => 409,
        }
    }

    /// The machine-readable code of this error.
    pub fn code(&self) -> (r: String)
        ensures
            r@ == spec_code(*self),
    {
        match self {
            DocError::InvalidToken => String::from_str("AUTH_INVALID_TOKEN"),
            DocError::NotMember => String::from_str("DOC_NOT_MEMBER"),
            DocError::NotEditor => String::from_str("DOC_FORBIDDEN"),
            DocError::Validation(_) => String::from_str("DOC_VALIDATION"),
            DocError::NodeNotFound => String::from_str("DOC_NODE_NOT_FOUND"),
            DocError::ParentNotFound => String::from_str("DOC_NODE_NOT_FOUND"),
            DocError::VersionNotFound => String::from_str("DOC_VERSION_NOT_FOUND"),
            DocError::VersionConflict => String::from_str("DOC_VERSION_CONFLICT"),
        }
    }

    /// The human-readable message of this error.
    pub fn message(&self) -> (r: String)
        ensures
            r@ == spec_message(*self),
    {
        match self {
            DocError::InvalidToken => String::from_str("访问令牌无效"),
            DocError::NotMember => String::from_str("无权访问该空间"),
            DocError::NotEditor => String::from_str("仅管理员/编辑者可修改"),
            DocError::Validation(ValidationIssue::SpaceName) => String::from_str(
                "空间名称需为 1 ~ 64 字符",
            ),
            DocError::Validation(ValidationIssue::SpaceType) => String::from_str("空间类型不合法"),
            DocError::Validation(ValidationIssue::NodeKind) => String::from_str("节点类型不合法"),
            DocError::Validation(ValidationIssue::NodeTitle) => String::from_str(
                "标题需为 1 ~ 255 字符",
            ),
            DocError::Validation(ValidationIssue::ParentNotFolder) => String::from_str(
                "父节点必须是文件夹",
            ),
            DocError::Validation(ValidationIssue::FolderContent) => String::from_str(
                "仅页面可编辑正文",
            ),
            DocError::NodeNotFound => String::from_str("节点不存在"),
            DocError::ParentNotFound => String::from_str("父节点不存在"),
            DocError::VersionNotFound => String::from_str("历史版本不存在"),
            DocError::VersionConflict => String::from_str("内容已被他人修改，请刷新后重试"),
        }
    }

    /// The invalid field of a validation error; `None` for every other error.
    pub fn field_errors(&self) -> (r: Vec<FieldError>)
        ensures
            match *self {
                DocError::Validation(issue) => {
                    &&& r@.len() == 1
                    &&& r@[0].field@ == spec_field(issue).0
                    &&& r@[0].message@ == spec_field(issue).1
                },
                _ => r@.len() == 0,
            },
    {
        let mut r: Vec<FieldError> = Vec::new();
        match self {
            DocError::Validation(issue) => {
                let (field, message) = match issue {
                    ValidationIssue::SpaceName => ("name", "非法"),
                    ValidationIssue::SpaceType => ("type", "仅支持 team/personal/public"),
                    ValidationIssue::NodeKind => ("kind", "仅支持 folder/page"),
                    ValidationIssue::NodeTitle => ("title", "非法"),
                    ValidationIssue::ParentNotFolder => ("parentId", "必须是文件夹"),
                    ValidationIssue::FolderContent => ("contentMd", "文件夹无正文"),
                };
                r.push(FieldError { field: String::from_str(field), message: String::from_str(message) });
            },
            _ => {},
        }
        r
    }
}

} // verus!
