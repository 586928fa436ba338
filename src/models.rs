//! Wire-level records of the remote issue tracker, as plain values.

use vstd::prelude::*;

verus! {

/// Body of a password login request.
#[derive(Debug, Clone)]
pub struct LoginRequest {
    pub login_type: String,
    pub username: String,
    pub password: String,
}

/// Successful authentication response.
#[derive(Debug, Clone)]
pub struct AuthDetail {
    pub id: i64,
    pub username: String,
    pub auth_token: String,
    pub refresh: Option<String>,
}

/// A fresh access/refresh token pair, as handed out by the refresh endpoint.
#[derive(Debug, Clone)]
pub struct TokenPair {
    pub auth_token: String,
    pub refresh: String,
}

/// The authenticated user.
#[derive(Debug, Clone)]
pub struct Me {
    pub id: i64,
    pub username: String,
    pub full_name: String,
    pub email: String,
    pub photo: Option<String>,
    pub big_photo: Option<String>,
    pub gravatar_id: String,
    pub is_active: bool,
}

#[derive(Debug, Clone)]
pub struct UserShort {
    pub id: i64,
    pub username: String,
    pub full_name_display: String,
    pub photo: Option<String>,
}

#[derive(Debug, Clone)]
pub struct IssueStatusDto {
    pub id: i64,
    pub name: String,
    pub color: String,
    pub is_closed: bool,
}

#[derive(Debug, Clone)]
pub struct MemberDto {
    /// The member's user id.
    pub id: i64,
    pub full_name: String,
    pub role_name: String,
    pub photo: Option<String>,
    pub username: Option<String>,
}

#[derive(Debug, Clone)]
pub struct ProjectDto {
    pub id: i64,
    pub name: String,
    pub slug: String,
    pub description: String,
    pub owner: UserShort,
    pub issue_statuses: Option<Vec<IssueStatusDto>>,
    pub members: Option<Vec<MemberDto>>,
}

#[derive(Debug, Clone)]
pub struct ProjectListEntryDto {
    pub id: i64,
    pub name: String,
    pub slug: String,
    pub description: String,
    pub owner: UserShort,
    pub members: Option<Vec<i64>>,
}

#[derive(Debug, Clone)]
pub struct IssueStatusExtraInfo {
    pub name: String,
    pub color: String,
    pub is_closed: bool,
}

#[derive(Debug, Clone)]
pub struct UserExtraInfo {
    pub username: String,
    pub full_name_display: String,
    pub photo: Option<String>,
}

/// An issue as listed in a project's issue collection.
#[derive(Debug, Clone)]
pub struct IssueDto {
    pub id: i64,
    pub subject: String,
    pub project: i64,
    pub status: i64,
    pub status_extra_info: Option<IssueStatusExtraInfo>,
    pub owner: Option<i64>,
    pub assigned_to: Option<i64>,
    pub assigned_to_extra_info: Option<UserExtraInfo>,
    /// Last modification time, as RFC 3339 text.
    pub modified_date: Option<String>,
}

#[derive(Debug, Clone)]
pub struct ProjectExtraInfo {
    pub name: String,
    pub slug: String,
}

#[derive(Debug, Clone)]
pub struct IssueNeighborDto {
    pub id: i64,
    pub ref_: i64,
    pub subject: String,
}

#[derive(Debug, Clone)]
pub struct IssueNeighborsDto {
    pub next: Option<IssueNeighborDto>,
    pub previous: Option<IssueNeighborDto>,
}

#[derive(Debug, Clone)]
pub struct AttachmentDto {
    pub id: i64,
    pub name: String,
    pub url: String,
    pub thumbnail_card_url: Option<String>,
    pub size: i64,
    pub created_date: String,
}

/// Full detail of one issue.
///
/// `tags` mirrors the loosely typed JSON the tracker sends: `None` when the
/// value is not an array; otherwise one element per entry, `None` for an
/// entry that is not an array, else that entry's elements, each `Some` when
/// it is a string.
#[derive(Debug, Clone)]
pub struct IssueDetailDto {
    pub id: i64,
    pub ref_: i64,
    pub subject: String,
    pub description: Option<String>,
    pub description_html: Option<String>,
    pub project: i64,
    pub project_extra_info: ProjectExtraInfo,
    pub status: i64,
    pub status_extra_info: Option<IssueStatusExtraInfo>,
    pub is_closed: bool,
    pub type_: Option<i64>,
    pub severity: Option<i64>,
    pub priority: Option<i64>,
    pub owner: Option<i64>,
    pub owner_extra_info: Option<UserExtraInfo>,
    pub assigned_to: Option<i64>,
    pub assigned_to_extra_info: Option<UserExtraInfo>,
    pub tags: Option<Vec<Option<Vec<Option<String>>>>>,
    pub attachments: Vec<AttachmentDto>,
    pub watchers: Vec<i64>,
    pub total_watchers: i64,
    pub is_blocked: bool,
    pub blocked_note: Option<String>,
    pub due_date: Option<String>,
    pub due_date_status: Option<String>,
    pub created_date: String,
    pub modified_date: String,
    pub finished_date: Option<String>,
    pub version: i64,
    pub neighbors: Option<IssueNeighborsDto>,
}

#[derive(Debug, Clone)]
pub struct HistoryUserDto {
    pub pk: i64,
    pub name: String,
    pub username: String,
    pub photo: Option<String>,
}

/// One entry of an issue's history: a change (`entry_type == 1`) or a comment.
#[derive(Debug, Clone)]
pub struct IssueHistoryEntryDto {
    pub id: String,
    pub user: HistoryUserDto,
    pub created_at: String,
    pub entry_type: i64,
    pub comment: String,
    pub comment_html: String,
    pub delete_comment_date: Option<String>,
    pub edit_comment_date: Option<String>,
    pub is_hidden: Option<bool>,
}

} // verus!
