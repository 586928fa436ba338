//! View models handed to the presentation layer, and their construction
//! from wire records.

use vstd::prelude::*;
use vstd::string::*;
use crate::models::{
    AttachmentDto, IssueDetailDto, IssueDto, IssueHistoryEntryDto, IssueNeighborDto, Me, ProjectDto,
    ProjectListEntryDto, UserExtraInfo,
};
use crate::text::{ends_with_seq, ends_with_text, int_decimal, lower_of, lowercase, push_int, format_int};

verus! {

/// Milliseconds since the Unix epoch that an RFC 3339 text denotes, if it
/// is one.
pub uninterp spec fn rfc3339_millis(s: Seq<char>) -> Option<i64>;

/// Relies on chrono's `DateTime::parse_from_rfc3339` (and `timestamp_millis`
/// on its result): the instant that the text denotes, or `None` when the
/// text is not RFC 3339.
#[verifier::external_body]
pub(crate) fn parse_timestamp_millis(s: &str) -> (r: Option<i64>)
    ensures
        r == rfc3339_millis(s@),
{
    chrono::DateTime::parse_from_rfc3339(s).ok().map(|d| d.timestamp_millis())
}

/// The modification instant of a listed issue, if it carries a readable one.
pub open spec fn modified_millis(d: Option<String>) -> Option<i64> {
    match d {
        Some(s) => rfc3339_millis(s@),
        None => None,
    }
}

/// An issue as shown in a list.
#[derive(Debug, Clone)]
pub struct Issue {
    pub id: i64,
    pub subject: String,
    pub project: i64,
    pub status: i64,
    pub status_name: Option<String>,
    pub status_color: Option<String>,
    pub owner: Option<i64>,
    pub assigned_to: Option<i64>,
    pub assigned_to_name: Option<String>,
    pub assigned_to_photo: Option<String>,
    /// Last modification, in milliseconds since the Unix epoch.
    pub modified_at: Option<i64>,
}

pub open spec fn issue_of_dto(dto: IssueDto) -> Issue {
    Issue {
        id: dto.id,
        subject: dto.subject,
        project: dto.project,
        status: dto.status,
        status_name: match dto.status_extra_info {
            Some(s) => Some(s.name),
            None => None,
        },
        status_color: match dto.status_extra_info {
            Some(s) => Some(s.color),
            None => None,
        },
        owner: dto.owner,
        assigned_to: dto.assigned_to,
        assigned_to_name: match dto.assigned_to_extra_info {
            Some(u) => Some(u.full_name_display),
            None => None,
        },
        assigned_to_photo: match dto.assigned_to_extra_info {
            Some(u) => u.photo,
            None => None,
        },
        modified_at: modified_millis(dto.modified_date),
    }
}

impl From<IssueDto> for Issue {
    fn from(dto: IssueDto) -> (r: Issue)
        ensures
            r == issue_of_dto(dto),
    {
        let modified_at = match &dto.modified_date {
            Some(s) => parse_timestamp_millis(s.as_str()),
            None => None,
        };
        let (status_name, status_color) = match dto.status_extra_info {
            Some(s) => (Some(s.name), Some(s.color)),
            None => (None, None),
        };
        let (assigned_to_name, assigned_to_photo) = match dto.assigned_to_extra_info {
            Some(u) => (Some(u.full_name_display), u.photo),
            None => (None, None),
        };
        Issue {
            id: dto.id,
            subject: dto.subject,
            project: dto.project,
            status: dto.status,
            status_name,
            status_color,
            owner: dto.owner,
            assigned_to: dto.assigned_to,
            assigned_to_name,
            assigned_to_photo,
            modified_at,
        }
    }
}

impl vstd::std_specs::convert::FromSpecImpl<IssueDto> for Issue {
    open spec fn obeys_from_spec() -> bool {
        true
    }

    open spec fn from_spec(dto: IssueDto) -> Issue {
        issue_of_dto(dto)
    }
}

/// A project as shown in the project list.
#[derive(Debug, Clone)]
pub struct Project {
    pub id: i64,
    pub name: String,
    pub slug: String,
    pub description: String,
    pub owner: i64,
}

impl From<ProjectDto> for Project {
    fn from(dto: ProjectDto) -> (r: Project)
        ensures
            r == (Project {
                id: dto.id,
                name: dto.name,
                slug: dto.slug,
                description: dto.description,
                owner: dto.owner.id,
            }),
    {
        Project { id: dto.id, name: dto.name, slug: dto.slug, description: dto.description, owner: dto.owner.id }
    }
}

impl vstd::std_specs::convert::FromSpecImpl<ProjectDto> for Project {
    open spec fn obeys_from_spec() -> bool {
        true
    }

    open spec fn from_spec(dto: ProjectDto) -> Project {
        Project { id: dto.id, name: dto.name, slug: dto.slug, description: dto.description, owner: dto.owner.id }
    }
}

impl From<ProjectListEntryDto> for Project {
    fn from(dto: ProjectListEntryDto) -> (r: Project)
        ensures
            r == (Project {
                id: dto.id,
                name: dto.name,
                slug: dto.slug,
                description: dto.description,
                owner: dto.owner.id,
            }),
    {
        Project { id: dto.id, name: dto.name, slug: dto.slug, description: dto.description, owner: dto.owner.id }
    }
}

impl vstd::std_specs::convert::FromSpecImpl<ProjectListEntryDto> for Project {
    open spec fn obeys_from_spec() -> bool {
        true
    }

    open spec fn from_spec(dto: ProjectListEntryDto) -> Project {
        Project { id: dto.id, name: dto.name, slug: dto.slug, description: dto.description, owner: dto.owner.id }
    }
}

/// The signed-in user.
#[derive(Debug, Clone)]
pub struct User {
    pub id: i64,
    pub username: String,
    pub full_name: String,
    pub email: String,
    pub photo: Option<String>,
    pub big_photo: Option<String>,
    pub gravatar_id: String,
    pub is_active: bool,
}

impl From<Me> for User {
    fn from(me: Me) -> (r: User)
        ensures
            r == (User {
                id: me.id,
                username: me.username,
                full_name: me.full_name,
                email: me.email,
                photo: me.photo,
                big_photo: me.big_photo,
                gravatar_id: me.gravatar_id,
                is_active: me.is_active,
            }),
    {
        User {
            id: me.id,
            username: me.username,
            full_name: me.full_name,
            email: me.email,
            photo: me.photo,
            big_photo: me.big_photo,
            gravatar_id: me.gravatar_id,
            is_active: me.is_active,
        }
    }
}

impl vstd::std_specs::convert::FromSpecImpl<Me> for User {
    open spec fn obeys_from_spec() -> bool {
        true
    }

    open spec fn from_spec(dto: Me) -> User {
        User {
            id: dto.id,
            username: dto.username,
            full_name: dto.full_name,
            email: dto.email,
            photo: dto.photo,
            big_photo: dto.big_photo,
            gravatar_id: dto.gravatar_id,
            is_active: dto.is_active,
        }
    }
}

#[derive(Debug, Clone)]
pub struct IssueStatus {
    pub id: i64,
    pub name: String,
    pub color: String,
    pub is_closed: bool,
}

#[derive(Debug, Clone)]
pub struct Member {
    pub id: i64,
    pub user_id: Option<i64>,
    pub full_name: String,
    pub role_name: String,
    pub photo: Option<String>,
}

/// The statuses and members of one project.
#[derive(Debug, Clone)]
pub struct ProjectMetadata {
    pub id: i64,
    pub statuses: Vec<IssueStatus>,
    pub members: Vec<Member>,
}

impl ProjectMetadata {
    /// The metadata of project `id` from its detail record; a missing status
    /// or member list counts as empty.
    pub fn from_project(id: i64, dto: ProjectDto) -> (r: ProjectMetadata)
        ensures
            r.id == id,
            r.statuses@.len() == (match dto.issue_statuses {
                Some(v) => v@.len(),
                None => 0,
            }),
            forall|i: int| 0 <= i < r.statuses@.len() ==> {
                let s = dto.issue_statuses.unwrap()@[i];
                #[trigger] r.statuses@[i] == (IssueStatus { id: s.id, name: s.name, color: s.color, is_closed: s.is_closed })
            },
            r.members@.len() == (match dto.members {
                Some(v) => v@.len(),
                None => 0,
            }),
            forall|i: int| 0 <= i < r.members@.len() ==> {
                let m = dto.members.unwrap()@[i];
                #[trigger] r.members@[i] == (Member {
                    id: m.id,
                    user_id: Some(m.id),
                    full_name: m.full_name,
                    role_name: m.role_name,
                    photo: m.photo,
                })
            },
    {
        let mut statuses: Vec<IssueStatus> = Vec::new();
        match dto.issue_statuses {
            Some(mut src) => {
                let ghost all = src@;
                let total = src.len();
                while src.len() > 0
                    invariant
                        total == all.len(),
                        statuses@.len() + src@.len() == all.len(),
                        src@ == all.subrange(statuses@.len() as int, all.len() as int),
                        forall|i: int| 0 <= i < statuses@.len() ==> {
                            let s = all[i];
                            #[trigger] statuses@[i] == (IssueStatus { id: s.id, name: s.name, color: s.color, is_closed: s.is_closed })
                        },
                    decreases src.len(),
                {
                    let s = src.remove(0);
                    assert(s == all[statuses@.len() as int]);
                    statuses.push(IssueStatus { id: s.id, name: s.name, color: s.color, is_closed: s.is_closed });
                    assert(src@ =~= all.subrange(statuses@.len() as int, all.len() as int));
                }
            },
            None => {},
        }
        let mut members: Vec<Member> = Vec::new();
        match dto.members {
            Some(mut src) => {
                let ghost all = src@;
                let total = src.len();
                while src.len() > 0
                    invariant
                        total == all.len(),
                        members@.len() + src@.len() == all.len(),
                        src@ == all.subrange(members@.len() as int, all.len() as int),
                        forall|i: int| 0 <= i < members@.len() ==> {
                            let m = all[i];
                            #[trigger] members@[i] == (Member {
                                id: m.id,
                                user_id: Some(m.id),
                                full_name: m.full_name,
                                role_name: m.role_name,
                                photo: m.photo,
                            })
                        },
                    decreases src.len(),
                {
                    let m = src.remove(0);
                    assert(m == all[members@.len() as int]);
                    members.push(Member {
                        id: m.id,
                        user_id: Some(m.id),
                        full_name: m.full_name,
                        role_name: m.role_name,
                        photo: m.photo,
                    });
                    assert(src@ =~= all.subrange(members@.len() as int, all.len() as int));
                }
            },
            None => {},
        }
        ProjectMetadata { id, statuses, members }
    }
}

/// The outcome of fetching one project's metadata.
pub struct MetadataFetch {
    pub project_id: i64,
    pub project: Option<ProjectDto>,
}

pub open spec fn fetched_ids(fs: Seq<MetadataFetch>) -> Seq<i64>
    decreases fs.len(),
{
    if fs.len() == 0 {
        Seq::empty()
    } else {
        (if fs[0].project is Some { seq![fs[0].project_id] } else { Seq::empty() }) + fetched_ids(fs.drop_first())
    }
}

/// The metadata of every project whose fetch succeeded, in fetch order;
/// failed fetches are left out.
pub fn collect_metadata(fetches: Vec<MetadataFetch>) -> (r: Vec<ProjectMetadata>)
    ensures
        r@.len() == fetched_ids(fetches@).len(),
        forall|i: int| 0 <= i < r@.len() ==> (#[trigger] r@[i]).id == fetched_ids(fetches@)[i],
{
    let mut rest = fetches;
    let mut out: Vec<ProjectMetadata> = Vec::new();
    let ghost done: Seq<i64> = Seq::empty();
    while rest.len() > 0
        invariant
            done + fetched_ids(rest@) == fetched_ids(fetches@),
            out@.len() == done.len(),
            forall|i: int| 0 <= i < out@.len() ==> (#[trigger] out@[i]).id == done[i],
        decreases rest.len(),
    {
        let ghost before = rest@;
        let f = rest.remove(0);
        proof {
            assert(rest@ =~= before.drop_first());
        }
        match f.project {
            Some(p) => {
                out.push(ProjectMetadata::from_project(f.project_id, p));
                proof {
                    done = done.push(f.project_id);
                    assert(done + fetched_ids(rest@) =~= fetched_ids(fetches@));
                }
            },
            None => {
                proof {
                    assert(done + fetched_ids(rest@) =~= fetched_ids(fetches@));
                }
            },
        }
    }
    proof {
        assert(done =~= fetched_ids(fetches@));
    }
    out
}

#[derive(Debug, Clone)]
pub struct IssueNeighbor {
    pub id: i64,
    pub ref_number: i64,
    pub subject: String,
}

#[derive(Debug, Clone)]
pub struct Tag {
    pub name: String,
    pub color: Option<String>,
}

#[derive(Debug, Clone)]
pub struct Attachment {
    pub id: i64,
    pub name: String,
    pub url: String,
    pub thumbnail_url: Option<String>,
    pub size: i64,
    pub size_display: String,
    pub is_image: bool,
    pub created_date: String,
}

#[derive(Debug, Clone)]
pub struct Comment {
    pub id: String,
    pub author_id: i64,
    pub author_name: String,
    pub author_username: String,
    pub author_photo: Option<String>,
    pub content: String,
    pub content_html: String,
    pub created_at: String,
    pub is_deleted: bool,
    pub is_edited: bool,
}

/// One entry of an issue's history; `entry_type` is "change" or "comment".
#[derive(Debug, Clone)]
pub struct HistoryEntry {
    pub id: String,
    pub user_id: i64,
    pub user_name: String,
    pub user_username: String,
    pub user_photo: Option<String>,
    pub created_at: String,
    pub entry_type: String,
    pub comment: Option<String>,
    pub comment_html: Option<String>,
    pub is_deleted: bool,
    pub is_edited: bool,
}

fn copy_opt(o: &Option<String>) -> (r: Option<String>)
    ensures
        r == *o,
{
    match o {
        Some(s) => Some(s.clone()),
        None => None,
    }
}

impl From<&IssueNeighborDto> for IssueNeighbor {
    fn from(dto: &IssueNeighborDto) -> (r: IssueNeighbor)
        ensures
            r == (IssueNeighbor { id: dto.id, ref_number: dto.ref_, subject: dto.subject }),
    {
        IssueNeighbor { id: dto.id, ref_number: dto.ref_, subject: dto.subject.clone() }
    }
}

impl vstd::std_specs::convert::FromSpecImpl<&IssueNeighborDto> for IssueNeighbor {
    open spec fn obeys_from_spec() -> bool {
        true
    }

    open spec fn from_spec(dto: &IssueNeighborDto) -> IssueNeighbor {
        IssueNeighbor { id: dto.id, ref_number: dto.ref_, subject: dto.subject }
    }
}

pub const KIB: i64 = 1024;
pub const MIB: i64 = 1048576;
pub const GIB: i64 = 1073741824;

/// `bytes / unit` in tenths, rounded to the nearest tenth, ties to even.
pub open spec fn rounded_tenths(bytes: int, unit: int) -> int {
    let t = bytes * 10 / unit;
    let rem = bytes * 10 % unit;
    if rem * 2 > unit || (rem * 2 == unit && t % 2 == 1) { t + 1 } else { t }
}

pub open spec fn one_decimal(tenths: int) -> Seq<char> {
    int_decimal(tenths / 10) + "."@ + int_decimal(tenths % 10)
}

/// A byte count for display: in GB, MB or KB with one decimal from 1 KB
/// up (1 KB = 1024 bytes), else in bytes.
pub open spec fn file_size_text(bytes: int) -> Seq<char> {
    if bytes >= GIB {
        one_decimal(rounded_tenths(bytes, GIB as int)) + " GB"@
    } else if bytes >= MIB {
        one_decimal(rounded_tenths(bytes, MIB as int)) + " MB"@
    } else if bytes >= KIB {
        one_decimal(rounded_tenths(bytes, KIB as int)) + " KB"@
    } else {
        int_decimal(bytes) + " B"@
    }
}

fn scaled(bytes: i64, unit: i64, suffix: &str) -> (r: String)
    requires
        bytes >= unit,
        unit == KIB || unit == MIB || unit == GIB,
    ensures
        r@ == one_decimal(rounded_tenths(bytes as int, unit as int)) + suffix@,
{
    let b = bytes as u128;
    let u = unit as u128;
    let t = b * 10 / u;
    let rem = b * 10 % u;
    let tenths: u128 = if rem * 2 > u || (rem * 2 == u && t % 2 == 1) { t + 1 } else { t };
    assert((t as int) <= (b as int) * 10 / 1024) by (nonlinear_arith)
        requires
            t as int == (b as int * 10) / (u as int),
            u as int >= 1024,
            b as int >= 0,
    ;
    let mut out = String::new();
    push_int(&mut out, (tenths / 10) as i64);
    out.append(".");
    push_int(&mut out, (tenths % 10) as i64);
    out.append(suffix);
    out
}

/// The display form of a byte count.
pub fn format_file_size(bytes: i64) -> (r: String)
    ensures
        r@ == file_size_text(bytes as int),
{
    if bytes >= GIB {
        scaled(bytes, GIB, " GB")
    } else if bytes >= MIB {
        scaled(bytes, MIB, " MB")
    } else if bytes >= KIB {
        scaled(bytes, KIB, " KB")
    } else {
        format_int(bytes).concat(" B")
    }
}

/// A lower-case file name with an image extension.
pub open spec fn image_name(lowered: Seq<char>) -> bool {
    ends_with_seq(lowered, ".png"@) || ends_with_seq(lowered, ".jpg"@) || ends_with_seq(lowered, ".jpeg"@)
        || ends_with_seq(lowered, ".gif"@) || ends_with_seq(lowered, ".webp"@) || ends_with_seq(lowered, ".svg"@)
        || ends_with_seq(lowered, ".bmp"@)
}

/// Whether an already lower-cased file name has an image extension.
pub fn is_image_name(lowered: &str) -> (r: bool)
    ensures
        r == image_name(lowered@),
{
    ends_with_text(lowered, ".png") || ends_with_text(lowered, ".jpg") || ends_with_text(lowered, ".jpeg")
        || ends_with_text(lowered, ".gif") || ends_with_text(lowered, ".webp") || ends_with_text(lowered, ".svg")
        || ends_with_text(lowered, ".bmp")
}

/// Whether a file name has an image extension, in any letter case.
pub fn is_image_file(filename: &str) -> (r: bool)
    ensures
        r == image_name(lower_of(filename@)),
{
    let lowered = lowercase(filename);
    is_image_name(lowered.as_str())
}

/// `r` is the display record of attachment `dto`.
pub open spec fn describes_attachment(r: Attachment, dto: AttachmentDto) -> bool {
    &&& r.id == dto.id
    &&& r.name == dto.name
    &&& r.url == dto.url
    &&& r.thumbnail_url == dto.thumbnail_card_url
    &&& r.size == dto.size
    &&& r.size_display@ == file_size_text(dto.size as int)
    &&& r.is_image == image_name(lower_of(dto.name@))
    &&& r.created_date == dto.created_date
}

impl Attachment {
    /// The display record of an attachment.
    pub fn from_dto(dto: &AttachmentDto) -> (r: Attachment)
        ensures
            describes_attachment(r, *dto),
    {
        let is_image = is_image_file(dto.name.as_str());
        Attachment {
            id: dto.id,
            name: dto.name.clone(),
            url: dto.url.clone(),
            thumbnail_url: copy_opt(&dto.thumbnail_card_url),
            size: dto.size,
            size_display: format_file_size(dto.size),
            is_image,
            created_date: dto.created_date.clone(),
        }
    }
}

impl HistoryEntry {
    /// The display record of a history entry.
    pub fn from_dto(dto: &IssueHistoryEntryDto) -> (r: HistoryEntry)
        ensures
            r.id == dto.id,
            r.user_id == dto.user.pk,
            r.user_name == dto.user.name,
            r.user_username == dto.user.username,
            r.user_photo == dto.user.photo,
            r.created_at == dto.created_at,
            r.entry_type@ == (if dto.entry_type == 1 { "change"@ } else { "comment"@ }),
            r.comment == (if dto.comment@.len() > 0 { Some(dto.comment) } else { None }),
            r.comment_html == (if dto.comment@.len() > 0 { Some(dto.comment_html) } else { None }),
            r.is_deleted == dto.delete_comment_date is Some,
            r.is_edited == dto.edit_comment_date is Some,
    {
        let entry_type = if dto.entry_type == 1 { String::from_str("change") } else { String::from_str("comment") };
        let has_comment = dto.comment.as_str().unicode_len() > 0;
        HistoryEntry {
            id: dto.id.clone(),
            user_id: dto.user.pk,
            user_name: dto.user.name.clone(),
            user_username: dto.user.username.clone(),
            user_photo: copy_opt(&dto.user.photo),
            created_at: dto.created_at.clone(),
            entry_type,
            comment: if has_comment { Some(dto.comment.clone()) } else { None },
            comment_html: if has_comment { Some(dto.comment_html.clone()) } else { None },
            is_deleted: dto.delete_comment_date.is_some(),
            is_edited: dto.edit_comment_date.is_some(),
        }
    }
}

pub open spec fn is_hidden_entry(e: IssueHistoryEntryDto) -> bool {
    e.is_hidden == Some(true)
}

pub open spec fn visible_ids(s: Seq<IssueHistoryEntryDto>) -> Seq<String>
    decreases s.len(),
{
    if s.len() == 0 {
        Seq::empty()
    } else {
        visible_ids(s.drop_last()) + (if is_hidden_entry(s.last()) { Seq::empty() } else { seq![s.last().id] })
    }
}

/// The history entries to show: those not marked hidden, in order.
pub fn visible_history(entries: &Vec<IssueHistoryEntryDto>) -> (r: Vec<HistoryEntry>)
    ensures
        r@.len() == visible_ids(entries@).len(),
        forall|i: int| 0 <= i < r@.len() ==> (#[trigger] r@[i]).id == visible_ids(entries@)[i],
{
    let mut out: Vec<HistoryEntry> = Vec::new();
    let mut i: usize = 0;
    while i < entries.len()
        invariant
            i <= entries@.len(),
            out@.len() == visible_ids(entries@.subrange(0, i as int)).len(),
            forall|k: int| 0 <= k < out@.len() ==> (#[trigger] out@[k]).id == visible_ids(entries@.subrange(0, i as int))[k],
        decreases entries.len() - i,
    {
        let e = &entries[i];
        let hidden = match e.is_hidden {
            Some(h) => h,
            None => false,
        };
        let ghost next = entries@.subrange(0, i + 1);
        assert(next.drop_last() =~= entries@.subrange(0, i as int));
        if !hidden {
            out.push(HistoryEntry::from_dto(e));
        }
        assert(visible_ids(next) == visible_ids(entries@.subrange(0, i as int)) + (if is_hidden_entry(*e) { Seq::empty() } else { seq![e.id] }));
        i = i + 1;
    }
    assert(entries@.subrange(0, i as int) =~= entries@);
    out
}

/// The tag that one loosely typed tag entry denotes: an array whose first
/// element is a string name, with an optional string colour after it.
pub open spec fn tag_of_entry(e: Option<Vec<Option<String>>>) -> Option<(Seq<char>, Option<Seq<char>>)> {
    match e {
        Some(v) => if v@.len() > 0 && v@[0] is Some {
            Some(
                (
                    v@[0].unwrap()@,
                    if v@.len() > 1 && v@[1] is Some { Some(v@[1].unwrap()@) } else { None },
                ),
            )
        } else {
            None
        },
        None => None,
    }
}

/// The tags that a list of entries denotes, skipping malformed entries.
pub open spec fn tags_spec(es: Seq<Option<Vec<Option<String>>>>) -> Seq<(Seq<char>, Option<Seq<char>>)>
    decreases es.len(),
{
    if es.len() == 0 {
        Seq::empty()
    } else {
        tags_spec(es.drop_last()) + match tag_of_entry(es.last()) {
            Some(t) => seq![t],
            None => Seq::empty(),
        }
    }
}

pub open spec fn tag_view(t: Tag) -> (Seq<char>, Option<Seq<char>>) {
    (
        t.name@,
        match t.color {
            Some(c) => Some(c@),
            None => None,
        },
    )
}

pub open spec fn tags_view(ts: Seq<Tag>) -> Seq<(Seq<char>, Option<Seq<char>>)> {
    Seq::new(ts.len(), |i: int| tag_view(ts[i]))
}

pub open spec fn tags_of(t: Option<Vec<Option<Vec<Option<String>>>>>) -> Seq<(Seq<char>, Option<Seq<char>>)> {
    match t {
        Some(es) => tags_spec(es@),
        None => Seq::empty(),
    }
}

fn tag_from_entry(e: &Option<Vec<Option<String>>>) -> (r: Option<Tag>)
    ensures
        match r {
            Some(t) => tag_of_entry(*e) == Some(tag_view(t)),
            None => tag_of_entry(*e) is None,
        },
{
    match e {
        Some(v) => {
            if v.len() == 0 {
                return None;
            }
            match &v[0] {
                Some(name) => {
                    let color = if v.len() > 1 {
                        copy_opt(&v[1])
                    } else {
                        None
                    };
                    Some(Tag { name: name.clone(), color })
                },
                None => None,
            }
        },
        None => None,
    }
}

/// The tags of an issue, read from the tracker's loosely typed tag list.
pub fn parse_tags(tags: &Option<Vec<Option<Vec<Option<String>>>>>) -> (r: Vec<Tag>)
    ensures
        tags_view(r@) == tags_of(*tags),
{
    let mut out: Vec<Tag> = Vec::new();
    match tags {
        Some(es) => {
            let mut i: usize = 0;
            while i < es.len()
                invariant
                    i <= es@.len(),
                    tags_view(out@) == tags_spec(es@.subrange(0, i as int)),
                decreases es.len() - i,
            {
                let ghost before = out@;
                let ghost next = es@.subrange(0, i + 1);
                assert(next.drop_last() =~= es@.subrange(0, i as int));
                assert(next.last() == es@[i as int]);
                match tag_from_entry(&es[i]) {
                    Some(t) => {
                        out.push(t);
                        assert(tags_view(out@) =~= tags_view(before).push(tag_view(t)));
                    },
                    None => {},
                }
                assert(tags_view(out@) =~= tags_spec(next));
                i = i + 1;
            }
            assert(es@.subrange(0, i as int) =~= es@);
        },
        None => {
            assert(tags_view(out@) =~= Seq::<(Seq<char>, Option<Seq<char>>)>::empty());
        },
    }
    out
}

/// Full detail of one issue, for display. Type, severity and priority are
/// given by id; their names and colours are left unresolved.
#[derive(Debug, Clone)]
pub struct IssueDetail {
    pub id: i64,
    pub ref_number: i64,
    pub subject: String,
    pub description: Option<String>,
    pub description_html: Option<String>,
    pub project_id: i64,
    pub project_name: String,
    pub project_slug: String,
    pub status_id: i64,
    pub status_name: String,
    pub status_color: String,
    pub is_closed: bool,
    pub issue_type_id: Option<i64>,
    pub issue_type_name: Option<String>,
    pub issue_type_color: Option<String>,
    pub severity_id: Option<i64>,
    pub severity_name: Option<String>,
    pub severity_color: Option<String>,
    pub priority_id: Option<i64>,
    pub priority_name: Option<String>,
    pub priority_color: Option<String>,
    pub owner_id: Option<i64>,
    pub owner_name: Option<String>,
    pub owner_username: Option<String>,
    pub owner_photo: Option<String>,
    pub assigned_to_id: Option<i64>,
    pub assigned_to_name: Option<String>,
    pub assigned_to_username: Option<String>,
    pub assigned_to_photo: Option<String>,
    pub tags: Vec<Tag>,
    pub attachments: Vec<Attachment>,
    pub watchers: Vec<i64>,
    pub total_watchers: i64,
    pub is_blocked: bool,
    pub blocked_note: Option<String>,
    pub due_date: Option<String>,
    pub due_date_status: Option<String>,
    pub created_date: String,
    pub modified_date: String,
    pub finished_date: Option<String>,
    /// The version to send with the next patch of this issue.
    pub version: i64,
    pub next_issue: Option<IssueNeighbor>,
    pub previous_issue: Option<IssueNeighbor>,
}

/// Colour shown for a status the tracker did not describe.
pub open spec fn default_status_color() -> Seq<char> {
    "#808080"@
}

pub open spec fn neighbor_of(n: Option<IssueNeighborDto>) -> Option<IssueNeighbor> {
    match n {
        Some(x) => Some(IssueNeighbor { id: x.id, ref_number: x.ref_, subject: x.subject }),
        None => None,
    }
}

pub open spec fn user_names(u: Option<UserExtraInfo>) -> (Option<String>, Option<String>, Option<String>) {
    match u {
        Some(x) => (Some(x.full_name_display), Some(x.username), x.photo),
        None => (None, None, None),
    }
}

fn split_user(u: Option<UserExtraInfo>) -> (r: (Option<String>, Option<String>, Option<String>))
    ensures
        r == user_names(u),
{
    match u {
        Some(x) => (Some(x.full_name_display), Some(x.username), x.photo),
        None => (None, None, None),
    }
}

fn neighbor_from(n: Option<IssueNeighborDto>) -> (r: Option<IssueNeighbor>)
    ensures
        r == neighbor_of(n),
{
    match n {
        Some(x) => Some(IssueNeighbor { id: x.id, ref_number: x.ref_, subject: x.subject }),
        None => None,
    }
}

impl IssueDetail {
    /// The display record of an issue's detail.
    pub fn from_dto(dto: IssueDetailDto) -> (r: IssueDetail)
        ensures
            r.id == dto.id,
            r.ref_number == dto.ref_,
            r.subject == dto.subject,
            r.description == dto.description,
            r.description_html == dto.description_html,
            r.project_id == dto.project,
            r.project_name == dto.project_extra_info.name,
            r.project_slug == dto.project_extra_info.slug,
            r.status_id == dto.status,
            r.status_name@ == match dto.status_extra_info {
                Some(s) => s.name@,
                None => "Status "@ + int_decimal(dto.status as int),
            },
            r.status_color@ == match dto.status_extra_info {
                Some(s) => s.color@,
                None => default_status_color(),
            },
            r.is_closed == match dto.status_extra_info {
                Some(s) => s.is_closed,
                None => dto.is_closed,
            },
            r.issue_type_id == dto.type_ && r.issue_type_name is None && r.issue_type_color is None,
            r.severity_id == dto.severity && r.severity_name is None && r.severity_color is None,
            r.priority_id == dto.priority && r.priority_name is None && r.priority_color is None,
            r.owner_id == dto.owner,
            (r.owner_name, r.owner_username, r.owner_photo) == user_names(dto.owner_extra_info),
            r.assigned_to_id == dto.assigned_to,
            (r.assigned_to_name, r.assigned_to_username, r.assigned_to_photo) == user_names(
                dto.assigned_to_extra_info,
            ),
            tags_view(r.tags@) == tags_of(dto.tags),
            r.attachments@.len() == dto.attachments@.len(),
            forall|i: int|
                0 <= i < r.attachments@.len() ==> describes_attachment(
                    #[trigger] r.attachments@[i],
                    dto.attachments@[i],
                ),
            r.watchers == dto.watchers,
            r.total_watchers == dto.total_watchers,
            r.is_blocked == dto.is_blocked,
            r.blocked_note == dto.blocked_note,
            r.due_date == dto.due_date,
            r.due_date_status == dto.due_date_status,
            r.created_date == dto.created_date,
            r.modified_date == dto.modified_date,
            r.finished_date == dto.finished_date,
            r.version == dto.version,
            r.next_issue == match dto.neighbors {
                Some(n) => neighbor_of(n.next),
                None => None,
            },
            r.previous_issue == match dto.neighbors {
                Some(n) => neighbor_of(n.previous),
                None => None,
            },
    {
        let (status_name, status_color, is_closed) = match dto.status_extra_info {
            Some(s) => (s.name, s.color, s.is_closed),
            None => {
                let mut name = String::from_str("Status ");
                push_int(&mut name, dto.status);
                (name, String::from_str("#808080"), dto.is_closed)
            },
        };
        let tags = parse_tags(&dto.tags);
        let mut attachments: Vec<Attachment> = Vec::new();
        let mut i: usize = 0;
        while i < dto.attachments.len()
            invariant
                i <= dto.attachments@.len(),
                attachments@.len() == i,
                forall|k: int|
                    0 <= k < i ==> describes_attachment(#[trigger] attachments@[k], dto.attachments@[k]),
            decreases dto.attachments.len() - i,
        {
            attachments.push(Attachment::from_dto(&dto.attachments[i]));
            i = i + 1;
        }
        let (next_issue, previous_issue) = match dto.neighbors {
            Some(n) => (neighbor_from(n.next), neighbor_from(n.previous)),
            None => (None, None),
        };
        let (owner_name, owner_username, owner_photo) = split_user(dto.owner_extra_info);
        let (assigned_to_name, assigned_to_username, assigned_to_photo) = split_user(dto.assigned_to_extra_info);
        IssueDetail {
            id: dto.id,
            ref_number: dto.ref_,
            subject: dto.subject,
            description: dto.description,
            description_html: dto.description_html,
            project_id: dto.project,
            project_name: dto.project_extra_info.name,
            project_slug: dto.project_extra_info.slug,
            status_id: dto.status,
            status_name,
            status_color,
            is_closed,
            issue_type_id: dto.type_,
            issue_type_name: None,
            issue_type_color: None,
            severity_id: dto.severity,
            severity_name: None,
            severity_color: None,
            priority_id: dto.priority,
            priority_name: None,
            priority_color: None,
            owner_id: dto.owner,
            owner_name,
            owner_username,
            owner_photo,
            assigned_to_id: dto.assigned_to,
            assigned_to_name,
            assigned_to_username,
            assigned_to_photo,
            tags,
            attachments,
            watchers: dto.watchers,
            total_watchers: dto.total_watchers,
            is_blocked: dto.is_blocked,
            blocked_note: dto.blocked_note,
            due_date: dto.due_date,
            due_date_status: dto.due_date_status,
            created_date: dto.created_date,
            modified_date: dto.modified_date,
            finished_date: dto.finished_date,
            version: dto.version,
            next_issue,
            previous_issue,
        }
    }
}

} // verus!
