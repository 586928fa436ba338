use larch_sync::domain::{
    format_file_size, is_image_file, is_image_name, visible_history, Attachment, Issue, IssueDetail,
    MetadataFetch, ProjectMetadata, collect_metadata,
};
use larch_sync::models::{
    AttachmentDto, HistoryUserDto, IssueDetailDto, IssueDto, IssueHistoryEntryDto, IssueNeighborDto,
    IssueNeighborsDto, IssueStatusDto, IssueStatusExtraInfo, MemberDto, ProjectDto, ProjectExtraInfo,
    UserExtraInfo, UserShort,
};

#[test]
fn test_issue_conversion_from_dto() {
    let dto = IssueDto {
        id: 123,
        subject: "Test Issue".to_string(),
        project: 456,
        status: 1,
        status_extra_info: Some(IssueStatusExtraInfo {
            name: "Open".to_string(),
            color: "#ff0000".to_string(),
            is_closed: false,
        }),
        assigned_to: Some(789),
        assigned_to_extra_info: Some(UserExtraInfo {
            username: "jdoe".to_string(),
            full_name_display: "John Doe".to_string(),
            photo: Some("http://example.com/photo.jpg".to_string()),
        }),
        owner: Some(999),
        modified_date: None,
    };

    let issue: Issue = dto.into();

    assert_eq!(issue.id, 123);
    assert_eq!(issue.subject, "Test Issue");
    assert_eq!(issue.status_name, Some("Open".to_string()));
    assert_eq!(issue.status_color, Some("#ff0000".to_string()));
    assert_eq!(issue.assigned_to, Some(789));
    assert_eq!(issue.assigned_to_name, Some("John Doe".to_string()));
    assert_eq!(
        issue.assigned_to_photo,
        Some("http://example.com/photo.jpg".to_string())
    );
}

#[test]
fn test_issue_conversion_minimal_dto() {
    let dto = IssueDto {
        id: 123,
        subject: "Minimal".to_string(),
        project: 456,
        status: 1,
        status_extra_info: None,
        assigned_to: None,
        assigned_to_extra_info: None,
        owner: None,
        modified_date: None,
    };

    let issue: Issue = dto.into();

    assert_eq!(issue.id, 123);
    assert_eq!(issue.subject, "Minimal");
    assert_eq!(issue.status_name, None);
    assert_eq!(issue.assigned_to, None);
    assert_eq!(issue.assigned_to_name, None);
}

#[test]
fn issue_timestamp_is_read_from_rfc3339() {
    let dto = IssueDto {
        id: 1,
        subject: "Dated".to_string(),
        project: 10,
        status: 1,
        status_extra_info: None,
        assigned_to: None,
        assigned_to_extra_info: None,
        owner: None,
        modified_date: Some("2023-01-02T00:00:00Z".to_string()),
    };
    let issue: Issue = dto.into();
    assert_eq!(issue.modified_at, Some(1_672_617_600_000));

    let bad = IssueDto {
        id: 2,
        subject: "Undated".to_string(),
        project: 10,
        status: 1,
        status_extra_info: None,
        assigned_to: None,
        assigned_to_extra_info: None,
        owner: None,
        modified_date: Some("yesterday".to_string()),
    };
    let issue: Issue = bad.into();
    assert_eq!(issue.modified_at, None);
}

#[test]
fn file_sizes_are_shown_with_units() {
    assert_eq!(format_file_size(0), "0 B");
    assert_eq!(format_file_size(512), "512 B");
    assert_eq!(format_file_size(1023), "1023 B");
    assert_eq!(format_file_size(1024), "1.0 KB");
    assert_eq!(format_file_size(1536), "1.5 KB");
    assert_eq!(format_file_size(1_048_576), "1.0 MB");
    assert_eq!(format_file_size(5_347_738), "5.1 MB");
    assert_eq!(format_file_size(2_147_483_648), "2.0 GB");
    assert_eq!(format_file_size(-5), "-5 B");
}

#[test]
fn image_extensions_in_any_case() {
    assert!(is_image_file("Photo.PNG"));
    assert!(is_image_file("scan.JpEg"));
    assert!(is_image_file("icon.svg"));
    assert!(!is_image_file("report.pdf"));
    assert!(!is_image_file("png"));
    assert!(is_image_name("a.webp"));
    assert!(!is_image_name("A.WEBP"));
}

fn attachment(name: &str, size: i64) -> AttachmentDto {
    AttachmentDto {
        id: 7,
        name: name.to_string(),
        url: "https://files.example/a".to_string(),
        thumbnail_card_url: None,
        size,
        created_date: "2024-01-01".to_string(),
    }
}

#[test]
fn attachment_display_record() {
    let a = Attachment::from_dto(&attachment("Diagram.GIF", 2048));
    assert_eq!(a.name, "Diagram.GIF");
    assert_eq!(a.size_display, "2.0 KB");
    assert!(a.is_image);
    assert_eq!(a.thumbnail_url, None);
}

fn detail_dto() -> IssueDetailDto {
    IssueDetailDto {
        id: 55,
        ref_: 12,
        subject: "Crash on start".to_string(),
        description: Some("It crashes".to_string()),
        description_html: None,
        project: 10,
        project_extra_info: ProjectExtraInfo { name: "Larch".to_string(), slug: "larch".to_string() },
        status: 4,
        status_extra_info: None,
        is_closed: true,
        type_: Some(2),
        severity: None,
        priority: Some(3),
        owner: Some(1),
        owner_extra_info: Some(UserExtraInfo {
            username: "ann".to_string(),
            full_name_display: "Ann".to_string(),
            photo: None,
        }),
        assigned_to: None,
        assigned_to_extra_info: None,
        tags: Some(vec![
            Some(vec![Some("bug".to_string()), Some("#f00".to_string())]),
            Some(vec![Some("ui".to_string()), None]),
            None,
            Some(vec![]),
            Some(vec![None, Some("#0f0".to_string())]),
            Some(vec![Some("solo".to_string())]),
        ]),
        attachments: vec![attachment("log.txt", 100)],
        watchers: vec![1, 2],
        total_watchers: 2,
        is_blocked: false,
        blocked_note: None,
        due_date: None,
        due_date_status: None,
        created_date: "2024-01-01".to_string(),
        modified_date: "2024-01-02".to_string(),
        finished_date: None,
        version: 9,
        neighbors: Some(IssueNeighborsDto {
            next: Some(IssueNeighborDto { id: 56, ref_: 13, subject: "Next".to_string() }),
            previous: None,
        }),
    }
}

#[test]
fn issue_detail_from_dto() {
    let d = IssueDetail::from_dto(detail_dto());
    assert_eq!(d.status_name, "Status 4");
    assert_eq!(d.status_color, "#808080");
    assert!(d.is_closed);
    assert_eq!(d.owner_name, Some("Ann".to_string()));
    assert_eq!(d.owner_username, Some("ann".to_string()));
    assert_eq!(d.assigned_to_name, None);
    assert_eq!(d.issue_type_id, Some(2));
    assert_eq!(d.issue_type_name, None);
    assert_eq!(d.version, 9);
    let tags: Vec<(String, Option<String>)> = d.tags.iter().map(|t| (t.name.clone(), t.color.clone())).collect();
    assert_eq!(
        tags,
        vec![
            ("bug".to_string(), Some("#f00".to_string())),
            ("ui".to_string(), None),
            ("solo".to_string(), None),
        ]
    );
    assert_eq!(d.attachments.len(), 1);
    assert_eq!(d.attachments[0].size_display, "100 B");
    assert!(!d.attachments[0].is_image);
    assert_eq!(d.next_issue.as_ref().map(|n| n.ref_number), Some(13));
    assert!(d.previous_issue.is_none());
}

#[test]
fn issue_detail_uses_described_status() {
    let mut dto = detail_dto();
    dto.status_extra_info = Some(IssueStatusExtraInfo {
        name: "In progress".to_string(),
        color: "#00f".to_string(),
        is_closed: false,
    });
    dto.tags = None;
    let d = IssueDetail::from_dto(dto);
    assert_eq!(d.status_name, "In progress");
    assert_eq!(d.status_color, "#00f");
    assert!(!d.is_closed);
    assert!(d.tags.is_empty());
}

fn history(id: &str, entry_type: i64, comment: &str, hidden: Option<bool>) -> IssueHistoryEntryDto {
    IssueHistoryEntryDto {
        id: id.to_string(),
        user: HistoryUserDto { pk: 3, name: "Bo".to_string(), username: "bo".to_string(), photo: None },
        created_at: "2024-02-02".to_string(),
        entry_type,
        comment: comment.to_string(),
        comment_html: format!("<p>{}</p>", comment),
        delete_comment_date: None,
        edit_comment_date: Some("2024-02-03".to_string()),
        is_hidden: hidden,
    }
}

#[test]
fn hidden_history_entries_are_dropped() {
    let entries = vec![
        history("a", 1, "", None),
        history("b", 0, "hello", Some(false)),
        history("c", 0, "secret", Some(true)),
    ];
    let shown = visible_history(&entries);
    assert_eq!(shown.len(), 2);
    assert_eq!(shown[0].id, "a");
    assert_eq!(shown[0].entry_type, "change");
    assert_eq!(shown[0].comment, None);
    assert_eq!(shown[1].entry_type, "comment");
    assert_eq!(shown[1].comment, Some("hello".to_string()));
    assert_eq!(shown[1].comment_html, Some("<p>hello</p>".to_string()));
    assert!(shown[1].is_edited);
    assert!(!shown[1].is_deleted);
}

fn project(id: i64, with_lists: bool) -> ProjectDto {
    ProjectDto {
        id,
        name: "P".to_string(),
        slug: "p".to_string(),
        description: String::new(),
        owner: UserShort { id: 1, username: "o".to_string(), full_name_display: "O".to_string(), photo: None },
        issue_statuses: if with_lists {
            Some(vec![IssueStatusDto { id: 5, name: "New".to_string(), color: "#fff".to_string(), is_closed: false }])
        } else {
            None
        },
        members: if with_lists {
            Some(vec![MemberDto {
                id: 8,
                full_name: "Mia".to_string(),
                role_name: "Dev".to_string(),
                photo: None,
                username: None,
            }])
        } else {
            None
        },
    }
}

#[test]
fn project_metadata_from_detail() {
    let m = ProjectMetadata::from_project(10, project(10, true));
    assert_eq!(m.id, 10);
    assert_eq!(m.statuses.len(), 1);
    assert_eq!(m.statuses[0].name, "New");
    assert_eq!(m.members[0].user_id, Some(8));
    let empty = ProjectMetadata::from_project(11, project(11, false));
    assert!(empty.statuses.is_empty() && empty.members.is_empty());
}

#[test]
fn failed_metadata_fetches_are_left_out() {
    let all = collect_metadata(vec![
        MetadataFetch { project_id: 10, project: Some(project(10, true)) },
        MetadataFetch { project_id: 20, project: None },
        MetadataFetch { project_id: 30, project: Some(project(30, false)) },
    ]);
    let ids: Vec<i64> = all.iter().map(|m| m.id).collect();
    assert_eq!(ids, vec![10, 30]);
}
