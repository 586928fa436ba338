use larch_sync::aggregate::{aggregate_fetches, batch_needs_reauth, sort_by_recency, CollectionFetch};
use larch_sync::domain::Issue;
use larch_sync::error::TaigaClientError;
use larch_sync::filter::{filter_issues, selected_project_ids, selection_config_value, target_projects, FilterObject};
use larch_sync::transport::{issue_list_query, project_list_query, Endpoint, HttpMethod};

fn issue(id: i64, project: i64, status: i64, assigned_to: Option<i64>, modified_at: Option<i64>) -> Issue {
    Issue {
        id,
        subject: format!("issue {}", id),
        project,
        status,
        status_name: None,
        status_color: None,
        owner: None,
        assigned_to,
        assigned_to_name: None,
        assigned_to_photo: None,
        modified_at,
    }
}

fn no_filter() -> FilterObject {
    FilterObject { status_ids: None, status_exclude: None, assignee_ids: None, assignee_exclude: None, project_ids: None }
}

#[test]
fn recency_sort_puts_undated_last() {
    let items = vec![
        issue(1, 1, 1, None, None),
        issue(2, 1, 1, None, Some(50)),
        issue(3, 1, 1, None, Some(300)),
        issue(4, 1, 1, None, None),
        issue(5, 1, 1, None, Some(100)),
        issue(6, 1, 1, None, Some(300)),
    ];
    let sorted = sort_by_recency(items);
    let stamps: Vec<Option<i64>> = sorted.iter().map(|i| i.modified_at).collect();
    assert_eq!(stamps, vec![Some(300), Some(300), Some(100), Some(50), None, None]);
    let mut ids: Vec<i64> = sorted.iter().map(|i| i.id).collect();
    ids.sort();
    assert_eq!(ids, vec![1, 2, 3, 4, 5, 6]);
}

#[test]
fn recency_sort_of_nothing() {
    assert!(sort_by_recency(Vec::new()).is_empty());
}

#[test]
fn failed_collection_contributes_nothing() {
    let result = aggregate_fetches(vec![
        CollectionFetch {
            collection_id: 10,
            outcome: Ok(vec![issue(1, 10, 1, None, Some(100)), issue(2, 10, 1, None, Some(300)), issue(3, 10, 1, None, None)]),
        },
        CollectionFetch { collection_id: 20, outcome: Err(TaigaClientError::Network("connection reset".to_string())) },
    ]);
    let ids: Vec<i64> = result.items.iter().map(|i| i.id).collect();
    assert_eq!(ids, vec![2, 1, 3]);
    assert!(result.items.iter().all(|i| i.project == 10));
    assert_eq!(result.failed_collections, vec![20]);
}

#[test]
fn merge_is_global_across_collections() {
    let result = aggregate_fetches(vec![
        CollectionFetch { collection_id: 1, outcome: Ok(vec![issue(1, 1, 1, None, Some(10)), issue(2, 1, 1, None, Some(40))]) },
        CollectionFetch { collection_id: 2, outcome: Err(TaigaClientError::RequestFailed(500)) },
        CollectionFetch { collection_id: 3, outcome: Ok(vec![issue(3, 3, 1, None, Some(30)), issue(4, 3, 1, None, None)]) },
        CollectionFetch { collection_id: 4, outcome: Err(TaigaClientError::EndpointNotFound(404)) },
    ]);
    let ids: Vec<i64> = result.items.iter().map(|i| i.id).collect();
    assert_eq!(ids, vec![2, 3, 1, 4]);
    assert_eq!(result.failed_collections, vec![2, 4]);
}

#[test]
fn all_failed_gives_empty_result() {
    let result = aggregate_fetches(vec![
        CollectionFetch { collection_id: 1, outcome: Err(TaigaClientError::Network("dns".to_string())) },
    ]);
    assert!(result.items.is_empty());
    assert_eq!(result.failed_collections, vec![1]);
    assert!(aggregate_fetches(Vec::new()).items.is_empty());
}

#[test]
fn batch_reauth_only_when_all_unauthorized() {
    let denied = || CollectionFetch { collection_id: 1, outcome: Err(TaigaClientError::Unauthorized(401)) };
    assert!(batch_needs_reauth(&vec![denied(), denied()]));
    assert!(!batch_needs_reauth(&vec![denied(), CollectionFetch { collection_id: 2, outcome: Ok(vec![]) }]));
    assert!(!batch_needs_reauth(&Vec::new()));
}

#[test]
fn status_exclusion_filter() {
    let filter = FilterObject {
        status_ids: Some(vec![3]),
        status_exclude: Some(true),
        assignee_ids: None,
        assignee_exclude: None,
        project_ids: None,
    };
    let issues = vec![
        issue(1, 10, 1, None, None),
        issue(2, 10, 2, None, None),
        issue(3, 10, 3, None, None),
        issue(4, 10, 4, None, None),
    ];
    let kept: Vec<i64> = filter_issues(issues, &filter).iter().map(|i| i.status).collect();
    assert_eq!(kept, vec![1, 2, 4]);
    let params = filter.query_params();
    assert_eq!(params, vec![("status__not_in".to_string(), "3".to_string())]);
}

#[test]
fn empty_lists_filter_nothing() {
    let filter = FilterObject {
        status_ids: Some(vec![]),
        status_exclude: Some(true),
        assignee_ids: Some(vec![]),
        assignee_exclude: None,
        project_ids: Some(vec![]),
    };
    let issues = vec![issue(1, 10, 1, None, None), issue(2, 20, 2, Some(5), None)];
    assert_eq!(filter_issues(issues, &filter).len(), 2);
    assert!(filter.query_params().is_empty());
    assert_eq!(target_projects(Some("[10,20]"), &filter), vec![10, 20]);
}

#[test]
fn assignee_filter_with_unassigned() {
    let filter = FilterObject {
        status_ids: Some(vec![1, 2]),
        status_exclude: None,
        assignee_ids: Some(vec![Some(7), None, Some(-3)]),
        assignee_exclude: None,
        project_ids: None,
    };
    assert_eq!(
        filter.query_params(),
        vec![
            ("status".to_string(), "1,2".to_string()),
            ("assigned_to".to_string(), "7,null,-3".to_string()),
        ]
    );
    let issues = vec![issue(1, 1, 1, Some(7), None), issue(2, 1, 2, None, None), issue(3, 1, 2, Some(8), None)];
    let kept: Vec<i64> = filter_issues(issues, &filter).iter().map(|i| i.id).collect();
    assert_eq!(kept, vec![1, 2]);

    let excluding = FilterObject { assignee_exclude: Some(true), status_ids: None, ..filter };
    assert_eq!(excluding.query_params()[0].0, "assigned_to__not_in");
}

#[test]
fn target_projects_follow_selection_and_filter() {
    let mut filter = no_filter();
    filter.project_ids = Some(vec![20, 30]);
    assert_eq!(target_projects(Some("[10, 20, 30]"), &filter), vec![20, 30]);
    assert_eq!(target_projects(Some("not json"), &filter), Vec::<i64>::new());
    assert_eq!(target_projects(None, &no_filter()), Vec::<i64>::new());
    assert_eq!(selected_project_ids(Some("[4,5]")), vec![4, 5]);
    assert_eq!(selection_config_value(&vec![4, 5]), "[4,5]");
}

#[test]
fn endpoints_and_queries() {
    assert_eq!(Endpoint::Login.path(), "api/v1/auth");
    assert_eq!(Endpoint::Login.method(), HttpMethod::Post);
    assert_eq!(Endpoint::RefreshToken.path(), "api/v1/auth/refresh");
    assert_eq!(Endpoint::CurrentUser.path(), "api/v1/users/me");
    assert_eq!(Endpoint::Project(42).path(), "api/v1/projects/42");
    assert_eq!(Endpoint::IssueHistory(7).path(), "api/v1/history/issue/7");
    assert_eq!(Endpoint::PatchIssue(9).path(), "api/v1/issues/9");
    assert_eq!(Endpoint::PatchIssue(9).method(), HttpMethod::Patch);
    assert_eq!(Endpoint::Issue(9).method(), HttpMethod::Get);

    let mut filter = no_filter();
    filter.status_ids = Some(vec![3]);
    assert_eq!(
        issue_list_query(10, &filter),
        vec![("project".to_string(), "10".to_string()), ("status".to_string(), "3".to_string())]
    );
    assert_eq!(project_list_query(Some(5)), vec![("member".to_string(), "5".to_string())]);
    assert!(project_list_query(None).is_empty());
}
