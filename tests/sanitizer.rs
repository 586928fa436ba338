use larch_sync::sanitize::{sanitize_views, FilterData, StoredView};

fn filter(project_ids: Option<Vec<i64>>, status_ids: Option<Vec<i64>>, assignee_ids: Option<Vec<i64>>) -> FilterData {
    FilterData {
        status_ids,
        status_exclude: None,
        assignee_ids,
        assignee_exclude: None,
        project_ids,
        project_exclude: None,
    }
}

fn view(name: &str, is_system: bool, f: FilterData) -> StoredView {
    StoredView { id: 1, name: name.to_string(), is_system, filter: Some(f) }
}

#[test]
fn test_orphan_removal() {
    let views = vec![view(
        "Test View",
        false,
        filter(Some(vec![1, 2, 999, 888]), Some(vec![10, 20, 777]), Some(vec![5, 6])),
    )];
    let valid_projects = vec![1, 2];
    let valid_statuses = vec![10];

    let updates = sanitize_views(&views, Some(&valid_projects), Some(&valid_statuses));

    let sanitized_filter = updates[0].as_ref().unwrap();
    assert_eq!(sanitized_filter.project_ids, Some(vec![1, 2]));
    assert_eq!(sanitized_filter.status_ids, Some(vec![10]));
    assert_eq!(sanitized_filter.assignee_ids, Some(vec![5, 6]));
}

#[test]
fn test_system_views_not_sanitized() {
    let views = vec![view("System View", true, filter(Some(vec![999]), None, None))];

    let updates = sanitize_views(&views, Some(&vec![]), Some(&vec![]));

    assert!(updates[0].is_none());
}

#[test]
fn test_valid_ids_preserved() {
    let views = vec![view("Valid View", false, filter(Some(vec![1, 2]), Some(vec![10, 20]), None))];

    let updates = sanitize_views(&views, Some(&vec![1, 2]), Some(&vec![10, 20]));

    assert!(updates[0].is_none());
    let unchanged_filter = views[0].filter.as_ref().unwrap();
    assert_eq!(unchanged_filter.project_ids, Some(vec![1, 2]));
    assert_eq!(unchanged_filter.status_ids, Some(vec![10, 20]));
}

#[test]
fn test_empty_valid_sets_clears_all() {
    let views = vec![view("Clear All", false, filter(Some(vec![1, 2, 3]), Some(vec![10, 20]), None))];

    let updates = sanitize_views(&views, Some(&vec![]), Some(&vec![]));

    let sanitized_filter = updates[0].as_ref().unwrap();
    assert_eq!(sanitized_filter.project_ids, Some(vec![]));
    assert_eq!(sanitized_filter.status_ids, Some(vec![]));
}

#[test]
fn sanitizing_twice_changes_nothing_more() {
    let views = vec![
        view("A", false, filter(Some(vec![1, 7]), Some(vec![3, 4]), None)),
        view("B", false, filter(None, Some(vec![9]), Some(vec![1]))),
    ];
    let valid_projects = vec![1];
    let valid_statuses = vec![4];
    let first = sanitize_views(&views, Some(&valid_projects), Some(&valid_statuses));
    assert!(first.iter().all(|u| u.is_some()));
    let again: Vec<StoredView> = first
        .into_iter()
        .zip(views.iter())
        .map(|(u, v)| StoredView { id: v.id, name: v.name.clone(), is_system: false, filter: u })
        .collect();
    let second = sanitize_views(&again, Some(&valid_projects), Some(&valid_statuses));
    assert!(second.iter().all(|u| u.is_none()));
    assert_eq!(again[0].filter.as_ref().unwrap().project_ids, Some(vec![1]));
    assert_eq!(again[1].filter.as_ref().unwrap().status_ids, Some(vec![]));
}

#[test]
fn unknown_validity_leaves_dimension_alone() {
    let views = vec![
        view("Projects only", false, filter(Some(vec![1, 2]), Some(vec![99]), None)),
        StoredView { id: 2, name: "Unreadable".to_string(), is_system: false, filter: None },
    ];
    let updates = sanitize_views(&views, Some(&vec![2]), None);
    let f = updates[0].as_ref().unwrap();
    assert_eq!(f.project_ids, Some(vec![2]));
    assert_eq!(f.status_ids, Some(vec![99]));
    assert!(updates[1].is_none());
}
