use larch_sync::error::{is_unauthorized, Error, TaigaClientError};
use larch_sync::input::{check_draft_key, view_name};
use larch_sync::models::TokenPair;
use larch_sync::patch::{FieldPatch, PatchIssueRequest};
use larch_sync::refresh::{
    refresh_start, refresh_step, refreshed_credential_writes, CredentialSlot, RefreshAction, RefreshEvent, RefreshState,
};
use larch_sync::text::{contains_text, format_int, parse_int};

#[test]
fn status_classification() {
    assert_eq!(TaigaClientError::classify(404, ""), TaigaClientError::EndpointNotFound(404));
    assert_eq!(TaigaClientError::classify(401, ""), TaigaClientError::Unauthorized(401));
    assert_eq!(TaigaClientError::classify(403, "nope"), TaigaClientError::Unauthorized(403));
    assert_eq!(TaigaClientError::classify(412, ""), TaigaClientError::VersionConflict(412));
    assert_eq!(TaigaClientError::classify(500, "version doesn't match"), TaigaClientError::RequestFailed(500));
    assert_eq!(TaigaClientError::classify(400, "bad field"), TaigaClientError::RequestFailed(400));
}

#[test]
fn stale_version_body_is_a_conflict() {
    let body = r#"{"version": ["The version doesn't match with the current one"]}"#;
    assert_eq!(TaigaClientError::classify(400, body), TaigaClientError::VersionConflict(400));
    assert_eq!(
        TaigaClientError::classify(400, "VERSION does not match"),
        TaigaClientError::VersionConflict(400)
    );
    assert_eq!(TaigaClientError::classify(400, "version is missing"), TaigaClientError::RequestFailed(400));
    let surfaced: Error = TaigaClientError::classify(400, body).into();
    assert!(matches!(surfaced, Error::VersionConflict));
    let surfaced: Error = TaigaClientError::classify(412, "").into();
    assert!(matches!(surfaced, Error::VersionConflict));
    assert!(!is_unauthorized(&surfaced));
}

#[test]
fn client_errors_lift_to_app_errors() {
    let e: Error = TaigaClientError::Unauthorized(401).into();
    assert!(is_unauthorized(&e));
    let e: Error = TaigaClientError::RequestFailed(502).into();
    assert!(matches!(e, Error::TaigaClient(TaigaClientError::RequestFailed(502))));
    assert_eq!(TaigaClientError::RequestFailed(502).message(), "Request failed with status: 502");
    assert_eq!(TaigaClientError::Network("reset".to_string()).message(), "HTTP Request failed: reset");
}

#[test]
fn decode_error_keeps_bounded_prefix() {
    let long = "x".repeat(5000);
    match TaigaClientError::decode_failure(&long) {
        TaigaClientError::Decode(m) => assert_eq!(m.len(), 2000),
        other => panic!("unexpected {:?}", other),
    }
    assert_eq!(TaigaClientError::decode_failure("{oops"), TaigaClientError::Decode("{oops".to_string()));
}

#[test]
fn assignee_wire_forms() {
    let unchanged = FieldPatch::<i64>::Unset.assignee_wire();
    let clear = FieldPatch::<i64>::Clear.assignee_wire();
    let assign = FieldPatch::Value(42).assignee_wire();
    assert_eq!(unchanged, "");
    assert_eq!(clear, "\"assigned_to\":null");
    assert_eq!(assign, "\"assigned_to\":42");
    assert_ne!(unchanged, clear);
    assert_ne!(clear, assign);
    assert_ne!(unchanged, assign);
    for wire in [&unchanged, &clear, &assign] {
        let back = FieldPatch::from_assignee_wire(wire).unwrap();
        assert_eq!(&back.assignee_wire(), wire);
    }
    assert_eq!(FieldPatch::from_assignee_wire(&assign), Some(FieldPatch::Value(42)));
    assert_eq!(FieldPatch::from_assignee_wire("\"assigned_to\":x"), None);
    assert_eq!(FieldPatch::from_assignee_wire("\"owner\":1"), None);
}

#[test]
fn patch_body_is_sparse() {
    let only_status = PatchIssueRequest { version: 3, status: Some(5), assigned_to: FieldPatch::Unset, comment: None };
    assert_eq!(only_status.to_body(), r#"{"version":3,"status":5}"#);
    let unassign = PatchIssueRequest { version: 4, status: None, assigned_to: FieldPatch::Clear, comment: None };
    assert_eq!(unassign.to_body(), r#"{"version":4,"assigned_to":null}"#);
    let comment = PatchIssueRequest {
        version: 1,
        status: None,
        assigned_to: FieldPatch::Value(42),
        comment: Some("say \"hi\"\n".to_string()),
    };
    assert_eq!(comment.to_body(), r#"{"version":1,"assigned_to":42,"comment":"say \"hi\"\n"}"#);
}

#[test]
fn refresh_happens_once_then_retries() {
    let (s, a) = refresh_start();
    assert_eq!(a, RefreshAction::RunOperation);
    let (s, a) = refresh_step(s, RefreshEvent::OperationReturned { unauthorized: true });
    assert_eq!(a, RefreshAction::RefreshCredentials);
    let (s, a) = refresh_step(s, RefreshEvent::RefreshSucceeded);
    assert_eq!(a, RefreshAction::RunOperation);
    let (s, a) = refresh_step(s, RefreshEvent::OperationReturned { unauthorized: true });
    assert_eq!(a, RefreshAction::ReturnOperationResult);
    assert_eq!(s, RefreshState::Done);
}

#[test]
fn refresh_failure_and_plain_success() {
    let (s, _) = refresh_start();
    let (s2, a) = refresh_step(s, RefreshEvent::OperationReturned { unauthorized: false });
    assert_eq!((s2, a), (RefreshState::Done, RefreshAction::ReturnOperationResult));
    let (s, _) = refresh_step(s, RefreshEvent::OperationReturned { unauthorized: true });
    let (s, a) = refresh_step(s, RefreshEvent::RefreshFailed);
    assert_eq!((s, a), (RefreshState::Done, RefreshAction::ReturnRefreshError));
}

#[test]
fn refresh_token_is_written_first() {
    let writes = refreshed_credential_writes(TokenPair { auth_token: "access-2".to_string(), refresh: "refresh-2".to_string() });
    assert_eq!(writes.len(), 2);
    assert_eq!(writes[0].slot, CredentialSlot::RefreshToken);
    assert_eq!(writes[0].value, "refresh-2");
    assert_eq!(writes[1].slot, CredentialSlot::AccessToken);
    assert_eq!(writes[1].value, "access-2");
}

#[test]
fn decimal_text() {
    assert_eq!(format_int(0), "0");
    assert_eq!(format_int(-120), "-120");
    assert_eq!(format_int(i64::MAX), "9223372036854775807");
    assert_eq!(format_int(i64::MIN), "-9223372036854775808");
    assert_eq!(parse_int("-9223372036854775808"), Some(i64::MIN));
    assert_eq!(parse_int("9223372036854775807"), Some(i64::MAX));
    assert_eq!(parse_int("9223372036854775808"), None);
    assert_eq!(parse_int("007"), Some(7));
    assert_eq!(parse_int("-"), None);
    assert_eq!(parse_int(""), None);
    assert_eq!(parse_int("1a"), None);
    assert!(contains_text("does not match", "not"));
    assert!(!contains_text("no", "not"));
    assert!(contains_text("abc", ""));
}

#[test]
fn names_are_trimmed_and_required() {
    assert_eq!(view_name("  My View \n").ok(), Some("My View".to_string()));
    assert!(matches!(view_name("   "), Err(Error::InvalidInput(_))));
    assert!(check_draft_key("issue_123", "comment").is_ok());
    assert!(matches!(check_draft_key(" ", "comment"), Err(Error::InvalidInput(_))));
    assert!(check_draft_key("issue_123", "").is_err());
}
