use hyper::StatusCode;
use quickwit::elasticsearch_api::error::{
    ElasticsearchError, ErrorCause, IndexServiceError, IngestServiceError, IngestV2Error,
    SearchError,
};
use quickwit::models::{IndexId, Offset, SourceId};

fn check(error: &ElasticsearchError, status: StatusCode, reason: &str) {
    assert_eq!(error.status, status);
    assert_eq!(error.error.reason, Some(reason.to_string()));
    assert!(error.error.caused_by.is_none());
    assert!(error.error.root_cause.is_empty());
    assert!(error.error.stack_trace.is_none());
    assert!(error.error.suppressed.is_empty());
    assert!(error.error.ty.is_none());
    assert!(error.error.additional_details.is_empty());
}

#[test]
fn test_new_fills_only_the_reason() {
    let error = ElasticsearchError::new(StatusCode::BAD_REQUEST, "bad query".to_string());
    check(&error, StatusCode::BAD_REQUEST, "bad query");
    let error = ElasticsearchError::new(StatusCode::NOT_FOUND, String::new());
    check(&error, StatusCode::NOT_FOUND, "");
}

#[test]
fn test_from_search_error() {
    let error = ElasticsearchError::from(SearchError {
        status: StatusCode::NOT_FOUND,
        message: "could not find indexes matching the IDs `foo`".to_string(),
    });
    check(&error, StatusCode::NOT_FOUND, "could not find indexes matching the IDs `foo`");
}

#[test]
fn test_from_ingest_service_error() {
    let error = ElasticsearchError::from(IngestServiceError {
        status: StatusCode::TOO_MANY_REQUESTS,
        message: "rate limited".to_string(),
    });
    check(&error, StatusCode::TOO_MANY_REQUESTS, "rate limited");
}

#[test]
fn test_from_ingest_v2_error() {
    let error: ElasticsearchError = IngestV2Error {
        status: StatusCode::SERVICE_UNAVAILABLE,
        message: "service unavailable".to_string(),
    }
    .into();
    check(&error, StatusCode::SERVICE_UNAVAILABLE, "service unavailable");
}

#[test]
fn test_from_index_service_error() {
    let error = ElasticsearchError::from(IndexServiceError {
        status: StatusCode::INTERNAL_SERVER_ERROR,
        message: "internal error".to_string(),
    });
    check(&error, StatusCode::INTERNAL_SERVER_ERROR, "internal error");
}

#[test]
fn test_clone_keeps_the_contents() {
    let leaf = |reason: &str| ErrorCause {
        caused_by: None,
        reason: Some(reason.to_string()),
        root_cause: Vec::new(),
        stack_trace: Some("trace".to_string()),
        suppressed: Vec::new(),
        ty: Some("type".to_string()),
        additional_details: Default::default(),
    };
    let mut cause = leaf("top");
    cause.caused_by = Some(Box::new(leaf("below")));
    cause.root_cause.push(leaf("root 0"));
    cause.root_cause.push(leaf("root 1"));
    cause.suppressed.push(leaf("suppressed"));
    cause
        .additional_details
        .insert("index".to_string(), serde_json::Value::Bool(true));
    let error = ElasticsearchError {
        status: StatusCode::CONFLICT,
        error: cause,
    };
    let copy = error.clone();
    assert_eq!(format!("{:?}", copy), format!("{:?}", error));
    assert_eq!(copy.status, StatusCode::CONFLICT);
    assert_eq!(copy.error.root_cause.len(), 2);
    assert_eq!(copy.error.additional_details.len(), 1);
}

#[test]
fn test_errors_tell_status_and_reason() {
    let error = ElasticsearchError::new(StatusCode::CONFLICT, "a".to_string());
    let other_status = ElasticsearchError::new(StatusCode::GONE, "a".to_string());
    let other_reason = ElasticsearchError::new(StatusCode::CONFLICT, "b".to_string());
    assert_ne!(error.status, other_status.status);
    assert_ne!(error.error.reason, other_reason.error.reason);
}

#[test]
fn test_model_names() {
    let source_id: SourceId = "source".to_string();
    let index_id: IndexId = "index".to_string();
    let offset: Offset = vec![0u8, 1u8];
    assert_eq!(source_id.len() + index_id.len() + offset.len(), 13);
}
