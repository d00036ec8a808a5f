use openagentmail::error::{error_for_response, status_message_for};
use openagentmail::{ApiError, ApiErrorResponse, ErrorDetails, SdkError};

fn response(code: &str, message: &str) -> ApiErrorResponse {
    ApiErrorResponse {
        error: ApiError { code: code.to_string(), message: message.to_string(), details: None },
    }
}

#[test]
fn api_codes_map_to_variants() {
    match SdkError::from_api_response(401, response("authentication_error", "Invalid API key")) {
        SdkError::Authentication(m) => assert_eq!(m, "Invalid API key"),
        e => panic!("unexpected {:?}", e),
    }
    match SdkError::from_api_response(404, response("not_found", "Inbox not found")) {
        SdkError::NotFound(m) => assert_eq!(m, "Inbox not found"),
        e => panic!("unexpected {:?}", e),
    }
    match SdkError::from_api_response(422, response("validation_error", "Invalid email address format")) {
        SdkError::Validation(m) => assert_eq!(m, "Invalid email address format"),
        e => panic!("unexpected {:?}", e),
    }
    match SdkError::from_api_response(429, response("rate_limit_exceeded", "Too many requests")) {
        SdkError::RateLimited { reset_at } => assert_eq!(reset_at, 0),
        e => panic!("unexpected {:?}", e),
    }
}

#[test]
fn other_codes_keep_everything() {
    let details = ErrorDetails { field: Some("to".to_string()), reason: Some("must be a valid email address".to_string()) };
    let r = ApiErrorResponse {
        error: ApiError { code: "conflict".to_string(), message: "Duplicate".to_string(), details: Some(details) },
    };
    match SdkError::from_api_response(409, r) {
        SdkError::Api { status, code, message, details } => {
            assert_eq!(status, 409);
            assert_eq!(code, "conflict");
            assert_eq!(message, "Duplicate");
            let d = details.expect("details kept");
            assert_eq!(d.field.as_deref(), Some("to"));
            assert_eq!(d.reason.as_deref(), Some("must be a valid email address"));
        },
        e => panic!("unexpected {:?}", e),
    }
    // A code is matched exactly, not by prefix or case.
    match SdkError::from_api_response(404, response("Not_Found", "x")) {
        SdkError::Api { code, .. } => assert_eq!(code, "Not_Found"),
        e => panic!("unexpected {:?}", e),
    }
}

#[test]
fn status_messages() {
    assert_eq!(status_message_for(400), "Bad request");
    assert_eq!(status_message_for(401), "Unauthorized");
    assert_eq!(status_message_for(403), "Forbidden");
    assert_eq!(status_message_for(404), "Not found");
    assert_eq!(status_message_for(409), "Conflict");
    assert_eq!(status_message_for(422), "Validation error");
    assert_eq!(status_message_for(429), "Rate limited");
    assert_eq!(status_message_for(500), "Unknown error");
    assert_eq!(status_message_for(418), "Unknown error");
}

#[test]
fn error_for_unreadable_body() {
    match error_for_response(403, None) {
        SdkError::Api { status, code, message, details } => {
            assert_eq!(status, 403);
            assert_eq!(code, "unknown");
            assert_eq!(message, "Forbidden");
            assert!(details.is_none());
        },
        e => panic!("unexpected {:?}", e),
    }
    match error_for_response(503, None) {
        SdkError::Api { message, .. } => assert_eq!(message, "Unknown error"),
        e => panic!("unexpected {:?}", e),
    }
}

#[test]
fn error_for_readable_body() {
    match error_for_response(404, Some(response("not_found", "gone"))) {
        SdkError::NotFound(m) => assert_eq!(m, "gone"),
        e => panic!("unexpected {:?}", e),
    }
    match error_for_response(500, Some(response("internal_error", "boom"))) {
        SdkError::Api { status, code, message, .. } => {
            assert_eq!((status, code.as_str(), message.as_str()), (500, "internal_error", "boom"));
        },
        e => panic!("unexpected {:?}", e),
    }
}
