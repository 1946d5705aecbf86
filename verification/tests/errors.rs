use axum::http::StatusCode as HttpStatus;
use axum_api_template::errors::{error_chain_fmt, ApiError};
use axum_api_template::status::StatusCode;

#[test]
fn test_status_code_mapping() {
    assert_eq!(ApiError::BadRequest("test".into()).status_code().as_u16(), HttpStatus::BAD_REQUEST.as_u16());
    assert_eq!(ApiError::Unauthorized("test".into()).status_code().as_u16(), HttpStatus::UNAUTHORIZED.as_u16());
    assert_eq!(ApiError::Forbidden("test".into()).status_code().as_u16(), HttpStatus::FORBIDDEN.as_u16());
    assert_eq!(ApiError::NotFound("test".into()).status_code().as_u16(), HttpStatus::NOT_FOUND.as_u16());
    assert_eq!(ApiError::Conflict("test".into()).status_code().as_u16(), HttpStatus::CONFLICT.as_u16());
    assert_eq!(
        ApiError::UnprocessableEntity("test".into()).status_code().as_u16(),
        HttpStatus::UNPROCESSABLE_ENTITY.as_u16()
    );
    assert_eq!(
        ApiError::Internal("test".into()).status_code().as_u16(),
        HttpStatus::INTERNAL_SERVER_ERROR.as_u16()
    );
}

#[test]
fn test_message_formatting() {
    let error = ApiError::NotFound("User 123".into());
    assert_eq!(error.message(), "Not Found: User 123");
}

#[test]
fn status_code_values_are_exact() {
    assert_eq!(ApiError::BadRequest("x".into()).status_code(), StatusCode::from_u16(400).unwrap());
    assert_eq!(ApiError::Internal("x".into()).status_code(), StatusCode::from_u16(500).unwrap());
}

#[test]
fn message_of_every_kind() {
    assert_eq!(ApiError::BadRequest("Invalid input".into()).message(), "Bad Request: Invalid input");
    assert_eq!(ApiError::Unauthorized("no token".into()).message(), "Unauthorized: no token");
    assert_eq!(ApiError::Forbidden("admins only".into()).message(), "Forbidden: admins only");
    assert_eq!(ApiError::Conflict("exists".into()).message(), "Conflict: exists");
    assert_eq!(ApiError::UnprocessableEntity("bad email".into()).message(), "Unprocessable Entity: bad email");
    assert_eq!(ApiError::Internal("db down".into()).message(), "Internal Server Error: db down");
    assert_eq!(ApiError::NotFound(String::new()).message(), "Not Found: ");
}

#[test]
fn display_text_of_every_kind() {
    assert_eq!(ApiError::BadRequest("Invalid email".into()).to_display_string(), "Bad request: Invalid email");
    assert_eq!(ApiError::Unauthorized("a".into()).to_display_string(), "Unauthorized: a");
    assert_eq!(ApiError::Forbidden("b".into()).to_display_string(), "Forbidden: b");
    assert_eq!(ApiError::NotFound("User 123".into()).to_display_string(), "Resource not found: User 123");
    assert_eq!(ApiError::Conflict("c".into()).to_display_string(), "Conflict: c");
    assert_eq!(ApiError::UnprocessableEntity("d".into()).to_display_string(), "Unprocessable entity: d");
    assert_eq!(ApiError::Internal("e".into()).to_display_string(), "Internal server error: e");
}

#[test]
fn debug_text_has_no_causes() {
    assert_eq!(ApiError::BadRequest("Invalid email".into()).to_debug_string(), "Bad request: Invalid email\n\n");
}

#[test]
fn error_chain_lists_each_cause() {
    let causes = vec!["Invalid email format".to_string(), "missing @".to_string()];
    assert_eq!(
        error_chain_fmt("Bad request: Invalid email", &causes),
        "Bad request: Invalid email\n\nCaused by:\n    Invalid email format\nCaused by:\n    missing @\n"
    );
    assert_eq!(error_chain_fmt("top", &Vec::new()), "top\n\n");
}

#[test]
fn error_response_envelope() {
    let error = ApiError::BadRequest("Invalid input".into());
    let (status, body) = error.error_response();
    assert_eq!(status.as_u16(), 400);
    assert!(!body.success);
    assert_eq!(body.message, "Bad Request: Invalid input");
    assert!(body.time.nanoseconds < 1_000_000_000);
}

#[test]
fn error_statuses_are_never_success() {
    let errors = vec![
        ApiError::BadRequest("a".into()),
        ApiError::Unauthorized("a".into()),
        ApiError::Forbidden("a".into()),
        ApiError::NotFound("a".into()),
        ApiError::Conflict("a".into()),
        ApiError::UnprocessableEntity("a".into()),
        ApiError::Internal("a".into()),
    ];
    for e in errors {
        let s = e.status_code();
        assert!(!s.is_success());
        assert!(s.as_u16() >= 400 && s.as_u16() < 600);
    }
}

#[test]
fn messages_tell_errors_apart() {
    let a = ApiError::Unauthorized("x".into()).message();
    let b = ApiError::UnprocessableEntity("x".into()).message();
    assert_ne!(a, b);
    assert_ne!(ApiError::NotFound("a".into()).message(), ApiError::NotFound("b".into()).message());
    assert_ne!(ApiError::Conflict("".into()).message(), ApiError::Forbidden("".into()).message());
}
