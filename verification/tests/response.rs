use axum_api_template::response::{ApiResponse, ApiResult};
use axum_api_template::errors::ApiError;
use axum_api_template::status::StatusCode;

#[test]
fn test_ok_response() {
    let response = ApiResponse::ok("test data");
    assert!(response.success);
    assert!(response.message.is_none());
    assert_eq!(response.data, Some("test data"));
}

#[test]
fn test_with_status_created() {
    let response = ApiResponse::with_status(StatusCode::from_u16(201).unwrap(), 42);
    assert!(response.success);
    assert_eq!(response.data, Some(42));
}

#[test]
fn test_with_message() {
    let response = ApiResponse::with_message("data", "Custom message");
    assert!(response.success);
    assert_eq!(response.message, Some("Custom message".to_string()));
}

#[test]
fn test_empty_response() {
    let response = ApiResponse::empty();
    assert!(response.success);
    assert!(response.data.is_none());
}

#[test]
fn non_success_status_gives_unsuccessful_envelope() {
    let response = ApiResponse::with_status(StatusCode::from_u16(404).unwrap(), "x");
    assert!(!response.success);
    assert_eq!(response.response_status().as_u16(), 404);
    let response = ApiResponse::with_status(StatusCode::from_u16(299).unwrap(), "x");
    assert!(response.success);
    let response = ApiResponse::with_status(StatusCode::from_u16(300).unwrap(), "x");
    assert!(!response.success);
    let response = ApiResponse::with_status(StatusCode::from_u16(199).unwrap(), "x");
    assert!(!response.success);
}

#[test]
fn created_envelope_is_sent_with_201() {
    let response = ApiResponse::with_status(StatusCode::from_u16(201).unwrap(), "new-resource-id");
    assert!(response.success);
    assert_eq!(response.response_status().as_u16(), 201);
    assert_eq!(response.data, Some("new-resource-id"));
    assert!(response.message.is_none());
}

#[test]
fn successful_envelope_is_sent_with_ok() {
    assert_eq!(ApiResponse::ok(1).response_status().as_u16(), 200);
    assert_eq!(ApiResponse::empty().response_status().as_u16(), 200);
    assert_eq!(ApiResponse::with_message(1, "m").response_status().as_u16(), 200);
}

#[test]
fn handler_result_alias() {
    let found: ApiResult<String> = Ok(ApiResponse::ok("Item 1".to_string()));
    let missing: ApiResult<String> = Err(ApiError::NotFound("Item not found".into()));
    assert!(found.is_ok());
    match missing {
        Err(e) => assert_eq!(e.message(), "Not Found: Item not found"),
        Ok(_) => panic!("expected an error"),
    }
}
