use axum_api_template::routes::health_check::health_check;
use axum_api_template::status::StatusCode;

#[test]
fn from_u16_accepts_three_digit_codes() {
    assert!(StatusCode::from_u16(99).is_err());
    assert!(StatusCode::from_u16(1000).is_err());
    assert!(StatusCode::from_u16(0).is_err());
    assert_eq!(StatusCode::from_u16(100).unwrap().as_u16(), 100);
    assert_eq!(StatusCode::from_u16(999).unwrap().as_u16(), 999);
}

#[test]
fn success_is_2xx() {
    assert!(StatusCode::from_u16(200).unwrap().is_success());
    assert!(StatusCode::from_u16(204).unwrap().is_success());
    assert!(!StatusCode::from_u16(199).unwrap().is_success());
    assert!(!StatusCode::from_u16(300).unwrap().is_success());
}

#[test]
fn health_check_is_ok() {
    assert_eq!(health_check().as_u16(), 200);
}
