use provenian::error::ServiceError;
use provenian::wrapper::error::ServiceError as WrapperError;

fn message(e: &ServiceError) -> &str {
    match e {
        ServiceError::GeneralError(m) | ServiceError::Unauthorized(m) | ServiceError::DBError(m) => m,
        _ => "",
    }
}

#[test]
fn invalid_request_is_bad_request_with_inner_error() {
    let e = ServiceError::InvalidRequest(Box::new(ServiceError::GeneralError("bad".to_string())));
    let h = e.to_http_error();
    assert_eq!(h.status, 400);
    assert!(matches!(h.cause, ServiceError::GeneralError(_)));
    assert_eq!(message(&h.cause), "bad");
}

#[test]
fn internal_error_is_500_with_inner_error() {
    let e = ServiceError::InternalServerError(Box::new(ServiceError::DBError("down".to_string())));
    let h = e.to_http_error();
    assert_eq!(h.status, 500);
    assert!(matches!(h.cause, ServiceError::DBError(_)));
    assert_eq!(message(&h.cause), "down");
}

#[test]
fn unauthorized_is_401_with_message() {
    let h = ServiceError::Unauthorized("no".to_string()).to_http_error();
    assert_eq!(h.status, 401);
    assert!(matches!(h.cause, ServiceError::GeneralError(_)));
    assert_eq!(message(&h.cause), "no");
}

#[test]
fn other_errors_are_500_with_themselves() {
    let h = ServiceError::DBError("x".to_string()).to_http_error();
    assert_eq!(h.status, 500);
    assert!(matches!(h.cause, ServiceError::DBError(_)));
    let h = ServiceError::GeneralError("y".to_string()).to_http_error();
    assert_eq!(h.status, 500);
    assert!(matches!(h.cause, ServiceError::GeneralError(_)));
    let h = ServiceError::ParseError("z".to_string()).to_http_error();
    assert_eq!(h.status, 500);
    let h = ServiceError::DBConnectorError("c".to_string()).to_http_error();
    assert_eq!(h.status, 500);
    assert!(matches!(h.cause, ServiceError::DBConnectorError(_)));
}

#[test]
fn wrapper_db_error_keeps_message() {
    match WrapperError::from_db_error("gone".to_string()) {
        WrapperError::DBError(m) => assert_eq!(m, "gone"),
        _ => panic!("not a database error"),
    }
}
