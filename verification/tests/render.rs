use poc_handler::error::ApiError;
use poc_handler::error::FieldViolations;
use poc_handler::error::HeaderPair;
use poc_handler::error::ValidationErrors;
use poc_handler::state::AppState;

#[test]
fn not_found_body() {
    let e = ApiError::not_found();
    assert_eq!(
        e.to_json(),
        "{\"status\":404,\"error_message\":\"Resource not found\",\"validation_errors\":null}"
    );
}

#[test]
fn validation_body_has_detail() {
    let e = ApiError::from_validation_errors(ValidationErrors {
        entries: vec![
            FieldViolations {
                field: "name".to_string(),
                messages: vec!["required".to_string(), "too short".to_string()],
            },
            FieldViolations { field: "age".to_string(), messages: vec!["negative".to_string()] },
        ],
    });
    assert_eq!(
        e.to_json(),
        "{\"status\":400,\"error_message\":\"Invalid payload\",\"validation_errors\":{\"name\":[\"required\",\"too short\"],\"age\":[\"negative\"]}}"
    );
}

#[test]
fn empty_validation_set_renders_empty_object() {
    let e = ApiError::from_validation_errors(ValidationErrors { entries: Vec::new() });
    assert_eq!(
        e.to_json(),
        "{\"status\":400,\"error_message\":\"Invalid payload\",\"validation_errors\":{}}"
    );
}

#[test]
fn body_escapes_quotes_backslashes_and_controls() {
    let e = ApiError::bad_request("a \"b\" c\\d\ne\tf");
    assert_eq!(
        e.to_json(),
        "{\"status\":400,\"error_message\":\"a \\\"b\\\" c\\\\d\\u000ae\\u0009f\",\"validation_errors\":null}"
    );
}

#[test]
fn body_never_contains_headers() {
    let headers = vec![HeaderPair { name: "Retry-After".to_string(), value: "30".to_string() }];
    let with_headers = ApiError::locked("locked".to_string(), Some(headers));
    let without_headers = ApiError::locked("locked".to_string(), None);
    assert_eq!(with_headers.to_json(), without_headers.to_json());
    assert_eq!(
        with_headers.to_json(),
        "{\"status\":423,\"error_message\":\"locked\",\"validation_errors\":null}"
    );
    assert!(!with_headers.to_json().contains("Retry-After"));
}

#[test]
fn three_digit_statuses_render_in_decimal() {
    assert!(ApiError::no_content().to_json().starts_with("{\"status\":204,"));
    assert!(ApiError::service_unavailable("x".to_string()).to_json().starts_with(
        "{\"status\":503,"
    ));
}

#[test]
fn app_state_keeps_name() {
    let s = AppState::build("poc-handler".to_string());
    assert_eq!(s.app_name, "poc-handler");
}
