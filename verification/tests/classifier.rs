use user_api::app_error::{AppError, JsonRejection};
use user_api::rules::{Rule, Violation};

fn sample_violation() -> Violation {
    Violation { field: "username", rule: Rule::Length { min: 3, max: 30 }, message: None }
}

#[test]
fn rejected_body_is_400_with_the_diagnostic() {
    let rejection = JsonRejection { body_text: String::from("expected value at line 1 column 1") };
    let response = AppError::JsonRejection(rejection).into_response();
    assert_eq!(response.status, 400);
    assert_eq!(response.body, "expected value at line 1 column 1");
}

#[test]
fn validation_is_400() {
    let response = AppError::Validation(vec![sample_violation()]).into_response();
    assert_eq!(response.status, 400);
    assert_eq!(response.body, "Validation error");
}

#[test]
fn validation_body_does_not_depend_on_the_violations() {
    let none = AppError::Validation(Vec::new()).into_response();
    let two = AppError::Validation(vec![sample_violation(), sample_violation()]).into_response();
    assert_eq!(none.status, two.status);
    assert_eq!(none.body, two.body);
}

#[test]
fn query_rejection_is_400() {
    let response = AppError::QueryRejection.into_response();
    assert_eq!(response.status, 400);
    assert_eq!(response.body, "Query Rejection");
}

#[test]
fn bad_request_is_400() {
    let response = AppError::BadRequest.into_response();
    assert_eq!(response.status, 400);
    assert_eq!(response.body, "Bad Request");
}

#[test]
fn unauthorized_is_401() {
    let response = AppError::Unauthorized.into_response();
    assert_eq!(response.status, 401);
    assert_eq!(response.body, "Unauthorized");
}

#[test]
fn not_found_is_404() {
    let response = AppError::NotFound.into_response();
    assert_eq!(response.status, 404);
    assert_eq!(response.body, "Not Found");
}

#[test]
fn conflict_is_409() {
    let response = AppError::Conflict.into_response();
    assert_eq!(response.status, 409);
    assert_eq!(response.body, "Conflict");
}

#[test]
fn internal_error_is_500_and_hides_its_cause() {
    let cause = anyhow::Error::msg("connection to db-7 refused");
    let response = AppError::InternalError(cause).into_response();
    assert_eq!(response.status, 500);
    assert_eq!(response.body, "Internal server error");
    assert!(!response.body.contains("db-7"));
}

#[test]
fn internal_errors_with_different_causes_render_alike() {
    let first = AppError::InternalError(anyhow::Error::msg("disk full")).into_response();
    let second = AppError::InternalError(anyhow::Error::msg("timeout")).into_response();
    assert_eq!(first.status, second.status);
    assert_eq!(first.body, second.body);
}

#[test]
fn rendering_twice_gives_the_same_response() {
    let first = AppError::NotFound.into_response();
    let second = AppError::NotFound.into_response();
    assert_eq!(first.status, second.status);
    assert_eq!(first.body, second.body);
}

#[test]
fn from_a_rejection() {
    let error = AppError::from(JsonRejection { body_text: String::from("eof") });
    assert!(matches!(error, AppError::JsonRejection(ref r) if r.body_text == "eof"));
}

#[test]
fn from_violations() {
    let error = AppError::from(vec![sample_violation()]);
    assert!(matches!(error, AppError::Validation(ref found) if found.len() == 1));
}

#[test]
fn from_an_internal_cause() {
    let error = AppError::from(anyhow::Error::msg("boom"));
    assert!(matches!(error, AppError::InternalError(ref cause) if cause.to_string() == "boom"));
}
