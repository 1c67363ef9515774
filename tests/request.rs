use mattermost_api::errors::ApiError;
use mattermost_api::models::MattermostError;
use mattermost_api::request::{check_response, is_success};
use mattermost_api::text::{bool_text, contains_text, decimal_text, same_text, trim_start_char};

fn remote_error() -> MattermostError {
    MattermostError {
        id: "api.context.404.app_error".to_string(),
        message: "Sorry, we could not find the page.".to_string(),
        request_id: "r1".to_string(),
        status_code: 404,
        is_oauth: Some(false),
    }
}

#[test]
fn success_statuses_are_the_2xx_range() {
    assert!(!is_success(199));
    assert!(is_success(200));
    assert!(is_success(204));
    assert!(is_success(299));
    assert!(!is_success(300));
    assert!(!is_success(404));
}

#[test]
fn structured_error_body_becomes_the_remote_error() {
    match check_response(404, Some(remote_error())) {
        Err(ApiError::MattermostApiError(e)) => assert_eq!(e, remote_error()),
        other => panic!("unexpected {other:?}"),
    }
}

#[test]
fn unparseable_error_body_becomes_the_status_error() {
    assert!(matches!(check_response(500, None), Err(ApiError::StatusCodeError(500))));
    assert!(matches!(check_response(302, None), Err(ApiError::StatusCodeError(302))));
}

#[test]
fn success_ignores_any_error_body() {
    assert!(check_response(200, None).is_ok());
    assert!(check_response(201, Some(remote_error())).is_ok());
}

#[test]
fn text_helpers_behave() {
    assert!(contains_text("{\"seq_reply\":2}", "seq_reply"));
    assert!(!contains_text("{\"seq\":2}", "seq_reply"));
    assert!(contains_text("abc", ""));
    assert!(!contains_text("", "a"));
    assert_eq!(trim_start_char("//a/b", '/'), "a/b");
    assert_eq!(trim_start_char("a/", '/'), "a/");
    assert_eq!(trim_start_char("///", '/'), "");
    assert_eq!(decimal_text(0), "0");
    assert_eq!(decimal_text(10), "10");
    assert_eq!(decimal_text(9876543210), "9876543210");
    assert_eq!(bool_text(true), "true");
    assert_eq!(bool_text(false), "false");
    assert!(same_text("é", "é"));
    assert!(!same_text("a", "ab"));
}
