use std::convert::TryFrom;

use fimapi::response::error::{ErrorKind, Forbidden, InvalidErrorCode, NotFound};
use fimapi::response::{classify_status, client_error, extract_error, FimError, ResponseClass};
use fimapi::response::APIError;
use serde_json::Value;

fn json(text: &str) -> Value {
    serde_json::from_str(text).unwrap()
}

#[test]
fn forbidden_envelope_with_meta() {
    assert_eq!(classify_status(403), ResponseClass::ClientError);
    let body = json(r#"{"errors":[{"code":4311,"meta":{"x":1}}]}"#);
    // 4311 names no error: its family, 431, is unknown.
    match client_error(&body) {
        FimError::InvalidResponse(InvalidErrorCode::BadCode(c)) => assert_eq!(c, 4311),
        other => panic!("unexpected {:?}", other),
    }
}

#[test]
fn forbidden_invalid_token_envelope_with_meta() {
    let body = json(r#"{"errors":[{"code":4032,"meta":{"x":1}}]}"#);
    match client_error(&body) {
        FimError::API(e) => {
            assert_eq!(e.kind(), ErrorKind::Forbidden(Forbidden::InvalidToken));
            assert_eq!(e.meta(), &json(r#"{"x":1}"#));
        }
        other => panic!("unexpected {:?}", other),
    }
}

#[test]
fn missing_meta_defaults_to_null() {
    let body = json(r#"{"errors":[{"code":4040}]}"#);
    let e = extract_error(&body).unwrap();
    assert_eq!(e.kind(), ErrorKind::NotFound(NotFound::ResourceNotFound));
    assert!(e.meta().is_null());
}

#[test]
fn only_the_first_error_counts() {
    let body = json(r#"{"errors":[{"code":4290},{"code":4001}]}"#);
    assert_eq!(extract_error(&body).unwrap().kind(), ErrorKind::RateLimited);
}

#[test]
fn server_error_is_not_read() {
    assert_eq!(classify_status(500), ResponseClass::ServerError);
    assert_eq!(classify_status(503), ResponseClass::ServerError);
    assert_eq!(classify_status(599), ResponseClass::ServerError);
}

#[test]
fn status_classes() {
    assert_eq!(classify_status(200), ResponseClass::Success);
    assert_eq!(classify_status(302), ResponseClass::Success);
    assert_eq!(classify_status(399), ResponseClass::Success);
    assert_eq!(classify_status(400), ResponseClass::ClientError);
    assert_eq!(classify_status(499), ResponseClass::ClientError);
    assert_eq!(classify_status(600), ResponseClass::Success);
}

#[test]
fn body_without_errors_is_invalid() {
    assert_eq!(classify_status(400), ResponseClass::ClientError);
    let body = json(r#"{"message":"bad"}"#);
    match extract_error(&body) {
        Err(InvalidErrorCode::Invalid(v)) => assert_eq!(v, body),
        other => panic!("unexpected {:?}", other),
    }
    match client_error(&body) {
        FimError::InvalidResponse(InvalidErrorCode::Invalid(v)) => assert_eq!(v, body),
        other => panic!("unexpected {:?}", other),
    }
}

#[test]
fn envelope_shapes_that_hold_no_code() {
    for text in [
        r#"{"errors":[]}"#,
        r#"{"errors":{"code":4001}}"#,
        r#"[{"code":4001}]"#,
        r#"null"#,
    ] {
        let body = json(text);
        match extract_error(&body) {
            Err(InvalidErrorCode::Invalid(v)) => assert_eq!(v, body),
            other => panic!("unexpected {:?} for {}", other, text),
        }
    }
}

#[test]
fn entry_without_a_usable_code_is_invalid() {
    for entry in [r#"{"meta":1}"#, r#"{"code":"4001"}"#, r#"{"code":-1}"#, r#"{"code":4001.5}"#] {
        let body = json(&format!(r#"{{"errors":[{}]}}"#, entry));
        match extract_error(&body) {
            Err(InvalidErrorCode::Invalid(v)) => assert_eq!(v, json(entry)),
            other => panic!("unexpected {:?} for {}", other, entry),
        }
    }
}

#[test]
fn entry_decodes_through_try_from() {
    let entry = json(r#"{"code":4220,"meta":"m"}"#);
    let e = APIError::try_from(entry).unwrap();
    assert_eq!(e.kind(), ErrorKind::try_from(4220u64).unwrap());
    assert_eq!(e.meta(), &json(r#""m""#));
}
