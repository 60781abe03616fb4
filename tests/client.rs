use fimapi::client::{FimClient, GRANT_TYPE, TOKEN_URL};
use fimapi::response::FimError;
use fimapi::{version, version_str};
use serde_json::Value;

fn json(text: &str) -> Value {
    serde_json::from_str(text).unwrap()
}

#[test]
fn token_response_gives_bearer_token() {
    let body = json(r#"{"access_token":"abc123"}"#);
    let c = FimClient::from_token_response(&body, reqwest::Client::new()).unwrap();
    assert_eq!(c.bearer_token(), "Bearer abc123");
}

#[test]
fn token_response_without_token_is_refused() {
    for text in [r#"{"token":"abc"}"#, r#"{"access_token":5}"#, r#"[]"#] {
        let body = json(text);
        match FimClient::from_token_response(&body, reqwest::Client::new()) {
            Err(FimError::MissingAccessToken(v)) => assert_eq!(v, body),
            other => panic!("unexpected {:?}", other.map(|c| c.bearer_token().to_string())),
        }
    }
}

#[test]
fn from_token_keeps_the_token() {
    let c = FimClient::from_token("Bearer xyz".to_string());
    assert_eq!(c.bearer_token(), "Bearer xyz");
    assert_eq!(c.clone().bearer_token(), "Bearer xyz");
}

#[test]
fn token_request_form_fields() {
    let form = FimClient::token_request_form("id", "secret");
    assert_eq!(
        form,
        vec![
            ("client_id".to_string(), "id".to_string()),
            ("client_secret".to_string(), "secret".to_string()),
            ("grant_type".to_string(), "client_credentials".to_string()),
        ]
    );
    assert_eq!(GRANT_TYPE, "client_credentials");
    assert_eq!(TOKEN_URL, "https://www.fimfiction.net/api/v2/token");
}

#[test]
fn test_version_parse() {
    assert_eq!(version().to_string(), version_str())
}
