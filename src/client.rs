//! A client of the FimFiction API: a bearer token and the HTTP client that
//! carries it.
//!
//! The token exchange itself is a network call; this module holds what is
//! decided around it: the form that is sent, and the client that the token
//! response yields.

use vstd::prelude::*;

use serde_json::Value;
use vstd::string::StringExecFns;

use crate::json::{json_member, json_text};
use crate::response::FimError;

verus! {

/// The URL of the FimFiction API.
pub const BASE_URL: &'static str = "https://www.fimfiction.net/api/v2";

/// The endpoint of the OAuth token exchange.
pub const TOKEN_URL: &'static str = "https://www.fimfiction.net/api/v2/token";

/// The grant type of the client-credentials flow.
pub const GRANT_TYPE: &'static str = "client_credentials";

/// The prefix of every bearer token.
pub const BEARER_PREFIX: &'static str = "Bearer ";

/// Relies on `reqwest::Client::default`, an HTTP client with the default
/// configuration. It panics where no TLS backend or resolver can be set up.
#[verifier::external_body]
fn default_http() -> (r: reqwest::Client) {
    reqwest::Client::default()
}

/// A client of the FimFiction API, holding a bearer token of the form
/// `Bearer <token>` and the HTTP client that sends requests.
#[derive(Clone, Debug)]
pub struct FimClient {
    bearer_token: String,
    client: reqwest::Client,
}

/// The access token of a token response, where it has one as a string.
pub open spec fn access_token_of(body: Value) -> Option<Seq<char>> {
    match json_member(body, "access_token"@) {
        Some(t) => json_text(t),
        None => None,
    }
}

impl View for FimClient {
    type V = Seq<char>;

    /// The bearer token that the client holds.
    closed spec fn view(&self) -> Seq<char> {
        self.bearer_token@
    }
}

impl FimClient {
    /// The form of the token exchange for the given client id and secret.
    pub fn token_request_form(client_id: &str, client_secret: &str) -> (r: Vec<(String, String)>)
        ensures
            r@.len() == 3,
            r@[0].0@ == "client_id"@ && r@[0].1@ == client_id@,
            r@[1].0@ == "client_secret"@ && r@[1].1@ == client_secret@,
            r@[2].0@ == "grant_type"@ && r@[2].1@ == GRANT_TYPE@,
    {
        let mut form: Vec<(String, String)> = Vec::new();
        form.push(("client_id".to_owned(), client_id.to_owned()));
        form.push(("client_secret".to_owned(), client_secret.to_owned()));
        form.push(("grant_type".to_owned(), GRANT_TYPE.to_owned()));
        form
    }

    /// The client that a successful token exchange yields: its bearer token is
    /// `Bearer ` followed by the `access_token` of the response `body`. A body
    /// without an `access_token` string is refused.
    pub fn from_token_response(body: &Value, http: reqwest::Client) -> (r: Result<FimClient, FimError>)
        ensures
            match access_token_of(*body) {
                Some(t) => r matches Ok(c) && c@ == BEARER_PREFIX@ + t,
                None => r == Err::<FimClient, FimError>(FimError::MissingAccessToken(*body)),
            },
    {
        let token = match crate::json::member(body, "access_token") {
            Some(t) => match crate::json::as_text(t) {
                Some(s) => s,
                None => return Err(FimError::MissingAccessToken(body.clone())),
            },
            None => return Err(FimError::MissingAccessToken(body.clone())),
        };
        let bearer_token = BEARER_PREFIX.to_owned().concat(token);
        Ok(FimClient { bearer_token, client: http })
    }

    /// Creates a client from the given bearer token. The token is not checked:
    /// an invalid one shows as errors of the requests made with it.
    pub fn from_token(tok: String) -> (r: FimClient)
        ensures
            r@ == tok@,
    {
        FimClient { bearer_token: tok, client: default_http() }
    }

    /// The bearer token, which may be saved and used again later.
    pub fn bearer_token(&self) -> (r: &str)
        ensures
            r@ == self@,
    {
        self.bearer_token.as_str()
    }
}

} // verus!
