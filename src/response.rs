//! Responses of the FimFiction API: how a response is classified by its status,
//! and how the error envelope of a client error is read.
//!
//! An error envelope is a JSON object whose `errors` member is an array; its
//! first element holds the numeric `code` of the error and, optionally, its
//! `meta` data.

use vstd::prelude::*;

use serde_json::Value;

pub mod error;

pub use error::{APIError, FimError};

use crate::json::{json_items, json_member};
use crate::response::error::{decoded_entry, InvalidErrorCode};

verus! {

/// What is done with a response, by the class of its HTTP status.
#[derive(Debug, Copy, Clone, PartialEq, Eq, Structural)]
pub enum ResponseClass {
    /// A 4xx status: the body is an error envelope.
    ClientError,
    /// A 5xx status: a transport-level error; the body is not read.
    ServerError,
    /// Any other status: the body is the payload.
    Success,
}

/// The class of the HTTP status `status`.
pub open spec fn class_of(status: u16) -> ResponseClass {
    if 400 <= status < 500 {
        ResponseClass::ClientError
    } else if 500 <= status < 600 {
        ResponseClass::ServerError
    } else {
        ResponseClass::Success
    }
}

/// Classifies a response by its HTTP status.
pub fn classify_status(status: u16) -> (r: ResponseClass)
    ensures
        r == class_of(status),
{
    if 400 <= status && status < 500 {
        ResponseClass::ClientError
    } else if 500 <= status && status < 600 {
        ResponseClass::ServerError
    } else {
        ResponseClass::Success
    }
}

/// The first entry of the `errors` array of `body`, if it has one.
pub open spec fn first_error(body: Value) -> Option<Value> {
    match json_member(body, "errors"@) {
        Some(errors) => match json_items(errors) {
            Some(entries) => if entries.len() > 0 {
                Some(entries[0])
            } else {
                None
            },
            None => None,
        },
        None => None,
    }
}

/// Whether `r` is what reading the error envelope `body` gives: the body as
/// invalid where it has no first error entry, else the decoding of that entry.
pub open spec fn extracted(body: Value, r: Result<APIError, InvalidErrorCode>) -> bool {
    match first_error(body) {
        None => r == Err::<APIError, InvalidErrorCode>(InvalidErrorCode::Invalid(body)),
        Some(entry) => decoded_entry(entry, r),
    }
}

/// Reads the error that the error envelope `body` reports.
pub fn extract_error(body: &Value) -> (r: Result<APIError, InvalidErrorCode>)
    ensures
        extracted(*body, r),
{
    let entry = match crate::json::member(body, "errors") {
        Some(errors) => match crate::json::items(errors) {
            Some(entries) => {
                if entries.len() > 0 {
                    &entries[0]
                } else {
                    return Err(InvalidErrorCode::Invalid(body.clone()));
                }
            },
            None => return Err(InvalidErrorCode::Invalid(body.clone())),
        },
        None => return Err(InvalidErrorCode::Invalid(body.clone())),
    };
    APIError::from_entry(entry)
}

/// Whether `r` is the error that a client-error response with the JSON body
/// `body` gives: the error it reports, or the failure to read one.
pub open spec fn error_of_body(body: Value, r: FimError) -> bool {
    match r {
        FimError::API(a) => extracted(body, Ok(a)),
        FimError::InvalidResponse(e) => extracted(body, Err(e)),
        _ => false,
    }
}

/// The error that a client-error (4xx) response with the JSON body `body`
/// gives.
pub fn client_error(body: &Value) -> (r: FimError)
    ensures
        error_of_body(*body, r),
{
    match extract_error(body) {
        Ok(a) => FimError::API(a),
        Err(e) => FimError::InvalidResponse(e),
    }
}

} // verus!
