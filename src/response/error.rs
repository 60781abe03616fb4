//! The errors that the FimFiction API reports, and how their numeric codes
//! decode.
//!
//! A code names a family (the HTTP status the error comes with) and, in its
//! low digits, a cause within that family. For 400, 403 and 404 the code is
//! `family * 10 + index`. For 422 it is `4220 + index` below 10000 and
//! `42200 + index` from 10000 on; the API uses both. Every code of 429
//! (`4290` to `4299`) means rate limiting.

use vstd::prelude::*;

use serde_json::Value;

use crate::json::{json_is_null, json_member, json_u64};

verus! {

/// A code or a response that could not be decoded into an [APIError].
#[derive(Debug, Clone)]
pub enum InvalidErrorCode {
    /// A numeric code that names no known error.
    BadCode(u64),
    /// A value whose shape does not hold an error code at all.
    Invalid(Value),
}

/// 400 errors.
#[derive(Debug, Copy, Clone, PartialEq, Eq, Structural)]
pub enum Malformed {
    /// The body of the request was not valid. It should be valid JSON.
    Body,
    /// The requested included resource was not valid.
    Include,
}

/// 403 errors.
#[derive(Debug, Copy, Clone, PartialEq, Eq, Structural)]
pub enum Forbidden {
    /// The authenticated user is not allowed to do what was asked, for example
    /// to edit a story that the user does not own.
    InvalidPermission,
    /// The token used lacks the scope that the request needs.
    MissingScope,
    /// The token used for the request was not valid.
    InvalidToken,
}

/// 404 errors.
#[derive(Debug, Copy, Clone, PartialEq, Eq, Structural)]
pub enum NotFound {
    /// The requested resource was not found.
    ResourceNotFound,
    /// The requested application does not exist.
    InvalidApplication,
    /// The requested endpoint does not exist.
    EndpointMissing,
}

/// 422 errors.
#[derive(Debug, Copy, Clone, PartialEq, Eq, Structural)]
pub enum Unprocessable {
    /// A parameter required for the request was not present.
    MissingParameter,
    /// An argument was invalid.
    InvalidArgument,
    /// The secret submitted as part of a token exchange was incorrect.
    /// Check you have the correct secret for the client ID you are using.
    IncorrectSecret,
    /// The grant type provided as part of a token exchange was not permitted.
    InvalidGrantType,
    /// The authorization header was missing.
    /// Submit an `Authorization` header with your request in order to be authenticated.
    MissingAuthHeader,
    /// Some or all of the submitted attributes as part of a PATCH/POST request were not valid.
    InvalidAttributes,
    /// One of the attributes submitted is not supported.
    UnsupportedAttribute,
    /// The provided filter is not supported.
    InvalidFilter,
    /// One or more of the pagination properties provided was not valid.
    InvalidPagination,
    /// The HTTP Authorization header was malformed.
    /// It should be in the format of `Bearer access_token`.
    MalformedAuthHeader,
    /// One or more of the attributes provided as part of a PATCH/POST request was not valid.
    InvalidAttribute,
    /// The provided sort field is not valid.
    InvalidSortField,
    /// The provided sort field was malformed.
    MalformedSortField,
}

/// The type of error received from FimFiction.
#[derive(Debug, Copy, Clone, PartialEq, Eq, Structural)]
pub enum ErrorKind {
    /// 400 errors.
    Malformed(Malformed),
    /// 403 errors.
    Forbidden(Forbidden),
    /// 404 errors.
    NotFound(NotFound),
    /// 422 errors.
    Unprocessable(Unprocessable),
    /// 429 errors.
    RateLimited,
}

impl Malformed {
    /// The cause with the given index within the family.
    pub open spec fn from_index(i: u64) -> Option<Malformed> {
        match i {
            1 => Some(Malformed::Body),
            2 => Some(Malformed::Include),
            _ => None,
        }
    }

    /// The index of the cause within the family.
    pub open spec fn index(self) -> u64 {
        match self {
            Malformed::Body => 1,
            Malformed::Include => 2,
        }
    }
}

impl Forbidden {
    /// The cause with the given index within the family.
    pub open spec fn from_index(i: u64) -> Option<Forbidden> {
        match i {
            0 => Some(Forbidden::InvalidPermission),
            1 => Some(Forbidden::MissingScope),
            2 => Some(Forbidden::InvalidToken),
            _ => None,
        }
    }

    /// The index of the cause within the family.
    pub open spec fn index(self) -> u64 {
        match self {
            Forbidden::InvalidPermission => 0,
            Forbidden::MissingScope => 1,
            Forbidden::InvalidToken => 2,
        }
    }
}

impl NotFound {
    /// The cause with the given index within the family.
    pub open spec fn from_index(i: u64) -> Option<NotFound> {
        match i {
            0 => Some(NotFound::ResourceNotFound),
            1 => Some(NotFound::InvalidApplication),
            2 => Some(NotFound::EndpointMissing),
            _ => None,
        }
    }

    /// The index of the cause within the family.
    pub open spec fn index(self) -> u64 {
        match self {
            NotFound::ResourceNotFound => 0,
            NotFound::InvalidApplication => 1,
            NotFound::EndpointMissing => 2,
        }
    }
}

impl Unprocessable {
    /// The cause with the given index within the family.
    pub open spec fn from_index(i: u64) -> Option<Unprocessable> {
        match i {
        0 => Some(Unprocessable::MissingParameter),
        1 => Some(Unprocessable::InvalidArgument),
        2 => Some(Unprocessable::IncorrectSecret),
        3 => Some(Unprocessable::InvalidGrantType),
        4 => Some(Unprocessable::MissingAuthHeader),
        5 => Some(Unprocessable::InvalidAttributes),
        6 => Some(Unprocessable::UnsupportedAttribute),
        7 => Some(Unprocessable::InvalidFilter),
        8 => Some(Unprocessable::InvalidPagination),
        9 => Some(Unprocessable::MalformedAuthHeader),
        10 => Some(Unprocessable::InvalidAttribute),
        11 => Some(Unprocessable::InvalidSortField),
        12 => Some(Unprocessable::MalformedSortField),
            _ => None,
        }
    }

    /// The index of the cause within the family.
    pub open spec fn index(self) -> u64 {
        match self {
            Unprocessable::MissingParameter => 0,
            Unprocessable::InvalidArgument => 1,
            Unprocessable::IncorrectSecret => 2,
            Unprocessable::InvalidGrantType => 3,
            Unprocessable::MissingAuthHeader => 4,
            Unprocessable::InvalidAttributes => 5,
            Unprocessable::UnsupportedAttribute => 6,
            Unprocessable::InvalidFilter => 7,
            Unprocessable::InvalidPagination => 8,
            Unprocessable::MalformedAuthHeader => 9,
            Unprocessable::InvalidAttribute => 10,
            Unprocessable::InvalidSortField => 11,
            Unprocessable::MalformedSortField => 12,
        }
    }
}

/// The 400 error that `code` names, if any.
pub open spec fn malformed_of(code: u64) -> Option<Malformed> {
    if code / 10 == 400 {
        Malformed::from_index(code % 10)
    } else {
        None
    }
}

/// The 403 error that `code` names, if any.
pub open spec fn forbidden_of(code: u64) -> Option<Forbidden> {
    if code / 10 == 403 {
        Forbidden::from_index(code % 10)
    } else {
        None
    }
}

/// The 404 error that `code` names, if any.
pub open spec fn not_found_of(code: u64) -> Option<NotFound> {
    if code / 10 == 404 {
        NotFound::from_index(code % 10)
    } else {
        None
    }
}

/// The 422 error that `code` names, if any: a code from 10000 on carries the
/// index in its last two digits, a smaller one in its last digit.
pub open spec fn unprocessable_of(code: u64) -> Option<Unprocessable> {
    if code >= 10000 {
        if code / 100 == 422 {
            Unprocessable::from_index(code % 100)
        } else {
            None
        }
    } else if code / 10 == 422 {
        Unprocessable::from_index(code % 10)
    } else {
        None
    }
}

/// The error that `code` names, if any.
pub open spec fn kind_of_code(code: u64) -> Option<ErrorKind> {
    if code / 10 == 400 {
        match malformed_of(code) {
            Some(k) => Some(ErrorKind::Malformed(k)),
            None => None,
        }
    } else if code / 10 == 403 {
        match forbidden_of(code) {
            Some(k) => Some(ErrorKind::Forbidden(k)),
            None => None,
        }
    } else if code / 10 == 404 {
        match not_found_of(code) {
            Some(k) => Some(ErrorKind::NotFound(k)),
            None => None,
        }
    } else if code / 10 == 429 {
        Some(ErrorKind::RateLimited)
    } else {
        match unprocessable_of(code) {
            Some(k) => Some(ErrorKind::Unprocessable(k)),
            None => None,
        }
    }
}

/// The outcome of decoding `code` with a decoder whose known codes are those
/// for which `known` holds a value: that value, or the code as a bad one.
pub open spec fn decoded<T>(known: Option<T>, code: u64) -> Result<T, InvalidErrorCode> {
    match known {
        Some(k) => Ok(k),
        None => Err(InvalidErrorCode::BadCode(code)),
    }
}

impl TryFrom<u64> for Malformed {
    type Error = InvalidErrorCode;

    fn try_from(value: u64) -> Result<Malformed, InvalidErrorCode> {
        if value / 10 != 400 {
            return Err(InvalidErrorCode::BadCode(value));
        }
        match value % 10 {
            1 => Ok(Malformed::Body),
            2 => Ok(Malformed::Include),
            _ => Err(InvalidErrorCode::BadCode(value)),
        }
    }
}

impl vstd::std_specs::convert::TryFromSpecImpl<u64> for Malformed {
    open spec fn obeys_try_from_spec() -> bool {
        true
    }

    open spec fn try_from_spec(v: u64) -> Result<Malformed, InvalidErrorCode> {
        decoded(malformed_of(v), v)
    }
}

impl TryFrom<u64> for Forbidden {
    type Error = InvalidErrorCode;

    fn try_from(value: u64) -> Result<Forbidden, InvalidErrorCode> {
        if value / 10 != 403 {
            return Err(InvalidErrorCode::BadCode(value));
        }
        match value % 10 {
            0 => Ok(Forbidden::InvalidPermission),
            1 => Ok(Forbidden::MissingScope),
            2 => Ok(Forbidden::InvalidToken),
            _ => Err(InvalidErrorCode::BadCode(value)),
        }
    }
}

impl vstd::std_specs::convert::TryFromSpecImpl<u64> for Forbidden {
    open spec fn obeys_try_from_spec() -> bool {
        true
    }

    open spec fn try_from_spec(v: u64) -> Result<Forbidden, InvalidErrorCode> {
        decoded(forbidden_of(v), v)
    }
}

impl TryFrom<u64> for NotFound {
    type Error = InvalidErrorCode;

    fn try_from(value: u64) -> Result<NotFound, InvalidErrorCode> {
        if value / 10 != 404 {
            return Err(InvalidErrorCode::BadCode(value));
        }
        match value % 10 {
            0 => Ok(NotFound::ResourceNotFound),
            1 => Ok(NotFound::InvalidApplication),
            2 => Ok(NotFound::EndpointMissing),
            _ => Err(InvalidErrorCode::BadCode(value)),
        }
    }
}

impl vstd::std_specs::convert::TryFromSpecImpl<u64> for NotFound {
    open spec fn obeys_try_from_spec() -> bool {
        true
    }

    open spec fn try_from_spec(v: u64) -> Result<NotFound, InvalidErrorCode> {
        decoded(not_found_of(v), v)
    }
}

impl TryFrom<u64> for Unprocessable {
    type Error = InvalidErrorCode;

    fn try_from(value: u64) -> Result<Unprocessable, InvalidErrorCode> {
        let idx: u64 = if value >= 10000 {
            if value / 100 != 422 {
                return Err(InvalidErrorCode::BadCode(value));
            }
            value % 100
        } else {
            if value / 10 != 422 {
                return Err(InvalidErrorCode::BadCode(value));
            }
            value % 10
        };
        let o = match idx {
            0 => Unprocessable::MissingParameter,
            1 => Unprocessable::InvalidArgument,
            2 => Unprocessable::IncorrectSecret,
            3 => Unprocessable::InvalidGrantType,
            4 => Unprocessable::MissingAuthHeader,
            5 => Unprocessable::InvalidAttributes,
            6 => Unprocessable::UnsupportedAttribute,
            7 => Unprocessable::InvalidFilter,
            8 => Unprocessable::InvalidPagination,
            9 => Unprocessable::MalformedAuthHeader,
            10 => Unprocessable::InvalidAttribute,
            11 => Unprocessable::InvalidSortField,
            12 => Unprocessable::MalformedSortField,
            _ => return Err(InvalidErrorCode::BadCode(value)),
        };
        Ok(o)
    }
}

impl vstd::std_specs::convert::TryFromSpecImpl<u64> for Unprocessable {
    open spec fn obeys_try_from_spec() -> bool {
        true
    }

    open spec fn try_from_spec(v: u64) -> Result<Unprocessable, InvalidErrorCode> {
        decoded(unprocessable_of(v), v)
    }
}

impl TryFrom<u64> for ErrorKind {
    type Error = InvalidErrorCode;

    fn try_from(value: u64) -> Result<ErrorKind, InvalidErrorCode> {
        let family = value / 10;
        if family == 400 {
            match Malformed::try_from(value) {
                Ok(k) => Ok(ErrorKind::Malformed(k)),
                Err(e) => Err(e),
            }
        } else if family == 403 {
            match Forbidden::try_from(value) {
                Ok(k) => Ok(ErrorKind::Forbidden(k)),
                Err(e) => Err(e),
            }
        } else if family == 404 {
            match NotFound::try_from(value) {
                Ok(k) => Ok(ErrorKind::NotFound(k)),
                Err(e) => Err(e),
            }
        } else if family == 429 {
            Ok(ErrorKind::RateLimited)
        } else if family == 422 || family / 10 == 422 {
            match Unprocessable::try_from(value) {
                Ok(k) => Ok(ErrorKind::Unprocessable(k)),
                Err(e) => Err(e),
            }
        } else {
            Err(InvalidErrorCode::BadCode(value))
        }
    }
}

impl vstd::std_specs::convert::TryFromSpecImpl<u64> for ErrorKind {
    open spec fn obeys_try_from_spec() -> bool {
        true
    }

    open spec fn try_from_spec(v: u64) -> Result<ErrorKind, InvalidErrorCode> {
        decoded(kind_of_code(v), v)
    }
}

/// Each cause of each family decodes from its own code, and round-trips: the
/// code `family * 10 + index` (for 422 also `42200 + index`) decodes to the
/// cause with that index; every code from `4290` to `4299` decodes to rate
/// limiting.
pub proof fn lemma_codes_round_trip(m: Malformed, f: Forbidden, n: NotFound, u: Unprocessable, r: u64)
    requires
        r < 10,
    ensures
        kind_of_code((4000 + m.index()) as u64) == Some(ErrorKind::Malformed(m)),
        kind_of_code((4030 + f.index()) as u64) == Some(ErrorKind::Forbidden(f)),
        kind_of_code((4040 + n.index()) as u64) == Some(ErrorKind::NotFound(n)),
        u.index() < 10 ==> kind_of_code((4220 + u.index()) as u64) == Some(
            ErrorKind::Unprocessable(u),
        ),
        kind_of_code((42200 + u.index()) as u64) == Some(ErrorKind::Unprocessable(u)),
        kind_of_code((4290 + r) as u64) == Some(ErrorKind::RateLimited),
{
}

/// A code that decodes is the code of what it decodes to: `family * 10 + index`,
/// for 422 either `4220 + index` or `42200 + index`, for 429 any of `4290` to
/// `4299`.
pub proof fn lemma_decoded_code_is_the_kinds_code(c: u64)
    ensures
        match kind_of_code(c) {
            Some(ErrorKind::Malformed(m)) => c == 4000 + m.index(),
            Some(ErrorKind::Forbidden(f)) => c == 4030 + f.index(),
            Some(ErrorKind::NotFound(n)) => c == 4040 + n.index(),
            Some(ErrorKind::Unprocessable(u)) => c == 4220 + u.index() || c == 42200 + u.index(),
            Some(ErrorKind::RateLimited) => 4290 <= c < 4300,
            None => true,
        },
{
}

/// The codes one below and one above the range of indices of each family
/// decode to no error.
pub proof fn lemma_codes_beside_ranges_fail()
    ensures
        kind_of_code(4000) is None,
        kind_of_code(4003) is None,
        kind_of_code(4029) is None,
        kind_of_code(4033) is None,
        kind_of_code(4039) is None,
        kind_of_code(4043) is None,
        kind_of_code(4219) is None,
        kind_of_code(4230) is None,
        kind_of_code(42199) is None,
        kind_of_code(42213) is None,
        kind_of_code(4289) is None,
        kind_of_code(4300) is None,
{
}

/// Both encodings of a 422 error decode alike: `4220 + i` and `42200 + i` name
/// the same cause for every `i` below ten. Codes below 10000 follow the
/// one-digit rule and the others the two-digit rule, so `9999` and `10000`
/// name nothing.
pub proof fn lemma_unprocessable_dual_encoding(i: u64)
    requires
        i < 10,
    ensures
        kind_of_code((4220 + i) as u64) == kind_of_code((42200 + i) as u64),
        kind_of_code((4220 + i) as u64) is Some,
        kind_of_code(4220) == Some(ErrorKind::Unprocessable(Unprocessable::MissingParameter)),
        kind_of_code(9999) is None,
        kind_of_code(10000) is None,
        forall|c: u64| c < 10000 ==> unprocessable_of(c) == (if c / 10 == 422 {
            Unprocessable::from_index(c % 10)
        } else {
            None
        }),
        forall|c: u64| c >= 10000 ==> unprocessable_of(c) == (if c / 100 == 422 {
            Unprocessable::from_index(c % 100)
        } else {
            None
        }),
{
}

/// An error received from FimFiction, with the metadata that says more of what
/// went wrong.
#[derive(Debug, Clone)]
pub struct APIError {
    kind: ErrorKind,
    meta: Value,
}

/// Whether `meta` is the metadata of the error entry `entry`: its `meta`
/// member, or null where it has none.
pub open spec fn meta_of_entry(entry: Value, meta: Value) -> bool {
    match json_member(entry, "meta"@) {
        Some(m) => meta == m,
        None => json_is_null(meta),
    }
}

/// The code of an error entry: its `code` member, where that is a number that
/// fits a `u64`.
pub open spec fn entry_code(entry: Value) -> Option<u64> {
    match json_member(entry, "code"@) {
        Some(c) => json_u64(c),
        None => None,
    }
}

/// Whether `r` is what decoding the error entry `entry` gives: the entry itself
/// as invalid where it holds no code, the code as a bad one where it names no
/// error, and otherwise the error it names with the entry's metadata.
pub open spec fn decoded_entry(entry: Value, r: Result<APIError, InvalidErrorCode>) -> bool {
    match entry_code(entry) {
        None => r == Err::<APIError, InvalidErrorCode>(InvalidErrorCode::Invalid(entry)),
        Some(code) => match kind_of_code(code) {
            None => r == Err::<APIError, InvalidErrorCode>(InvalidErrorCode::BadCode(code)),
            Some(kind) => r matches Ok(a) && a.spec_kind() == kind && meta_of_entry(
                entry,
                a.spec_meta(),
            ),
        },
    }
}

impl APIError {
    /// The kind of the error.
    pub closed spec fn spec_kind(&self) -> ErrorKind {
        self.kind
    }

    /// The metadata of the error.
    pub closed spec fn spec_meta(&self) -> Value {
        self.meta
    }

    /// Retrieves the [ErrorKind] describing how the request failed.
    pub fn kind(&self) -> (r: ErrorKind)
        ensures
            r == self.spec_kind(),
    {
        self.kind
    }

    /// Retrieves the metadata associated with the failure.
    pub fn meta(&self) -> (r: &Value)
        ensures
            *r == self.spec_meta(),
    {
        &self.meta
    }

    /// Decodes one entry of the `errors` array of an error response.
    pub fn from_entry(entry: &Value) -> (r: Result<APIError, InvalidErrorCode>)
        ensures
            decoded_entry(*entry, r),
    {
        let code = match crate::json::member(entry, "code") {
            Some(c) => match crate::json::as_u64(c) {
                Some(n) => n,
                None => return Err(InvalidErrorCode::Invalid(entry.clone())),
            },
            None => return Err(InvalidErrorCode::Invalid(entry.clone())),
        };
        let kind = match ErrorKind::try_from(code) {
            Ok(k) => k,
            Err(e) => return Err(e),
        };
        let meta = match crate::json::member(entry, "meta") {
            Some(m) => m.clone(),
            None => crate::json::null(),
        };
        Ok(APIError { kind, meta })
    }
}

impl TryFrom<Value> for APIError {
    type Error = InvalidErrorCode;

    /// Decodes one entry of the `errors` array; see [APIError::from_entry].
    fn try_from(value: Value) -> Result<APIError, InvalidErrorCode> {
        APIError::from_entry(&value)
    }
}

impl vstd::std_specs::convert::TryFromSpecImpl<Value> for APIError {
    /// The metadata of a decoded error is known only up to [meta_of_entry], so
    /// the outcome is stated by the contract of [APIError::from_entry] instead.
    open spec fn obeys_try_from_spec() -> bool {
        false
    }

    open spec fn try_from_spec(v: Value) -> Result<APIError, InvalidErrorCode> {
        Err(InvalidErrorCode::Invalid(v))
    }
}

/// The errors that using this crate may give.
#[derive(Debug)]
pub enum FimError {
    /// An error of the HTTP transport, or a server error (5xx) that it reported.
    Request(reqwest::Error),
    /// An error that the API reported.
    API(APIError),
    /// A client error whose body could not be decoded into an [APIError].
    InvalidResponse(InvalidErrorCode),
    /// A token response without an `access_token` string; it holds the response.
    MissingAccessToken(Value),
}

} // verus!
