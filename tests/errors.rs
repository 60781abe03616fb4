use std::convert::TryFrom;

use fimapi::response::error::{
    ErrorKind, Forbidden, InvalidErrorCode, Malformed, NotFound, Unprocessable,
};

fn bad(code: u64) -> bool {
    matches!(ErrorKind::try_from(code), Err(InvalidErrorCode::BadCode(c)) if c == code)
}

#[test]
fn malformed_codes() {
    assert_eq!(ErrorKind::try_from(4001).unwrap(), ErrorKind::Malformed(Malformed::Body));
    assert_eq!(ErrorKind::try_from(4002).unwrap(), ErrorKind::Malformed(Malformed::Include));
    assert!(bad(4000));
    assert!(bad(4003));
    assert_eq!(Malformed::try_from(4001).unwrap(), Malformed::Body);
    assert!(Malformed::try_from(4031).is_err());
}

#[test]
fn forbidden_codes() {
    assert_eq!(ErrorKind::try_from(4030).unwrap(), ErrorKind::Forbidden(Forbidden::InvalidPermission));
    assert_eq!(ErrorKind::try_from(4031).unwrap(), ErrorKind::Forbidden(Forbidden::MissingScope));
    assert_eq!(ErrorKind::try_from(4032).unwrap(), ErrorKind::Forbidden(Forbidden::InvalidToken));
    assert!(bad(4029));
    assert!(bad(4033));
    assert_eq!(Forbidden::try_from(4032).unwrap(), Forbidden::InvalidToken);
}

#[test]
fn not_found_codes() {
    assert_eq!(ErrorKind::try_from(4040).unwrap(), ErrorKind::NotFound(NotFound::ResourceNotFound));
    assert_eq!(ErrorKind::try_from(4041).unwrap(), ErrorKind::NotFound(NotFound::InvalidApplication));
    assert_eq!(ErrorKind::try_from(4042).unwrap(), ErrorKind::NotFound(NotFound::EndpointMissing));
    assert!(bad(4039));
    assert!(bad(4043));
    assert!(NotFound::try_from(4030).is_err());
}

#[test]
fn unprocessable_codes_both_encodings() {
    let small = [
        Unprocessable::MissingParameter,
        Unprocessable::InvalidArgument,
        Unprocessable::IncorrectSecret,
        Unprocessable::InvalidGrantType,
        Unprocessable::MissingAuthHeader,
        Unprocessable::InvalidAttributes,
        Unprocessable::UnsupportedAttribute,
        Unprocessable::InvalidFilter,
        Unprocessable::InvalidPagination,
        Unprocessable::MalformedAuthHeader,
    ];
    for (i, k) in small.iter().enumerate() {
        let i = i as u64;
        assert_eq!(ErrorKind::try_from(4220 + i).unwrap(), ErrorKind::Unprocessable(*k));
        assert_eq!(ErrorKind::try_from(42200 + i).unwrap(), ErrorKind::Unprocessable(*k));
    }
    assert_eq!(ErrorKind::try_from(42210).unwrap(), ErrorKind::Unprocessable(Unprocessable::InvalidAttribute));
    assert_eq!(ErrorKind::try_from(42211).unwrap(), ErrorKind::Unprocessable(Unprocessable::InvalidSortField));
    assert_eq!(ErrorKind::try_from(42212).unwrap(), ErrorKind::Unprocessable(Unprocessable::MalformedSortField));
    assert!(bad(42213));
    assert!(bad(42199));
    assert!(bad(4219));
    assert!(bad(4230));
}

#[test]
fn unprocessable_dual_encoding_boundary() {
    assert_eq!(ErrorKind::try_from(4220).unwrap(), ErrorKind::try_from(42200).unwrap());
    assert_eq!(ErrorKind::try_from(4220).unwrap(), ErrorKind::Unprocessable(Unprocessable::MissingParameter));
    assert!(bad(9999));
    assert!(bad(10000));
    assert!(Unprocessable::try_from(9999).is_err());
    assert!(Unprocessable::try_from(10000).is_err());
    assert_eq!(Unprocessable::try_from(4221).unwrap(), Unprocessable::InvalidArgument);
    assert_eq!(Unprocessable::try_from(42211).unwrap(), Unprocessable::InvalidSortField);
}

#[test]
fn rate_limited_accepts_any_last_digit() {
    for r in 0..10u64 {
        assert_eq!(ErrorKind::try_from(4290 + r).unwrap(), ErrorKind::RateLimited);
    }
    assert!(bad(4289));
    assert!(bad(4300));
}

#[test]
fn decoding_never_panics_on_extremes() {
    assert!(bad(0));
    assert!(bad(u64::MAX));
    assert!(bad(500));
    assert!(bad(5000));
    assert!(bad(4000));
    assert!(bad(422_100));
    for c in 0..50_000u64 {
        let _ = ErrorKind::try_from(c);
    }
}
