//! A typed client library for the FimFiction web API: scopes, the error-code
//! taxonomy of the API, the classification of its responses and a client that
//! carries a bearer token.

use vstd::prelude::*;

pub mod auth;
pub mod client;
pub mod json;
pub mod response;
pub mod transport;

verus! {

#[verifier::external_type_specification]
pub struct ExVersion(semver::Version);

#[verifier::external_type_specification]
#[verifier::external_body]
pub struct ExPrerelease(semver::Prerelease);

#[verifier::external_type_specification]
#[verifier::external_body]
pub struct ExBuildMetadata(semver::BuildMetadata);

/// The version of this library.
pub const VERSION: &'static str = "0.1.0";

/// Relies on `semver::Version::new`, which builds the version with the given
/// numbers and no pre-release or build metadata.
#[verifier::external_body]
fn semver_new(major: u64, minor: u64, patch: u64) -> (r: semver::Version)
    ensures
        r.major == major,
        r.minor == minor,
        r.patch == patch,
{
    semver::Version::new(major, minor, patch)
}

/// Returns the version of this library as a string.
pub fn version_str() -> (r: &'static str)
    ensures
        r@ == VERSION@,
{
    VERSION
}

/// Returns the version of this library as a [semver::Version].
pub fn version() -> (r: semver::Version)
    ensures
        r.major == 0,
        r.minor == 1,
        r.patch == 0,
{
    semver_new(0, 1, 0)
}

} // verus!
