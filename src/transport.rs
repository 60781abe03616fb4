//! The HTTP transport's types, as the library holds them: opaque values that it
//! carries and hands back.

use vstd::prelude::*;

verus! {

#[verifier::external_type_specification]
#[verifier::external_body]
pub struct ExRequestError(reqwest::Error);

#[verifier::external_type_specification]
#[verifier::external_body]
pub struct ExHttpClient(reqwest::Client);

/// Relies on `<reqwest::Client as Clone>::clone`, which hands out another
/// handle to the same client; nothing is stated of it.
pub assume_specification[ <reqwest::Client as Clone>::clone ](c: &reqwest::Client) -> reqwest::Client;

} // verus!
