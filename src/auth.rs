//! Types related to the OAuth side of the API.

pub mod scopes;
