//! Access to the parts of a JSON value that the API's responses carry.
//!
//! JSON values are serde_json's [`serde_json::Value`], opaque to the proofs.
//! Each accessor below calls one method of serde_json, and its result is named
//! by a spec function of this module.

use vstd::prelude::*;

use serde_json::Value;

verus! {

#[verifier::external_type_specification]
#[verifier::external_body]
pub struct ExJsonValue(serde_json::Value);

/// What `Value::get` with a string key returns: the member of an object under
/// that key, and `None` for a missing key or for a value that is no object.
pub uninterp spec fn json_member(v: Value, key: Seq<char>) -> Option<Value>;

/// What `Value::as_array` returns: the elements of an array, `None` for any
/// other value.
pub uninterp spec fn json_items(v: Value) -> Option<Seq<Value>>;

/// What `Value::as_u64` returns: a number that fits a `u64`, `None` otherwise.
pub uninterp spec fn json_u64(v: Value) -> Option<u64>;

/// What `Value::as_str` returns: the text of a string, `None` for any other
/// value.
pub uninterp spec fn json_text(v: Value) -> Option<Seq<char>>;

/// What `Value::is_null` returns.
pub uninterp spec fn json_is_null(v: Value) -> bool;

/// Relies on `<serde_json::Value as Clone>::clone`: the copy equals the value cloned.
pub assume_specification[ <serde_json::Value as Clone>::clone ](v: &serde_json::Value) -> (r:
    serde_json::Value)
    ensures
        r == *v,
;

/// Relies on `serde_json::Value::get` with a `&str` index, which looks the key
/// up in an object and gives `None` for anything else.
#[verifier::external_body]
pub(crate) fn member<'a>(v: &'a Value, key: &str) -> (r: Option<&'a Value>)
    ensures
        match json_member(*v, key@) {
            Some(m) => r matches Some(x) && *x == m,
            None => r is None,
        },
{
    v.get(key)
}

/// Relies on `serde_json::Value::as_array`: the elements of an array.
#[verifier::external_body]
pub(crate) fn items(v: &Value) -> (r: Option<&Vec<Value>>)
    ensures
        match json_items(*v) {
            Some(s) => r matches Some(a) && a@ == s,
            None => r is None,
        },
{
    v.as_array()
}

/// Relies on `serde_json::Value::as_u64`: a number that fits a `u64`.
#[verifier::external_body]
pub(crate) fn as_u64(v: &Value) -> (r: Option<u64>)
    ensures
        r == json_u64(*v),
{
    v.as_u64()
}

/// Relies on `serde_json::Value::as_str`: the text of a JSON string.
#[verifier::external_body]
pub(crate) fn as_text(v: &Value) -> (r: Option<&str>)
    ensures
        match json_text(*v) {
            Some(t) => r matches Some(x) && x@ == t,
            None => r is None,
        },
{
    v.as_str()
}

/// Relies on `serde_json::Value::Null`, the value for which `Value::is_null`
/// returns true.
#[verifier::external_body]
pub(crate) fn null() -> (r: Value)
    ensures
        json_is_null(r),
{
    Value::Null
}

} // verus!
