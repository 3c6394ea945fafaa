//! Trusted boundary to the serde_json crate.
//!
//! Inbound frames are JSON text; parsing them and peeking into the parsed
//! tree is done by serde_json.  A parsed `serde_json::Value` is opaque to
//! the verifier, so each call's result is only given a name: every one of
//! these functions is pure — its result depends on its arguments alone — so
//! the names below stand for those results, and the codec's contracts are
//! stated over them.  Nothing further is assumed of the names, except that
//! cloning a value reproduces it.  Each item names the one serde_json
//! function it relies on.

use vstd::prelude::*;

verus! {

/// serde_json's JSON tree type, declared so that envelopes and events can
/// carry their payload data opaquely.
#[verifier::external_type_specification]
#[verifier::external_body]
pub struct ExValue(serde_json::Value);

/// What serde_json::from_slice returns for given bytes (`None` for a parse
/// error); parsing is a function of the bytes alone.
pub uninterp spec fn spec_parse_json(bytes: Seq<u8>) -> Option<serde_json::Value>;

/// The object member serde_json::Value::get returns for a given value and
/// key (`None` when the value is not an object or has no such member).
pub uninterp spec fn spec_json_field(v: serde_json::Value, key: Seq<char>) -> Option<
    serde_json::Value,
>;

/// What serde_json::Value::as_u64 returns for a given value.
pub uninterp spec fn spec_as_u64(v: serde_json::Value) -> Option<u64>;

/// What serde_json::Value::as_bool returns for a given value.
pub uninterp spec fn spec_as_bool(v: serde_json::Value) -> Option<bool>;

/// The characters serde_json::Value::as_str returns for a given value, if
/// the value is a string.
pub uninterp spec fn spec_as_str(v: serde_json::Value) -> Option<Seq<char>>;

/// What serde_json::Value::is_null returns for a given value.
pub uninterp spec fn spec_is_null(v: serde_json::Value) -> bool;

/// What serde_json::Value::is_object returns for a given value.
pub uninterp spec fn spec_is_object(v: serde_json::Value) -> bool;

/// Relies on serde_json::from_slice: parses `bytes` as a JSON document;
/// a parse error becomes `None`.
#[verifier::external_body]
pub fn parse_json(bytes: &[u8]) -> (r: Option<serde_json::Value>)
    ensures
        r == spec_parse_json(bytes@),
{
    match serde_json::from_slice::<serde_json::Value>(bytes) {
        Ok(v) => Some(v),
        Err(_) => None,
    }
}

/// Relies on serde_json::Value::get: the member of a JSON object under `key`,
/// or `None` when `v` is not an object or has no such member.
#[verifier::external_body]
pub fn json_field<'a>(v: &'a serde_json::Value, key: &str) -> (r: Option<
    &'a serde_json::Value,
>)
    ensures
        r matches Some(x) ==> spec_json_field(*v, key@) == Some(*x),
        r is None ==> spec_json_field(*v, key@) is None,
{
    v.get(key)
}

/// Relies on serde_json::Value::as_u64: the value as an unsigned integer, if
/// it is a number representable as one.
pub assume_specification[ serde_json::Value::as_u64 ](v: &serde_json::Value) -> (r: Option<u64>)
    ensures
        r == spec_as_u64(*v),
;

/// Relies on serde_json::Value::as_bool: the value as a boolean, if it is one.
pub assume_specification[ serde_json::Value::as_bool ](v: &serde_json::Value) -> (r: Option<bool>)
    ensures
        r == spec_as_bool(*v),
;

/// Relies on serde_json::Value::as_str: the value as a string, if it is one.
pub assume_specification<'a>[ serde_json::Value::as_str ](v: &'a serde_json::Value) -> (r: Option<
    &'a str,
>)
    ensures
        r matches Some(s) ==> spec_as_str(*v) == Some(s@),
        r is None ==> spec_as_str(*v) is None,
;

/// Relies on serde_json::Value::is_null: whether the value is JSON null.
pub assume_specification[ serde_json::Value::is_null ](v: &serde_json::Value) -> (r: bool)
    ensures
        r == spec_is_null(*v),
;

/// Relies on serde_json::Value::is_object: whether the value is a JSON
/// object.
pub assume_specification[ serde_json::Value::is_object ](v: &serde_json::Value) -> (r: bool)
    ensures
        r == spec_is_object(*v),
;

/// Relies on serde_json::Value::clone (the derived Clone impl): it
/// reproduces the whole JSON tree, so the copy is the same value.
pub assume_specification[ <serde_json::Value as Clone>::clone ](v: &serde_json::Value) -> (r:
    serde_json::Value)
    ensures
        r == *v,
;

} // verus!
