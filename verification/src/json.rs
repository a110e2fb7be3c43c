//! The trusted boundary around `serde_json`: the opaque JSON value type,
//! names for what its accessors return, and one trusted item per outside
//! function the library calls. Everything else about response decoding is
//! verified against these contracts.

use vstd::prelude::*;

verus! {

#[verifier::external_type_specification]
#[verifier::external_body]
pub struct ExValue(serde_json::Value);

#[verifier::external_type_specification]
#[verifier::external_body]
pub struct ExError(serde_json::Error);

/// The JSON value a text parses to, or `None` when the text is not valid
/// JSON: what `serde_json::from_str::<Value>` returns, a function of the
/// text alone.
pub uninterp spec fn json_of_text(s: Seq<char>) -> Option<serde_json::Value>;

/// The member a JSON object holds under a key, or `None` when the value is
/// not an object or has no such member: what `serde_json::Value::get`
/// returns for a string key, a function of the value and the key alone.
pub uninterp spec fn json_member(v: serde_json::Value, key: Seq<char>) -> Option<
    serde_json::Value,
>;

/// The characters of a JSON string value, or `None` when the value is not
/// a string: what `serde_json::Value::as_str` returns, a function of the
/// value alone.
pub uninterp spec fn json_string(v: serde_json::Value) -> Option<Seq<char>>;

/// The numeric content of a JSON value when it is an unsigned integer that
/// fits in 64 bits, else `None`: what `serde_json::Value::as_u64` returns,
/// a function of the value alone.
pub uninterp spec fn json_uint(v: serde_json::Value) -> Option<u64>;

/// The elements of a JSON array value, or `None` when the value is not an
/// array: what `serde_json::Value::as_array` returns, a function of the
/// value alone.
pub uninterp spec fn json_items(v: serde_json::Value) -> Option<Seq<serde_json::Value>>;

/// Relies on `serde_json::from_str::<Value>`: parsing is a function of the
/// text alone, and an `Err` is returned exactly when the text is not valid
/// JSON.
#[verifier::external_body]
pub(crate) fn parse_value(s: &str) -> (r: Result<serde_json::Value, serde_json::Error>)
    ensures
        r matches Ok(v) ==> json_of_text(s@) == Some(v),
        r is Err ==> json_of_text(s@) is None,
{
    serde_json::from_str(s)
}

/// Relies on `serde_json::Value::get` with a string key: a lookup in the
/// object's map, `None` for a missing member or a non-object.
#[verifier::external_body]
pub(crate) fn value_member<'a>(v: &'a serde_json::Value, key: &str) -> (r: Option<
    &'a serde_json::Value,
>)
    ensures
        r matches Some(m) ==> json_member(*v, key@) == Some(*m),
        r is None ==> json_member(*v, key@) is None,
{
    v.get(key)
}

/// Relies on `serde_json::Value::as_str`: the string content of a JSON
/// string, `None` for every other kind of value.
#[verifier::external_body]
pub(crate) fn value_string<'a>(v: &'a serde_json::Value) -> (r: Option<&'a str>)
    ensures
        r matches Some(s) ==> json_string(*v) == Some(s@),
        r is None ==> json_string(*v) is None,
{
    v.as_str()
}

/// Relies on `serde_json::Value::as_u64`.
pub assume_specification[ serde_json::Value::as_u64 ](v: &serde_json::Value) -> (r: Option<u64>)
    ensures
        r == json_uint(*v),
;

/// Relies on `serde_json::Value::as_array`: the elements of a JSON array,
/// `None` for every other kind of value.
#[verifier::external_body]
pub(crate) fn value_items<'a>(v: &'a serde_json::Value) -> (r: Option<&'a Vec<serde_json::Value>>)
    ensures
        r matches Some(items) ==> json_items(*v) == Some(items@),
        r is None ==> json_items(*v) is None,
{
    v.as_array()
}

/// Relies on the derived `Clone` of `serde_json::Value`, which copies the
/// whole value tree.
pub assume_specification[ <serde_json::Value as Clone>::clone ](v: &serde_json::Value) -> (r:
    serde_json::Value)
    ensures
        r == *v,
;

/// Relies on the `Display` rendering of `serde_json::Error`; nothing is
/// claimed about the text.
#[verifier::external_body]
pub(crate) fn error_text(e: &serde_json::Error) -> String {
    e.to_string()
}

} // verus!
