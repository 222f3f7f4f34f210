//! Untyped payloads: the two questions that are put to a JSON value.

use vstd::prelude::*;
use serde_json::Value;
use crate::text::opt_text;

verus! {

/// `serde_json::Value`: any JSON value. Its inside is not read here but
/// through the two calls below.
#[verifier::external_type_specification]
#[verifier::external_body]
pub struct ExValue(serde_json::Value);

/// What `Value::get` gives for a string key: the member of that name where
/// `value` is an object that has one, else `None`.
pub uninterp spec fn member_of(value: Value, key: Seq<char>) -> Option<Value>;

/// What `serde_json::from_value::<String>` makes of `value`: its text where it
/// is a JSON string, else `None`.
pub uninterp spec fn string_of(value: Value) -> Option<Seq<char>>;

/// Calls `Value::get` with a string key. Not proved: that the result is the one
/// named by [`member_of`], a function of the value and the key alone.
#[verifier::external_body]
pub(crate) fn member<'a>(value: &'a Value, key: &str) -> (found: Option<&'a Value>)
    ensures
        found matches Some(inner) ==> member_of(*value, key@) == Some(*inner),
        found is None ==> member_of(*value, key@) is None,
{
    value.get(key)
}

/// Calls `serde_json::from_value::<String>` on a copy of the value and drops the
/// error. Not proved: that the result is the one named by [`string_of`], a
/// function of the value alone.
#[verifier::external_body]
pub(crate) fn as_string(value: &Value) -> (text: Option<String>)
    ensures
        opt_text(text) == string_of(*value),
{
    serde_json::from_value::<String>(value.clone()).ok()
}

} // verus!
