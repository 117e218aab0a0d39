//! JSON values, carried as `serde_json::Value`.

use serde_json::Value;
use vstd::prelude::*;

verus! {

/// `serde_json::Value`, any JSON value.
#[verifier::external_type_specification]
#[verifier::external_body]
pub struct ExValue(serde_json::Value);

/// What a JSON value holds, written as its compact JSON text.
///
/// The text determines the value: strings are escaped, and integers and
/// floating-point numbers are written in forms that read back unchanged.
pub uninterp spec fn json_text(value: Value) -> Seq<char>;

/// The compact JSON text of an optional value.
pub open spec fn optional_json_text(value: Option<Value>) -> Option<Seq<char>> {
    match value {
        Some(value) => Some(json_text(value)),
        None => None,
    }
}

/// `serde_json::Value`'s `Display`, through `to_string`: the compact JSON text
/// of the value.
#[verifier::external_body]
pub(crate) fn write_json(value: &Value) -> (text: String)
    ensures
        text@ == json_text(*value),
{
    value.to_string()
}

/// `serde_json::Value::clone`: the same value.
pub assume_specification[ <Value as Clone>::clone ](value: &Value) -> (copy: Value)
    ensures
        copy == *value,
;

} // verus!
