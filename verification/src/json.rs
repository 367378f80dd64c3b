//! Calls into `serde_json` for JSON values of any shape.
//!
//! Everything here is believed, not proved. A name without a definition stands for what a function
//! of that crate returns; the functions below say which one.

use serde_json::Value;

use vstd::prelude::*;

use crate::driver::result_view;
use crate::metrics::text_view;

verus! {

/// A JSON value.
#[verifier::external_type_specification]
#[verifier::external_body]
pub struct ExValue(Value);

/// The value that a JSON text writes, or the text of the parser's error.
pub uninterp spec fn json_value(text: Seq<char>) -> Result<Value, Seq<char>>;

/// The member of an object under a key.
pub uninterp spec fn json_member(value: Value, key: Seq<char>) -> Option<Value>;

/// The text of a value that is a string.
pub uninterp spec fn json_text(value: Value) -> Option<Seq<char>>;

/// The truth value of a value that is a boolean.
pub uninterp spec fn json_flag(value: Value) -> Option<bool>;

/// `serde_json::from_str` into a `Value`.
#[verifier::external_body]
pub(crate) fn parse_json(text: &str) -> (r: Result<Value, String>)
    ensures
        result_view(r) == json_value(text@),
{
    serde_json::from_str(text).map_err(|error| error.to_string())
}

/// `Value::get` with a text as key: the member of an object, nothing if the value is no object or
/// has no such member.
#[verifier::external_body]
pub(crate) fn member<'a>(value: &'a Value, key: &str) -> (r: Option<&'a Value>)
    ensures
        match r {
            Some(found) => json_member(*value, key@) == Some(*found),
            None => json_member(*value, key@) is None,
        },
{
    value.get(key)
}

/// `Value::as_str`: the text of a string, nothing for other values.
#[verifier::external_body]
pub(crate) fn text_in(value: &Value) -> (r: Option<String>)
    ensures
        text_view(r) == json_text(*value),
{
    value.as_str().map(|text| text.to_string())
}

/// `Value::as_bool`: the truth value of a boolean, nothing for other values.
#[verifier::external_body]
pub(crate) fn flag_in(value: &Value) -> (r: Option<bool>)
    ensures
        r == json_flag(*value),
{
    value.as_bool()
}

} // verus!
