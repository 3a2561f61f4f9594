//! What this library reads of a JSON document: the members of an object, the
//! items of an array, a string and a number.
//!
//! The documents are parsed and held by `serde_json`. Nothing is proved of
//! that crate: each function here states what one of its functions returns,
//! over a name for that result.

use serde_json::{Error, Number, Value};
use vstd::prelude::*;

verus! {

#[verifier::external_type_specification]
#[verifier::external_body]
pub struct ExValue(serde_json::Value);

#[verifier::external_type_specification]
#[verifier::external_body]
pub struct ExNumber(serde_json::Number);

#[verifier::external_type_specification]
#[verifier::external_body]
pub struct ExError(serde_json::Error);

/// The document that a text parses to; `None` where it is not JSON. Where
/// the text writes a member of an object twice, the document holds the last.
pub uninterp spec fn json_parsed(text: Seq<char>) -> Option<Value>;

/// The member `key` of an object; `None` where the value is no object or has
/// no such member.
pub uninterp spec fn json_member(value: Value, key: Seq<char>) -> Option<Value>;

/// The items of an array; `None` where the value is no array.
pub uninterp spec fn json_items(value: Value) -> Option<Seq<Value>>;

/// The text of a string; `None` where the value is no string.
pub uninterp spec fn json_text(value: Value) -> Option<Seq<char>>;

/// The number that the value is; `None` where it is no number.
pub uninterp spec fn json_number(value: Value) -> Option<Number>;

/// `serde_json::from_str` at `Value`: the document that `text` holds, or the
/// crate's error where it holds none. The contract claims only that the
/// outcome is a function of the text. Of a member written twice the crate
/// keeps the last and reports no error, so no caller here can tell such a
/// text from one that writes the member once.
#[verifier::external_body]
pub(crate) fn parse(text: &str) -> (parsed: Result<Value, Error>)
    ensures
        parsed matches Ok(value) ==> json_parsed(text@) == Some(value),
        parsed is Err ==> json_parsed(text@) is None,
{
    serde_json::from_str::<Value>(text)
}

/// `Value::get` with a string: the member of that name where the value is an
/// object that has one, else nothing.
#[verifier::external_body]
pub(crate) fn member<'a>(value: &'a Value, key: &str) -> (found: Option<&'a Value>)
    ensures
        found matches Some(inner) ==> json_member(*value, key@) == Some(*inner),
        found is None ==> json_member(*value, key@) is None,
{
    value.get(key)
}

/// `Value::as_array`: the items where the value is an array, else nothing.
#[verifier::external_body]
pub(crate) fn items<'a>(value: &'a Value) -> (found: Option<&'a Vec<Value>>)
    ensures
        found matches Some(list) ==> json_items(*value) == Some(list@),
        found is None ==> json_items(*value) is None,
{
    value.as_array()
}

/// `Value::as_str`: the text where the value is a string, else nothing.
#[verifier::external_body]
pub(crate) fn text<'a>(value: &'a Value) -> (found: Option<&'a str>)
    ensures
        found matches Some(inner) ==> json_text(*value) == Some(inner@),
        found is None ==> json_text(*value) is None,
{
    value.as_str()
}

/// `Value::as_number`: a copy of the number where the value is one, else
/// nothing.
#[verifier::external_body]
pub(crate) fn number(value: &Value) -> (found: Option<Number>)
    ensures
        found == json_number(*value),
{
    value.as_number().cloned()
}

} // verus!
