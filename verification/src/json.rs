//! JSON values as they come from an exchange, and what the library reads of
//! them.

use vstd::prelude::*;

verus! {

/// A JSON value, opaque to the verifier but for what the names below say of it.
#[verifier::external_type_specification]
#[verifier::external_body]
pub struct ExJsonValue(serde_json::Value);

/// The members of a JSON object that are strings, by name. A value that is
/// no object has none.
pub uninterp spec fn text_members(value: serde_json::Value) -> Map<Seq<char>, Seq<char>>;

/// The members of a JSON object that are integers within `i64`, by name. A
/// value that is no object has none.
pub uninterp spec fn int_members(value: serde_json::Value) -> Map<Seq<char>, i64>;

/// `serde_json::Value::get` with a string index gives the member of that
/// name where the value is an object that has one, and `Value::as_str` gives
/// its text where the member is a string.
#[verifier::external_body]
pub(crate) fn text_member(value: &serde_json::Value, name: &str) -> (text: Option<String>)
    ensures
        match text {
            Some(t) => text_members(*value).contains_key(name@) && text_members(*value)[name@]
                == t@,
            None => !text_members(*value).contains_key(name@),
        },
{
    match value.get(name) {
        Some(member) => match member.as_str() {
            Some(text) => Some(text.to_owned()),
            None => None,
        },
        None => None,
    }
}

/// `serde_json::Value::get` with a string index gives the member of that
/// name where the value is an object that has one, and `Value::as_i64` gives
/// its number where the member is an integer that fits.
#[verifier::external_body]
pub(crate) fn int_member(value: &serde_json::Value, name: &str) -> (number: Option<i64>)
    ensures
        match number {
            Some(n) => int_members(*value).contains_key(name@) && int_members(*value)[name@] == n,
            None => !int_members(*value).contains_key(name@),
        },
{
    match value.get(name) {
        Some(member) => member.as_i64(),
        None => None,
    }
}

/// What a JSON value holds, written as indented JSON.
pub uninterp spec fn pretty_of(value: serde_json::Value) -> Seq<char>;

/// `serde_json::to_string_pretty` writes the value as indented JSON. The text
/// depends on the value alone; it would be empty if the crate refused the
/// value, which it does for no JSON value.
#[verifier::external_body]
pub(crate) fn pretty_text(value: &serde_json::Value) -> (text: String)
    ensures
        text@ == pretty_of(*value),
{
    serde_json::to_string_pretty(value).unwrap_or_default()
}

/// The code that a member gives: its number, and 0 where there is none.
pub open spec fn code_or_zero(found: Option<i64>) -> i64 {
    match found {
        Some(code) => code,
        None => 0,
    }
}

/// The code that a member gives: its number, and 0 where there is none.
pub fn code_from(found: Option<i64>) -> (code: i64)
    ensures
        code == code_or_zero(found),
{
    match found {
        Some(code) => code,
        None => 0,
    }
}

/// The code that an exchange answers with: the integer member `name` of the
/// answer, and 0 where it has none.
pub open spec fn code_of(value: serde_json::Value, name: Seq<char>) -> i64 {
    code_or_zero(
        if int_members(value).contains_key(name) {
            Some(int_members(value)[name])
        } else {
            None
        },
    )
}

/// The code that an exchange answers with.
pub fn answer_code(value: &serde_json::Value, name: &str) -> (code: i64)
    ensures
        code == code_of(*value, name@),
{
    code_from(int_member(value, name))
}

} // verus!
