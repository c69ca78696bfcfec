//! Reading script values: what the answers of the runtime mean.

use crate::number::Number;
use crate::session::types::{JsType, SessionError, SessionStatus};
use crate::text;
use vstd::prelude::*;
use vstd::string::StringExecFns;

verus! {

/// A promise-like value is an object with a callable `then`; only an object is
/// asked for one.
pub fn may_have_then(value: JsType) -> (r: bool)
    ensures
        r == (value is Object),
{
    matches!(value, JsType::Object)
}

pub fn is_callable(value: JsType) -> (r: bool)
    ensures
        r == (value is Function),
{
    matches!(value, JsType::Function)
}

pub fn is_null(value: JsType) -> (r: bool)
    ensures
        r == (value is Null),
{
    matches!(value, JsType::Null)
}

/// A stream is named by its number, or by an object whose `handle` is that
/// number.
pub fn may_have_handle(value: JsType) -> (r: bool)
    ensures
        r == (value is Object),
{
    matches!(value, JsType::Object)
}

/// Reads an unsigned 32-bit integer. `number` is the value of a script number
/// and absent for every other type.
pub fn decode_u32(value: JsType, number: Option<Number>, role: &str) -> (r: Result<
    u32,
    SessionError,
>)
    ensures
        match r {
            Ok(k) => value is Number && number is Some && number->0.denotes(k as int),
            Err(e) => {
                &&& e.is(
                    SessionStatus::InvalidArg,
                    role@ + " must be an unsigned 32-bit integer"@,
                )
                &&& value is Number && number is Some ==> forall|k: u32|
                    !number->0.denotes(k as int)
            },
        },
{
    if matches!(value, JsType::Number) {
        if let Some(number) = number {
            if let Some(k) = number.exact_u32() {
                return Ok(k);
            }
        }
    }
    Err(SessionError::invalid_joined(role, " must be an unsigned 32-bit integer"))
}

/// Whether an enum value, given the type and the text of its `tag`, is the
/// named variant.
pub fn variant_matches(tag_type: JsType, tag: Option<&String>, variant: &String) -> (r: Result<
    bool,
    SessionError,
>)
    ensures
        match r {
            Ok(matched) => tag_type is Text && tag is Some && matched == (tag->0@ == variant@),
            Err(e) => if tag_type is Text {
                tag is None && e.is(
                    SessionStatus::InvalidArg,
                    "enum value has an invalid canonical tag"@,
                )
            } else {
                e.is(
                    SessionStatus::InvalidArg,
                    "enum value has a missing or non-string canonical tag"@,
                )
            },
        },
{
    if !matches!(tag_type, JsType::Text) {
        return Err(
            SessionError::invalid("enum value has a missing or non-string canonical tag"),
        );
    }
    match tag {
        None => Err(SessionError::invalid("enum value has an invalid canonical tag")),
        Some(tag) => Ok(*tag == *variant),
    }
}

fn reads(found: Option<&String>, expected: &str) -> (r: bool)
    ensures
        r == (found is Some && found->0@ == expected@),
{
    match found {
        None => false,
        Some(found) => *found == expected.to_owned(),
    }
}

/// A call result of this kind carries an error.
pub fn is_error_kind(kind: Option<&String>) -> (r: bool)
    ensures
        r == (kind is Some && kind->0@ == "error"@),
{
    reads(kind, "error")
}

/// A call result of this kind carries a value.
pub fn is_value_kind(kind: Option<&String>) -> (r: bool)
    ensures
        r == (kind is Some && kind->0@ == "value"@),
{
    reads(kind, "value")
}

/// A stream step of this kind is the last one.
pub fn is_terminal_kind(kind: Option<&String>) -> (r: bool)
    ensures
        r == (kind is Some && (kind->0@ == "done"@ || kind->0@ == "error"@)),
{
    reads(kind, "done") || reads(kind, "error")
}

/// Refuses a host method that cannot be called.
pub fn require_callable(method: JsType, name: &str) -> (r: Result<(), SessionError>)
    ensures
        match r {
            Ok(()) => method is Function,
            Err(e) => method !is Function && e.is(
                SessionStatus::InvalidArg,
                "Host."@ + text::debug_text(name@) + " is not callable"@,
            ),
        },
{
    if matches!(method, JsType::Function) {
        return Ok(());
    }
    let mut reason: String = "Host.".to_owned();
    let name: String = text::quoted(name);
    reason.append(name.as_str());
    reason.append(" is not callable");
    Err(SessionError { status: SessionStatus::InvalidArg, reason })
}

/// Refuses a sequence that is no array.
pub fn require_sequence(is_array: bool, role: &str) -> (r: Result<(), SessionError>)
    ensures
        match r {
            Ok(()) => is_array,
            Err(e) => !is_array && e.is(
                SessionStatus::InvalidArg,
                role@ + " path expected an array sequence/set"@,
            ),
        },
{
    if is_array {
        Ok(())
    } else {
        Err(SessionError::invalid_joined(role, " path expected an array sequence/set"))
    }
}

/// Refuses a map entry that is no array.
pub fn require_entry(is_array: bool) -> (r: Result<(), SessionError>)
    ensures
        match r {
            Ok(()) => is_array,
            Err(e) => !is_array && e.is(
                SessionStatus::InvalidArg,
                "Map.entries() yielded a non-entry value"@,
            ),
        },
{
    if is_array {
        Ok(())
    } else {
        Err(SessionError::invalid("Map.entries() yielded a non-entry value"))
    }
}

/// Refuses invocation arguments that are no array.
pub fn require_argument_array(is_array: bool) -> (r: Result<(), SessionError>)
    ensures
        match r {
            Ok(()) => is_array,
            Err(e) => !is_array && e.is(
                SessionStatus::InvalidArg,
                "UniFFI invocation arguments must be an array"@,
            ),
        },
{
    if is_array {
        Ok(())
    } else {
        Err(SessionError::invalid("UniFFI invocation arguments must be an array"))
    }
}

/// Refuses a method call with the wrong number of arguments.
pub fn require_argument_count(expected: usize, received: usize) -> (r: Result<(), SessionError>)
    ensures
        match r {
            Ok(()) => received == expected,
            Err(e) => received != expected && e.is(
                SessionStatus::InvalidArg,
                "expected "@ + text::decimal(expected as int) + " arguments, received "@
                    + text::decimal(received as int),
            ),
        },
{
    if received == expected {
        return Ok(());
    }
    let mut reason: String = "expected ".to_owned();
    text::push_decimal(&mut reason, expected as u64);
    reason.append(" arguments, received ");
    text::push_decimal(&mut reason, received as u64);
    Err(SessionError { status: SessionStatus::InvalidArg, reason })
}

} // verus!
