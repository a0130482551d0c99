//! The parsed JSON document, as serde_json builds and answers it.
use vstd::prelude::*;

verus! {

#[verifier::external_type_specification]
#[verifier::external_body]
pub struct ExValue(serde_json::Value);

#[verifier::external_type_specification]
#[verifier::external_body]
pub struct ExNumber(serde_json::Number);

/// What `serde_json::from_str` makes of a text: the document, or the
/// parser's message.
pub uninterp spec fn json_parse(text: Seq<char>) -> Result<serde_json::Value, Seq<char>>;

/// The value that a JSON Pointer designates in a document, if any.
pub uninterp spec fn json_pointer(doc: serde_json::Value, pointer: Seq<char>) -> Option<
    serde_json::Value,
>;

/// The characters of a value that is a JSON string; `None` for any other value.
pub uninterp spec fn json_str(v: serde_json::Value) -> Option<Seq<char>>;

/// The number held by a value that is a JSON number; `None` for any other value.
pub uninterp spec fn json_number(v: serde_json::Value) -> Option<serde_json::Number>;

/// The bit pattern of the double that a JSON number reads as, where it reads as one.
pub uninterp spec fn number_bits(n: serde_json::Number) -> Option<u64>;

/// Relies on `serde_json::from_str` to parse a whole text as one JSON value.
/// Its error's `Display` (serde_json's `ErrorImpl`) always writes a message
/// that is not empty.
#[verifier::external_body]
pub(crate) fn parse_json(text: &str) -> (r: Result<serde_json::Value, String>)
    ensures
        match r {
            Ok(doc) => json_parse(text@) == Ok::<serde_json::Value, Seq<char>>(doc),
            Err(m) => json_parse(text@) == Err::<serde_json::Value, Seq<char>>(m@) && m@.len()
                > 0,
        },
{
    serde_json::from_str(text).map_err(|e: serde_json::Error| e.to_string())
}

/// Relies on `Value::pointer`: the value at a JSON Pointer, if there is one.
pub assume_specification<'a>[ serde_json::Value::pointer ](
    v: &'a serde_json::Value,
    pointer: &str,
) -> (r: Option<&'a serde_json::Value>)
    ensures
        match r {
            Some(x) => json_pointer(*v, pointer@) == Some(*x),
            None => json_pointer(*v, pointer@) is None,
        },
;

/// Relies on `Value::as_str`: the text of a `Value::String`, `None` otherwise.
pub assume_specification[ serde_json::Value::as_str ](v: &serde_json::Value) -> (r: Option<&str>)
    ensures
        match r {
            Some(s) => json_str(*v) == Some(s@),
            None => json_str(*v) is None,
        },
;

/// Relies on `Value::as_number`: the number of a `Value::Number`, `None`
/// otherwise; a string is never a number.
pub assume_specification[ serde_json::Value::as_number ](v: &serde_json::Value) -> (r: Option<
    &serde_json::Number,
>)
    ensures
        match r {
            Some(n) => json_number(*v) == Some(*n) && json_str(*v) is None,
            None => json_number(*v) is None,
        },
;

/// Relies on `Number::as_f64`: the number as a double, kept as its bit pattern.
#[verifier::external_body]
pub(crate) fn rate_bits(n: &serde_json::Number) -> (r: Option<u64>)
    ensures
        r == number_bits(*n),
{
    n.as_f64().map(|x| x.to_bits())
}

} // verus!
