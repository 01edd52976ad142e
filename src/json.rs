use vstd::prelude::*;

verus! {

/// A parsed JSON document of the `serde_json` crate, carried through unread.
#[verifier::external_type_specification]
#[verifier::external_body]
pub struct ExValue(serde_json::Value);

/// The error that `serde_json` reports for text that is not JSON.
#[verifier::external_type_specification]
#[verifier::external_body]
pub struct ExJsonError(serde_json::Error);

/// Whether `serde_json` accepts the text as one JSON document.
pub uninterp spec fn is_json(text: Seq<char>) -> bool;

/// The document that `serde_json` reads from a text that it accepts.
pub uninterp spec fn json_value_of(text: Seq<char>) -> serde_json::Value;

/// Relies on serde_json::from_str: parses the text into a `Value`, succeeds
/// exactly on the texts that it accepts, and reads equal texts alike.
#[verifier::external_body]
pub(crate) fn parse_json(text: &str) -> (r: Result<serde_json::Value, serde_json::Error>)
    ensures
        r.is_ok() == is_json(text@),
        r matches Ok(v) ==> v == json_value_of(text@),
{
    serde_json::from_str::<serde_json::Value>(text)
}

/// The member of a JSON document under a key, as `serde_json` looks it up:
/// nothing where the document is no object or has no such member.
pub uninterp spec fn json_member_of(v: serde_json::Value, key: Seq<char>) -> Option<serde_json::Value>;

/// The text of a JSON document that is a string, and nothing for any other.
pub uninterp spec fn json_str_of(v: serde_json::Value) -> Option<Seq<char>>;

/// The value of a JSON document that is a number fitting in a `u64`, and
/// nothing for any other.
pub uninterp spec fn json_u64_of(v: serde_json::Value) -> Option<u64>;

/// Relies on serde_json::Value::get: the member of an object under a key,
/// which depends on the document and the key alone.
#[verifier::external_body]
pub(crate) fn member<'a>(v: &'a serde_json::Value, key: &str) -> (r: Option<&'a serde_json::Value>)
    ensures
        (match r {
            Some(m) => Some(*m),
            None => None,
        }) == json_member_of(*v, key@),
{
    v.get(key)
}

/// Relies on serde_json::Value::as_str: the text of a JSON string, which
/// depends on the document alone.
pub assume_specification<'a>[ serde_json::Value::as_str ](v: &'a serde_json::Value) -> (r: Option<&'a str>)
    ensures
        (match r {
            Some(t) => Some(t@),
            None => None,
        }) == json_str_of(*v),
;

/// Relies on serde_json::Value::as_u64: a JSON number that fits in a `u64`,
/// which depends on the document alone.
pub assume_specification[ serde_json::Value::as_u64 ](v: &serde_json::Value) -> (r: Option<u64>)
    ensures
        r == json_u64_of(*v),
;

} // verus!
