//! Outside values the library carries without reading them, and the calls
//! that create them.

use vstd::prelude::*;

verus! {

/// A JSON value (serde_json), carried through unread.
#[verifier::external_type_specification]
#[verifier::external_body]
pub struct ExJsonValue(serde_json::Value);

/// A compiled regular expression (regex).
#[verifier::external_type_specification]
#[verifier::external_body]
pub struct ExRegex(regex::Regex);

/// A compiled set of glob patterns (globset).
#[verifier::external_type_specification]
#[verifier::external_body]
pub struct ExGlobSet(globset::GlobSet);

/// `Clone` of a JSON value, which `serde_json` derives: the copy equals the
/// value cloned.
pub assume_specification[ <serde_json::Value as Clone>::clone ](v: &serde_json::Value) -> (c: serde_json::Value)
    ensures
        c == *v,
;

/// A point in time in UTC: whole seconds since the Unix epoch and the
/// nanoseconds past that second.
#[derive(Debug, Clone, Copy, PartialEq, Eq, Structural)]
pub struct Timestamp {
    pub secs: i64,
    pub nanos: u32,
}

/// The current time: `chrono::Utc::now()`, as seconds and nanoseconds.
/// Nothing is stated of the result, which depends on the clock.
#[verifier::external_body]
pub(crate) fn now() -> Timestamp {
    let t = chrono::Utc::now();
    Timestamp { secs: t.timestamp(), nanos: t.timestamp_subsec_nanos() }
}

/// A fresh random identifier: the 128 bits of `uuid::Uuid::new_v4()`.
/// Nothing is stated of the result, which is random.
#[verifier::external_body]
pub(crate) fn new_id() -> u128 {
    uuid::Uuid::new_v4().as_u128()
}


/// What `serde_json::from_str` makes of a text, with `Value::Null` where it
/// is not valid JSON.
pub uninterp spec fn parsed_json(text: Seq<char>) -> serde_json::Value;

/// The JSON object `serde_json::Value::from_iter` makes of (key, string)
/// pairs.
pub uninterp spec fn json_object(pairs: Seq<(Seq<char>, Seq<char>)>) -> serde_json::Value;

/// The JSON string value `serde_json::Value::from` makes of a text.
pub uninterp spec fn json_string(text: Seq<char>) -> serde_json::Value;

/// The compact text `serde_json::to_string` writes for a value, `None` where
/// it fails.
pub uninterp spec fn json_text(v: serde_json::Value) -> Option<Seq<char>>;

/// `serde_json::from_str`, with `Value::Null` in place of the error.
#[verifier::external_body]
pub(crate) fn parse_json_or_null(text: &str) -> (v: serde_json::Value)
    ensures
        v == parsed_json(text@),
{
    serde_json::from_str(text).unwrap_or(serde_json::Value::Null)
}

/// `serde_json::Value::from_iter` on (key, string) pairs: a JSON object.
#[verifier::external_body]
pub(crate) fn object_of_pairs(pairs: Vec<(String, String)>) -> (v: serde_json::Value)
    ensures
        v == json_object(pairs@.map_values(|p: (String, String)| (p.0@, p.1@))),
{
    serde_json::Value::from_iter(pairs)
}

/// `serde_json::Value::from` on a text: a JSON string.
#[verifier::external_body]
pub(crate) fn string_value(text: &str) -> (v: serde_json::Value)
    ensures
        v == json_string(text@),
{
    serde_json::Value::from(text)
}

/// `serde_json::to_string`: the compact JSON text of a value.
#[verifier::external_body]
pub(crate) fn to_json_text(v: &serde_json::Value) -> (t: Option<String>)
    ensures
        match t {
            Some(s) => json_text(*v) == Some(s@),
            None => json_text(*v) is None,
        },
{
    serde_json::to_string(v).ok()
}

} // verus!
