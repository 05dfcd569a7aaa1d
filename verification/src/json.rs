//! The boundary to `serde_json`: reading a flat JSON object of strings and
//! writing one. Nothing in this file is proved; the contracts below are what
//! the rest of the library takes on trust.

use crate::pairs::{distinct_keys, map_of};
use std::collections::HashMap;
use vstd::prelude::*;

verus! {

/// `serde_json::Error`, carried through as an opaque value.
#[verifier::external_type_specification]
#[verifier::external_body]
pub struct ExJsonError(serde_json::Error);

/// What `serde_json::from_str::<HashMap<String, String>>` makes of a text:
/// the members of the object that the text spells, or `None` where the call
/// reports an error (the text is not JSON, or not an object whose values are
/// all strings).
pub uninterp spec fn json_object(text: Seq<char>) -> Option<Map<Seq<char>, Seq<char>>>;

/// Calls `serde_json::from_str::<HashMap<String, String>>` and hands the
/// members out as a list. The contract names the outcome: the list stands for
/// the map `json_object(text)`, and the call fails exactly where that is
/// `None`. The order of the list is left open.
#[verifier::external_body]
pub(crate) fn parse_object(text: &str) -> (parsed: Result<Vec<(String, String)>, serde_json::Error>)
    ensures
        match parsed {
            Ok(entries) => json_object(text@) == Some(map_of(entries@)),
            Err(_) => json_object(text@) is None,
        },
{
    match serde_json::from_str::<HashMap<String, String>>(text) {
        Ok(object) => Ok(object.into_iter().collect()),
        Err(error) => Err(error),
    }
}

/// Calls `serde_json::to_string` on a `HashMap` built from the entries, one
/// member per entry. The contract claims two things of that call. It
/// succeeds: the keys and the values are strings, which the encoder always
/// accepts, and it writes into memory, which takes every write. And the text
/// is one that `serde_json::from_str` reads as the same map: what the encoder
/// escapes in a string, the reader restores. The order of the members in the
/// text follows the hash map and is left open.
#[verifier::external_body]
pub(crate) fn encode_object(
    entries: &Vec<(String, String)>,
) -> (encoded: Result<String, serde_json::Error>)
    requires
        distinct_keys(entries@),
    ensures
        encoded is Ok,
        encoded matches Ok(text) ==> json_object(text@) == Some(map_of(entries@)),
{
    let object: HashMap<&str, &str> =
        entries.iter().map(|entry| (entry.0.as_str(), entry.1.as_str())).collect();
    serde_json::to_string(&object)
}

} // verus!
