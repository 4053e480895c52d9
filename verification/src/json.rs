//! The two places where the client leaves JSON to `serde_json`: writing one
//! string as a JSON string, and reading a JSON array of strings.
//!
//! Nothing in this file is proved. Each function hands its argument to
//! `serde_json` as it is; what `serde_json` returns for a text is given a
//! name, and the rest of the crate reasons about the name.

use vstd::prelude::*;

verus! {

/// The error type of `serde_json`, carried through as an opaque value.
#[verifier::external_type_specification]
#[verifier::external_body]
pub struct ExJsonError(serde_json::Error);

/// The JSON string that `serde_json::to_string` writes for a string with the
/// characters `text`: the text between two double quotes, with the quotes,
/// backslashes and control characters inside it escaped.
pub uninterp spec fn json_string(text: Seq<char>) -> Seq<char>;

/// What `serde_json::from_str` reads from `text` when a `Vec<String>` is asked
/// for: the strings of the array in their order, or `None` where it reports
/// an error, as it does for a text that is no JSON array of strings.
pub uninterp spec fn json_string_array(text: Seq<char>) -> Option<Seq<Seq<char>>>;

/// Calls `serde_json::to_string` on `text`. Two things are claimed. The call
/// succeeds: `serde_json` documents two causes of failure, a `Serialize` impl
/// that fails and a map whose key is no string, and a `str` has neither; its
/// bytes go to a `Vec<u8>`, whose writes do not fail. And the string that
/// comes back is the JSON string of `text`, a function of the characters of
/// `text` alone.
#[verifier::external_body]
pub(crate) fn encode_string(text: &str) -> (encoded: Result<String, serde_json::Error>)
    ensures
        encoded is Ok,
        encoded->Ok_0@ == json_string(text@),
{
    serde_json::to_string(text)
}

/// Calls `serde_json::from_str` on `text`, asking for a `Vec<String>`. The
/// claim is that the outcome is a function of the characters of `text` alone:
/// an `Ok` holds the strings that the array lists, and an `Err` comes exactly
/// for the texts that are no such array.
#[verifier::external_body]
pub(crate) fn parse_string_array(text: &str) -> (parsed: Result<Vec<String>, serde_json::Error>)
    ensures
        match parsed {
            Ok(names) => json_string_array(text@) == Some(names.deep_view()),
            Err(_) => json_string_array(text@) is None,
        },
{
    serde_json::from_str(text)
}

} // verus!
