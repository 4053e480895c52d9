//! What an answer of the store means for the operation that asked.
//!
//! An answer arrives in two parts: first its status, then, for whoever reads
//! on, its body. Two operations are settled by some statuses alone, a lookup
//! by "not found" and the health question by any status that is no success;
//! for them a function on the status says whether the body is needed at all.
//! The functions on status and body are total, and agree with the early
//! answer wherever there is one.

use vstd::prelude::*;
use crate::error::{ClientError, Failure};
use crate::json::{json_string_array, parse_string_array};
use crate::quotes::{quoted, strip_json_quotes, strip_quotes};

verus! {

/// The status with which the store says that a key is not there.
pub const NOT_FOUND: u16 = 404;

/// Whether `status` reports success: the statuses from 200 to 299.
pub open spec fn is_success(status: u16) -> bool {
    200 <= status < 300
}

/// What to do once the status of an answer is known.
#[derive(Debug, Clone, PartialEq, Eq)]
pub enum Step<T> {
    /// The status does not settle the operation: read the body, and hand
    /// both to the function that takes them.
    ReadBody,
    /// The status settles the operation with this result, whatever the body
    /// holds.
    Done(T),
}

/// The result of an insert or a delete: on success the body without its
/// quotes; on every other status a failure with the status and the body.
pub open spec fn text_outcome(status: u16, body: Seq<char>) -> Result<Seq<char>, Failure> {
    if is_success(status) {
        Ok(strip_quotes(body))
    } else {
        Err(Failure::Remote { status, body })
    }
}

/// The result of a lookup: on success the body without its quotes; `None` on
/// "not found"; on every other status a failure with the status and the body.
pub open spec fn lookup_outcome(status: u16, body: Seq<char>) -> Result<
    Option<Seq<char>>,
    Failure,
> {
    if is_success(status) {
        Ok(Some(strip_quotes(body)))
    } else if status == NOT_FOUND {
        Ok(None)
    } else {
        Err(Failure::Remote { status, body })
    }
}

/// The result of the health question: the store is up where it answers with
/// success and a body that is `OK` once its quotes are off.
pub open spec fn health_outcome(status: u16, body: Seq<char>) -> bool {
    is_success(status) && strip_quotes(body) == "OK"@
}

/// The result of a listing: the strings of the JSON array in the body. The
/// status plays no part.
pub open spec fn listing_outcome(body: Seq<char>) -> Result<Seq<Seq<char>>, Failure> {
    match json_string_array(body) {
        Some(names) => Ok(names),
        None => Err(Failure::Deserialization),
    }
}

/// Whether `status` reports success.
pub fn status_is_success(status: u16) -> (success: bool)
    ensures
        success == is_success(status),
{
    200 <= status && status < 300
}

/// The result of an insert or a delete that was answered with `status` and
/// `body`.
pub fn handle_response(status: u16, body: &str) -> (result: Result<String, ClientError>)
    ensures
        match result {
            Ok(text) => text_outcome(status, body@) == Ok::<Seq<char>, Failure>(text@),
            Err(e) => text_outcome(status, body@) == Err::<Seq<char>, Failure>(e@),
        },
{
    if status_is_success(status) {
        Ok(strip_json_quotes(body))
    } else {
        Err(ClientError::Remote { status, body: body.to_owned() })
    }
}

/// What a lookup does once it knows the status: "not found" settles it with
/// `None`; every other status needs the body.
pub fn lookup_status(status: u16) -> (step: Step<Option<String>>)
    ensures
        status == NOT_FOUND ==> step == Step::Done(None::<String>),
        status != NOT_FOUND ==> step == Step::<Option<String>>::ReadBody,
{
    if status == NOT_FOUND {
        Step::Done(None)
    } else {
        Step::ReadBody
    }
}

/// The result of a lookup that was answered with `status` and `body`.
pub fn handle_lookup(status: u16, body: &str) -> (result: Result<Option<String>, ClientError>)
    ensures
        match result {
            Ok(Some(text)) => lookup_outcome(status, body@) == Ok::<Option<Seq<char>>, Failure>(
                Some(text@),
            ),
            Ok(None) => lookup_outcome(status, body@) == Ok::<Option<Seq<char>>, Failure>(None),
            Err(e) => lookup_outcome(status, body@) == Err::<Option<Seq<char>>, Failure>(e@),
        },
{
    if status_is_success(status) {
        Ok(Some(strip_json_quotes(body)))
    } else if status == NOT_FOUND {
        Ok(None)
    } else {
        Err(ClientError::Remote { status, body: body.to_owned() })
    }
}

/// What the health question does once it knows the status: a status that is
/// no success settles it with `false`; a success needs the body.
pub fn health_status(status: u16) -> (step: Step<bool>)
    ensures
        !is_success(status) ==> step == Step::Done(false),
        is_success(status) ==> step == Step::<bool>::ReadBody,
{
    if status_is_success(status) {
        Step::ReadBody
    } else {
        Step::Done(false)
    }
}

/// Whether the store is up, given that it answered the health question with
/// `status` and `body`.
pub fn handle_health(status: u16, body: &str) -> (healthy: bool)
    ensures
        healthy == health_outcome(status, body@),
{
    if status_is_success(status) {
        let text = strip_json_quotes(body);
        let ok = "OK".to_owned();
        text == ok
    } else {
        false
    }
}

/// The result of a listing, given what `serde_json` made of the body: the
/// strings where it read an array, and a failure with its error where it did
/// not.
pub fn listing_from(parsed: Result<Vec<String>, serde_json::Error>) -> (result: Result<
    Vec<String>,
    ClientError,
>)
    ensures
        match (parsed, result) {
            (Ok(names), Ok(listed)) => listed == names,
            (Err(_), Err(e)) => e@ is Deserialization,
            _ => false,
        },
{
    match parsed {
        Ok(names) => Ok(names),
        Err(e) => Err(ClientError::Deserialization(e)),
    }
}

/// The result of a listing that was answered with `body`, whatever the
/// status was.
pub fn handle_listing(body: &str) -> (result: Result<Vec<String>, ClientError>)
    ensures
        match result {
            Ok(names) => listing_outcome(body@) == Ok::<Seq<Seq<char>>, Failure>(
                names.deep_view(),
            ),
            Err(e) => listing_outcome(body@) == Err::<Seq<Seq<char>>, Failure>(e@),
        },
{
    listing_from(parse_string_array(body))
}

/// Where the status alone settles an operation, no body changes the result:
/// a lookup that met "not found" is `None`, and the health question that met
/// a status other than success is `false`.
pub proof fn lemma_settled_by_status(status: u16, body: Seq<char>)
    ensures
        status == NOT_FOUND ==> lookup_outcome(status, body) == Ok::<Option<Seq<char>>, Failure>(
            None,
        ),
        !is_success(status) ==> !health_outcome(status, body),
{
}

/// A status that is neither a success nor "not found" fails every insert,
/// delete and lookup, and the failure holds that status and the body as it
/// came.
pub proof fn lemma_rejected_status_is_reported(status: u16, body: Seq<char>)
    requires
        !is_success(status),
        status != NOT_FOUND,
    ensures
        text_outcome(status, body) == Err::<Seq<char>, Failure>(Failure::Remote { status, body }),
        lookup_outcome(status, body) == Err::<Option<Seq<char>>, Failure>(
            Failure::Remote { status, body },
        ),
{
}

/// A value that comes back as a JSON string without escapes is read back as
/// it was stored: a successful lookup whose body is `value` between two
/// quotes gives `value`, and so does an insert or a delete answered that way.
pub proof fn lemma_quoted_body_reads_back(status: u16, value: Seq<char>)
    requires
        is_success(status),
    ensures
        lookup_outcome(status, quoted(value)) == Ok::<Option<Seq<char>>, Failure>(Some(value)),
        text_outcome(status, quoted(value)) == Ok::<Seq<char>, Failure>(value),
{
    crate::quotes::lemma_strip_quotes_of_quoted(value);
}

/// The store is reported up for the body `OK`, with or without quotes round
/// it, and for no status other than a success.
pub proof fn lemma_health_reads_ok(status: u16)
    ensures
        health_outcome(status, "OK"@) == is_success(status),
        health_outcome(status, quoted("OK"@)) == is_success(status),
{
    reveal_strlit("OK");
    crate::quotes::lemma_strip_quotes_of_quoted("OK"@);
}

} // verus!
