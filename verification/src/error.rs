//! The ways in which an operation of the client fails.

use vstd::prelude::*;

verus! {

/// A failure of the client. Not finding a key is no failure: a lookup
/// answers it with `None`.
#[derive(Debug)]
pub enum ClientError {
    /// The body of a response was not the JSON array of strings that the
    /// operation expects. The value is the error that `serde_json` gave.
    Deserialization(serde_json::Error),
    /// The server answered with a status that the operation does not accept.
    /// `status` is the numeric status, and `body` the body as it came.
    Remote { status: u16, body: String },
}

/// What a [`ClientError`] says, without the value of the outside error.
pub enum Failure {
    Deserialization,
    Remote { status: u16, body: Seq<char> },
}

impl View for ClientError {
    type V = Failure;

    open spec fn view(&self) -> Failure {
        match self {
            ClientError::Deserialization(_) => Failure::Deserialization,
            ClientError::Remote { status, body } => Failure::Remote {
                status: *status,
                body: body@,
            },
        }
    }
}

impl ClientError {
    /// The status that the server answered with, where the failure is a
    /// rejected status.
    pub fn status(&self) -> (status: Option<u16>)
        ensures
            status == match self@ {
                Failure::Remote { status, .. } => Some(status),
                _ => None,
            },
    {
        match self {
            ClientError::Remote { status, .. } => Some(*status),
            _ => None,
        }
    }
}

} // verus!
