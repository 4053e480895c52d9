//! A client for a remote key-value store that is reached over HTTP.
//!
//! The store keeps strings under keys, in a default namespace and in named
//! trees. This crate does no input or output. For every operation of the
//! store it builds the request to send ([`SledClient`]), and it turns the
//! status and the body of the answer into a typed result ([`response`]).
//! Whoever owns the connection sends the one and hands back the other.

pub mod client;
pub mod error;
pub mod json;
pub mod payload;
pub mod quotes;
pub mod request;
pub mod response;

pub use client::SledClient;
pub use error::ClientError;
pub use payload::{KeyValue, TreeOperation};
pub use request::{Method, Request};
pub use response::Step;
