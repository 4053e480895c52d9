//! The requests that the client sends, one for each operation of the store.
//!
//! A request is a method, a full address and, for the two inserts, a JSON
//! body. The address is the base address of the store followed by the path of
//! the endpoint; tree names and keys go into the path as they are given.

use vstd::prelude::*;
use crate::payload::{KeyValueView, TreeOperationView};

verus! {

/// The HTTP method of a request.
#[derive(Debug, Clone, Copy, PartialEq, Eq, Structural)]
pub enum Method {
    Get,
    Post,
    Delete,
}

/// One HTTP request. A body, where there is one, is a JSON document and is
/// sent with the content type `application/json`.
#[derive(Debug, Clone, PartialEq, Eq)]
pub struct Request {
    pub method: Method,
    pub url: String,
    pub body: Option<String>,
}

/// A [`Request`] as plain values.
pub struct RequestView {
    pub method: Method,
    pub url: Seq<char>,
    pub body: Option<Seq<char>>,
}

impl View for Request {
    type V = RequestView;

    open spec fn view(&self) -> RequestView {
        RequestView {
            method: self.method,
            url: self.url@,
            body: match self.body {
                Some(text) => Some(text@),
                None => None,
            },
        }
    }
}

/// Insert `value` under `key` in the tree `tree`: `POST {base}/tree/insert`
/// with the record `{tree,key,value}` as body.
pub open spec fn tree_insert_request(
    base: Seq<char>,
    tree: Seq<char>,
    key: Seq<char>,
    value: Seq<char>,
) -> RequestView {
    RequestView {
        method: Method::Post,
        url: base + "/tree/insert"@,
        body: Some(TreeOperationView { tree, key, value: Some(value) }.json()),
    }
}

/// Look `key` up in the tree `tree`: `GET {base}/tree/get/{tree}/{key}`.
pub open spec fn tree_get_request(base: Seq<char>, tree: Seq<char>, key: Seq<char>) -> RequestView {
    RequestView { method: Method::Get, url: base + "/tree/get/"@ + tree + "/"@ + key, body: None }
}

/// Delete `key` from the tree `tree`: `DELETE {base}/tree/delete/{tree}/{key}`.
pub open spec fn tree_delete_request(
    base: Seq<char>,
    tree: Seq<char>,
    key: Seq<char>,
) -> RequestView {
    RequestView {
        method: Method::Delete,
        url: base + "/tree/delete/"@ + tree + "/"@ + key,
        body: None,
    }
}

/// List the keys of the tree `tree`: `GET {base}/tree/list/{tree}`.
pub open spec fn tree_list_keys_request(base: Seq<char>, tree: Seq<char>) -> RequestView {
    RequestView { method: Method::Get, url: base + "/tree/list/"@ + tree, body: None }
}

/// List the trees of the store: `GET {base}/trees`.
pub open spec fn list_all_trees_request(base: Seq<char>) -> RequestView {
    RequestView { method: Method::Get, url: base + "/trees"@, body: None }
}

/// Insert `value` under `key` in the default namespace: `POST {base}/insert`
/// with the record `{key,value,tree}` as body, its `tree` empty.
pub open spec fn insert_request(base: Seq<char>, key: Seq<char>, value: Seq<char>) -> RequestView {
    RequestView {
        method: Method::Post,
        url: base + "/insert"@,
        body: Some(KeyValueView { key, value, tree: None }.json()),
    }
}

/// Look `key` up in the default namespace: `GET {base}/get/{key}`.
pub open spec fn get_request(base: Seq<char>, key: Seq<char>) -> RequestView {
    RequestView { method: Method::Get, url: base + "/get/"@ + key, body: None }
}

/// Ask the store whether it is up: `GET {base}/health`.
pub open spec fn health_check_request(base: Seq<char>) -> RequestView {
    RequestView { method: Method::Get, url: base + "/health"@, body: None }
}

} // verus!
