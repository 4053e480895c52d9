//! The client: a base address, and one request builder for each operation.

use vstd::prelude::*;
use crate::payload::{KeyValue, TreeOperation};
use crate::request::{
    get_request, health_check_request, insert_request, list_all_trees_request,
    tree_delete_request, tree_get_request, tree_insert_request, tree_list_keys_request, Method,
    Request,
};

verus! {

/// A client of one store. It holds the base address of the store and nothing
/// else; no call changes it.
#[derive(Debug, Clone)]
pub struct SledClient {
    base_url: String,
}

impl SledClient {
    /// The base address that the client was made with.
    pub closed spec fn base(&self) -> Seq<char> {
        self.base_url@
    }

    /// A client of the store at `base_url`. The address is taken as it is
    /// given.
    pub fn new(base_url: &str) -> (client: Self)
        ensures
            client.base() == base_url@,
    {
        SledClient { base_url: base_url.to_owned() }
    }

    /// The base address of the store.
    pub fn base_url(&self) -> (base: &str)
        ensures
            base@ == self.base(),
    {
        self.base_url.as_str()
    }

    /// The address of the endpoint `path` of the store.
    fn endpoint(&self, path: &str) -> (url: String)
        ensures
            url@ == self.base() + path@,
    {
        let mut url = self.base_url.clone();
        url.append(path);
        url
    }

    /// The request that inserts `value` under `key` in the tree `tree`.
    pub fn tree_insert(&self, tree: &str, key: &str, value: &str) -> (request: Request)
        ensures
            request@ == tree_insert_request(self.base(), tree@, key@, value@),
    {
        let operation = TreeOperation {
            tree: tree.to_owned(),
            key: key.to_owned(),
            value: Some(value.to_owned()),
        };
        Request {
            method: Method::Post,
            url: self.endpoint("/tree/insert"),
            body: Some(operation.to_json()),
        }
    }

    /// The request that looks `key` up in the tree `tree`.
    pub fn tree_get(&self, tree: &str, key: &str) -> (request: Request)
        ensures
            request@ == tree_get_request(self.base(), tree@, key@),
    {
        let mut url = self.endpoint("/tree/get/");
        url.append(tree);
        url.append("/");
        url.append(key);
        Request { method: Method::Get, url, body: None }
    }

    /// The request that deletes `key` from the tree `tree`.
    pub fn tree_delete(&self, tree: &str, key: &str) -> (request: Request)
        ensures
            request@ == tree_delete_request(self.base(), tree@, key@),
    {
        let mut url = self.endpoint("/tree/delete/");
        url.append(tree);
        url.append("/");
        url.append(key);
        Request { method: Method::Delete, url, body: None }
    }

    /// The request that lists the keys of the tree `tree`.
    pub fn tree_list_keys(&self, tree: &str) -> (request: Request)
        ensures
            request@ == tree_list_keys_request(self.base(), tree@),
    {
        let mut url = self.endpoint("/tree/list/");
        url.append(tree);
        Request { method: Method::Get, url, body: None }
    }

    /// The request that lists the trees of the store.
    pub fn list_all_trees(&self) -> (request: Request)
        ensures
            request@ == list_all_trees_request(self.base()),
    {
        Request { method: Method::Get, url: self.endpoint("/trees"), body: None }
    }

    /// The request that inserts `value` under `key` in the default namespace.
    pub fn insert(&self, key: &str, value: &str) -> (request: Request)
        ensures
            request@ == insert_request(self.base(), key@, value@),
    {
        let record = KeyValue { key: key.to_owned(), value: value.to_owned(), tree: None };
        Request {
            method: Method::Post,
            url: self.endpoint("/insert"),
            body: Some(record.to_json()),
        }
    }

    /// The request that looks `key` up in the default namespace.
    pub fn get(&self, key: &str) -> (request: Request)
        ensures
            request@ == get_request(self.base(), key@),
    {
        let mut url = self.endpoint("/get/");
        url.append(key);
        Request { method: Method::Get, url, body: None }
    }

    /// The request that asks the store whether it is up.
    pub fn health_check(&self) -> (request: Request)
        ensures
            request@ == health_check_request(self.base()),
    {
        Request { method: Method::Get, url: self.endpoint("/health"), body: None }
    }
}

} // verus!
