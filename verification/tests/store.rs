use std::collections::BTreeMap;

use sled_client::response::{
    handle_health, handle_listing, handle_lookup, handle_response, health_status, lookup_status,
};
use sled_client::{ClientError, Method, Request, SledClient, Step};

const TEST_URL: &str = "http://localhost:3030";

/// A store in memory that answers the requests of the client as the remote
/// store does: values come back as JSON strings, listings as JSON arrays.
struct Store {
    default: BTreeMap<String, String>,
    trees: BTreeMap<String, BTreeMap<String, String>>,
}

fn json_text(text: &str) -> String {
    serde_json::to_string(text).expect("a string has a JSON form")
}

fn json_list(names: Vec<String>) -> String {
    serde_json::to_string(&names).expect("a list of strings has a JSON form")
}

fn field(body: &serde_json::Value, name: &str) -> String {
    body.get(name).and_then(|v| v.as_str()).expect("the field is a string").to_string()
}

impl Store {
    fn new() -> Self {
        Store { default: BTreeMap::new(), trees: BTreeMap::new() }
    }

    fn answer(&mut self, request: &Request) -> (u16, String) {
        let path = request.url.strip_prefix(TEST_URL).expect("the request goes to this store");
        let parts: Vec<&str> = path.split('/').skip(1).collect();
        let body: Option<serde_json::Value> =
            request.body.as_ref().map(|text| serde_json::from_str(text).expect("the body is JSON"));
        match (request.method, parts.as_slice(), body) {
            (Method::Get, ["health"], None) => (200, json_text("OK")),
            (Method::Post, ["tree", "insert"], Some(record)) => {
                let tree = self.trees.entry(field(&record, "tree")).or_default();
                tree.insert(field(&record, "key"), field(&record, "value"));
                (200, json_text("Inserted"))
            }
            (Method::Get, ["tree", "get", tree, key], None) => {
                match self.trees.get(*tree).and_then(|t| t.get(*key)) {
                    Some(value) => (200, json_text(value)),
                    None => (404, json_text("Key not found")),
                }
            }
            (Method::Delete, ["tree", "delete", tree, key], None) => {
                if let Some(t) = self.trees.get_mut(*tree) {
                    t.remove(*key);
                }
                (200, json_text("Deleted"))
            }
            (Method::Get, ["tree", "list", tree], None) => {
                let keys = self.trees.get(*tree).map(|t| t.keys().cloned().collect());
                (200, json_list(keys.unwrap_or_default()))
            }
            (Method::Get, ["trees"], None) => (200, json_list(self.trees.keys().cloned().collect())),
            (Method::Post, ["insert"], Some(record)) => {
                assert!(record.get("tree").expect("tree is sent").is_null());
                self.default.insert(field(&record, "key"), field(&record, "value"));
                (200, json_text("Inserted"))
            }
            (Method::Get, ["get", key], None) => match self.default.get(*key) {
                Some(value) => (200, json_text(value)),
                None => (404, json_text("Key not found")),
            },
            _ => (400, "Bad request".to_string()),
        }
    }

    fn text(&mut self, request: Request) -> Result<String, ClientError> {
        let (status, body) = self.answer(&request);
        handle_response(status, &body)
    }

    fn lookup(&mut self, request: Request) -> Result<Option<String>, ClientError> {
        let (status, body) = self.answer(&request);
        match lookup_status(status) {
            Step::Done(value) => Ok(value),
            Step::ReadBody => handle_lookup(status, &body),
        }
    }

    fn listing(&mut self, request: Request) -> Result<Vec<String>, ClientError> {
        let (_, body) = self.answer(&request);
        handle_listing(&body)
    }

    fn health(&mut self, request: Request) -> bool {
        let (status, body) = self.answer(&request);
        match health_status(status) {
            Step::Done(up) => up,
            Step::ReadBody => handle_health(status, &body),
        }
    }
}

#[test]
fn test_health_check() {
    let mut store = Store::new();
    let client = SledClient::new(TEST_URL);
    let healthy = store.health(client.health_check());
    assert!(healthy);
}

#[test]
fn test_tree_operations() {
    let mut store = Store::new();
    let client = SledClient::new(TEST_URL);

    let result = store.text(client.tree_insert("users", "user1", "John Doe"));
    assert!(result.is_ok());

    let value = store.lookup(client.tree_get("users", "user1")).unwrap();
    assert_eq!(value, Some("John Doe".to_string()));

    let result = store.text(client.tree_delete("users", "user1"));
    assert!(result.is_ok());

    let value = store.lookup(client.tree_get("users", "user1")).unwrap();
    assert_eq!(value, None);
}

#[test]
fn test_tree_listing() {
    let mut store = Store::new();
    let client = SledClient::new(TEST_URL);

    store.text(client.tree_insert("products", "prod1", "Laptop")).unwrap();
    store.text(client.tree_insert("products", "prod2", "Mouse")).unwrap();

    let keys = store.listing(client.tree_list_keys("products")).unwrap();
    assert!(keys.contains(&"prod1".to_string()));
    assert!(keys.contains(&"prod2".to_string()));

    store.text(client.tree_delete("products", "prod1")).unwrap();
    store.text(client.tree_delete("products", "prod2")).unwrap();
}

#[test]
fn test_legacy_operations() {
    let mut store = Store::new();
    let client = SledClient::new(TEST_URL);

    let result = store.text(client.insert("legacy_key", "legacy_value"));
    assert!(result.is_ok());

    let value = store.lookup(client.get("legacy_key")).unwrap();
    assert_eq!(value, Some("legacy_value".to_string()));
}

#[test]
fn lookup_of_a_key_never_stored_is_none() {
    let mut store = Store::new();
    let client = SledClient::new(TEST_URL);
    assert_eq!(store.lookup(client.tree_get("users", "nobody")).unwrap(), None);
    assert_eq!(store.lookup(client.get("nothing")).unwrap(), None);
}

#[test]
fn trees_and_the_default_namespace_are_apart() {
    let mut store = Store::new();
    let client = SledClient::new(TEST_URL);
    store.text(client.tree_insert("users", "k", "in tree")).unwrap();
    store.text(client.insert("k", "in default")).unwrap();
    assert_eq!(store.lookup(client.tree_get("users", "k")).unwrap(), Some("in tree".to_string()));
    assert_eq!(store.lookup(client.get("k")).unwrap(), Some("in default".to_string()));
    assert_eq!(store.lookup(client.tree_get("other", "k")).unwrap(), None);
}

#[test]
fn all_trees_are_listed() {
    let mut store = Store::new();
    let client = SledClient::new(TEST_URL);
    assert_eq!(store.listing(client.list_all_trees()).unwrap(), Vec::<String>::new());
    store.text(client.tree_insert("users", "u", "1")).unwrap();
    store.text(client.tree_insert("products", "p", "2")).unwrap();
    let trees = store.listing(client.list_all_trees()).unwrap();
    assert!(trees.contains(&"users".to_string()));
    assert!(trees.contains(&"products".to_string()));
    assert_eq!(trees.len(), 2);
}

#[test]
fn keys_of_an_empty_tree_are_none() {
    let mut store = Store::new();
    let client = SledClient::new(TEST_URL);
    assert_eq!(store.listing(client.tree_list_keys("empty")).unwrap(), Vec::<String>::new());
}

#[test]
fn a_value_with_an_escape_comes_back_as_the_store_wrote_it() {
    let mut store = Store::new();
    let client = SledClient::new(TEST_URL);
    store.text(client.tree_insert("users", "q", "say \"hi\"")).unwrap();
    let value = store.lookup(client.tree_get("users", "q")).unwrap();
    assert_eq!(value, Some("say \\\"hi\\\"".to_string()));
}

#[test]
fn a_request_the_store_rejects_is_an_error_with_status_and_body() {
    let mut store = Store::new();
    let stray = Request {
        method: Method::Delete,
        url: format!("{}/health", TEST_URL),
        body: None,
    };
    match store.text(stray) {
        Err(ClientError::Remote { status, body }) => {
            assert_eq!(status, 400);
            assert_eq!(body, "Bad request");
        }
        other => panic!("expected a rejected status, got {:?}", other),
    }
}
