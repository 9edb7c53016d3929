//! Tests for envelope unwrapping and the lenient sequence decoder.

use freedom_models::error::Error;
use freedom_models::pagination::{Page, Paginated};
use freedom_models::task_override::Override;
use freedom_models::utils::links::LinkMap;
use freedom_models::utils::{content_decode, destructure_decode, flatten_deserialize, Embedded};
use freedom_models::Hateoas;
use freedom_models::wire::{WireDecode, WireValue};

fn env_wire_of(v: &serde_json::Value) -> WireValue {
    match v {
        serde_json::Value::Null => WireValue::Null,
        serde_json::Value::Bool(b) => WireValue::Bool(*b),
        serde_json::Value::Number(n) => WireValue::Number(n.to_string()),
        serde_json::Value::String(s) => WireValue::Text(s.clone()),
        serde_json::Value::Array(a) => WireValue::Array(a.iter().map(env_wire_of).collect()),
        serde_json::Value::Object(o) => {
            WireValue::Object(o.iter().map(|(k, v)| (k.clone(), env_wire_of(v))).collect())
        }
    }
}

fn env_wire(s: &str) -> WireValue {
    env_wire_of(&serde_json::from_str(s).unwrap())
}

#[test]
fn lenient_sequence() {
    let v = env_wire(r#"[1, "bad", 3, {"also": "bad"}, 5]"#);
    let out: Vec<u32> = flatten_deserialize(&v).unwrap();
    assert_eq!(out, vec![1, 3, 5]);
}

#[test]
fn lenient_sequence_fails_only_off_arrays() {
    let v = env_wire(r#"{"not": "an array"}"#);
    assert_eq!(flatten_deserialize::<u32>(&v), Err(Error::PaginatedInner));
}

#[test]
fn single_key_destructure_failure() {
    let empty = env_wire(r#"{}"#);
    assert_eq!(destructure_decode::<Vec<u32>>(&empty).unwrap_err(), Error::PaginatedListMissing);
    let keyed = env_wire(r#"{"anything": [1, 2, 3]}"#);
    assert_eq!(destructure_decode::<Vec<u32>>(&keyed).unwrap(), vec![1, 2, 3]);
}

#[test]
fn strict_sequence_rejects_bad_element() {
    let v = env_wire(r#"{"items": [1, "bad", 3]}"#);
    assert_eq!(destructure_decode::<Vec<u32>>(&v).unwrap_err(), Error::PaginatedInner);
}

#[test]
fn content_envelope() {
    let v = env_wire(
        r#"{
            "content": {"created": "2020-08-12T04:05:20Z", "name": "x"},
            "_links": {"self": {"href": "http://h/1"}}
        }"#,
    );
    let record: Override = content_decode(&v).unwrap();
    assert_eq!(record.name.as_str(), "x");
    assert_eq!(record.links.entry_count(), 1);
    assert_eq!(record.links.get("self").unwrap().as_str(), "http://h/1");
}

#[test]
fn content_envelope_overrides_payload_links() {
    let v = env_wire(
        r#"{
            "content": {
                "created": "2020-08-12T04:05:20Z",
                "name": "x",
                "_links": {"inner": {"href": "http://h/inner"}}
            },
            "_links": {"self": {"href": "http://h/1"}}
        }"#,
    );
    let record: Override = content_decode(&v).unwrap();
    assert!(record.links.get("inner").is_none());
    assert_eq!(record.links.get("self").unwrap().as_str(), "http://h/1");
}

#[test]
fn content_envelope_links_default_empty() {
    let v = env_wire(r#"{"content": {"created": "2020-08-12T04:05:20Z", "name": "x"}}"#);
    let record: Override = content_decode(&v).unwrap();
    assert_eq!(record.links.entry_count(), 0);
}

#[test]
fn error_messages_name_the_failure() {
    assert_eq!(
        Error::PaginatedListMissing.message(),
        "The inner list of paginated elements is missing"
    );
    assert_eq!(
        Error::PaginatedInner.message(),
        "An item within the inner paginated structure failed to deserialize"
    );
}

#[test]
fn set_links_replaces_record_links() {
    let v = env_wire(r#"{"created": "2020-08-12T04:05:20Z", "name": "x",
        "_links": {"self": {"href": "http://h/old"}}}"#);
    let mut record = Override::decode_wire(&v).unwrap();
    assert_eq!(record.get_links().get("self").unwrap().as_str(), "http://h/old");
    let mut fresh = LinkMap::new();
    assert!(fresh.insert_url("self".to_string(), "http://h/new"));
    record.set_links(fresh);
    assert_eq!(record.get_links().get("self").unwrap().as_str(), "http://h/new");
}

#[test]
fn page_decode_exact() {
    let v = env_wire(r#"{"size": 20, "totalElements": 53, "totalPages": 3, "number": 1}"#);
    let page = Page::decode_wire(&v).unwrap();
    assert_eq!(
        page,
        Page { size: 20, total_elements: 53, total_pages: 3, number: 1 }
    );
}

#[test]
fn paginated_envelope() {
    let v = env_wire(
        r#"{
            "_embedded": {"taskList": [7, 8, 9]},
            "_links": {"self": {"href": "http://h/tasks?page=1"}},
            "page": {"size": 3, "totalElements": 9, "totalPages": 3, "number": 0}
        }"#,
    );
    let p: Paginated<u32> = Paginated::decode(&v).unwrap();
    assert_eq!(p.items, vec![7, 8, 9]);
    assert_eq!(p.links.get("self").unwrap().as_str(), "http://h/tasks?page=1");
    assert_eq!(p.page.total_elements, 9);
}

#[test]
fn paginated_envelope_errors() {
    let no_embedded = env_wire(
        r#"{"_links": {"self": {"href": "http://h/1"}},
            "page": {"size": 0, "totalElements": 0, "totalPages": 0, "number": 0}}"#,
    );
    assert_eq!(
        Paginated::<u32>::decode(&no_embedded).unwrap_err(),
        Error::PaginatedListMissing
    );
    let empty_inner = env_wire(
        r#"{"_embedded": {},
            "_links": {"self": {"href": "http://h/1"}},
            "page": {"size": 0, "totalElements": 0, "totalPages": 0, "number": 0}}"#,
    );
    assert_eq!(
        Paginated::<u32>::decode(&empty_inner).unwrap_err(),
        Error::PaginatedListMissing
    );
    let bad_item = env_wire(
        r#"{"_embedded": {"list": [1, "bad"]},
            "_links": {"self": {"href": "http://h/1"}},
            "page": {"size": 0, "totalElements": 0, "totalPages": 0, "number": 0}}"#,
    );
    assert_eq!(Paginated::<u32>::decode(&bad_item).unwrap_err(), Error::PaginatedInner);
    let no_links = env_wire(
        r#"{"_embedded": {"list": [1]},
            "page": {"size": 0, "totalElements": 0, "totalPages": 0, "number": 0}}"#,
    );
    assert!(matches!(
        Paginated::<u32>::decode(&no_links).unwrap_err(),
        Error::Link(_)
    ));
}

#[test]
fn embedded_envelope() {
    let v = env_wire(
        r#"{
            "_embedded": {"ids": [4, 5]},
            "_links": {"self": {"href": "http://h/e"}}
        }"#,
    );
    let e: Embedded<Vec<u32>> = Embedded::decode(&v).unwrap();
    assert_eq!(e.items, vec![4, 5]);
    assert_eq!(e.links.get("self").unwrap().as_str(), "http://h/e");
    let no_links = env_wire(r#"{"_embedded": {"ids": [4, 5]}}"#);
    let e: Embedded<Vec<u32>> = Embedded::decode(&no_links).unwrap();
    assert_eq!(e.links.entry_count(), 0);
}
