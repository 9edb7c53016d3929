//! Tests for the timestamp and link-map codecs.

use freedom_models::error::Error;
use freedom_models::utils::links::LinkMap;
use freedom_models::utils::timestamp;
use freedom_models::utils::timestamp::Timestamp;
use freedom_models::wire::WireValue;

fn codec_wire_of(v: &serde_json::Value) -> WireValue {
    match v {
        serde_json::Value::Null => WireValue::Null,
        serde_json::Value::Bool(b) => WireValue::Bool(*b),
        serde_json::Value::Number(n) => WireValue::Number(n.to_string()),
        serde_json::Value::String(s) => WireValue::Text(s.clone()),
        serde_json::Value::Array(a) => WireValue::Array(a.iter().map(codec_wire_of).collect()),
        serde_json::Value::Object(o) => {
            WireValue::Object(o.iter().map(|(k, v)| (k.clone(), codec_wire_of(v))).collect())
        }
    }
}

fn codec_wire(s: &str) -> WireValue {
    codec_wire_of(&serde_json::from_str(s).unwrap())
}

#[test]
fn time_deserialization() {
    let t1 = "2020-08-12T04:05:20Z";
    assert!(timestamp::deserialize(&WireValue::Text(t1.to_string())).is_ok());
    let t2 = "2020-08-12T04:05:20.040Z";
    assert!(timestamp::deserialize(&WireValue::Text(t2.to_string())).is_ok());
}

#[test]
fn timestamp_text_exact_instant() {
    let t = timestamp::deserialize(&WireValue::Text("2020-08-12T04:05:20Z".to_string())).unwrap();
    assert_eq!(t.seconds, 1_597_205_120);
    assert_eq!(t.nanos, 0);
    let t = timestamp::deserialize(&WireValue::Text("2020-08-12T04:05:20.040Z".to_string()))
        .unwrap();
    assert_eq!(t.seconds, 1_597_205_120);
    assert_eq!(t.nanos, 40_000_000);
}

#[test]
fn timestamp_dual_form_equivalence() {
    let from_text =
        timestamp::deserialize(&WireValue::Text("2025-12-11T00:00:00Z".to_string())).unwrap();
    let from_number =
        timestamp::deserialize(&WireValue::Number("1765411200".to_string())).unwrap();
    assert_eq!(from_text, from_number);
    assert_eq!(from_text.seconds, 1_765_411_200);
    assert_eq!(from_text.nanos / 1_000_000, from_number.nanos / 1_000_000);
}

#[test]
fn timestamp_epoch_float() {
    let t = timestamp::deserialize(&codec_wire("1648733340.076")).unwrap();
    assert_eq!(t.seconds, 1_648_733_340);
    assert_eq!(t.nanos, 76_000_000);
}

#[test]
fn timestamp_negative_epoch() {
    let t = timestamp::deserialize(&WireValue::Number("-5.25".to_string())).unwrap();
    assert_eq!(t.seconds, -6);
    assert_eq!(t.nanos, 750_000_000);
    let t = timestamp::deserialize(&WireValue::Number("-5".to_string())).unwrap();
    assert_eq!(t.seconds, -5);
    assert_eq!(t.nanos, 0);
}

#[test]
fn timestamp_epoch_saturates() {
    let t = timestamp::deserialize(&WireValue::Number(
        "99999999999999999999999999".to_string(),
    ))
    .unwrap();
    assert_eq!(t.seconds, i64::MAX);
    assert_eq!(t.nanos, 999_999_999);
    let t = timestamp::deserialize(&WireValue::Number(
        "-99999999999999999999999999".to_string(),
    ))
    .unwrap();
    assert_eq!(t.seconds, i64::MIN);
    assert_eq!(t.nanos, 0);
    // Exponent notation clamps the same way; serde_json prints huge
    // floats in this shape.
    let t = timestamp::deserialize(&WireValue::Number("1e26".to_string())).unwrap();
    assert_eq!(t.seconds, i64::MAX);
    assert_eq!(t.nanos, 999_999_999);
    let t = timestamp::deserialize(&WireValue::Number("-1e26".to_string())).unwrap();
    assert_eq!(t.seconds, i64::MIN);
    assert_eq!(t.nanos, 0);
    let t = timestamp::deserialize(&WireValue::Number(
        "2e99999999999999999999999999".to_string(),
    ))
    .unwrap();
    assert_eq!(t.seconds, i64::MAX);
    assert_eq!(t.nanos, 999_999_999);
}

#[test]
fn timestamp_epoch_fraction_edges() {
    // Digits beyond the ninth are truncated.
    let t = timestamp::deserialize(&WireValue::Number("0.1234567891".to_string())).unwrap();
    assert_eq!(t.seconds, 0);
    assert_eq!(t.nanos, 123_456_789);
    // A trailing decimal point reads as a whole number of seconds.
    let t = timestamp::deserialize(&WireValue::Number("7.".to_string())).unwrap();
    assert_eq!(t.seconds, 7);
    assert_eq!(t.nanos, 0);
}

#[test]
fn timestamp_epoch_exponent() {
    let t = timestamp::deserialize(&codec_wire("1e3")).unwrap();
    assert_eq!(t, Timestamp { seconds: 1000, nanos: 0 });
    let t = timestamp::deserialize(&codec_wire("1.5e2")).unwrap();
    assert_eq!(t, Timestamp { seconds: 150, nanos: 0 });
    let t = timestamp::deserialize(&codec_wire("25e-1")).unwrap();
    assert_eq!(t, Timestamp { seconds: 2, nanos: 500_000_000 });
    let t = timestamp::deserialize(&WireValue::Number("1E2".to_string())).unwrap();
    assert_eq!(t, Timestamp { seconds: 100, nanos: 0 });
    let t = timestamp::deserialize(&WireValue::Number("1648733340076e-3".to_string())).unwrap();
    assert_eq!(t, Timestamp { seconds: 1_648_733_340, nanos: 76_000_000 });
    // A magnitude below one nanosecond reads as the epoch itself.
    let t = timestamp::deserialize(&codec_wire("1e-12")).unwrap();
    assert_eq!(t, Timestamp { seconds: 0, nanos: 0 });
    let t = timestamp::deserialize(&WireValue::Number("0e99999999999999999999".to_string()))
        .unwrap();
    assert_eq!(t, Timestamp { seconds: 0, nanos: 0 });
    // A sign or digits alone do not make an exponent.
    assert!(timestamp::deserialize(&WireValue::Number("1e".to_string())).is_err());
    assert!(timestamp::deserialize(&WireValue::Number("1e+".to_string())).is_err());
    assert!(timestamp::deserialize(&WireValue::Number("1e2.5".to_string())).is_err());
}

#[test]
fn timestamp_format_error() {
    assert_eq!(
        timestamp::deserialize(&WireValue::Text("yesterday".to_string())),
        Err(Error::TimestampFormat)
    );
    assert_eq!(
        timestamp::deserialize(&WireValue::Number("1.2.3".to_string())),
        Err(Error::TimestampFormat)
    );
    assert_eq!(timestamp::deserialize(&WireValue::Null), Err(Error::TimestampFormat));
}

#[test]
fn timestamp_encode_is_text_and_round_trips() {
    let t = Timestamp { seconds: 1_597_205_120, nanos: 40_000_000 };
    let text = timestamp::serialize(&t).unwrap();
    assert!(text.starts_with("2020-08-12"));
    let back = timestamp::deserialize(&WireValue::Text(text)).unwrap();
    assert_eq!(back, t);
}

#[test]
fn link_round_trip() {
    let mut links = LinkMap::new();
    assert!(links.insert_url("self".to_string(), "http://h/1"));
    assert!(links.insert_url("tasks".to_string(), "https://example.net/api/tasks?page=2"));
    let encoded = links.encode();
    let decoded = LinkMap::decode(&encoded).unwrap();
    assert_eq!(decoded.get("self").unwrap().as_str(), "http://h/1");
    assert_eq!(
        decoded.get("tasks").unwrap().as_str(),
        "https://example.net/api/tasks?page=2"
    );
    assert!(decoded.get("user").is_none());
    assert_eq!(decoded.entry_count(), links.entry_count());
}

#[test]
fn link_decode_normalizes_urls() {
    let v = codec_wire(r#"{"self": {"href": "HTTP://EXAMPLE.com"}}"#);
    let links = LinkMap::decode(&v).unwrap();
    assert_eq!(links.get("self").unwrap().as_str(), "http://example.com/");
}

#[test]
fn link_decode_rejects_bad_values() {
    let missing_href = codec_wire(r#"{"self": {"link": "http://h/1"}}"#);
    assert!(matches!(LinkMap::decode(&missing_href), Err(Error::Link(_))));
    let relative = codec_wire(r#"{"self": {"href": "/api/tasks"}}"#);
    assert!(matches!(LinkMap::decode(&relative), Err(Error::Link(_))));
    let not_an_object = codec_wire(r#"{"self": "http://h/1"}"#);
    assert!(matches!(LinkMap::decode(&not_an_object), Err(Error::Link(_))));
}

#[test]
fn link_map_holds_one_entry_per_relation() {
    let mut links = LinkMap::new();
    assert!(links.insert_url("self".to_string(), "http://h/1"));
    assert!(links.insert_url("self".to_string(), "http://h/2"));
    assert_eq!(links.entry_count(), 1);
    assert_eq!(links.get("self").unwrap().as_str(), "http://h/2");
}

#[test]
fn link_decode_deduplicates_repeated_relations() {
    // A wire object may repeat a key; the later URL wins and the map
    // stores the relation once.
    let v = WireValue::Object(vec![
        (
            "self".to_string(),
            WireValue::Object(vec![(
                "href".to_string(),
                WireValue::Text("http://h/old".to_string()),
            )]),
        ),
        (
            "self".to_string(),
            WireValue::Object(vec![(
                "href".to_string(),
                WireValue::Text("http://h/new".to_string()),
            )]),
        ),
    ]);
    let links = LinkMap::decode(&v).unwrap();
    assert_eq!(links.entry_count(), 1);
    assert_eq!(links.get("self").unwrap().as_str(), "http://h/new");
}

#[test]
fn link_insert_rejects_invalid_url() {
    let mut links = LinkMap::new();
    assert!(!links.insert_url("self".to_string(), "not a url"));
    assert_eq!(links.entry_count(), 0);
}
