//! Tests for the record decodes, carried over from the API's fixtures.

use freedom_models::gateway_licenses::{
    RegenerateResponse, Status, Verify, VerifyResponse, ViewAll, ViewOne,
};
use freedom_models::site::SiteHardware;
use freedom_models::task::{TaskStatusEvent, TaskStatusType};
use freedom_models::task_override::Override;
use freedom_models::utils::timestamp::Timestamp;
use freedom_models::wire::{WireDecode, WireValue};

fn rec_wire_of(v: &serde_json::Value) -> WireValue {
    match v {
        serde_json::Value::Null => WireValue::Null,
        serde_json::Value::Bool(b) => WireValue::Bool(*b),
        serde_json::Value::Number(n) => WireValue::Number(n.to_string()),
        serde_json::Value::String(s) => WireValue::Text(s.clone()),
        serde_json::Value::Array(a) => WireValue::Array(a.iter().map(rec_wire_of).collect()),
        serde_json::Value::Object(o) => {
            WireValue::Object(o.iter().map(|(k, v)| (k.clone(), rec_wire_of(v))).collect())
        }
    }
}

fn rec_wire(s: &str) -> WireValue {
    rec_wire_of(&serde_json::from_str(s).unwrap())
}

fn ts(seconds: i64, nanos: u32) -> Timestamp {
    Timestamp { seconds, nanos }
}

#[test]
fn view_all() {
    let json = r#"[
    {
        "id": 1,
        "accountId": 1,
        "status": "ACTIVE",
        "expiresAt": "2025-12-11T00:00:00Z",
        "lastUsedAt": "2025-12-09T23:15:10.520830Z",
        "created": "2025-12-09T23:14:22.482359Z",
        "modified": "2025-12-09T23:15:10.522040Z",
        "keyVersion": 1
    },
    {
        "id": 2,
        "accountId": 1,
        "status": "ACTIVE",
        "expiresAt": "2025-12-11T00:00:00Z",
        "created": "2025-12-10T17:31:59.709112Z",
        "modified": "2025-12-10T17:31:59.709112Z",
        "keyVersion": 1
    }
]"#;
    let view = ViewAll::decode_wire(&rec_wire(json)).unwrap();
    let should_be = ViewAll(vec![
        ViewOne {
            id: 1,
            account_id: 1,
            status: Status::Active,
            expires_at: ts(1_765_411_200, 0),
            last_used_at: Some(ts(1_765_322_110, 520_830_000)),
            created: ts(1_765_322_062, 482_359_000),
            modified: ts(1_765_322_110, 522_040_000),
            key_version: 1,
        },
        ViewOne {
            id: 2,
            account_id: 1,
            status: Status::Active,
            expires_at: ts(1_765_411_200, 0),
            last_used_at: None,
            created: ts(1_765_387_919, 709_112_000),
            modified: ts(1_765_387_919, 709_112_000),
            key_version: 1,
        },
    ]);
    assert_eq!(view, should_be);
}

#[test]
fn regenerate_response() {
    let json = r#"{
    "licenseId": 1,
    "accountId": 1,
    "expiresAt": "2025-12-11T00:00:00Z",
    "licenseKey": "foobar"
}"#;
    let regenerate = RegenerateResponse::decode_wire(&rec_wire(json)).unwrap();
    let should_be = RegenerateResponse {
        account_id: 1,
        license_id: 1,
        expires_at: ts(1_765_411_200, 0),
        license_key: String::from("foobar"),
    };
    assert_eq!(regenerate, should_be);
}

#[test]
fn verify_request() {
    let json = r#"{
    "licenseKey": "foobar"
}"#;
    let verify = Verify::decode_wire(&rec_wire(json)).unwrap();
    let should_be = Verify { license_key: String::from("foobar") };
    assert_eq!(verify, should_be);
}

#[test]
fn verify_response() {
    let json = r#"{
    "valid": true,
    "licenseId": 1,
    "expiresAt": "2025-12-11T00:00:00Z"
}"#;
    let verify = VerifyResponse::decode_wire(&rec_wire(json)).unwrap();
    let should_be = VerifyResponse {
        valid: true,
        license_id: 1,
        expires_at: Some(ts(1_765_411_200, 0)),
        reason: None,
    };
    assert_eq!(verify, should_be);
}

#[test]
fn missing_option() {
    let string = r#"
    {
        "manual": true,
        "name": "Testing",
        "created": "2020-08-12T04:05:20Z"
    }
    "#;
    SiteHardware::decode_wire(&rec_wire(string)).unwrap();
}

#[test]
fn task_status_event() {
    let json = r#"
{
  "taskRequestId": 189348,
  "taskRequestUri": "https://test-api.atlasground.com/api/requests/189348",
  "statusChanges": [
    {
      "created": "2025-08-01T19:55:07.061Z",
      "status": "RECEIVED",
      "reason": "Saved to Database and awaiting scheduling"
    },
    {
      "created": "2025-08-01T19:55:07.674Z",
      "status": "SCHEDULED",
      "reason": "Test Task Scheduled"
    },
    {
      "created": "2025-08-01T19:55:08.986Z",
      "status": "QUEUED_PASS",
      "reason": "Pass has been queued to execute"
    }
  ]
}"#;
    let event = TaskStatusEvent::decode_wire(&rec_wire(json)).unwrap();
    assert_eq!(event.latest_status().unwrap().status, TaskStatusType::QueuedPass);
}

#[test]
fn task_status_event_float_timestamp() {
    let json = r#"
{
  "taskRequestId": 190029,
  "taskRequestUri": "https://test-api.atlasground.com/api/requests/190029",
  "statusChanges": [
    {
      "created": 1754409946.362000000,
      "status": "RECEIVED",
      "reason": "Saved to Database and awaiting scheduling"
    }
  ]
}"#;
    let event = TaskStatusEvent::decode_wire(&rec_wire(json)).unwrap();
    // The decimal digits are read exactly, so the stamp lands on the
    // millisecond the wire wrote: 2025-08-05T16:05:46.362Z.
    assert_eq!(event.status_changes[0].created, ts(1_754_409_946, 362_000_000));
}

#[test]
fn deserialize_override_full() {
    let json = r#"{
    "created": "2026-01-22T16:16:40.836788Z",
    "modified": "2026-01-22T16:16:40.836788Z",
    "name": "C-Test-1",
    "properties": {
        "my.prop": "20"
    },
    "satellite_details": {
        "name": "Rustacean Nation",
        "norad": 101,
        "description": "this_will_work.unwrap().unwrap().unwrap()"
    },
    "configuration_details": {
        "name": "MySiteConfig",
        "description": "It's a good one!"
    },
    "_links": {
        "self": {
            "href": "http://localhost:8080/api/overrides/233"
        },
        "overrides": {
            "href": "http://localhost:8080/api/overrides/233"
        },
        "user": {
            "href": "http://localhost:8080/api/overrides/233/user"
        },
        "satellite": {
            "href": "http://localhost:8080/api/overrides/233/satellite"
        },
        "configuration": {
            "href": "http://localhost:8080/api/overrides/233/configuration"
        }
    }
}"#;

    let ov = Override::decode_wire(&rec_wire(json)).unwrap();
    assert_eq!(ov.satellite_details.unwrap().name, "Rustacean Nation");
    assert_eq!(ov.configuration_details.unwrap().name, "MySiteConfig");
}

#[test]
fn deserialize_override_minimal() {
    let json = r#"{
    "created": "2026-01-22T16:16:40.836788Z",
    "modified": "2026-01-22T16:16:40.836788Z",
    "name": "C-Test-1",
    "properties": {
        "my.prop": "20"
    },
    "_links": {
        "self": {
            "href": "http://localhost:8080/api/overrides/233"
        },
        "overrides": {
            "href": "http://localhost:8080/api/overrides/233"
        },
        "user": {
            "href": "http://localhost:8080/api/overrides/233/user"
        }
    }
}"#;

    let ov = Override::decode_wire(&rec_wire(json)).unwrap();
    assert_eq!(ov.name, "C-Test-1");
    assert_eq!(ov.properties.get("my.prop").unwrap(), "20");
}
