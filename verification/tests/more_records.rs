//! Tests for the configuration records and the remaining wire decodes.

use freedom_models::band::{BandType, IoConfiguration, IoHardware};
use freedom_models::error::Error;
use freedom_models::satellite::Satellite;
use freedom_models::satellite_configuration::SatelliteConfiguration;
use freedom_models::site::SiteConfiguration;
use freedom_models::task::{TaskRequest, TaskType};
use freedom_models::utils::destructure_decode;
use freedom_models::wire::{WireDecode, WireValue};

fn mr_wire_of(v: &serde_json::Value) -> WireValue {
    match v {
        serde_json::Value::Null => WireValue::Null,
        serde_json::Value::Bool(b) => WireValue::Bool(*b),
        serde_json::Value::Number(n) => WireValue::Number(n.to_string()),
        serde_json::Value::String(s) => WireValue::Text(s.clone()),
        serde_json::Value::Array(a) => WireValue::Array(a.iter().map(mr_wire_of).collect()),
        serde_json::Value::Object(o) => {
            WireValue::Object(o.iter().map(|(k, v)| (k.clone(), mr_wire_of(v))).collect())
        }
    }
}

fn mr_wire(s: &str) -> WireValue {
    mr_wire_of(&serde_json::from_str(s).unwrap())
}

#[test]
fn task_request_decode() {
    let json = r#"{
        "created": "2025-08-01T19:55:07.061Z",
        "type": "EXACT",
        "duration": 300,
        "minimumDuration": 120,
        "targetDate": "2025-08-02T00:00:00Z",
        "earliestStart": "2025-08-01T23:00:00Z",
        "latestStart": "2025-08-02T01:00:00Z",
        "transmitting": false,
        "statusChanges": [
            {"created": "2025-08-01T19:55:07.061Z", "status": "RECEIVED", "reason": "queued"}
        ],
        "taskActive": true,
        "taskRequestScheduled": false,
        "taskRequestCancelled": false,
        "flex": false,
        "latestStatusChange": {
            "created": 1754078107.061,
            "status": "RECEIVED",
            "reason": "queued"
        },
        "_links": {"self": {"href": "http://h/requests/1"}}
    }"#;
    let req = TaskRequest::decode_wire(&mr_wire(json)).unwrap();
    assert_eq!(req.task_type, TaskType::Exact);
    // hoursOfFlex was absent and reads as zero.
    assert_eq!(req.hours_of_flex, 0);
    assert_eq!(req.duration, 300);
    assert_eq!(req.latest_status_change.created.seconds, 1_754_078_107);
    assert_eq!(req.latest_status_change.created.nanos, 61_000_000);
    assert_eq!(req.links.get("self").unwrap().as_str(), "http://h/requests/1");
}

#[test]
fn satellite_decode() {
    let json = r#"{
        "created": "2020-08-12T04:05:20Z",
        "name": "Bird-1",
        "description": "test satellite",
        "noradCatId": 101,
        "tle": {"line1": "1 00101U", "line2": "2 00101"},
        "accountName": "testers",
        "_links": {"self": {"href": "http://h/satellites/1"}}
    }"#;
    let sat = Satellite::decode_wire(&mr_wire(json)).unwrap();
    assert_eq!(sat.name, "Bird-1");
    assert_eq!(sat.norad_cat_id, Some(101));
    let tle = sat.tle.as_ref().unwrap();
    assert_eq!(tle.line1, "1 00101U");
    assert_eq!(tle.line2, "2 00101");
    assert!(sat.internal_meta_data.is_none());
}

#[test]
fn satellite_configuration_decode() {
    let json = r#"{
        "created": "2020-08-12T04:05:20Z",
        "name": "Bird-1-LEO",
        "pullTLE": true,
        "accountName": "testers"
    }"#;
    let cfg = SatelliteConfiguration::decode_wire(&mr_wire(json)).unwrap();
    assert_eq!(cfg.name, "Bird-1-LEO");
    assert!(cfg.pull_tle);
    // The orbit and notes default to empty text when absent.
    assert_eq!(cfg.orbit, "");
    assert_eq!(cfg.notes, "");
    assert_eq!(cfg.links.entry_count(), 0);
}

#[test]
fn site_configuration_decode() {
    let json = r#"{
        "created": "2020-08-12T04:05:20Z",
        "name": "MySite-000A",
        "configurationSeconds": -30,
        "virtual": true,
        "hardware": [
            {"manual": true, "name": "dish", "created": "2020-08-12T04:05:20Z"}
        ],
        "_links": {"self": {"href": "http://h/configurations/1"}}
    }"#;
    let cfg = SiteConfiguration::decode_wire(&mr_wire(json)).unwrap();
    assert_eq!(cfg.name, "MySite-000A");
    assert_eq!(cfg.configuration_seconds, -30);
    assert_eq!(cfg.virtual_cfg, Some(true));
    assert_eq!(cfg.hardware.as_ref().unwrap().len(), 1);
    assert_eq!(cfg.hardware.as_ref().unwrap()[0].name, "dish");
}

#[test]
fn io_configuration_decode() {
    let json = r#"{
        "startHexPattern": "1ACF",
        "stripPattern": false,
        "ioHardware": "MODEM"
    }"#;
    IoConfiguration::decode_wire(&mr_wire(json)).unwrap();
    let bad = r#"{"stripPattern": "yes"}"#;
    assert!(IoConfiguration::decode_wire(&mr_wire(bad)).is_err());
}

#[test]
fn io_hardware_unknown_names_stay_text() {
    let v = WireValue::Text("MODEM".to_string());
    assert_eq!(IoHardware::decode_wire(&v).unwrap(), IoHardware::Modem);
    let v = WireValue::Text("TURBOENCABULATOR".to_string());
    assert_eq!(
        IoHardware::decode_wire(&v).unwrap(),
        IoHardware::Other("TURBOENCABULATOR".to_string())
    );
}

#[test]
fn band_type_decode() {
    let v = WireValue::Text("RECEIVE".to_string());
    assert_eq!(BandType::decode_wire(&v).unwrap(), BandType::Receive);
    let v = WireValue::Text("SIDEWAYS".to_string());
    assert_eq!(BandType::decode_wire(&v).unwrap_err(), Error::PaginatedInner);
}

#[test]
fn destructure_uses_first_wire_entry() {
    // Entry order on the wire decides which payload a multi-key
    // destructure takes.
    let v = WireValue::Object(vec![
        ("second".to_string(), WireValue::Number("2".to_string())),
        ("first".to_string(), WireValue::Number("1".to_string())),
    ]);
    assert_eq!(destructure_decode::<u32>(&v).unwrap(), 2);
}

#[test]
fn task_decode() {
    let json = r#"{
        "created": "2025-08-01T19:55:07.061Z",
        "foundVisibility": true,
        "score": 87,
        "start": "2025-08-02T00:00:00Z",
        "end": "2025-08-02T00:05:00Z",
        "billable": true,
        "durationInSeconds": 300,
        "taskWithinConfigWindow": true,
        "duration": "PT5M",
        "fileResults": ["pass1.bin", "pass1.log"],
        "metaData": {"campaign": "alpha"},
        "_links": {"self": {"href": "http://h/tasks/9"}}
    }"#;
    let task = freedom_models::task::Task::decode_wire(&mr_wire(json)).unwrap();
    assert_eq!(task.score, Some(87));
    assert_eq!(task.duration_in_seconds, 300);
    assert_eq!(task.file_results, vec!["pass1.bin".to_string(), "pass1.log".to_string()]);
    assert_eq!(task.meta_data.as_ref().unwrap().get("campaign").unwrap(), "alpha");
    assert!(task.modified.is_none());
    assert_eq!(task.start.seconds + 300, task.end.seconds);
    assert_eq!(task.links.get("self").unwrap().as_str(), "http://h/tasks/9");
}

#[test]
fn content_initial_keeps_links_apart() {
    let json = r#"{
        "content": {"name": "x", "description": "d"},
        "_links": {"self": {"href": "http://h/1"}}
    }"#;
    let c = freedom_models::utils::ContentInitial::<
        freedom_models::task_override::ConfigurationDetails,
    >::decode(&mr_wire(json))
    .unwrap();
    assert_eq!(c.inner.name, "x");
    assert_eq!(c.links.get("self").unwrap().as_str(), "http://h/1");
}

#[test]
fn content_wrapper_decode() {
    let json = r#"{
        "content": {"created": "2020-08-12T04:05:20Z", "name": "y"},
        "_links": {"self": {"href": "http://h/2"}}
    }"#;
    let c = freedom_models::utils::Content::<freedom_models::task_override::Override>::decode(
        &mr_wire(json),
    )
    .unwrap();
    assert_eq!(c.inner.name, "y");
    assert_eq!(c.inner.links.get("self").unwrap().as_str(), "http://h/2");
}

#[test]
fn signed_counter_decode() {
    let v = mr_wire(r#"{"created": "2020-08-12T04:05:20Z", "name": "n", "configurationSeconds": 2147483647}"#);
    let cfg = SiteConfiguration::decode_wire(&v).unwrap();
    assert_eq!(cfg.configuration_seconds, i32::MAX);
    let v = mr_wire(r#"{"created": "2020-08-12T04:05:20Z", "name": "n", "configurationSeconds": -2147483648}"#);
    let cfg = SiteConfiguration::decode_wire(&v).unwrap();
    assert_eq!(cfg.configuration_seconds, i32::MIN);
}
