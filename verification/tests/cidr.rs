//! Tests for CIDR range membership.

use freedom_models::account::{AccountCidr, Ipv4Cidr};
use freedom_models::error::Error;
use freedom_models::utils::flatten_deserialize;
use freedom_models::wire::WireValue;

fn addr(a: u8, b: u8, c: u8, d: u8) -> u32 {
    (a as u32) * 0x100_0000 + (b as u32) * 0x1_0000 + (c as u32) * 0x100 + (d as u32)
}

fn cidr_wire_of(v: &serde_json::Value) -> WireValue {
    match v {
        serde_json::Value::Null => WireValue::Null,
        serde_json::Value::Bool(b) => WireValue::Bool(*b),
        serde_json::Value::Number(n) => WireValue::Number(n.to_string()),
        serde_json::Value::String(s) => WireValue::Text(s.clone()),
        serde_json::Value::Array(a) => WireValue::Array(a.iter().map(cidr_wire_of).collect()),
        serde_json::Value::Object(o) => {
            WireValue::Object(o.iter().map(|(k, v)| (k.clone(), cidr_wire_of(v))).collect())
        }
    }
}

fn cidr_wire(s: &str) -> WireValue {
    cidr_wire_of(&serde_json::from_str(s).unwrap())
}

#[test]
fn cidr_containment_28() {
    let range = Ipv4Cidr::parse("192.168.1.96/28").unwrap();
    assert!(range.contains(addr(192, 168, 1, 97)));
    assert!(range.contains(addr(192, 168, 1, 99)));
    assert!(!range.contains(addr(192, 168, 0, 99)));
}

#[test]
fn cidr_containment_32() {
    let range = Ipv4Cidr::parse("192.168.1.96/32").unwrap();
    assert!(range.contains(addr(192, 168, 1, 96)));
    assert!(!range.contains(addr(192, 168, 1, 95)));
    assert!(!range.contains(addr(192, 168, 1, 97)));
    assert!(!range.contains(addr(0, 0, 0, 0)));
}

#[test]
fn cidr_containment_0() {
    let range = Ipv4Cidr::parse("0.0.0.0/0").unwrap();
    assert!(range.contains(addr(0, 0, 0, 0)));
    assert!(range.contains(addr(255, 255, 255, 255)));
    assert!(range.contains(addr(192, 168, 1, 96)));
}

#[test]
fn cidr_parse_reads_fields() {
    let range = Ipv4Cidr::parse("10.20.30.0/24").unwrap();
    assert_eq!(range.first_address(), addr(10, 20, 30, 0));
    assert_eq!(range.network_length(), 24);
}

#[test]
fn cidr_format_errors() {
    assert_eq!(Ipv4Cidr::parse("192.168.1").unwrap_err(), Error::CidrFormat);
    assert_eq!(Ipv4Cidr::parse("192.168.1.96").unwrap_err(), Error::CidrFormat);
    assert_eq!(Ipv4Cidr::parse("192.168.1.256/28").unwrap_err(), Error::CidrFormat);
    assert_eq!(Ipv4Cidr::parse("192.168.1.96/33").unwrap_err(), Error::CidrFormat);
    // Host bits beyond the prefix must be zero.
    assert_eq!(Ipv4Cidr::parse("192.168.1.97/28").unwrap_err(), Error::CidrFormat);
    assert_eq!(Ipv4Cidr::parse("a.b.c.d/8").unwrap_err(), Error::CidrFormat);
}

#[test]
fn cidr_new_checks_canonical_form() {
    assert!(Ipv4Cidr::new(addr(192, 168, 1, 96), 28).is_ok());
    assert_eq!(Ipv4Cidr::new(addr(192, 168, 1, 97), 28).unwrap_err(), Error::CidrFormat);
    assert_eq!(Ipv4Cidr::new(0, 33).unwrap_err(), Error::CidrFormat);
}

#[test]
fn account_cidr_lenient_list() {
    // Malformed access-control entries are dropped, as the account decode
    // is documented to do.
    let v = cidr_wire(
        r#"[
            {"name": "office", "cidr": "192.168.1.96/28"},
            {"name": "broken", "cidr": "192.168.1.97/28"},
            {"name": "vpn", "cidr": "10.0.0.0/8"},
            "nonsense"
        ]"#,
    );
    let out: Vec<AccountCidr> = flatten_deserialize(&v).unwrap();
    assert_eq!(out.len(), 2);
    assert_eq!(out[0].name.as_str(), "office");
    assert!(out[0].contains(addr(192, 168, 1, 99)));
    assert_eq!(out[1].name.as_str(), "vpn");
    assert!(out[1].contains(addr(10, 1, 2, 3)));
    assert!(!out[1].contains(addr(11, 1, 2, 3)));
}
