//! Models for the gateway licensing endpoints.

use vstd::prelude::*;

use crate::error::Error;
use crate::utils::timestamp::{iso_field_spec, opt_iso_field_spec, required_opt_iso_field_spec, Timestamp};
use crate::wire::{
    decode_field, decode_opt_field, field_spec, opt_field_spec, SpecWire, WireDecode,
    WireValue,
};

verus! {

/// The current status of a license.
#[derive(Debug, Copy, Clone, PartialEq, Eq, PartialOrd, Ord, Hash, Structural)]
#[non_exhaustive]
pub enum Status {
    Active,
    Inactive,
}

impl DeepView for Status {
    type V = Status;

    open spec fn deep_view(&self) -> Status {
        *self
    }
}

/// The license status named by its upper-case wire text, if any.
pub open spec fn status_of_name(s: Seq<char>) -> Option<Status> {
    if s == "ACTIVE"@ {
        Some(Status::Active)
    } else if s == "INACTIVE"@ {
        Some(Status::Inactive)
    } else {
        None
    }
}

impl WireDecode for Status {
    open spec fn decode_spec(v: SpecWire) -> Option<Status> {
        match v {
            SpecWire::Text(s) => status_of_name(s),
            _ => None,
        }
    }

    fn decode_wire(v: &WireValue) -> (r: Result<Self, Error>) {
        match v {
            WireValue::Text(s) => {
                if crate::wire::str_eq(s.as_str(), "ACTIVE") {
                    Ok(Status::Active)
                } else if crate::wire::str_eq(s.as_str(), "INACTIVE") {
                    Ok(Status::Inactive)
                } else {
                    Err(Error::PaginatedInner)
                }
            },
            _ => Err(Error::PaginatedInner),
        }
    }
}

/// Request body for verifying a license key.
#[derive(Debug, Clone, PartialEq, Eq)]
pub struct Verify {
    /// The key under test.
    pub license_key: String,
}

/// The mathematical shape of a `Verify`.
pub struct VerifyV {
    pub license_key: Seq<char>,
}

impl DeepView for Verify {
    type V = VerifyV;

    open spec fn deep_view(&self) -> VerifyV {
        VerifyV { license_key: self.license_key@ }
    }
}

/// The meaning of decoding a verification request.
pub open spec fn verify_decode_spec(v: SpecWire) -> Option<VerifyV> {
    match field_spec::<String>(v, "licenseKey"@) {
        Some(license_key) => Some(VerifyV { license_key }),
        None => None,
    }
}

impl WireDecode for Verify {
    open spec fn decode_spec(v: SpecWire) -> Option<VerifyV> {
        verify_decode_spec(v)
    }

    fn decode_wire(v: &WireValue) -> (r: Result<Self, Error>) {
        match decode_field::<String>(v, "licenseKey") {
            Ok(license_key) => Ok(Verify { license_key }),
            Err(e) => Err(e),
        }
    }
}

/// Response for regenerating a license key.
#[derive(Debug, Clone, PartialEq, Eq)]
pub struct RegenerateResponse {
    /// The account the license belongs to.
    pub account_id: u32,
    /// The regenerated license.
    pub license_id: u32,
    /// When the new key expires.
    pub expires_at: Timestamp,
    /// The new key itself.
    pub license_key: String,
}

/// The mathematical shape of a `RegenerateResponse`.
pub struct RegenerateResponseV {
    pub account_id: u32,
    pub license_id: u32,
    pub expires_at: Timestamp,
    pub license_key: Seq<char>,
}

impl DeepView for RegenerateResponse {
    type V = RegenerateResponseV;

    open spec fn deep_view(&self) -> RegenerateResponseV {
        RegenerateResponseV {
            account_id: self.account_id,
            license_id: self.license_id,
            expires_at: self.expires_at,
            license_key: self.license_key@,
        }
    }
}

/// The meaning of decoding a regeneration response.
pub open spec fn regenerate_response_decode_spec(v: SpecWire) -> Option<RegenerateResponseV> {
    match (
        field_spec::<u32>(v, "accountId"@),
        field_spec::<u32>(v, "licenseId"@),
        iso_field_spec(v, "expiresAt"@),
        field_spec::<String>(v, "licenseKey"@),
    ) {
        (Some(account_id), Some(license_id), Some(expires_at), Some(license_key)) => Some(
            RegenerateResponseV { account_id, license_id, expires_at, license_key },
        ),
        _ => None,
    }
}

impl WireDecode for RegenerateResponse {
    open spec fn decode_spec(v: SpecWire) -> Option<RegenerateResponseV> {
        regenerate_response_decode_spec(v)
    }

    fn decode_wire(v: &WireValue) -> (r: Result<Self, Error>) {
        let account_id = match decode_field::<u32>(v, "accountId") {
            Ok(x) => x,
            Err(e) => { return Err(e) },
        };
        let license_id = match decode_field::<u32>(v, "licenseId") {
            Ok(x) => x,
            Err(e) => { return Err(e) },
        };
        let expires_at = match crate::utils::timestamp::decode_iso_field(v, "expiresAt") {
            Ok(x) => x,
            Err(e) => { return Err(e) },
        };
        let license_key = match decode_field::<String>(v, "licenseKey") {
            Ok(x) => x,
            Err(e) => { return Err(e) },
        };
        Ok(RegenerateResponse { account_id, license_id, expires_at, license_key })
    }
}

/// Response body for verifying a license key.
#[derive(Debug, Clone, PartialEq, Eq)]
pub struct VerifyResponse {
    /// Whether the key is valid.
    pub valid: bool,
    /// The license the key belongs to.
    pub license_id: u32,
    /// When the key expires, if it does.
    pub expires_at: Option<Timestamp>,
    /// Why the key was rejected, if it was.
    pub reason: Option<String>,
}

/// The mathematical shape of a `VerifyResponse`.
pub struct VerifyResponseV {
    pub valid: bool,
    pub license_id: u32,
    pub expires_at: Option<Timestamp>,
    pub reason: Option<Seq<char>>,
}

impl DeepView for VerifyResponse {
    type V = VerifyResponseV;

    open spec fn deep_view(&self) -> VerifyResponseV {
        VerifyResponseV {
            valid: self.valid,
            license_id: self.license_id,
            expires_at: self.expires_at,
            reason: self.reason.deep_view(),
        }
    }
}

/// The meaning of decoding a verification response.
pub open spec fn verify_response_decode_spec(v: SpecWire) -> Option<VerifyResponseV> {
    match (
        field_spec::<bool>(v, "valid"@),
        field_spec::<u32>(v, "licenseId"@),
        required_opt_iso_field_spec(v, "expiresAt"@),
        opt_field_spec::<String>(v, "reason"@),
    ) {
        (Some(valid), Some(license_id), Some(expires_at), Some(reason)) => Some(
            VerifyResponseV { valid, license_id, expires_at, reason },
        ),
        _ => None,
    }
}

impl WireDecode for VerifyResponse {
    open spec fn decode_spec(v: SpecWire) -> Option<VerifyResponseV> {
        verify_response_decode_spec(v)
    }

    fn decode_wire(v: &WireValue) -> (r: Result<Self, Error>) {
        let valid = match decode_field::<bool>(v, "valid") {
            Ok(x) => x,
            Err(e) => { return Err(e) },
        };
        let license_id = match decode_field::<u32>(v, "licenseId") {
            Ok(x) => x,
            Err(e) => { return Err(e) },
        };
        let expires_at = match crate::utils::timestamp::decode_required_opt_iso_field(
            v,
            "expiresAt",
        ) {
            Ok(x) => x,
            Err(e) => { return Err(e) },
        };
        let reason = match decode_opt_field::<String>(v, "reason") {
            Ok(x) => x,
            Err(e) => { return Err(e) },
        };
        Ok(VerifyResponse { valid, license_id, expires_at, reason })
    }
}

/// One license associated with an account.
#[derive(Debug, Clone, PartialEq, Eq)]
pub struct ViewOne {
    /// The license's identifier.
    pub id: u32,
    /// The account it belongs to.
    pub account_id: u32,
    /// Its current status.
    pub status: Status,
    /// When it expires.
    pub expires_at: Timestamp,
    /// When it was last used, if ever.
    pub last_used_at: Option<Timestamp>,
    /// When it was created.
    pub created: Timestamp,
    /// When it was last modified.
    pub modified: Timestamp,
    /// The key schema version.
    pub key_version: u32,
}

/// The mathematical shape of a `ViewOne`.
pub struct ViewOneV {
    pub id: u32,
    pub account_id: u32,
    pub status: Status,
    pub expires_at: Timestamp,
    pub last_used_at: Option<Timestamp>,
    pub created: Timestamp,
    pub modified: Timestamp,
    pub key_version: u32,
}

impl DeepView for ViewOne {
    type V = ViewOneV;

    open spec fn deep_view(&self) -> ViewOneV {
        ViewOneV {
            id: self.id,
            account_id: self.account_id,
            status: self.status,
            expires_at: self.expires_at,
            last_used_at: self.last_used_at,
            created: self.created,
            modified: self.modified,
            key_version: self.key_version,
        }
    }
}

/// The meaning of decoding one license view.
pub open spec fn view_one_decode_spec(v: SpecWire) -> Option<ViewOneV> {
    match (
        field_spec::<u32>(v, "id"@),
        field_spec::<u32>(v, "accountId"@),
        field_spec::<Status>(v, "status"@),
        iso_field_spec(v, "expiresAt"@),
        opt_iso_field_spec(v, "lastUsedAt"@),
        iso_field_spec(v, "created"@),
        iso_field_spec(v, "modified"@),
        field_spec::<u32>(v, "keyVersion"@),
    ) {
        (
            Some(id),
            Some(account_id),
            Some(status),
            Some(expires_at),
            Some(last_used_at),
            Some(created),
            Some(modified),
            Some(key_version),
        ) => Some(
            ViewOneV {
                id,
                account_id,
                status,
                expires_at,
                last_used_at,
                created,
                modified,
                key_version,
            },
        ),
        _ => None,
    }
}

impl WireDecode for ViewOne {
    open spec fn decode_spec(v: SpecWire) -> Option<ViewOneV> {
        view_one_decode_spec(v)
    }

    fn decode_wire(v: &WireValue) -> (r: Result<Self, Error>) {
        let id = match decode_field::<u32>(v, "id") {
            Ok(x) => x,
            Err(e) => { return Err(e) },
        };
        let account_id = match decode_field::<u32>(v, "accountId") {
            Ok(x) => x,
            Err(e) => { return Err(e) },
        };
        let status = match decode_field::<Status>(v, "status") {
            Ok(x) => x,
            Err(e) => { return Err(e) },
        };
        let expires_at = match crate::utils::timestamp::decode_iso_field(v, "expiresAt") {
            Ok(x) => x,
            Err(e) => { return Err(e) },
        };
        let last_used_at = match crate::utils::timestamp::decode_opt_iso_field(v, "lastUsedAt") {
            Ok(x) => x,
            Err(e) => { return Err(e) },
        };
        let created = match crate::utils::timestamp::decode_iso_field(v, "created") {
            Ok(x) => x,
            Err(e) => { return Err(e) },
        };
        let modified = match crate::utils::timestamp::decode_iso_field(v, "modified") {
            Ok(x) => x,
            Err(e) => { return Err(e) },
        };
        let key_version = match decode_field::<u32>(v, "keyVersion") {
            Ok(x) => x,
            Err(e) => { return Err(e) },
        };
        Ok(
            ViewOne {
                id,
                account_id,
                status,
                expires_at,
                last_used_at,
                created,
                modified,
                key_version,
            },
        )
    }
}

/// The licenses associated with an account.
#[derive(Debug, Clone, PartialEq, Eq)]
pub struct ViewAll(pub Vec<ViewOne>);

impl DeepView for ViewAll {
    type V = Seq<ViewOneV>;

    open spec fn deep_view(&self) -> Seq<ViewOneV> {
        self.0.deep_view()
    }
}

impl WireDecode for ViewAll {
    open spec fn decode_spec(v: SpecWire) -> Option<Seq<ViewOneV>> {
        <Vec<ViewOne> as WireDecode>::decode_spec(v)
    }

    fn decode_wire(v: &WireValue) -> (r: Result<Self, Error>) {
        match <Vec<ViewOne> as WireDecode>::decode_wire(v) {
            Ok(items) => Ok(ViewAll(items)),
            Err(e) => Err(e),
        }
    }
}

} // verus!
