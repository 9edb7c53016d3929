//! Satellite configuration records.

use vstd::prelude::*;

use crate::error::Error;
use crate::utils::links::LinkMap;
use crate::utils::timestamp::{iso_field_spec, opt_iso_field_spec, Timestamp};
use crate::utils::StringMap;
use crate::wire::{decode_field, decode_opt_field, field_spec, opt_field_spec, SpecWire, WireDecode, WireValue};
use crate::Hateoas;

verus! {

/// How a satellite is configured for passes.
#[derive(Debug)]
#[non_exhaustive]
pub struct SatelliteConfiguration {
    /// When the record was created.
    pub created: Timestamp,
    /// When the record was last modified.
    pub modified: Option<Timestamp>,
    /// The configuration's name.
    pub name: String,
    /// The orbit it assumes; absent on the wire reads as empty.
    pub orbit: String,
    /// Free-form notes; absent on the wire reads as empty.
    pub notes: String,
    /// Whether orbital elements are pulled automatically.
    pub pull_tle: bool,
    /// Operator-side metadata.
    pub internal_meta_data: Option<StringMap>,
    /// The owning account's name.
    pub account_name: String,
    /// Customer-side metadata.
    pub meta_data: Option<StringMap>,
    /// The record's hypermedia links.
    pub links: LinkMap,
}

/// The mathematical shape of a `SatelliteConfiguration`.
pub struct SatelliteConfigurationV {
    pub created: Timestamp,
    pub modified: Option<Timestamp>,
    pub name: Seq<char>,
    pub orbit: Seq<char>,
    pub notes: Seq<char>,
    pub pull_tle: bool,
    pub internal_meta_data: Option<Map<Seq<char>, Seq<char>>>,
    pub account_name: Seq<char>,
    pub meta_data: Option<Map<Seq<char>, Seq<char>>>,
    pub links: Map<Seq<char>, Seq<char>>,
}

impl DeepView for SatelliteConfiguration {
    type V = SatelliteConfigurationV;

    open spec fn deep_view(&self) -> SatelliteConfigurationV {
        SatelliteConfigurationV {
            created: self.created,
            modified: self.modified.deep_view(),
            name: self.name@,
            orbit: self.orbit@,
            notes: self.notes@,
            pull_tle: self.pull_tle,
            internal_meta_data: self.internal_meta_data.deep_view(),
            account_name: self.account_name@,
            meta_data: self.meta_data.deep_view(),
            links: self.links@,
        }
    }
}

/// The meaning of decoding a satellite configuration. The pull switch
/// arrives under the wire name `pullTLE`.
pub open spec fn satellite_configuration_decode_spec(v: SpecWire) -> Option<
    SatelliteConfigurationV,
> {
    match (
        iso_field_spec(v, "created"@),
        opt_iso_field_spec(v, "modified"@),
        field_spec::<String>(v, "name"@),
        crate::utils::default_text_field_spec(v, "orbit"@),
        crate::utils::default_text_field_spec(v, "notes"@),
        field_spec::<bool>(v, "pullTLE"@),
        opt_field_spec::<StringMap>(v, "internalMetaData"@),
        field_spec::<String>(v, "accountName"@),
        opt_field_spec::<StringMap>(v, "metaData"@),
        crate::utils::links_field_spec(v),
    ) {
        (
            Some(created),
            Some(modified),
            Some(name),
            Some(orbit),
            Some(notes),
            Some(pull_tle),
            Some(internal_meta_data),
            Some(account_name),
            Some(meta_data),
            Some(links),
        ) => Some(
            SatelliteConfigurationV {
                created,
                modified,
                name,
                orbit,
                notes,
                pull_tle,
                internal_meta_data,
                account_name,
                meta_data,
                links,
            },
        ),
        _ => None,
    }
}

impl WireDecode for SatelliteConfiguration {
    open spec fn decode_spec(v: SpecWire) -> Option<SatelliteConfigurationV> {
        satellite_configuration_decode_spec(v)
    }

    fn decode_wire(v: &WireValue) -> (r: Result<Self, Error>) {
        let created = match crate::utils::timestamp::decode_iso_field(v, "created") {
            Ok(x) => x,
            Err(e) => { return Err(e) },
        };
        let modified = match crate::utils::timestamp::decode_opt_iso_field(v, "modified") {
            Ok(x) => x,
            Err(e) => { return Err(e) },
        };
        let name = match decode_field::<String>(v, "name") {
            Ok(x) => x,
            Err(e) => { return Err(e) },
        };
        let orbit = match crate::utils::decode_default_text_field(v, "orbit") {
            Ok(x) => x,
            Err(e) => { return Err(e) },
        };
        let notes = match crate::utils::decode_default_text_field(v, "notes") {
            Ok(x) => x,
            Err(e) => { return Err(e) },
        };
        let pull_tle = match decode_field::<bool>(v, "pullTLE") {
            Ok(x) => x,
            Err(e) => { return Err(e) },
        };
        let internal_meta_data = match decode_opt_field::<StringMap>(v, "internalMetaData") {
            Ok(x) => x,
            Err(e) => { return Err(e) },
        };
        let account_name = match decode_field::<String>(v, "accountName") {
            Ok(x) => x,
            Err(e) => { return Err(e) },
        };
        let meta_data = match decode_opt_field::<StringMap>(v, "metaData") {
            Ok(x) => x,
            Err(e) => { return Err(e) },
        };
        let links = match crate::utils::decode_links_field(v) {
            Ok(x) => x,
            Err(e) => { return Err(e) },
        };
        Ok(
            SatelliteConfiguration {
                created,
                modified,
                name,
                orbit,
                notes,
                pull_tle,
                internal_meta_data,
                account_name,
                meta_data,
                links,
            },
        )
    }
}

impl Hateoas for SatelliteConfiguration {
    open spec fn spec_links(m: SatelliteConfigurationV) -> Map<Seq<char>, Seq<char>> {
        m.links
    }

    open spec fn spec_with_links(
        m: SatelliteConfigurationV,
        links: Map<Seq<char>, Seq<char>>,
    ) -> SatelliteConfigurationV {
        SatelliteConfigurationV { links, ..m }
    }

    proof fn lemma_with_links(m: SatelliteConfigurationV, links: Map<Seq<char>, Seq<char>>) {
    }

    fn get_links(&self) -> (r: &LinkMap) {
        &self.links
    }

    fn set_links(&mut self, links: LinkMap) {
        self.links = links;
    }
}

} // verus!
