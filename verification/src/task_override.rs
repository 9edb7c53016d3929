//! Task overrides: operator-set replacements for scheduling details.

use vstd::prelude::*;

use crate::error::Error;
use crate::utils::links::LinkMap;
use crate::utils::timestamp::{iso_field_spec, opt_iso_field_spec, Timestamp};
use crate::utils::StringMap;
use crate::wire::{
    decode_field, decode_opt_field, field_spec, opt_field_spec, SpecWire, WireDecode,
    WireValue,
};
use crate::Hateoas;

verus! {

/// The site-configuration details an override names.
#[derive(Debug, Clone, PartialEq)]
#[non_exhaustive]
pub struct ConfigurationDetails {
    /// The configuration's name.
    pub name: String,
    /// Its free-form description.
    pub description: String,
}

/// The mathematical shape of `ConfigurationDetails`.
pub struct ConfigurationDetailsV {
    pub name: Seq<char>,
    pub description: Seq<char>,
}

impl DeepView for ConfigurationDetails {
    type V = ConfigurationDetailsV;

    open spec fn deep_view(&self) -> ConfigurationDetailsV {
        ConfigurationDetailsV { name: self.name@, description: self.description@ }
    }
}

/// The meaning of decoding configuration details.
pub open spec fn configuration_details_decode_spec(v: SpecWire) -> Option<ConfigurationDetailsV> {
    match (field_spec::<String>(v, "name"@), field_spec::<String>(v, "description"@)) {
        (Some(name), Some(description)) => Some(ConfigurationDetailsV { name, description }),
        _ => None,
    }
}

impl WireDecode for ConfigurationDetails {
    open spec fn decode_spec(v: SpecWire) -> Option<ConfigurationDetailsV> {
        configuration_details_decode_spec(v)
    }

    fn decode_wire(v: &WireValue) -> (r: Result<Self, Error>) {
        let name = match decode_field::<String>(v, "name") {
            Ok(x) => x,
            Err(e) => { return Err(e) },
        };
        let description = match decode_field::<String>(v, "description") {
            Ok(x) => x,
            Err(e) => { return Err(e) },
        };
        Ok(ConfigurationDetails { name, description })
    }
}

/// The satellite details an override names.
#[derive(Debug, Clone, PartialEq)]
#[non_exhaustive]
pub struct SatelliteDetails {
    /// The satellite's name.
    pub name: String,
    /// Its catalog number.
    pub norad: u32,
    /// Its free-form description.
    pub description: String,
}

/// The mathematical shape of `SatelliteDetails`.
pub struct SatelliteDetailsV {
    pub name: Seq<char>,
    pub norad: u32,
    pub description: Seq<char>,
}

impl DeepView for SatelliteDetails {
    type V = SatelliteDetailsV;

    open spec fn deep_view(&self) -> SatelliteDetailsV {
        SatelliteDetailsV { name: self.name@, norad: self.norad, description: self.description@ }
    }
}

/// The meaning of decoding satellite details.
pub open spec fn satellite_details_decode_spec(v: SpecWire) -> Option<SatelliteDetailsV> {
    match (
        field_spec::<String>(v, "name"@),
        field_spec::<u32>(v, "norad"@),
        field_spec::<String>(v, "description"@),
    ) {
        (Some(name), Some(norad), Some(description)) => Some(
            SatelliteDetailsV { name, norad, description },
        ),
        _ => None,
    }
}

impl WireDecode for SatelliteDetails {
    open spec fn decode_spec(v: SpecWire) -> Option<SatelliteDetailsV> {
        satellite_details_decode_spec(v)
    }

    fn decode_wire(v: &WireValue) -> (r: Result<Self, Error>) {
        let name = match decode_field::<String>(v, "name") {
            Ok(x) => x,
            Err(e) => { return Err(e) },
        };
        let norad = match decode_field::<u32>(v, "norad") {
            Ok(x) => x,
            Err(e) => { return Err(e) },
        };
        let description = match decode_field::<String>(v, "description") {
            Ok(x) => x,
            Err(e) => { return Err(e) },
        };
        Ok(SatelliteDetails { name, norad, description })
    }
}

/// An override record.
#[derive(Debug)]
#[non_exhaustive]
pub struct Override {
    /// When the override was created.
    pub created: Timestamp,
    /// When the override was last modified.
    pub modified: Option<Timestamp>,
    /// The override's name; the wire may omit it, which reads as empty.
    pub name: String,
    /// The overridden properties; absent on the wire reads as empty.
    pub properties: StringMap,
    /// The satellite configuration details associated with the override.
    pub satellite_details: Option<SatelliteDetails>,
    /// The site configuration details associated with the override.
    pub configuration_details: Option<ConfigurationDetails>,
    /// The override's hypermedia links.
    pub links: LinkMap,
}

/// The mathematical shape of an `Override`.
pub struct OverrideV {
    pub created: Timestamp,
    pub modified: Option<Timestamp>,
    pub name: Seq<char>,
    pub properties: Map<Seq<char>, Seq<char>>,
    pub satellite_details: Option<SatelliteDetailsV>,
    pub configuration_details: Option<ConfigurationDetailsV>,
    pub links: Map<Seq<char>, Seq<char>>,
}

impl DeepView for Override {
    type V = OverrideV;

    open spec fn deep_view(&self) -> OverrideV {
        OverrideV {
            created: self.created,
            modified: self.modified.deep_view(),
            name: self.name@,
            properties: self.properties@,
            satellite_details: self.satellite_details.deep_view(),
            configuration_details: self.configuration_details.deep_view(),
            links: self.links@,
        }
    }
}

/// The meaning of decoding an override record.
pub open spec fn override_decode_spec(v: SpecWire) -> Option<OverrideV> {
    match (
        iso_field_spec(v, "created"@),
        opt_iso_field_spec(v, "modified"@),
        crate::utils::default_text_field_spec(v, "name"@),
        crate::utils::default_map_field_spec(v, "properties"@),
        opt_field_spec::<SatelliteDetails>(v, "satellite_details"@),
        opt_field_spec::<ConfigurationDetails>(v, "configuration_details"@),
        crate::utils::links_field_spec(v),
    ) {
        (
            Some(created),
            Some(modified),
            Some(name),
            Some(properties),
            Some(satellite_details),
            Some(configuration_details),
            Some(links),
        ) => Some(
            OverrideV {
                created,
                modified,
                name,
                properties,
                satellite_details,
                configuration_details,
                links,
            },
        ),
        _ => None,
    }
}

impl WireDecode for Override {
    open spec fn decode_spec(v: SpecWire) -> Option<OverrideV> {
        override_decode_spec(v)
    }

    fn decode_wire(v: &WireValue) -> (r: Result<Self, Error>) {
        let created = match crate::utils::timestamp::decode_iso_field(v, "created") {
            Ok(x) => x,
            Err(e) => { return Err(e) },
        };
        let modified = match crate::utils::timestamp::decode_opt_iso_field(v, "modified") {
            Ok(x) => x,
            Err(e) => { return Err(e) },
        };
        let name = match crate::utils::decode_default_text_field(v, "name") {
            Ok(x) => x,
            Err(e) => { return Err(e) },
        };
        let properties = match crate::utils::decode_default_map_field(v, "properties") {
            Ok(x) => x,
            Err(e) => { return Err(e) },
        };
        let satellite_details = match decode_opt_field::<SatelliteDetails>(
            v,
            "satellite_details",
        ) {
            Ok(x) => x,
            Err(e) => { return Err(e) },
        };
        let configuration_details = match decode_opt_field::<ConfigurationDetails>(
            v,
            "configuration_details",
        ) {
            Ok(x) => x,
            Err(e) => { return Err(e) },
        };
        let links = match crate::utils::decode_links_field(v) {
            Ok(x) => x,
            Err(e) => { return Err(e) },
        };
        Ok(
            Override {
                created,
                modified,
                name,
                properties,
                satellite_details,
                configuration_details,
                links,
            },
        )
    }
}

impl Hateoas for Override {
    open spec fn spec_links(m: OverrideV) -> Map<Seq<char>, Seq<char>> {
        m.links
    }

    open spec fn spec_with_links(m: OverrideV, links: Map<Seq<char>, Seq<char>>) -> OverrideV {
        OverrideV { links, ..m }
    }

    proof fn lemma_with_links(m: OverrideV, links: Map<Seq<char>, Seq<char>>) {
    }

    fn get_links(&self) -> (r: &LinkMap) {
        &self.links
    }

    fn set_links(&mut self, links: LinkMap) {
        self.links = links;
    }
}

} // verus!
