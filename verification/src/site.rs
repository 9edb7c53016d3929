//! Site-side hardware records.

use vstd::prelude::*;

use crate::error::Error;
use crate::utils::timestamp::{iso_field_spec, opt_iso_field_spec, Timestamp};
use crate::utils::StringMap;
use crate::wire::{decode_field, decode_opt_field, field_spec, opt_field_spec, SpecWire, WireDecode, WireValue};

verus! {

/// One piece of hardware installed at a site.
#[derive(Debug)]
pub struct SiteHardware {
    /// Whether the hardware is driven by hand.
    pub manual: bool,
    /// Its address on the site network, if any.
    pub ip: Option<String>,
    /// Its name.
    pub name: String,
    /// Free-form specifications.
    pub specifications: Option<String>,
    /// Who built it.
    pub manufacturer: Option<String>,
    /// Which model it is.
    pub model: Option<String>,
    /// When the record was created.
    pub created: Timestamp,
    /// When the record was last modified.
    pub modified: Option<Timestamp>,
    /// What kind of hardware it is.
    pub typ: Option<String>,
    /// The port its control connection uses, if any.
    pub port_comms: Option<u16>,
    /// Free-form properties.
    pub properties: Option<StringMap>,
}

/// The mathematical shape of a `SiteHardware`.
pub struct SiteHardwareV {
    pub manual: bool,
    pub ip: Option<Seq<char>>,
    pub name: Seq<char>,
    pub specifications: Option<Seq<char>>,
    pub manufacturer: Option<Seq<char>>,
    pub model: Option<Seq<char>>,
    pub created: Timestamp,
    pub modified: Option<Timestamp>,
    pub typ: Option<Seq<char>>,
    pub port_comms: Option<u16>,
    pub properties: Option<Map<Seq<char>, Seq<char>>>,
}

impl DeepView for SiteHardware {
    type V = SiteHardwareV;

    open spec fn deep_view(&self) -> SiteHardwareV {
        SiteHardwareV {
            manual: self.manual,
            ip: self.ip.deep_view(),
            name: self.name@,
            specifications: self.specifications.deep_view(),
            manufacturer: self.manufacturer.deep_view(),
            model: self.model.deep_view(),
            created: self.created,
            modified: self.modified.deep_view(),
            typ: self.typ.deep_view(),
            port_comms: self.port_comms,
            properties: self.properties.deep_view(),
        }
    }
}

/// The meaning of decoding a site-hardware record. Only `manual`, `name`
/// and `created` must stand on the wire; the hardware's type arrives
/// under the wire name `type`.
pub open spec fn site_hardware_decode_spec(v: SpecWire) -> Option<SiteHardwareV> {
    match (
        field_spec::<bool>(v, "manual"@),
        opt_field_spec::<String>(v, "ip"@),
        field_spec::<String>(v, "name"@),
        opt_field_spec::<String>(v, "specifications"@),
        opt_field_spec::<String>(v, "manufacturer"@),
        opt_field_spec::<String>(v, "model"@),
        iso_field_spec(v, "created"@),
        opt_iso_field_spec(v, "modified"@),
        opt_field_spec::<String>(v, "type"@),
        opt_field_spec::<u16>(v, "portComms"@),
        opt_field_spec::<StringMap>(v, "properties"@),
    ) {
        (
            Some(manual),
            Some(ip),
            Some(name),
            Some(specifications),
            Some(manufacturer),
            Some(model),
            Some(created),
            Some(modified),
            Some(typ),
            Some(port_comms),
            Some(properties),
        ) => Some(
            SiteHardwareV {
                manual,
                ip,
                name,
                specifications,
                manufacturer,
                model,
                created,
                modified,
                typ,
                port_comms,
                properties,
            },
        ),
        _ => None,
    }
}

impl WireDecode for SiteHardware {
    open spec fn decode_spec(v: SpecWire) -> Option<SiteHardwareV> {
        site_hardware_decode_spec(v)
    }

    fn decode_wire(v: &WireValue) -> (r: Result<Self, Error>) {
        let manual = match decode_field::<bool>(v, "manual") {
            Ok(x) => x,
            Err(e) => { return Err(e) },
        };
        let ip = match decode_opt_field::<String>(v, "ip") {
            Ok(x) => x,
            Err(e) => { return Err(e) },
        };
        let name = match decode_field::<String>(v, "name") {
            Ok(x) => x,
            Err(e) => { return Err(e) },
        };
        let specifications = match decode_opt_field::<String>(v, "specifications") {
            Ok(x) => x,
            Err(e) => { return Err(e) },
        };
        let manufacturer = match decode_opt_field::<String>(v, "manufacturer") {
            Ok(x) => x,
            Err(e) => { return Err(e) },
        };
        let model = match decode_opt_field::<String>(v, "model") {
            Ok(x) => x,
            Err(e) => { return Err(e) },
        };
        let created = match crate::utils::timestamp::decode_iso_field(v, "created") {
            Ok(x) => x,
            Err(e) => { return Err(e) },
        };
        let modified = match crate::utils::timestamp::decode_opt_iso_field(v, "modified") {
            Ok(x) => x,
            Err(e) => { return Err(e) },
        };
        let typ = match decode_opt_field::<String>(v, "type") {
            Ok(x) => x,
            Err(e) => { return Err(e) },
        };
        let port_comms = match decode_opt_field::<u16>(v, "portComms") {
            Ok(x) => x,
            Err(e) => { return Err(e) },
        };
        let properties = match decode_opt_field::<StringMap>(v, "properties") {
            Ok(x) => x,
            Err(e) => { return Err(e) },
        };
        Ok(
            SiteHardware {
                manual,
                ip,
                name,
                specifications,
                manufacturer,
                model,
                created,
                modified,
                typ,
                port_comms,
                properties,
            },
        )
    }
}

/// How a site is configured for passes.
#[derive(Debug)]
#[non_exhaustive]
pub struct SiteConfiguration {
    /// When the record was created.
    pub created: Timestamp,
    /// When the record was last modified.
    pub modified: Option<Timestamp>,
    /// Operator-side metadata.
    pub internal_meta_data: Option<StringMap>,
    /// The configuration's name.
    pub name: String,
    /// Its free-form description.
    pub description: Option<String>,
    /// How long the site needs to take this configuration.
    pub configuration_seconds: i32,
    /// Whether the configuration is virtual.
    pub virtual_cfg: Option<bool>,
    /// Free-form properties.
    pub properties: Option<StringMap>,
    /// The hardware the configuration drives.
    pub hardware: Option<Vec<SiteHardware>>,
    /// The record's hypermedia links.
    pub links: crate::utils::links::LinkMap,
}

/// The mathematical shape of a `SiteConfiguration`.
pub struct SiteConfigurationV {
    pub created: Timestamp,
    pub modified: Option<Timestamp>,
    pub internal_meta_data: Option<Map<Seq<char>, Seq<char>>>,
    pub name: Seq<char>,
    pub description: Option<Seq<char>>,
    pub configuration_seconds: i32,
    pub virtual_cfg: Option<bool>,
    pub properties: Option<Map<Seq<char>, Seq<char>>>,
    pub hardware: Option<Seq<SiteHardwareV>>,
    pub links: Map<Seq<char>, Seq<char>>,
}

impl DeepView for SiteConfiguration {
    type V = SiteConfigurationV;

    open spec fn deep_view(&self) -> SiteConfigurationV {
        SiteConfigurationV {
            created: self.created,
            modified: self.modified.deep_view(),
            internal_meta_data: self.internal_meta_data.deep_view(),
            name: self.name@,
            description: self.description.deep_view(),
            configuration_seconds: self.configuration_seconds,
            virtual_cfg: self.virtual_cfg,
            properties: self.properties.deep_view(),
            hardware: self.hardware.deep_view(),
            links: self.links@,
        }
    }
}

/// The meaning of decoding a site configuration. The virtual switch
/// arrives under the wire name `virtual`.
pub open spec fn site_configuration_decode_spec(v: SpecWire) -> Option<SiteConfigurationV> {
    match (
        iso_field_spec(v, "created"@),
        opt_iso_field_spec(v, "modified"@),
        opt_field_spec::<StringMap>(v, "internalMetaData"@),
        field_spec::<String>(v, "name"@),
        opt_field_spec::<String>(v, "description"@),
        field_spec::<i32>(v, "configurationSeconds"@),
        opt_field_spec::<bool>(v, "virtual"@),
        opt_field_spec::<StringMap>(v, "properties"@),
        opt_field_spec::<Vec<SiteHardware>>(v, "hardware"@),
        crate::utils::links_field_spec(v),
    ) {
        (
            Some(created),
            Some(modified),
            Some(internal_meta_data),
            Some(name),
            Some(description),
            Some(configuration_seconds),
            Some(virtual_cfg),
            Some(properties),
            Some(hardware),
            Some(links),
        ) => Some(
            SiteConfigurationV {
                created,
                modified,
                internal_meta_data,
                name,
                description,
                configuration_seconds,
                virtual_cfg,
                properties,
                hardware,
                links,
            },
        ),
        _ => None,
    }
}

impl WireDecode for SiteConfiguration {
    open spec fn decode_spec(v: SpecWire) -> Option<SiteConfigurationV> {
        site_configuration_decode_spec(v)
    }

    fn decode_wire(v: &WireValue) -> (r: Result<Self, Error>) {
        let created = match crate::utils::timestamp::decode_iso_field(v, "created") {
            Ok(x) => x,
            Err(e) => { return Err(e) },
        };
        let modified = match crate::utils::timestamp::decode_opt_iso_field(v, "modified") {
            Ok(x) => x,
            Err(e) => { return Err(e) },
        };
        let internal_meta_data = match decode_opt_field::<StringMap>(v, "internalMetaData") {
            Ok(x) => x,
            Err(e) => { return Err(e) },
        };
        let name = match decode_field::<String>(v, "name") {
            Ok(x) => x,
            Err(e) => { return Err(e) },
        };
        let description = match decode_opt_field::<String>(v, "description") {
            Ok(x) => x,
            Err(e) => { return Err(e) },
        };
        let configuration_seconds = match decode_field::<i32>(v, "configurationSeconds") {
            Ok(x) => x,
            Err(e) => { return Err(e) },
        };
        let virtual_cfg = match decode_opt_field::<bool>(v, "virtual") {
            Ok(x) => x,
            Err(e) => { return Err(e) },
        };
        let properties = match decode_opt_field::<StringMap>(v, "properties") {
            Ok(x) => x,
            Err(e) => { return Err(e) },
        };
        let hardware = match decode_opt_field::<Vec<SiteHardware>>(v, "hardware") {
            Ok(x) => x,
            Err(e) => { return Err(e) },
        };
        let links = match crate::utils::decode_links_field(v) {
            Ok(x) => x,
            Err(e) => { return Err(e) },
        };
        Ok(
            SiteConfiguration {
                created,
                modified,
                internal_meta_data,
                name,
                description,
                configuration_seconds,
                virtual_cfg,
                properties,
                hardware,
                links,
            },
        )
    }
}

impl crate::Hateoas for SiteConfiguration {
    open spec fn spec_links(m: SiteConfigurationV) -> Map<Seq<char>, Seq<char>> {
        m.links
    }

    open spec fn spec_with_links(
        m: SiteConfigurationV,
        links: Map<Seq<char>, Seq<char>>,
    ) -> SiteConfigurationV {
        SiteConfigurationV { links, ..m }
    }

    proof fn lemma_with_links(m: SiteConfigurationV, links: Map<Seq<char>, Seq<char>>) {
    }

    fn get_links(&self) -> (r: &crate::utils::links::LinkMap) {
        &self.links
    }

    fn set_links(&mut self, links: crate::utils::links::LinkMap) {
        self.links = links;
    }
}

} // verus!
