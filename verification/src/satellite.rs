//! Satellite records.

use vstd::prelude::*;

use crate::error::Error;
use crate::utils::links::LinkMap;
use crate::utils::timestamp::{iso_field_spec, opt_iso_field_spec, Timestamp};
use crate::utils::StringMap;
use crate::wire::{decode_field, decode_opt_field, field_spec, opt_field_spec, SpecWire, WireDecode, WireValue};
use crate::Hateoas;

verus! {

/// The two-line orbital element set of a satellite.
#[derive(Debug, Clone, PartialEq, Eq)]
#[non_exhaustive]
pub struct TwoLineElement {
    /// The first line.
    pub line1: String,
    /// The second line.
    pub line2: String,
}

/// The mathematical shape of a `TwoLineElement`.
pub struct TwoLineElementV {
    pub line1: Seq<char>,
    pub line2: Seq<char>,
}

impl DeepView for TwoLineElement {
    type V = TwoLineElementV;

    open spec fn deep_view(&self) -> TwoLineElementV {
        TwoLineElementV { line1: self.line1@, line2: self.line2@ }
    }
}

/// The meaning of decoding a two-line element set.
pub open spec fn two_line_element_decode_spec(v: SpecWire) -> Option<TwoLineElementV> {
    match (field_spec::<String>(v, "line1"@), field_spec::<String>(v, "line2"@)) {
        (Some(line1), Some(line2)) => Some(TwoLineElementV { line1, line2 }),
        _ => None,
    }
}

impl WireDecode for TwoLineElement {
    open spec fn decode_spec(v: SpecWire) -> Option<TwoLineElementV> {
        two_line_element_decode_spec(v)
    }

    fn decode_wire(v: &WireValue) -> (r: Result<Self, Error>) {
        let line1 = match decode_field::<String>(v, "line1") {
            Ok(x) => x,
            Err(e) => { return Err(e) },
        };
        let line2 = match decode_field::<String>(v, "line2") {
            Ok(x) => x,
            Err(e) => { return Err(e) },
        };
        Ok(TwoLineElement { line1, line2 })
    }
}

/// A satellite as the API represents it.
#[derive(Debug)]
#[non_exhaustive]
pub struct Satellite {
    /// When the record was created.
    pub created: Timestamp,
    /// When the record was last modified.
    pub modified: Option<Timestamp>,
    /// The satellite's name.
    pub name: String,
    /// Its free-form description.
    pub description: String,
    /// Its catalog number, if known.
    pub norad_cat_id: Option<u32>,
    /// Its orbital elements, if known.
    pub tle: Option<TwoLineElement>,
    /// Operator-side metadata.
    pub internal_meta_data: Option<StringMap>,
    /// The owning account's name.
    pub account_name: String,
    /// Customer-side metadata.
    pub meta_data: Option<StringMap>,
    /// The record's hypermedia links.
    pub links: LinkMap,
}

/// The mathematical shape of a `Satellite`.
pub struct SatelliteV {
    pub created: Timestamp,
    pub modified: Option<Timestamp>,
    pub name: Seq<char>,
    pub description: Seq<char>,
    pub norad_cat_id: Option<u32>,
    pub tle: Option<TwoLineElementV>,
    pub internal_meta_data: Option<Map<Seq<char>, Seq<char>>>,
    pub account_name: Seq<char>,
    pub meta_data: Option<Map<Seq<char>, Seq<char>>>,
    pub links: Map<Seq<char>, Seq<char>>,
}

impl DeepView for Satellite {
    type V = SatelliteV;

    open spec fn deep_view(&self) -> SatelliteV {
        SatelliteV {
            created: self.created,
            modified: self.modified.deep_view(),
            name: self.name@,
            description: self.description@,
            norad_cat_id: self.norad_cat_id,
            tle: self.tle.deep_view(),
            internal_meta_data: self.internal_meta_data.deep_view(),
            account_name: self.account_name@,
            meta_data: self.meta_data.deep_view(),
            links: self.links@,
        }
    }
}

/// The meaning of decoding a satellite record.
pub open spec fn satellite_decode_spec(v: SpecWire) -> Option<SatelliteV> {
    match (
        iso_field_spec(v, "created"@),
        opt_iso_field_spec(v, "modified"@),
        field_spec::<String>(v, "name"@),
        field_spec::<String>(v, "description"@),
        opt_field_spec::<u32>(v, "noradCatId"@),
        opt_field_spec::<TwoLineElement>(v, "tle"@),
        opt_field_spec::<StringMap>(v, "internalMetaData"@),
        field_spec::<String>(v, "accountName"@),
        opt_field_spec::<StringMap>(v, "metaData"@),
        crate::utils::links_field_spec(v),
    ) {
        (
            Some(created),
            Some(modified),
            Some(name),
            Some(description),
            Some(norad_cat_id),
            Some(tle),
            Some(internal_meta_data),
            Some(account_name),
            Some(meta_data),
            Some(links),
        ) => Some(
            SatelliteV {
                created,
                modified,
                name,
                description,
                norad_cat_id,
                tle,
                internal_meta_data,
                account_name,
                meta_data,
                links,
            },
        ),
        _ => None,
    }
}

impl WireDecode for Satellite {
    open spec fn decode_spec(v: SpecWire) -> Option<SatelliteV> {
        satellite_decode_spec(v)
    }

    fn decode_wire(v: &WireValue) -> (r: Result<Self, Error>) {
        let created = match crate::utils::timestamp::decode_iso_field(v, "created") {
            Ok(x) => x,
            Err(e) => { return Err(e) },
        };
        let modified = match crate::utils::timestamp::decode_opt_iso_field(v, "modified") {
            Ok(x) => x,
            Err(e) => { return Err(e) },
        };
        let name = match decode_field::<String>(v, "name") {
            Ok(x) => x,
            Err(e) => { return Err(e) },
        };
        let description = match decode_field::<String>(v, "description") {
            Ok(x) => x,
            Err(e) => { return Err(e) },
        };
        let norad_cat_id = match decode_opt_field::<u32>(v, "noradCatId") {
            Ok(x) => x,
            Err(e) => { return Err(e) },
        };
        let tle = match decode_opt_field::<TwoLineElement>(v, "tle") {
            Ok(x) => x,
            Err(e) => { return Err(e) },
        };
        let internal_meta_data = match decode_opt_field::<StringMap>(v, "internalMetaData") {
            Ok(x) => x,
            Err(e) => { return Err(e) },
        };
        let account_name = match decode_field::<String>(v, "accountName") {
            Ok(x) => x,
            Err(e) => { return Err(e) },
        };
        let meta_data = match decode_opt_field::<StringMap>(v, "metaData") {
            Ok(x) => x,
            Err(e) => { return Err(e) },
        };
        let links = match crate::utils::decode_links_field(v) {
            Ok(x) => x,
            Err(e) => { return Err(e) },
        };
        Ok(
            Satellite {
                created,
                modified,
                name,
                description,
                norad_cat_id,
                tle,
                internal_meta_data,
                account_name,
                meta_data,
                links,
            },
        )
    }
}

impl Hateoas for Satellite {
    open spec fn spec_links(m: SatelliteV) -> Map<Seq<char>, Seq<char>> {
        m.links
    }

    open spec fn spec_with_links(m: SatelliteV, links: Map<Seq<char>, Seq<char>>) -> SatelliteV {
        SatelliteV { links, ..m }
    }

    proof fn lemma_with_links(m: SatelliteV, links: Map<Seq<char>, Seq<char>>) {
    }

    fn get_links(&self) -> (r: &LinkMap) {
        &self.links
    }

    fn set_links(&mut self, links: LinkMap) {
        self.links = links;
    }
}

} // verus!
