//! Paginated responses: page metadata and the paginated envelope.

use vstd::prelude::*;

use crate::error::Error;
use crate::utils::links::LinkMap;
use crate::utils::{destructure_spec, links_field_spec};
use crate::wire::{spec_get, SpecWire, WireDecode, WireValue};
use crate::Hateoas;

verus! {

/// Page metadata included in a paginated stream.
#[derive(Debug, Clone, Copy, PartialEq, Eq, PartialOrd, Ord, Hash, Structural)]
pub struct Page {
    /// The page size the server used.
    pub size: u32,
    /// How many elements the whole stream holds.
    pub total_elements: u32,
    /// How many pages the whole stream holds.
    pub total_pages: u32,
    /// The index of this page.
    pub number: u32,
}

impl DeepView for Page {
    type V = Page;

    open spec fn deep_view(&self) -> Page {
        *self
    }
}

/// The meaning of decoding page metadata: an object carrying the four
/// counters as non-negative integers.
pub open spec fn page_decode_spec(v: SpecWire) -> Option<Page> {
    match (
        spec_get(v, "size"@),
        spec_get(v, "totalElements"@),
        spec_get(v, "totalPages"@),
        spec_get(v, "number"@),
    ) {
        (Some(s), Some(te), Some(tp), Some(n)) => match (
            u32::decode_spec(s),
            u32::decode_spec(te),
            u32::decode_spec(tp),
            u32::decode_spec(n),
        ) {
            (Some(s), Some(te), Some(tp), Some(n)) => Some(
                Page { size: s, total_elements: te, total_pages: tp, number: n },
            ),
            _ => None,
        },
        _ => None,
    }
}

impl WireDecode for Page {
    open spec fn decode_spec(v: SpecWire) -> Option<Page> {
        page_decode_spec(v)
    }

    /// Reads the four counters from their wire names; any missing or
    /// non-integer counter is the paginated-item error.
    fn decode_wire(v: &WireValue) -> (r: Result<Self, Error>) {
        let size = match crate::wire::get_field(v, "size") {
            Some(s) => match u32::decode_wire(s) {
                Ok(size) => size,
                Err(e) => { return Err(e) },
            },
            None => { return Err(Error::PaginatedInner) },
        };
        let total_elements = match crate::wire::get_field(v, "totalElements") {
            Some(s) => match u32::decode_wire(s) {
                Ok(te) => te,
                Err(e) => { return Err(e) },
            },
            None => { return Err(Error::PaginatedInner) },
        };
        let total_pages = match crate::wire::get_field(v, "totalPages") {
            Some(s) => match u32::decode_wire(s) {
                Ok(tp) => tp,
                Err(e) => { return Err(e) },
            },
            None => { return Err(Error::PaginatedInner) },
        };
        let number = match crate::wire::get_field(v, "number") {
            Some(s) => match u32::decode_wire(s) {
                Ok(n) => n,
                Err(e) => { return Err(e) },
            },
            None => { return Err(Error::PaginatedInner) },
        };
        Ok(Page { size, total_elements, total_pages, number })
    }
}

/// The mathematical shape of a paginated response.
pub struct PaginatedV<V> {
    /// The decoded items, in wire order.
    pub items: Seq<V>,
    /// The envelope's link map.
    pub links: Map<Seq<char>, Seq<char>>,
    /// The page metadata.
    pub page: Page,
}

/// A paginated response: the items destructured out of `_embedded`, the
/// envelope's link map, and its page metadata.
#[derive(Debug)]
pub struct Paginated<T: WireDecode> {
    /// The decoded items, in wire order.
    pub items: Vec<T>,
    /// The envelope's link map.
    pub links: LinkMap,
    /// The page metadata.
    pub page: Page,
}

impl<T: WireDecode> DeepView for Paginated<T> {
    type V = PaginatedV<T::V>;

    open spec fn deep_view(&self) -> PaginatedV<T::V> {
        PaginatedV { items: self.items.deep_view(), links: self.links@, page: self.page }
    }
}

/// The meaning of decoding a paginated envelope: the strict item list
/// destructured out of `_embedded`, a mandatory link map, and mandatory
/// page metadata.
pub open spec fn paginated_decode_spec<T: WireDecode>(v: SpecWire) -> Option<PaginatedV<T::V>> {
    match (spec_get(v, "_embedded"@), spec_get(v, "_links"@), spec_get(v, "page"@)) {
        (Some(e), Some(l), Some(p)) => match (
            destructure_spec::<Vec<T>>(e),
            crate::utils::links::links_decode_spec(l),
            page_decode_spec(p),
        ) {
            (Some(items), Some(links), Some(page)) => Some(PaginatedV { items, links, page }),
            _ => None,
        },
        _ => None,
    }
}

impl<T: WireDecode> Paginated<T> {
    /// Decodes a paginated envelope. The dominant failure is the
    /// missing-list error from the inner destructure; one malformed item
    /// is the paginated-item error, a bad or absent link map the link
    /// error, and bad or absent page metadata the paginated-item error.
    pub fn decode(v: &WireValue) -> (r: Result<Paginated<T>, Error>)
        ensures
            match r {
                Ok(p) => paginated_decode_spec::<T>(v@) == Some(p.deep_view()),
                Err(_) => paginated_decode_spec::<T>(v@) is None,
            },
    {
        let e = match crate::wire::get_field(v, "_embedded") {
            Some(e) => e,
            None => { return Err(Error::PaginatedListMissing) },
        };
        let items = match crate::utils::destructure_decode::<Vec<T>>(e) {
            Ok(items) => items,
            Err(err) => { return Err(err) },
        };
        let l = match crate::wire::get_field(v, "_links") {
            Some(l) => l,
            None => { return Err(Error::Link("the paginated envelope has no links".to_owned())) },
        };
        let links = match LinkMap::decode(l) {
            Ok(links) => links,
            Err(err) => { return Err(err) },
        };
        let p = match crate::wire::get_field(v, "page") {
            Some(p) => p,
            None => { return Err(Error::PaginatedInner) },
        };
        let page = match Page::decode_wire(p) {
            Ok(page) => page,
            Err(err) => { return Err(err) },
        };
        Ok(Paginated { items, links, page })
    }
}

impl<T: WireDecode> Hateoas for Paginated<T> {
    open spec fn spec_links(m: PaginatedV<T::V>) -> Map<Seq<char>, Seq<char>> {
        m.links
    }

    open spec fn spec_with_links(m: PaginatedV<T::V>, links: Map<Seq<char>, Seq<char>>) -> PaginatedV<
        T::V,
    > {
        PaginatedV { links, ..m }
    }

    proof fn lemma_with_links(m: PaginatedV<T::V>, links: Map<Seq<char>, Seq<char>>) {
    }

    fn get_links(&self) -> (r: &LinkMap) {
        &self.links
    }

    fn set_links(&mut self, links: LinkMap) {
        self.links = links;
    }
}

} // verus!
