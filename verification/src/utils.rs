//! Envelope unwrapping and lenient decoding.
//!
//! The API wraps payloads in several layers of packaging: a single-key
//! object around an embedded list, a `content` object beside a `_links`
//! map, and arrays whose elements may individually be malformed. The
//! functions here strip that packaging down to the payload the caller
//! wants, re-attaching any extracted link map through the [`Hateoas`]
//! capability.
//!
//! [`Hateoas`]: crate::Hateoas

use vstd::prelude::*;

pub mod links;
pub mod timestamp;

use crate::error::Error;
use crate::utils::links::{links_decode_spec, LinkMap};
use crate::wire::{
    flatten_seq_spec, spec_get, wire_views, SpecWire, WireDecode, WireValue,
};
use crate::Hateoas;

verus! {

/// Decodes a wire array leniently: elements that fail to decode are
/// silently dropped, the survivors keep their relative order, and the
/// call fails only when the value is not an array at all. Unknown or
/// malformed elements are dropped, not reported.
pub fn flatten_deserialize<T: WireDecode>(v: &WireValue) -> (r: Result<Vec<T>, Error>)
    ensures
        match r {
            Ok(items) => v@ matches SpecWire::Array(els) && items.deep_view()
                == flatten_seq_spec::<T>(els),
            Err(e) => !(v@ matches SpecWire::Array(_)) && e == Error::PaginatedInner,
        },
{
    let items = match v {
        WireValue::Array(items) => items,
        _ => { return Err(Error::PaginatedInner) },
    };
    proof {
        assert(v@ == SpecWire::Array(wire_views(items@)));
        crate::wire::lemma_wire_views(items@);
    }
    let ghost entries = wire_views(items@);
    let len = items.len();
    let mut out: Vec<T> = Vec::new();
    let mut i: usize = 0;
    proof {
        assert(entries.take(0) =~= Seq::<SpecWire>::empty());
    }
    while i < len
        invariant
            items@.len() == len,
            0 <= i <= len,
            entries == wire_views(items@),
            v@ == SpecWire::Array(entries),
            entries.len() == len,
            forall|k: int|
                0 <= k < len ==> #[trigger] entries[k] == crate::wire::wire_view(items@[k]),
            out.deep_view() == flatten_seq_spec::<T>(entries.take(i as int)),
        decreases len - i,
    {
        proof {
            assert(entries.take(i + 1).drop_last() =~= entries.take(i as int));
            assert(entries.take(i + 1).last() == entries[i as int]);
        }
        match T::decode_wire(&items[i]) {
            Ok(x) => {
                out.push(x);
                proof {
                    assert(out.deep_view() =~= flatten_seq_spec::<T>(entries.take(i + 1)));
                }
            },
            Err(_) => {
                proof {
                    assert(out.deep_view() =~= flatten_seq_spec::<T>(entries.take(i + 1)));
                }
            },
        }
        i = i + 1;
    }
    proof {
        assert(entries.take(len as int) =~= entries);
    }
    Ok(out)
}

/// A plain mapping from string key to string value, as records use for
/// their free-form property and metadata fields.
///
/// Entries keep insertion order; on a repeated key the later entry wins,
/// so the abstract value is a map.
#[derive(Debug, Clone)]
pub struct StringMap {
    entries: Vec<(String, String)>,
}

impl View for StringMap {
    type V = Map<Seq<char>, Seq<char>>;

    closed spec fn view(&self) -> Map<Seq<char>, Seq<char>> {
        crate::utils::links::map_of(crate::utils::links::entry_views(self.entries@))
    }
}

impl DeepView for StringMap {
    type V = Map<Seq<char>, Seq<char>>;

    open spec fn deep_view(&self) -> Map<Seq<char>, Seq<char>> {
        self.view()
    }
}

/// The meaning of decoding a list of wire object entries into a string
/// map: every value must be text.
pub open spec fn string_map_entries_spec(entries: Seq<(Seq<char>, SpecWire)>) -> Option<
    Map<Seq<char>, Seq<char>>,
>
    decreases entries.len(),
{
    if entries.len() == 0 {
        Some(Map::empty())
    } else {
        match (string_map_entries_spec(entries.drop_last()), entries.last().1) {
            (Some(m), SpecWire::Text(s)) => Some(m.insert(entries.last().0, s)),
            _ => None,
        }
    }
}

/// The meaning of decoding a whole wire value as a string map.
pub open spec fn string_map_decode_spec(v: SpecWire) -> Option<Map<Seq<char>, Seq<char>>> {
    match v {
        SpecWire::Object(entries) => string_map_entries_spec(entries),
        _ => None,
    }
}

/// Once one entry holds a non-text value, the whole string map fails.
proof fn lemma_string_map_entries_prefix_none(entries: Seq<(Seq<char>, SpecWire)>, i: int)
    requires
        0 <= i <= entries.len(),
        string_map_entries_spec(entries.take(i)) is None,
    ensures
        string_map_entries_spec(entries) is None,
    decreases entries.len() - i,
{
    if i < entries.len() {
        assert(entries.take(i + 1).drop_last() =~= entries.take(i));
        lemma_string_map_entries_prefix_none(entries, i + 1);
    } else {
        assert(entries.take(i) =~= entries);
    }
}

impl StringMap {
    /// An empty map.
    pub fn new() -> (r: StringMap)
        ensures
            r@ == Map::<Seq<char>, Seq<char>>::empty(),
    {
        let r = StringMap { entries: Vec::new() };
        proof {
            assert(crate::utils::links::entry_views(r.entries@) =~= Seq::<
                (Seq<char>, Seq<char>),
            >::empty());
        }
        r
    }

    /// Maps `key` to `value`.
    pub fn insert(&mut self, key: String, value: String)
        ensures
            final(self)@ == old(self)@.insert(key@, value@),
    {
        let ghost before = crate::utils::links::entry_views(self.entries@);
        self.entries.push((key, value));
        proof {
            assert(crate::utils::links::entry_views(self.entries@).drop_last() =~= before);
        }
    }

    /// The value mapped to `key`, if any.
    pub fn get<'a>(&'a self, key: &str) -> (r: Option<&'a String>)
        ensures
            match r {
                Some(u) => self@.contains_key(key@) && self@[key@] == u@,
                None => !self@.contains_key(key@),
            },
    {
        let ghost evs = crate::utils::links::entry_views(self.entries@);
        let len = self.entries.len();
        let mut i: usize = len;
        proof {
            assert(evs.take(len as int) =~= evs);
        }
        while i > 0
            invariant
                self.entries@.len() == len,
                0 <= i <= len,
                evs == crate::utils::links::entry_views(self.entries@),
                crate::utils::links::map_of(evs).contains_key(key@) == crate::utils::links::map_of(
                    evs.take(i as int),
                ).contains_key(key@),
                crate::utils::links::map_of(evs).contains_key(key@)
                    ==> crate::utils::links::map_of(evs)[key@] == crate::utils::links::map_of(
                    evs.take(i as int),
                )[key@],
            decreases i,
        {
            proof {
                assert(evs.take(i as int).drop_last() =~= evs.take(i - 1));
                assert(evs.take(i as int).last() == evs[i - 1]);
            }
            if crate::wire::str_eq(self.entries[i - 1].0.as_str(), key) {
                return Some(&self.entries[i - 1].1);
            }
            i = i - 1;
        }
        proof {
            assert(evs.take(0) =~= Seq::<(Seq<char>, Seq<char>)>::empty());
        }
        None
    }
}

impl WireDecode for StringMap {
    open spec fn decode_spec(v: SpecWire) -> Option<Map<Seq<char>, Seq<char>>> {
        string_map_decode_spec(v)
    }

    /// Reads a wire object of text values; any other shape is the
    /// paginated-item error.
    fn decode_wire(v: &WireValue) -> (r: Result<Self, Error>) {
        let fields = match v {
            WireValue::Object(fields) => fields,
            _ => { return Err(Error::PaginatedInner) },
        };
        let ghost entries = crate::wire::obj_entries(fields@);
        let len = fields.len();
        let mut out = StringMap::new();
        let mut i: usize = 0;
        proof {
            crate::wire::lemma_obj_entries(fields@);
            assert(entries.take(0) =~= Seq::<(Seq<char>, SpecWire)>::empty());
        }
        while i < len
            invariant
                fields@.len() == len,
                0 <= i <= len,
                entries == crate::wire::obj_entries(fields@),
                v@ == SpecWire::Object(entries),
                entries.len() == len,
                forall|k: int|
                    0 <= k < len ==> #[trigger] entries[k] == (
                        fields@[k].0@,
                        crate::wire::wire_view(fields@[k].1),
                    ),
                string_map_entries_spec(entries.take(i as int)) == Some(out@),
            decreases len - i,
        {
            proof {
                assert(entries.take(i + 1).drop_last() =~= entries.take(i as int));
                assert(entries.take(i + 1).last() == entries[i as int]);
            }
            let value = match &fields[i].1 {
                WireValue::Text(value) => value.clone(),
                _ => {
                    proof {
                        lemma_string_map_entries_prefix_none(entries, i + 1);
                    }
                    return Err(Error::PaginatedInner);
                },
            };
            let key = fields[i].0.clone();
            out.insert(key, value);
            i = i + 1;
        }
        proof {
            assert(entries.take(len as int) =~= entries);
        }
        Ok(out)
    }
}

/// The meaning of a text field that reads as empty when absent.
pub open spec fn default_text_field_spec(v: SpecWire, key: Seq<char>) -> Option<Seq<char>> {
    match spec_get(v, key) {
        None => Some(Seq::<char>::empty()),
        Some(SpecWire::Text(s)) => Some(s),
        Some(_) => None,
    }
}

/// Decodes a text field that reads as empty when absent.
pub fn decode_default_text_field(v: &WireValue, key: &str) -> (r: Result<String, Error>)
    ensures
        match r {
            Ok(s) => default_text_field_spec(v@, key@) == Some(s@),
            Err(_) => default_text_field_spec(v@, key@) is None,
        },
{
    match crate::wire::get_field(v, key) {
        None => Ok(String::new()),
        Some(WireValue::Text(s)) => Ok(s.clone()),
        Some(_) => Err(Error::PaginatedInner),
    }
}

/// The meaning of a string-map field that reads as empty when absent.
pub open spec fn default_map_field_spec(v: SpecWire, key: Seq<char>) -> Option<
    Map<Seq<char>, Seq<char>>,
> {
    match spec_get(v, key) {
        None => Some(Map::empty()),
        Some(w) => string_map_decode_spec(w),
    }
}

/// Decodes a string-map field that reads as empty when absent.
pub fn decode_default_map_field(v: &WireValue, key: &str) -> (r: Result<StringMap, Error>)
    ensures
        match r {
            Ok(m) => default_map_field_spec(v@, key@) == Some(m@),
            Err(_) => default_map_field_spec(v@, key@) is None,
        },
{
    match crate::wire::get_field(v, key) {
        None => Ok(StringMap::new()),
        Some(w) => StringMap::decode_wire(w),
    }
}

/// The meaning of a non-negative counter field that reads as zero when
/// absent.
pub open spec fn default_u32_field_spec(v: SpecWire, key: Seq<char>) -> Option<u32> {
    match spec_get(v, key) {
        None => Some(0u32),
        Some(w) => <u32 as WireDecode>::decode_spec(w),
    }
}

/// Decodes a non-negative counter field that reads as zero when absent.
pub fn decode_default_u32_field(v: &WireValue, key: &str) -> (r: Result<u32, Error>)
    ensures
        match r {
            Ok(n) => default_u32_field_spec(v@, key@) == Some(n),
            Err(_) => default_u32_field_spec(v@, key@) is None,
        },
{
    match crate::wire::get_field(v, key) {
        None => Ok(0),
        Some(w) => u32::decode_wire(w),
    }
}

/// The meaning of the single-key destructure: the payload is the value of
/// the first entry of a non-empty object; the key's name carries no
/// meaning and is discarded.
pub open spec fn destructure_spec<T: WireDecode>(v: SpecWire) -> Option<T::V> {
    match v {
        SpecWire::Object(entries) => if entries.len() == 0 {
            None
        } else {
            T::decode_spec(entries[0].1)
        },
        _ => None,
    }
}

/// Unwraps a single-key envelope: takes the first entry's value of the
/// object as the payload. An empty object is the missing-list error; so
/// is a value that is not an object. On an object with several entries
/// the first one on the wire is used.
pub fn destructure_decode<T: WireDecode>(v: &WireValue) -> (r: Result<T, Error>)
    ensures
        match r {
            Ok(x) => destructure_spec::<T>(v@) == Some(x.deep_view()),
            Err(_) => destructure_spec::<T>(v@) is None,
        },
        (v@ matches SpecWire::Object(entries) && entries.len() == 0) ==> r == Err::<T, Error>(
            Error::PaginatedListMissing,
        ),
        !(v@ matches SpecWire::Object(_)) ==> r == Err::<T, Error>(Error::PaginatedListMissing),
{
    let fields = match v {
        WireValue::Object(fields) => fields,
        _ => { return Err(Error::PaginatedListMissing) },
    };
    proof {
        assert(v@ == SpecWire::Object(crate::wire::obj_entries(fields@)));
        crate::wire::lemma_obj_entries(fields@);
    }
    if fields.len() == 0 {
        return Err(Error::PaginatedListMissing);
    }
    T::decode_wire(&fields[0].1)
}

/// The meaning of the `_links` field of an envelope: a present field must
/// decode as a link map; an absent one reads as the empty map.
pub open spec fn links_field_spec(v: SpecWire) -> Option<Map<Seq<char>, Seq<char>>> {
    match spec_get(v, "_links"@) {
        Some(l) => links_decode_spec(l),
        None => Some(Map::empty()),
    }
}

/// Reads the `_links` field of an envelope, defaulting to an empty map
/// when the field is absent.
pub fn decode_links_field(v: &WireValue) -> (r: Result<LinkMap, Error>)
    ensures
        match r {
            Ok(m) => links_field_spec(v@) == Some(m@) && m.wf(),
            Err(e) => links_field_spec(v@) is None && e matches Error::Link(_),
        },
{
    match crate::wire::get_field(v, "_links") {
        Some(l) => LinkMap::decode(l),
        None => Ok(LinkMap::new()),
    }
}

/// The meaning of the content envelope: the payload under `content`, with
/// the envelope's own link map written over whatever the payload carried.
pub open spec fn content_decode_spec<T: WireDecode + Hateoas>(v: SpecWire) -> Option<T::V> {
    match spec_get(v, "content"@) {
        Some(c) => match (T::decode_spec(c), links_field_spec(v)) {
            (Some(p), Some(l)) => Some(T::spec_with_links(p, l)),
            _ => None,
        },
        None => None,
    }
}

/// Unwraps a content envelope `{"content": <payload>, "_links": <map>}`:
/// decodes the payload, decodes the envelope's link map (empty when
/// absent), and writes that map into the payload, overriding any links
/// the payload's own decode produced. A value without a `content` entry
/// is the missing-list error.
pub fn content_decode<T: WireDecode + Hateoas>(v: &WireValue) -> (r: Result<T, Error>)
    ensures
        match r {
            Ok(x) => content_decode_spec::<T>(v@) == Some(x.deep_view()),
            Err(_) => content_decode_spec::<T>(v@) is None,
        },
{
    let c = match crate::wire::get_field(v, "content") {
        Some(c) => c,
        None => { return Err(Error::PaginatedListMissing) },
    };
    let mut payload = match T::decode_wire(c) {
        Ok(payload) => payload,
        Err(e) => { return Err(e) },
    };
    let links = match decode_links_field(v) {
        Ok(links) => links,
        Err(e) => { return Err(e) },
    };
    payload.set_links(links);
    Ok(payload)
}

/// A decoded content envelope, holding its payload with the envelope's
/// links already attached.
#[derive(Debug)]
pub struct Content<T: WireDecode + Hateoas> {
    /// The payload.
    pub inner: T,
}

impl<T: WireDecode + Hateoas> Content<T> {
    /// Decodes a content envelope; see [`content_decode`].
    pub fn decode(v: &WireValue) -> (r: Result<Content<T>, Error>)
        ensures
            match r {
                Ok(c) => content_decode_spec::<T>(v@) == Some(c.inner.deep_view()),
                Err(_) => content_decode_spec::<T>(v@) is None,
            },
    {
        match content_decode::<T>(v) {
            Ok(inner) => Ok(Content { inner }),
            Err(e) => Err(e),
        }
    }
}

/// The shape a content envelope has before its links are attached: the
/// payload and the extracted link map side by side.
#[derive(Debug)]
pub struct ContentInitial<T: WireDecode> {
    /// The payload, as its own decode produced it.
    pub inner: T,
    /// The envelope's link map.
    pub links: LinkMap,
}

impl<T: WireDecode> ContentInitial<T> {
    /// Decodes the payload under `content` and the envelope's link map
    /// without writing the one into the other.
    pub fn decode(v: &WireValue) -> (r: Result<ContentInitial<T>, Error>)
        ensures
            match r {
                Ok(c) => (match spec_get(v@, "content"@) {
                    Some(cv) => T::decode_spec(cv) == Some(c.inner.deep_view()),
                    None => false,
                }) && links_field_spec(v@) == Some(c.links@),
                Err(_) => (spec_get(v@, "content"@) is None || (match spec_get(v@, "content"@) {
                    Some(cv) => T::decode_spec(cv) is None,
                    None => true,
                }) || links_field_spec(v@) is None),
            },
    {
        let c = match crate::wire::get_field(v, "content") {
            Some(c) => c,
            None => { return Err(Error::PaginatedListMissing) },
        };
        let inner = match T::decode_wire(c) {
            Ok(inner) => inner,
            Err(e) => { return Err(e) },
        };
        let links = match decode_links_field(v) {
            Ok(links) => links,
            Err(e) => { return Err(e) },
        };
        Ok(ContentInitial { inner, links })
    }
}

/// The meaning of the embedded envelope: the payload destructured out of
/// `_embedded`, beside the envelope's link map.
pub open spec fn embedded_decode_spec<T: WireDecode>(v: SpecWire) -> Option<
    (T::V, Map<Seq<char>, Seq<char>>),
> {
    match spec_get(v, "_embedded"@) {
        Some(e) => match (destructure_spec::<T>(e), links_field_spec(v)) {
            (Some(x), Some(l)) => Some((x, l)),
            _ => None,
        },
        None => None,
    }
}

/// An embedded-list envelope: the payload taken out of the single-key
/// `_embedded` wrapper, and the envelope's link map.
#[derive(Debug)]
pub struct Embedded<T: WireDecode> {
    /// The payload of the `_embedded` wrapper.
    pub items: T,
    /// The envelope's link map, empty when the wire held none.
    pub links: LinkMap,
}

/// The mathematical shape of an embedded-list envelope.
pub struct EmbeddedV<V> {
    /// The payload.
    pub items: V,
    /// The envelope's link map.
    pub links: Map<Seq<char>, Seq<char>>,
}

impl<T: WireDecode> DeepView for Embedded<T> {
    type V = EmbeddedV<T::V>;

    open spec fn deep_view(&self) -> EmbeddedV<T::V> {
        EmbeddedV { items: self.items.deep_view(), links: self.links@ }
    }
}

impl<T: WireDecode> Hateoas for Embedded<T> {
    open spec fn spec_links(m: EmbeddedV<T::V>) -> Map<Seq<char>, Seq<char>> {
        m.links
    }

    open spec fn spec_with_links(m: EmbeddedV<T::V>, links: Map<Seq<char>, Seq<char>>) -> EmbeddedV<
        T::V,
    > {
        EmbeddedV { links, ..m }
    }

    proof fn lemma_with_links(m: EmbeddedV<T::V>, links: Map<Seq<char>, Seq<char>>) {
    }

    fn get_links(&self) -> (r: &LinkMap) {
        &self.links
    }

    fn set_links(&mut self, links: LinkMap) {
        self.links = links;
    }
}

impl<T: WireDecode> Embedded<T> {
    /// Decodes an embedded-list envelope. A value without an `_embedded`
    /// entry, or with an empty wrapper under it, is the missing-list
    /// error.
    pub fn decode(v: &WireValue) -> (r: Result<Embedded<T>, Error>)
        ensures
            match r {
                Ok(e) => embedded_decode_spec::<T>(v@) == Some((e.items.deep_view(), e.links@)),
                Err(_) => embedded_decode_spec::<T>(v@) is None,
            },
    {
        let inner = match crate::wire::get_field(v, "_embedded") {
            Some(e) => e,
            None => { return Err(Error::PaginatedListMissing) },
        };
        let items = match destructure_decode::<T>(inner) {
            Ok(items) => items,
            Err(e) => { return Err(e) },
        };
        let links = match decode_links_field(v) {
            Ok(links) => links,
            Err(e) => { return Err(e) },
        };
        Ok(Embedded { items, links })
    }
}

} // verus!
