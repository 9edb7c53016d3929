//! The hypermedia link-map codec.
//!
//! On the wire a link map is an object of `{"<rel>": {"href": "<url>"}}`
//! entries; in memory it is a flat map from relation name to an absolute
//! URL held in normalized text form. Decoding unwraps every `href` and
//! validates the URL; encoding re-wraps each URL. Decoding an encoded map
//! returns the original map (`lemma_links_round_trip`).

use vstd::prelude::*;

use crate::error::Error;
use crate::wire::{obj_entries, lemma_obj_entries, spec_lookup, wire_view, SpecWire, WireValue};

verus! {

/// The normalized serialization of the absolute URL written `s`, if `s`
/// parses as one.
pub uninterp spec fn url_normalize(s: Seq<char>) -> Option<Seq<char>>;

/// Relies on url's `Url::parse`, an absolute-URL parser whose result is a
/// function of the text alone, and on `String::from(Url)`, which returns
/// the URL's serialization. The crate serializes URLs as that text and
/// deserializes them by parsing it back, so a serialization parses to
/// itself.
#[verifier::external_body]
fn normalize_url(s: &str) -> (r: Option<String>)
    ensures
        match r {
            Some(u) => url_normalize(s@) == Some(u@) && url_normalize(u@) == Some(u@),
            None => url_normalize(s@) is None,
        },
{
    match url::Url::parse(s) {
        Ok(u) => Some(String::from(u)),
        Err(_) => None,
    }
}

/// A mapping from relation name to normalized absolute URL.
///
/// Entries are kept in insertion order and hold one entry per relation
/// name: storing a name again replaces its URL in place.
#[derive(Debug, Clone)]
pub struct LinkMap {
    entries: Vec<(String, String)>,
}

/// The map read from an entry list, later entries winning.
pub open spec fn map_of(entries: Seq<(Seq<char>, Seq<char>)>) -> Map<Seq<char>, Seq<char>>
    decreases entries.len(),
{
    if entries.len() == 0 {
        Map::empty()
    } else {
        map_of(entries.drop_last()).insert(entries.last().0, entries.last().1)
    }
}

/// The entry list of a link map, with both strings abstracted.
pub open spec fn entry_views(entries: Seq<(String, String)>) -> Seq<(Seq<char>, Seq<char>)> {
    Seq::new(entries.len(), |i: int| (entries[i].0@, entries[i].1@))
}

/// Pairwise-distinct keys in an entry list.
pub open spec fn unique_keys(evs: Seq<(Seq<char>, Seq<char>)>) -> bool {
    forall|i: int, j: int|
        0 <= i < j < evs.len() ==> (#[trigger] evs[i]).0 != (#[trigger] evs[j]).0
}

/// A key absent from an entry list is absent from its map.
proof fn lemma_map_of_absent(evs: Seq<(Seq<char>, Seq<char>)>, k: Seq<char>)
    requires
        forall|i: int| 0 <= i < evs.len() ==> (#[trigger] evs[i]).0 != k,
    ensures
        !map_of(evs).contains_key(k),
    decreases evs.len(),
{
    if evs.len() > 0 {
        assert forall|i: int| 0 <= i < evs.drop_last().len() implies (#[trigger] evs.drop_last()[i]).0
            != k by {
            assert(evs.drop_last()[i] == evs[i]);
        }
        lemma_map_of_absent(evs.drop_last(), k);
    }
}

/// With pairwise-distinct keys, every entry stands in the map with its
/// own value.
proof fn lemma_map_of_unique_at(evs: Seq<(Seq<char>, Seq<char>)>, i: int)
    requires
        unique_keys(evs),
        0 <= i < evs.len(),
    ensures
        map_of(evs).contains_key(evs[i].0),
        map_of(evs)[evs[i].0] == evs[i].1,
    decreases evs.len(),
{
    if i < evs.len() - 1 {
        assert forall|q: int, w: int|
            0 <= q < w < evs.drop_last().len() implies (#[trigger] evs.drop_last()[q]).0 != (
        #[trigger] evs.drop_last()[w]).0 by {
            assert(evs.drop_last()[q] == evs[q]);
            assert(evs.drop_last()[w] == evs[w]);
        }
        lemma_map_of_unique_at(evs.drop_last(), i);
        assert(evs.last().0 != evs[i].0);
        assert(evs.drop_last()[i] == evs[i]);
    }
}

/// With pairwise-distinct keys the map holds exactly one pair per entry.
proof fn lemma_map_of_unique_len(evs: Seq<(Seq<char>, Seq<char>)>)
    requires
        unique_keys(evs),
    ensures
        map_of(evs).dom().finite(),
        map_of(evs).dom().len() == evs.len(),
    decreases evs.len(),
{
    if evs.len() == 0 {
        assert(map_of(evs).dom() =~= Set::<Seq<char>>::empty());
    } else {
        assert forall|q: int, w: int|
            0 <= q < w < evs.drop_last().len() implies (#[trigger] evs.drop_last()[q]).0 != (
        #[trigger] evs.drop_last()[w]).0 by {
            assert(evs.drop_last()[q] == evs[q]);
            assert(evs.drop_last()[w] == evs[w]);
        }
        lemma_map_of_unique_len(evs.drop_last());
        assert forall|q: int| 0 <= q < evs.drop_last().len() implies (
        #[trigger] evs.drop_last()[q]).0 != evs.last().0 by {
            assert(evs.drop_last()[q] == evs[q]);
        }
        lemma_map_of_absent(evs.drop_last(), evs.last().0);
        assert(map_of(evs).dom() =~= map_of(evs.drop_last()).dom().insert(evs.last().0));
    }
}

/// Updating the entry that holds a key rewrites exactly that key's value.
proof fn lemma_map_of_update(evs: Seq<(Seq<char>, Seq<char>)>, i: int, v: Seq<char>)
    requires
        unique_keys(evs),
        0 <= i < evs.len(),
    ensures
        map_of(evs.update(i, (evs[i].0, v))) == map_of(evs).insert(evs[i].0, v),
    decreases evs.len(),
{
    let upd = evs.update(i, (evs[i].0, v));
    if i == evs.len() - 1 {
        assert(upd.drop_last() =~= evs.drop_last());
        assert(upd.last() == (evs[i].0, v));
        assert(map_of(evs).insert(evs[i].0, v) =~= map_of(evs.drop_last()).insert(evs[i].0, v));
    } else {
        assert forall|q: int, w: int|
            0 <= q < w < evs.drop_last().len() implies (#[trigger] evs.drop_last()[q]).0 != (
        #[trigger] evs.drop_last()[w]).0 by {
            assert(evs.drop_last()[q] == evs[q]);
            assert(evs.drop_last()[w] == evs[w]);
        }
        assert(upd.drop_last() =~= evs.drop_last().update(i, (evs[i].0, v)));
        assert(upd.last() == evs.last());
        assert(evs.drop_last()[i] == evs[i]);
        lemma_map_of_update(evs.drop_last(), i, v);
        assert(evs[i].0 != evs.last().0);
        assert(map_of(evs.drop_last()).insert(evs[i].0, v).insert(evs.last().0, evs.last().1)
            =~= map_of(evs.drop_last()).insert(evs.last().0, evs.last().1).insert(evs[i].0, v));
    }
}

impl View for LinkMap {
    type V = Map<Seq<char>, Seq<char>>;

    closed spec fn view(&self) -> Map<Seq<char>, Seq<char>> {
        map_of(entry_views(self.entries@))
    }
}

impl DeepView for LinkMap {
    type V = Map<Seq<char>, Seq<char>>;

    open spec fn deep_view(&self) -> Map<Seq<char>, Seq<char>> {
        self.view()
    }
}

/// The meaning of one link value object: its first `href` entry must hold
/// the text of an absolute URL, which is read in normalized form.
pub open spec fn link_value_spec(v: SpecWire) -> Option<Seq<char>> {
    match v {
        SpecWire::Object(entries) => match spec_lookup(entries, "href"@) {
            Some(SpecWire::Text(s)) => url_normalize(s),
            _ => None,
        },
        _ => None,
    }
}

/// The meaning of decoding a list of wire object entries into a link map:
/// defined only when every value is a well-formed link value.
pub open spec fn links_entries_spec(entries: Seq<(Seq<char>, SpecWire)>) -> Option<
    Map<Seq<char>, Seq<char>>,
>
    decreases entries.len(),
{
    if entries.len() == 0 {
        Some(Map::empty())
    } else {
        match (links_entries_spec(entries.drop_last()), link_value_spec(entries.last().1)) {
            (Some(m), Some(u)) => Some(m.insert(entries.last().0, u)),
            _ => None,
        }
    }
}

/// The meaning of decoding a whole wire value as a link map.
pub open spec fn links_decode_spec(v: SpecWire) -> Option<Map<Seq<char>, Seq<char>>> {
    match v {
        SpecWire::Object(entries) => links_entries_spec(entries),
        _ => None,
    }
}

/// Once one entry of the object is malformed, the whole link map fails.
proof fn lemma_links_entries_prefix_none(entries: Seq<(Seq<char>, SpecWire)>, i: int)
    requires
        0 <= i <= entries.len(),
        links_entries_spec(entries.take(i)) is None,
    ensures
        links_entries_spec(entries) is None,
    decreases entries.len() - i,
{
    if i < entries.len() {
        assert(entries.take(i + 1).drop_last() =~= entries.take(i));
        lemma_links_entries_prefix_none(entries, i + 1);
    } else {
        assert(entries.take(i) =~= entries);
    }
}

impl LinkMap {
    /// True when every stored URL is already in normalized form and every
    /// relation name holds exactly one entry.
    pub closed spec fn wf(&self) -> bool {
        &&& forall|i: int|
            0 <= i < self.entries@.len() ==> url_normalize(
                #[trigger] self.entries@[i].1@,
            ) == Some(self.entries@[i].1@)
        &&& unique_keys(entry_views(self.entries@))
    }

    /// An empty link map.
    pub fn new() -> (r: LinkMap)
        ensures
            r@ == Map::<Seq<char>, Seq<char>>::empty(),
            r.wf(),
    {
        let r = LinkMap { entries: Vec::new() };
        proof {
            assert(entry_views(r.entries@) =~= Seq::<(Seq<char>, Seq<char>)>::empty());
        }
        r
    }

    /// The number of stored entries.
    pub closed spec fn spec_entry_count(&self) -> nat {
        self.entries@.len()
    }

    /// The number of stored entries.
    pub fn entry_count(&self) -> (r: usize)
        ensures
            r == self.spec_entry_count(),
    {
        self.entries.len()
    }

    /// Validates `url` and maps `rel` to its normalized form; reports
    /// `false`, leaving the map unchanged, exactly when `url` is not an
    /// absolute URL.
    pub fn insert_url(&mut self, rel: String, url: &str) -> (ok: bool)
        requires
            old(self).wf(),
        ensures
            final(self).wf(),
            ok == (url_normalize(url@) is Some),
            ok ==> final(self)@ == old(self)@.insert(rel@, url_normalize(url@).unwrap()),
            !ok ==> *final(self) == *old(self),
    {
        match normalize_url(url) {
            Some(u) => {
                self.insert_normalized(rel, u);
                true
            },
            None => false,
        }
    }

    /// Stores an entry whose URL is already normalized, replacing the
    /// entry of an already-present relation in place.
    fn insert_normalized(&mut self, rel: String, url: String)
        requires
            old(self).wf(),
            url_normalize(url@) == Some(url@),
        ensures
            final(self).wf(),
            final(self)@ == old(self)@.insert(rel@, url@),
    {
        let len = self.entries.len();
        let mut i: usize = 0;
        while i < len
            invariant
                *self == *old(self),
                old(self).wf(),
                url_normalize(url@) == Some(url@),
                self.entries@.len() == len,
                0 <= i <= len,
                forall|q: int| 0 <= q < i ==> (#[trigger] self.entries@[q]).0@ != rel@,
            decreases len - i,
        {
            if crate::wire::str_eq(self.entries[i].0.as_str(), rel.as_str()) {
                let ghost before = entry_views(self.entries@);
                self.entries.set(i, (rel, url));
                proof {
                    assert(entry_views(self.entries@) =~= before.update(
                        i as int,
                        (before[i as int].0, url@),
                    ));
                    lemma_map_of_update(before, i as int, url@);
                }
                return ;
            }
            i = i + 1;
        }
        let ghost before = entry_views(self.entries@);
        self.entries.push((rel, url));
        proof {
            assert(entry_views(self.entries@).drop_last() =~= before);
            assert forall|q: int, w: int|
                0 <= q < w < entry_views(self.entries@).len() implies (
            #[trigger] entry_views(self.entries@)[q]).0 != (#[trigger] entry_views(
                self.entries@,
            )[w]).0 by {
                if w < before.len() {
                    assert(before[q] == entry_views(self.entries@)[q]);
                    assert(before[w] == entry_views(self.entries@)[w]);
                } else {
                    assert(entry_views(self.entries@)[w].0 == rel@);
                    assert(self.entries@[q].0@ != rel@);
                }
            }
        }
    }

    /// The URL mapped to `rel`, if any.
    pub fn get<'a>(&'a self, rel: &str) -> (r: Option<&'a String>)
        ensures
            match r {
                Some(u) => self@.contains_key(rel@) && self@[rel@] == u@,
                None => !self@.contains_key(rel@),
            },
    {
        let ghost evs = entry_views(self.entries@);
        let len = self.entries.len();
        let mut i: usize = len;
        proof {
            assert(evs.take(len as int) =~= evs);
        }
        while i > 0
            invariant
                self.entries@.len() == len,
                0 <= i <= len,
                evs == entry_views(self.entries@),
                map_of(evs).contains_key(rel@) == map_of(evs.take(i as int)).contains_key(rel@),
                map_of(evs).contains_key(rel@) ==> map_of(evs)[rel@] == map_of(
                    evs.take(i as int),
                )[rel@],
            decreases i,
        {
            proof {
                assert(evs.take(i as int).drop_last() =~= evs.take(i - 1));
                assert(evs.take(i as int).last() == evs[i - 1]);
            }
            if crate::wire::str_eq(self.entries[i - 1].0.as_str(), rel) {
                return Some(&self.entries[i - 1].1);
            }
            i = i - 1;
        }
        proof {
            assert(evs.take(0) =~= Seq::<(Seq<char>, Seq<char>)>::empty());
        }
        None
    }

    /// Decodes a wire object of `{"<rel>": {"href": "<url>"}}` entries.
    /// Succeeds exactly when the value is an object and every entry holds
    /// an `href` with a valid absolute URL; any other shape is the link
    /// error. A relation name the wire repeats is stored once, its later
    /// URL winning.
    pub fn decode(v: &WireValue) -> (r: Result<LinkMap, Error>)
        ensures
            match r {
                Ok(m) => links_decode_spec(v@) == Some(m@) && m.wf(),
                Err(e) => links_decode_spec(v@) is None && e matches Error::Link(_),
            },
    {
        let fields = match v {
            WireValue::Object(fields) => fields,
            _ => { return Err(Error::Link("the link map is not an object".to_owned())) },
        };
        let ghost entries = obj_entries(fields@);
        let len = fields.len();
        let mut out = LinkMap::new();
        let mut i: usize = 0;
        proof {
            lemma_obj_entries(fields@);
            assert(entries.take(0) =~= Seq::<(Seq<char>, SpecWire)>::empty());
        }
        while i < len
            invariant
                fields@.len() == len,
                0 <= i <= len,
                entries == obj_entries(fields@),
                v@ == SpecWire::Object(entries),
                entries.len() == len,
                forall|k: int|
                    0 <= k < len ==> #[trigger] entries[k] == (
                        fields@[k].0@,
                        crate::wire::wire_view(fields@[k].1),
                    ),
                out.wf(),
                links_entries_spec(entries.take(i as int)) == Some(out@),
            decreases len - i,
        {
            proof {
                assert(entries.take(i + 1).drop_last() =~= entries.take(i as int));
                assert(entries.take(i + 1).last() == entries[i as int]);
            }
            let value = &fields[i].1;
            let inner = match value {
                WireValue::Object(inner) => inner,
                _ => {
                    proof {
                        lemma_links_entries_prefix_none(entries, i + 1);
                    }
                    return Err(Error::Link("a link value is not an object".to_owned()));
                },
            };
            let href = match crate::wire::lookup_entry(inner, "href") {
                Some(href) => href,
                None => {
                    proof {
                        lemma_links_entries_prefix_none(entries, i + 1);
                    }
                    return Err(Error::Link("a link value has no href".to_owned()));
                },
            };
            let text = match href {
                WireValue::Text(text) => text,
                _ => {
                    proof {
                        lemma_links_entries_prefix_none(entries, i + 1);
                    }
                    return Err(Error::Link("an href does not hold text".to_owned()));
                },
            };
            let url = match normalize_url(text.as_str()) {
                Some(url) => url,
                None => {
                    proof {
                        lemma_links_entries_prefix_none(entries, i + 1);
                    }
                    return Err(Error::Link("an href is not an absolute URL".to_owned()));
                },
            };
            let rel = fields[i].0.clone();
            out.insert_normalized(rel, url);
            i = i + 1;
        }
        proof {
            assert(entries.take(len as int) =~= entries);
        }
        Ok(out)
    }

    /// Encodes the map back to its wire shape, wrapping every URL as
    /// `{"href": "<url>"}`. Encoding never fails, and for a well-formed
    /// map it writes a well-formed mapping: one wire entry per stored
    /// pair, with pairwise-distinct keys, each carrying exactly the URL
    /// the map holds for it.
    pub fn encode(&self) -> (r: WireValue)
        ensures
            r@ == SpecWire::Object(enc_entries(entry_views_of(*self))),
            entry_views_of(*self).len() == self.spec_entry_count(),
            self.wf() ==> unique_keys(entry_views_of(*self)),
            self.wf() ==> self@.dom().finite() && self@.dom().len() == self.spec_entry_count(),
            self.wf() ==> forall|i: int|
                0 <= i < entry_views_of(*self).len() ==> self@.contains_key(
                    (#[trigger] entry_views_of(*self)[i]).0,
                ) && self@[entry_views_of(*self)[i].0] == entry_views_of(*self)[i].1,
    {
        proof {
            if self.wf() {
                lemma_map_of_unique_len(entry_views(self.entries@));
                assert forall|i: int| 0 <= i < entry_views(self.entries@).len() implies map_of(
                    entry_views(self.entries@),
                ).contains_key((#[trigger] entry_views(self.entries@)[i]).0) && map_of(
                    entry_views(self.entries@),
                )[entry_views(self.entries@)[i].0] == entry_views(self.entries@)[i].1 by {
                    lemma_map_of_unique_at(entry_views(self.entries@), i);
                }
            }
        }
        let len = self.entries.len();
        let mut out: Vec<(String, WireValue)> = Vec::new();
        let mut i: usize = 0;
        while i < len
            invariant
                self.entries@.len() == len,
                0 <= i <= len,
                obj_entries(out@) =~= enc_entries(entry_views(self.entries@).take(i as int)),
            decreases len - i,
        {
            let mut inner: Vec<(String, WireValue)> = Vec::new();
            inner.push(("href".to_owned(), WireValue::Text(self.entries[i].1.clone())));
            let ghost inner_snapshot = inner@;
            let ghost out_before = out@;
            out.push((self.entries[i].0.clone(), WireValue::Object(inner)));
            proof {
                lemma_obj_entries(out_before);
                lemma_obj_entries(inner_snapshot);
                assert(obj_entries(inner_snapshot) =~= seq![
                    ("href"@, SpecWire::Text(self.entries@[i as int].1@)),
                ]);
                lemma_obj_entries(out@);
                assert(out@.len() == i + 1);
                assert(out@[i as int].0@ == self.entries@[i as int].0@);
                assert(wire_view(out@[i as int].1) == SpecWire::Object(
                    obj_entries(inner_snapshot),
                ));
                assert(obj_entries(out@)[i as int] == enc_entries(
                    entry_views(self.entries@).take(i + 1),
                )[i as int]);
                assert forall|k: int| 0 <= k < i implies obj_entries(out@)[k] == enc_entries(
                    entry_views(self.entries@).take(i + 1),
                )[k] by {
                    assert(obj_entries(out@)[k] == obj_entries(out_before)[k]);
                    assert(obj_entries(out_before)[k] == enc_entries(
                        entry_views(self.entries@).take(i as int),
                    )[k]);
                }
                assert(obj_entries(out@) =~= enc_entries(
                    entry_views(self.entries@).take(i + 1),
                ));
            }
            i = i + 1;
        }
        proof {
            assert(entry_views(self.entries@).take(len as int) =~= entry_views(self.entries@));
        }
        WireValue::Object(out)
    }
}

/// The entry list a link map encodes from.
pub closed spec fn entry_views_of(m: LinkMap) -> Seq<(Seq<char>, Seq<char>)> {
    entry_views(m.entries@)
}

/// The wire shape of an encoded entry list: each URL wrapped as an object
/// holding it under `href`.
pub open spec fn enc_entries(entries: Seq<(Seq<char>, Seq<char>)>) -> Seq<(Seq<char>, SpecWire)> {
    Seq::new(
        entries.len(),
        |i: int| (entries[i].0, SpecWire::Object(seq![("href"@, SpecWire::Text(entries[i].1))])),
    )
}

/// Decoding an encoded entry list reads back exactly the map the list
/// stands for, provided every stored URL is in normalized form.
proof fn lemma_links_entries_of_enc(entries: Seq<(Seq<char>, Seq<char>)>)
    requires
        forall|i: int|
            0 <= i < entries.len() ==> url_normalize(#[trigger] entries[i].1) == Some(
                entries[i].1,
            ),
    ensures
        links_entries_spec(enc_entries(entries)) == Some(map_of(entries)),
    decreases entries.len(),
{
    if entries.len() > 0 {
        assert(enc_entries(entries).drop_last() =~= enc_entries(entries.drop_last()));
        lemma_links_entries_of_enc(entries.drop_last());
        let last = enc_entries(entries).last();
        assert(spec_lookup(seq![("href"@, SpecWire::Text(entries.last().1))], "href"@) == Some(
            SpecWire::Text(entries.last().1),
        ));
    }
}

/// The link round-trip law: decoding the encoding of any well-formed link
/// map yields a value equal to the original map.
pub proof fn lemma_links_round_trip(m: LinkMap)
    requires
        m.wf(),
    ensures
        links_decode_spec(SpecWire::Object(enc_entries(entry_views_of(m)))) == Some(m@),
{
    lemma_links_entries_of_enc(entry_views_of(m));
}

} // verus!
