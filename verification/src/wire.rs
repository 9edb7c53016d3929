//! The in-memory model of a decoded wire document.
//!
//! A `WireValue` is the tree a general-purpose JSON reader hands to this
//! layer: nulls, booleans, numbers (kept as their decimal text, so nothing
//! is lost before a codec decides how to read them), strings, arrays and
//! objects. Object entries keep their wire order.

use vstd::prelude::*;

use crate::digits::{all_digits, digits_val};
use crate::error::Error;

verus! {

/// One JSON value as delivered by the transport layer.
#[derive(Debug)]
pub enum WireValue {
    /// The JSON null value.
    Null,
    /// A JSON boolean.
    Bool(bool),
    /// A JSON number, kept as the decimal text that stood on the wire.
    Number(String),
    /// A JSON string.
    Text(String),
    /// A JSON array.
    Array(Vec<WireValue>),
    /// A JSON object; entries keep their wire order.
    Object(Vec<(String, WireValue)>),
}

/// The mathematical shape of a `WireValue`.
pub enum SpecWire {
    Null,
    Bool(bool),
    Number(Seq<char>),
    Text(Seq<char>),
    Array(Seq<SpecWire>),
    Object(Seq<(Seq<char>, SpecWire)>),
}

/// Abstracts a `WireValue` into its mathematical shape.
pub open spec fn wire_view(v: WireValue) -> SpecWire
    decreases v,
{
    match v {
        WireValue::Null => SpecWire::Null,
        WireValue::Bool(b) => SpecWire::Bool(b),
        WireValue::Number(s) => SpecWire::Number(s@),
        WireValue::Text(s) => SpecWire::Text(s@),
        WireValue::Array(items) => SpecWire::Array(wire_views(items@)),
        WireValue::Object(fields) => SpecWire::Object(obj_entries(fields@)),
    }
}

/// Abstracts every element of an array in order.
pub open spec fn wire_views(items: Seq<WireValue>) -> Seq<SpecWire>
    decreases items,
{
    if items.len() == 0 {
        Seq::empty()
    } else {
        wire_views(items.drop_last()).push(wire_view(items.last()))
    }
}

/// The object entries of `fields`, with keys and values abstracted.
pub open spec fn obj_entries(fields: Seq<(String, WireValue)>) -> Seq<(Seq<char>, SpecWire)>
    decreases fields,
{
    if fields.len() == 0 {
        Seq::empty()
    } else {
        obj_entries(fields.drop_last()).push(
            (fields.last().0@, wire_view(fields.last().1)),
        )
    }
}

/// Element-wise reading of `wire_views`.
pub proof fn lemma_wire_views(items: Seq<WireValue>)
    ensures
        wire_views(items).len() == items.len(),
        forall|i: int|
            0 <= i < items.len() ==> #[trigger] wire_views(items)[i] == wire_view(items[i]),
    decreases items,
{
    if items.len() > 0 {
        lemma_wire_views(items.drop_last());
    }
}

/// Element-wise reading of `obj_entries`.
pub proof fn lemma_obj_entries(fields: Seq<(String, WireValue)>)
    ensures
        obj_entries(fields).len() == fields.len(),
        forall|i: int|
            0 <= i < fields.len() ==> #[trigger] obj_entries(fields)[i] == (
                fields[i].0@,
                wire_view(fields[i].1),
            ),
    decreases fields,
{
    if fields.len() > 0 {
        lemma_obj_entries(fields.drop_last());
    }
}

impl View for WireValue {
    type V = SpecWire;

    open spec fn view(&self) -> SpecWire {
        wire_view(*self)
    }
}

/// The value of the first object entry named `key`, if any.
pub open spec fn spec_lookup(entries: Seq<(Seq<char>, SpecWire)>, key: Seq<char>) -> Option<
    SpecWire,
>
    decreases entries.len(),
{
    if entries.len() == 0 {
        None
    } else if entries[0].0 == key {
        Some(entries[0].1)
    } else {
        spec_lookup(entries.drop_first(), key)
    }
}

/// The entry named `key` of an object value; `None` for any other shape.
pub open spec fn spec_get(v: SpecWire, key: Seq<char>) -> Option<SpecWire> {
    match v {
        SpecWire::Object(entries) => spec_lookup(entries, key),
        _ => None,
    }
}

/// Compares two string slices by their characters.
pub fn str_eq(a: &str, b: &str) -> (r: bool)
    ensures
        r == (a@ == b@),
{
    let sa = a.to_owned();
    let sb = b.to_owned();
    sa == sb
}

/// Finds the first object entry named `key`.
pub fn lookup_entry<'a>(fields: &'a Vec<(String, WireValue)>, key: &str) -> (r: Option<
    &'a WireValue,
>)
    ensures
        match r {
            Some(w) => spec_lookup(obj_entries(fields@), key@) == Some(w@),
            None => spec_lookup(obj_entries(fields@), key@) is None,
        },
{
    let len = fields.len();
    let mut i: usize = 0;
    proof {
        assert(obj_entries(fields@).skip(0) =~= obj_entries(fields@));
    }
    while i < len
        invariant
            fields@.len() == len,
            0 <= i <= len,
            spec_lookup(obj_entries(fields@), key@) == spec_lookup(
                obj_entries(fields@).skip(i as int),
                key@,
            ),
        decreases len - i,
    {
        proof {
            lemma_obj_entries(fields@);
            assert(obj_entries(fields@).skip(i as int).drop_first() =~= obj_entries(
                fields@,
            ).skip(i + 1));
            assert(obj_entries(fields@).skip(i as int)[0] == obj_entries(fields@)[i as int]);
        }
        if str_eq(fields[i].0.as_str(), key) {
            return Some(&fields[i].1);
        }
        i = i + 1;
    }
    proof {
        lemma_obj_entries(fields@);
        assert(obj_entries(fields@).skip(len as int) =~= Seq::<(Seq<char>, SpecWire)>::empty());
    }
    None
}

/// Finds the field named `key` of an object value.
pub fn get_field<'a>(v: &'a WireValue, key: &str) -> (r: Option<&'a WireValue>)
    ensures
        match r {
            Some(w) => spec_get(v@, key@) == Some(w@),
            None => spec_get(v@, key@) is None,
        },
{
    match v {
        WireValue::Object(fields) => lookup_entry(fields, key),
        _ => None,
    }
}

/// A type that can be decoded from one wire value.
///
/// `decode_spec` is the mathematical meaning of the decode; `decode_wire`
/// is the executable decoder, which succeeds exactly where the meaning is
/// defined and returns the abstraction of the meaning's value.
pub trait WireDecode: Sized + DeepView {
    /// What this type's decode means on an abstract wire value.
    spec fn decode_spec(v: SpecWire) -> Option<Self::V>;

    /// Decodes one wire value.
    fn decode_wire(v: &WireValue) -> (r: Result<Self, Error>)
        ensures
            match r {
                Ok(x) => Self::decode_spec(v@) == Some(x.deep_view()),
                Err(_) => Self::decode_spec(v@) is None,
            },
    ;
}

impl WireDecode for bool {
    open spec fn decode_spec(v: SpecWire) -> Option<bool> {
        match v {
            SpecWire::Bool(b) => Some(b),
            _ => None,
        }
    }

    fn decode_wire(v: &WireValue) -> (r: Result<Self, Error>) {
        match v {
            WireValue::Bool(b) => Ok(*b),
            _ => Err(Error::PaginatedInner),
        }
    }
}

impl WireDecode for String {
    open spec fn decode_spec(v: SpecWire) -> Option<Seq<char>> {
        match v {
            SpecWire::Text(s) => Some(s),
            _ => None,
        }
    }

    fn decode_wire(v: &WireValue) -> (r: Result<Self, Error>) {
        match v {
            WireValue::Text(s) => Ok(s.clone()),
            _ => Err(Error::PaginatedInner),
        }
    }
}

impl WireDecode for u32 {
    open spec fn decode_spec(v: SpecWire) -> Option<u32> {
        match v {
            SpecWire::Number(s) => if all_digits(s) && s.len() > 0 && digits_val(s) <= u32::MAX {
                Some(digits_val(s) as u32)
            } else {
                None
            },
            _ => None,
        }
    }

    fn decode_wire(v: &WireValue) -> (r: Result<Self, Error>) {
        match v {
            WireValue::Number(s) => {
                if crate::digits::is_all_digits(s.as_str()) {
                    match crate::digits::parse_u32_digits(s.as_str()) {
                        Some(n) => Ok(n),
                        None => Err(Error::PaginatedInner),
                    }
                } else {
                    Err(Error::PaginatedInner)
                }
            },
            _ => Err(Error::PaginatedInner),
        }
    }
}

impl WireDecode for u16 {
    open spec fn decode_spec(v: SpecWire) -> Option<u16> {
        match v {
            SpecWire::Number(s) => if all_digits(s) && s.len() > 0 && digits_val(s) <= u16::MAX {
                Some(digits_val(s) as u16)
            } else {
                None
            },
            _ => None,
        }
    }

    fn decode_wire(v: &WireValue) -> (r: Result<Self, Error>) {
        match v {
            WireValue::Number(s) => {
                if crate::digits::is_all_digits(s.as_str()) {
                    match crate::digits::parse_u64_digits(s.as_str()) {
                        Some(n) => if n <= u16::MAX as u64 {
                            Ok(n as u16)
                        } else {
                            Err(Error::PaginatedInner)
                        },
                        None => Err(Error::PaginatedInner),
                    }
                } else {
                    Err(Error::PaginatedInner)
                }
            },
            _ => Err(Error::PaginatedInner),
        }
    }
}

impl WireDecode for u8 {
    open spec fn decode_spec(v: SpecWire) -> Option<u8> {
        match v {
            SpecWire::Number(s) => if all_digits(s) && s.len() > 0 && digits_val(s) <= u8::MAX {
                Some(digits_val(s) as u8)
            } else {
                None
            },
            _ => None,
        }
    }

    fn decode_wire(v: &WireValue) -> (r: Result<Self, Error>) {
        match v {
            WireValue::Number(s) => {
                if crate::digits::is_all_digits(s.as_str()) {
                    match crate::digits::parse_u64_digits(s.as_str()) {
                        Some(n) => if n <= u8::MAX as u64 {
                            Ok(n as u8)
                        } else {
                            Err(Error::PaginatedInner)
                        },
                        None => Err(Error::PaginatedInner),
                    }
                } else {
                    Err(Error::PaginatedInner)
                }
            },
            _ => Err(Error::PaginatedInner),
        }
    }
}

/// The signed reading of a number's decimal text: an optional minus sign
/// before the digits.
pub open spec fn signed_val(s: Seq<char>) -> Option<int> {
    if s.len() > 0 && s[0] == '-' {
        if all_digits(s.drop_first()) && s.drop_first().len() > 0 {
            Some(-(digits_val(s.drop_first()) as int))
        } else {
            None
        }
    } else if all_digits(s) && s.len() > 0 {
        Some(digits_val(s) as int)
    } else {
        None
    }
}

impl WireDecode for i32 {
    open spec fn decode_spec(v: SpecWire) -> Option<i32> {
        match v {
            SpecWire::Number(s) => match signed_val(s) {
                Some(n) => if i32::MIN <= n <= i32::MAX {
                    Some(n as i32)
                } else {
                    None
                },
                None => None,
            },
            _ => None,
        }
    }

    fn decode_wire(v: &WireValue) -> (r: Result<Self, Error>) {
        let s = match v {
            WireValue::Number(s) => s,
            _ => { return Err(Error::PaginatedInner) },
        };
        let text = s.as_str();
        let len = text.unicode_len();
        if len == 0 {
            return Err(Error::PaginatedInner);
        }
        let neg = text.get_char(0) == '-';
        let digits = if neg {
            text.substring_char(1, len)
        } else {
            text
        };
        proof {
            if neg {
                assert(digits@ =~= s@.drop_first());
            } else {
                assert(digits@ =~= s@);
            }
        }
        if !crate::digits::is_all_digits(digits) {
            return Err(Error::PaginatedInner);
        }
        match crate::digits::parse_u64_digits(digits) {
            Some(n) => {
                if neg {
                    if n <= 0x8000_0000u64 {
                        Ok((-(n as i64)) as i32)
                    } else {
                        Err(Error::PaginatedInner)
                    }
                } else {
                    if n <= i32::MAX as u64 {
                        Ok(n as i32)
                    } else {
                        Err(Error::PaginatedInner)
                    }
                }
            },
            None => Err(Error::PaginatedInner),
        }
    }
}

/// The meaning of a required record field: the entry must be present and
/// decode as `T`.
pub open spec fn field_spec<T: WireDecode>(v: SpecWire, key: Seq<char>) -> Option<T::V> {
    match spec_get(v, key) {
        Some(w) => T::decode_spec(w),
        None => None,
    }
}

/// Decodes a required record field; a missing entry is the
/// paginated-item error, a malformed one the payload type's own error.
pub fn decode_field<T: WireDecode>(v: &WireValue, key: &str) -> (r: Result<T, Error>)
    ensures
        match r {
            Ok(x) => field_spec::<T>(v@, key@) == Some(x.deep_view()),
            Err(_) => field_spec::<T>(v@, key@) is None,
        },
{
    match get_field(v, key) {
        Some(w) => T::decode_wire(w),
        None => Err(Error::PaginatedInner),
    }
}

/// The meaning of an optional record field: an absent or null entry reads
/// as nothing; a present one must decode as `T`.
pub open spec fn opt_field_spec<T: WireDecode>(v: SpecWire, key: Seq<char>) -> Option<
    Option<T::V>,
> {
    match spec_get(v, key) {
        None => Some(None),
        Some(SpecWire::Null) => Some(None),
        Some(w) => match T::decode_spec(w) {
            Some(x) => Some(Some(x)),
            None => None,
        },
    }
}

/// Decodes an optional record field, reading an absent or null entry as
/// nothing.
pub fn decode_opt_field<T: WireDecode>(v: &WireValue, key: &str) -> (r: Result<
    Option<T>,
    Error,
>)
    ensures
        match r {
            Ok(x) => opt_field_spec::<T>(v@, key@) == Some(x.deep_view()),
            Err(_) => opt_field_spec::<T>(v@, key@) is None,
        },
{
    match get_field(v, key) {
        None => Ok(None),
        Some(w) => match w {
            WireValue::Null => Ok(None),
            _ => match T::decode_wire(w) {
                Ok(x) => Ok(Some(x)),
                Err(e) => Err(e),
            },
        },
    }
}

/// The strict meaning of decoding a whole array: defined only when every
/// element decodes, in which case the elements appear in wire order.
pub open spec fn decode_seq_spec<T: WireDecode>(items: Seq<SpecWire>) -> Option<Seq<T::V>>
    decreases items.len(),
{
    if items.len() == 0 {
        Some(Seq::empty())
    } else {
        match (decode_seq_spec::<T>(items.drop_last()), T::decode_spec(items.last())) {
            (Some(rest), Some(x)) => Some(rest.push(x)),
            _ => None,
        }
    }
}

impl<T: WireDecode> WireDecode for Vec<T> {
    open spec fn decode_spec(v: SpecWire) -> Option<Seq<T::V>> {
        match v {
            SpecWire::Array(items) => decode_seq_spec::<T>(items),
            _ => None,
        }
    }

    /// Strict array decode: one bad element fails the array, with the
    /// paginated-item error.
    fn decode_wire(v: &WireValue) -> (r: Result<Self, Error>) {
        let items = match v {
            WireValue::Array(items) => items,
            _ => { return Err(Error::PaginatedInner) },
        };
        proof {
            assert(v@ == SpecWire::Array(wire_views(items@)));
        }
        let ghost entries = wire_views(items@);
        let len = items.len();
        let mut out: Vec<T> = Vec::new();
        let mut i: usize = 0;
        proof {
            lemma_wire_views(items@);
        }
        while i < len
            invariant
                items@.len() == len,
                0 <= i <= len,
                entries == wire_views(items@),
                v@ == SpecWire::Array(entries),
                entries.len() == len,
                forall|k: int|
                    0 <= k < len ==> #[trigger] entries[k] == wire_view(items@[k]),
                decode_seq_spec::<T>(entries.take(i as int)) == Some(out.deep_view()),
            decreases len - i,
        {
            proof {
                assert(entries.take(i + 1).drop_last() =~= entries.take(i as int));
                assert(entries.take(i + 1).last() == entries[i as int]);
            }
            match T::decode_wire(&items[i]) {
                Ok(x) => {
                    out.push(x);
                },
                Err(_) => {
                    proof {
                        lemma_decode_seq_spec_prefix_none::<T>(entries, i + 1);
                    }
                    return Err(Error::PaginatedInner);
                },
            }
            proof {
                assert(out.deep_view() =~= decode_seq_spec::<T>(
                    entries.take(i + 1),
                ).unwrap());
            }
            i = i + 1;
        }
        proof {
            assert(entries.take(len as int) =~= entries);
        }
        Ok(out)
    }
}

/// Once a prefix of the array fails to decode, the whole array fails.
pub proof fn lemma_decode_seq_spec_prefix_none<T: WireDecode>(items: Seq<SpecWire>, i: int)
    requires
        0 <= i <= items.len(),
        decode_seq_spec::<T>(items.take(i)) is None,
    ensures
        decode_seq_spec::<T>(items) is None,
    decreases items.len() - i,
{
    if i < items.len() {
        assert(items.take(i + 1).drop_last() =~= items.take(i));
        lemma_decode_seq_spec_prefix_none::<T>(items, i + 1);
    } else {
        assert(items.take(i) =~= items);
    }
}

/// The lenient meaning of decoding a whole array: elements that fail to
/// decode are dropped, and the survivors keep their relative wire order.
pub open spec fn flatten_seq_spec<T: WireDecode>(items: Seq<SpecWire>) -> Seq<T::V>
    decreases items.len(),
{
    if items.len() == 0 {
        Seq::empty()
    } else {
        let rest = flatten_seq_spec::<T>(items.drop_last());
        match T::decode_spec(items.last()) {
            Some(x) => rest.push(x),
            None => rest,
        }
    }
}

} // verus!
