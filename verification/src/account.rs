//! Account-side access-control values: named CIDR ranges.

use vstd::prelude::*;

use crate::digits::{
    all_digits, char_pos, digits_val, find_char_from, is_all_digits, lemma_char_pos_at,
    parse_u64_digits,
};
use crate::error::Error;
use crate::wire::{spec_get, SpecWire, WireDecode, WireValue};

verus! {

/// The bits an address keeps when masked to a prefix of `len` leading
/// bits.
pub open spec fn spec_mask(len: u8) -> u32
    recommends
        len <= 32,
{
    if len == 0 {
        0u32
    } else {
        (0xFFFF_FFFFu32 << (32 - len) as u32) as u32
    }
}

/// Membership in a CIDR range: the candidate and the base address agree
/// on the prefix bits.
pub open spec fn cidr_contains_spec(base: u32, len: u8, addr: u32) -> bool {
    addr & spec_mask(len) == base & spec_mask(len)
}

/// An IPv4 network prefix in canonical form: a base address whose bits
/// beyond the prefix length are all zero.
#[derive(Debug, Clone, Copy, PartialEq, Eq, Hash, Structural)]
pub struct Ipv4Cidr {
    addr: u32,
    prefix_len: u8,
}

impl DeepView for Ipv4Cidr {
    type V = Ipv4Cidr;

    open spec fn deep_view(&self) -> Ipv4Cidr {
        *self
    }
}

/// True when `s` writes one address octet: one to three digits, no
/// leading zero, value at most 255.
pub open spec fn octet_ok(s: Seq<char>) -> bool {
    1 <= s.len() <= 3 && all_digits(s) && digits_val(s) <= 255 && (s.len() > 1 ==> s[0] != '0')
}

/// True when `s` writes a prefix length: one or two digits, value at most
/// 32.
pub open spec fn prefix_ok(s: Seq<char>) -> bool {
    1 <= s.len() <= 2 && all_digits(s) && digits_val(s) <= 32
}

/// The (address, prefix-length) pair written in dotted-quad-slash text,
/// if the text is well formed and the address has no bits beyond the
/// prefix.
pub open spec fn cidr_parse_spec(s: Seq<char>) -> Option<(u32, u8)> {
    let p1 = char_pos(s, '.');
    let a = s.take(p1);
    let r1 = s.skip(p1 + 1);
    let p2 = char_pos(r1, '.');
    let b = r1.take(p2);
    let r2 = r1.skip(p2 + 1);
    let p3 = char_pos(r2, '.');
    let c = r2.take(p3);
    let r3 = r2.skip(p3 + 1);
    let p4 = char_pos(r3, '/');
    let d = r3.take(p4);
    let p = r3.skip(p4 + 1);
    if p1 < s.len() && p2 < r1.len() && p3 < r2.len() && p4 < r3.len() && octet_ok(a) && octet_ok(
        b,
    ) && octet_ok(c) && octet_ok(d) && prefix_ok(p) {
        let addr = (digits_val(a) * 0x100_0000 + digits_val(b) * 0x1_0000 + digits_val(c) * 0x100
            + digits_val(d)) as u32;
        let len = digits_val(p) as u8;
        if addr & spec_mask(len) == addr {
            Some((addr, len))
        } else {
            None
        }
    } else {
        None
    }
}

/// Reads one octet written as text.
fn parse_octet(s: &str) -> (r: Option<u8>)
    ensures
        match r {
            Some(n) => octet_ok(s@) && n == digits_val(s@),
            None => !octet_ok(s@),
        },
{
    let len = s.unicode_len();
    if len == 0 || len > 3 {
        return None;
    }
    if len > 1 && s.get_char(0) == '0' {
        return None;
    }
    if !is_all_digits(s) {
        return None;
    }
    match parse_u64_digits(s) {
        Some(n) => if n <= 255 {
            Some(n as u8)
        } else {
            None
        },
        None => None,
    }
}

/// Reads a prefix length written as text.
fn parse_prefix_len(s: &str) -> (r: Option<u8>)
    ensures
        match r {
            Some(n) => prefix_ok(s@) && n == digits_val(s@),
            None => !prefix_ok(s@),
        },
{
    let len = s.unicode_len();
    if len == 0 || len > 2 {
        return None;
    }
    if !is_all_digits(s) {
        return None;
    }
    match parse_u64_digits(s) {
        Some(n) => if n <= 32 {
            Some(n as u8)
        } else {
            None
        },
        None => None,
    }
}

impl Ipv4Cidr {
    /// The range's base address, as the 32-bit big-endian value of the
    /// dotted quad.
    pub closed spec fn spec_addr(&self) -> u32 {
        self.addr
    }

    /// The range's prefix length.
    pub closed spec fn spec_prefix_len(&self) -> u8 {
        self.prefix_len
    }

    /// Canonical form: the prefix length fits an address and the base
    /// address carries no bits beyond it.
    pub open spec fn wf(&self) -> bool {
        self.spec_prefix_len() <= 32 && self.spec_addr() & spec_mask(self.spec_prefix_len())
            == self.spec_addr()
    }

    /// Builds a range from a base address and prefix length; fails with
    /// the CIDR format error exactly when the prefix length exceeds 32 or
    /// the address has bits beyond it.
    pub fn new(addr: u32, prefix_len: u8) -> (r: Result<Ipv4Cidr, Error>)
        ensures
            match r {
                Ok(c) => prefix_len <= 32 && (addr & spec_mask(prefix_len)) == addr && c.wf()
                    && c.spec_addr() == addr && c.spec_prefix_len() == prefix_len,
                Err(e) => (prefix_len > 32 || (addr & spec_mask(prefix_len)) != addr) && e
                    == Error::CidrFormat,
            },
    {
        if prefix_len > 32 {
            return Err(Error::CidrFormat);
        }
        let mask = mask_exec(prefix_len);
        if addr & mask != addr {
            return Err(Error::CidrFormat);
        }
        Ok(Ipv4Cidr { addr, prefix_len })
    }

    /// The range's base address.
    pub fn first_address(&self) -> (r: u32)
        ensures
            r == self.spec_addr(),
    {
        self.addr
    }

    /// The range's prefix length.
    pub fn network_length(&self) -> (r: u8)
        ensures
            r == self.spec_prefix_len(),
    {
        self.prefix_len
    }

    /// True exactly when `addr`, masked to the range's prefix, matches
    /// the range's base address masked the same way.
    pub fn contains(&self, addr: u32) -> (r: bool)
        requires
            self.wf(),
        ensures
            r == cidr_contains_spec(self.spec_addr(), self.spec_prefix_len(), addr),
    {
        let mask = mask_exec(self.prefix_len);
        addr & mask == self.addr & mask
    }

    /// Decodes dotted-quad-slash text such as `192.168.1.96/28`; any text
    /// off that shape, or an address with bits beyond the prefix, is the
    /// CIDR format error.
    pub fn parse(s: &str) -> (r: Result<Ipv4Cidr, Error>)
        ensures
            match r {
                Ok(c) => cidr_parse_spec(s@) == Some((c.spec_addr(), c.spec_prefix_len()))
                    && c.wf(),
                Err(e) => cidr_parse_spec(s@) is None && e == Error::CidrFormat,
            },
    {
        let len = s.unicode_len();
        let p1 = find_char_from(s, 0, '.');
        proof {
            lemma_char_pos_at(s@, '.', p1 as int);
        }
        if p1 == len {
            return Err(Error::CidrFormat);
        }
        let ghost r1 = s@.skip(p1 + 1);
        let p2 = find_char_from(s, p1 + 1, '.');
        proof {
            assert forall|j: int| 0 <= j < p2 - (p1 + 1) implies r1[j] != '.' by {
                assert(s@[p1 + 1 + j] != '.');
            }
            lemma_char_pos_at(r1, '.', p2 - (p1 + 1));
        }
        if p2 == len {
            return Err(Error::CidrFormat);
        }
        let ghost r2 = r1.skip((p2 - p1) as int);
        proof {
            assert(r2 =~= s@.skip(p2 + 1));
        }
        let p3 = find_char_from(s, p2 + 1, '.');
        proof {
            assert forall|j: int| 0 <= j < p3 - (p2 + 1) implies r2[j] != '.' by {
                assert(s@[p2 + 1 + j] != '.');
            }
            lemma_char_pos_at(r2, '.', p3 - (p2 + 1));
        }
        if p3 == len {
            return Err(Error::CidrFormat);
        }
        let ghost r3 = r2.skip((p3 - p2) as int);
        proof {
            assert(r3 =~= s@.skip(p3 + 1));
        }
        let p4 = find_char_from(s, p3 + 1, '/');
        proof {
            assert forall|j: int| 0 <= j < p4 - (p3 + 1) implies r3[j] != '/' by {
                assert(s@[p3 + 1 + j] != '/');
            }
            lemma_char_pos_at(r3, '/', p4 - (p3 + 1));
        }
        if p4 == len {
            return Err(Error::CidrFormat);
        }
        let a_str = s.substring_char(0, p1);
        let b_str = s.substring_char(p1 + 1, p2);
        let c_str = s.substring_char(p2 + 1, p3);
        let d_str = s.substring_char(p3 + 1, p4);
        let p_str = s.substring_char(p4 + 1, len);
        proof {
            assert(a_str@ =~= s@.take(char_pos(s@, '.')));
            assert(b_str@ =~= r1.take(char_pos(r1, '.')));
            assert(c_str@ =~= r2.take(char_pos(r2, '.')));
            assert(d_str@ =~= r3.take(char_pos(r3, '/')));
            assert(p_str@ =~= r3.skip(char_pos(r3, '/') + 1));
        }
        let a = match parse_octet(a_str) {
            Some(a) => a,
            None => { return Err(Error::CidrFormat) },
        };
        let b = match parse_octet(b_str) {
            Some(b) => b,
            None => { return Err(Error::CidrFormat) },
        };
        let c = match parse_octet(c_str) {
            Some(c) => c,
            None => { return Err(Error::CidrFormat) },
        };
        let d = match parse_octet(d_str) {
            Some(d) => d,
            None => { return Err(Error::CidrFormat) },
        };
        let plen = match parse_prefix_len(p_str) {
            Some(plen) => plen,
            None => { return Err(Error::CidrFormat) },
        };
        let addr = (a as u32) * 0x100_0000 + (b as u32) * 0x1_0000 + (c as u32) * 0x100 + (
        d as u32);
        let mask = mask_exec(plen);
        if addr & mask != addr {
            return Err(Error::CidrFormat);
        }
        Ok(Ipv4Cidr { addr, prefix_len: plen })
    }
}

/// Computes the prefix mask.
fn mask_exec(len: u8) -> (r: u32)
    requires
        len <= 32,
    ensures
        r == spec_mask(len),
{
    if len == 0 {
        0
    } else {
        0xFFFF_FFFFu32 << (32 - len) as u32
    }
}

/// A `/32` range holds exactly its own base address.
pub proof fn lemma_single_address_range(base: u32, addr: u32)
    ensures
        cidr_contains_spec(base, 32, addr) == (addr == base),
{
    assert((addr & (0xFFFF_FFFFu32 << 0u32) == base & (0xFFFF_FFFFu32 << 0u32)) == (addr == base))
        by (bit_vector);
}

/// A `/0` range holds every address.
pub proof fn lemma_full_range(base: u32, addr: u32)
    ensures
        cidr_contains_spec(base, 0, addr),
{
    assert(addr & 0u32 == base & 0u32) by (bit_vector);
}

/// A human label attached to one CIDR range.
#[derive(Debug, Clone, PartialEq)]
pub struct AccountCidr {
    /// The label the account gives the range.
    pub name: String,
    /// The range itself.
    pub cidr: Ipv4Cidr,
}

/// The mathematical shape of an `AccountCidr`.
pub struct AccountCidrV {
    /// The label.
    pub name: Seq<char>,
    /// The range.
    pub cidr: Ipv4Cidr,
}

impl DeepView for AccountCidr {
    type V = AccountCidrV;

    open spec fn deep_view(&self) -> AccountCidrV {
        AccountCidrV { name: self.name@, cidr: self.cidr }
    }
}

impl AccountCidr {
    /// True when the held range is in canonical form.
    pub open spec fn wf(&self) -> bool {
        self.cidr.wf()
    }

    /// True exactly when the held range contains `addr`.
    pub fn contains(&self, addr: u32) -> (r: bool)
        requires
            self.wf(),
        ensures
            r == cidr_contains_spec(self.cidr.spec_addr(), self.cidr.spec_prefix_len(), addr),
    {
        self.cidr.contains(addr)
    }
}

/// What decoding an `AccountCidr` means: an object holding the label
/// under `name` and the range as CIDR text under `cidr`.
pub open spec fn account_cidr_decode_spec(v: SpecWire) -> Option<AccountCidrV> {
    match (spec_get(v, "name"@), spec_get(v, "cidr"@)) {
        (Some(SpecWire::Text(name)), Some(SpecWire::Text(cidr_text))) => match cidr_parse_spec(
            cidr_text,
        ) {
            Some((addr, len)) => Some(
                AccountCidrV { name, cidr: spec_cidr_value(addr, len) },
            ),
            None => None,
        },
        _ => None,
    }
}

/// The range value holding the given raw pair.
pub closed spec fn spec_cidr_value(addr: u32, len: u8) -> Ipv4Cidr {
    Ipv4Cidr { addr, prefix_len: len }
}

/// The raw pair of a range value.
pub proof fn lemma_cidr_value(addr: u32, len: u8)
    ensures
        spec_cidr_value(addr, len).spec_addr() == addr,
        spec_cidr_value(addr, len).spec_prefix_len() == len,
{
}

impl WireDecode for AccountCidr {
    open spec fn decode_spec(v: SpecWire) -> Option<AccountCidrV> {
        account_cidr_decode_spec(v)
    }

    fn decode_wire(v: &WireValue) -> (r: Result<Self, Error>) {
        let name = match crate::wire::get_field(v, "name") {
            Some(WireValue::Text(name)) => name.clone(),
            _ => { return Err(Error::CidrFormat) },
        };
        let cidr_text = match crate::wire::get_field(v, "cidr") {
            Some(WireValue::Text(cidr_text)) => cidr_text,
            _ => { return Err(Error::CidrFormat) },
        };
        match Ipv4Cidr::parse(cidr_text.as_str()) {
            Ok(cidr) => Ok(AccountCidr { name, cidr }),
            Err(e) => Err(e),
        }
    }
}

} // verus!
