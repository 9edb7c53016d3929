//! The flexible timestamp codec.
//!
//! The API writes a point in time either as standard date-time text
//! (`"2020-08-12T04:05:20Z"`) or as a count of seconds since the Unix
//! epoch (`1648733340.076`), possibly fractional and possibly in exponent
//! notation (`1.6e9`). Decoding tries the textual form for text values
//! and reads number values exactly from their decimal digits, saturating
//! at the representable range instead of overflowing. Encoding always
//! emits the textual form.

use vstd::prelude::*;

use crate::digits::{
    all_digits, all_zero_digits, check_digits, digits_val, is_all_digits, is_digit_char,
    lemma_digits_val_append_zeros, lemma_digits_val_bound, lemma_digits_val_of_zeros,
    lemma_digits_val_zero_all_zeros, lemma_pow10_adds, lemma_pow10_mono, parse_digits_capped,
    parse_u64_digits, pow10, pow10_u32, zeros,
};
use crate::error::Error;
use crate::wire::{SpecWire, WireValue};

verus! {

/// A point in time: whole seconds since the Unix epoch plus the
/// nanoseconds into that second (always below one billion, so the pair
/// reads forward from the second boundary even before the epoch).
#[derive(Debug, Clone, Copy, PartialEq, Eq, Hash, Structural)]
pub struct Timestamp {
    /// Whole seconds since 1970-01-01T00:00:00Z, rounded toward minus
    /// infinity.
    pub seconds: i64,
    /// Nanoseconds into the second.
    pub nanos: u32,
}

impl Timestamp {
    /// True when the nanosecond part stays within one second.
    pub open spec fn wf(&self) -> bool {
        self.nanos < 1_000_000_000u32
    }
}

/// The instant written in `s` under the standard date-time text format,
/// as (whole seconds since the Unix epoch, nanoseconds into the second),
/// if `s` conforms to that format.
pub uninterp spec fn iso_datetime_parse(s: Seq<char>) -> Option<(int, int)>;

/// Relies on time's `OffsetDateTime::parse` with the well-known ISO 8601
/// format, whose result is a function of the text alone, and on
/// `unix_timestamp` and `nanosecond`, which read the parsed instant back
/// as epoch seconds and a nanosecond part documented to stay below one
/// billion.
#[verifier::external_body]
fn parse_iso_datetime(s: &str) -> (r: Option<Timestamp>)
    ensures
        match r {
            Some(t) => iso_datetime_parse(s@) == Some((t.seconds as int, t.nanos as int))
                && t.nanos < 1_000_000_000u32,
            None => iso_datetime_parse(s@) is None,
        },
{
    match time::OffsetDateTime::parse(s, &time::format_description::well_known::Iso8601::DEFAULT) {
        Ok(t) => Some(Timestamp { seconds: t.unix_timestamp(), nanos: t.nanosecond() }),
        Err(_) => None,
    }
}

/// The standard date-time text for the instant (`seconds`, `nanos`), if
/// that instant lies in the formattable range.
pub uninterp spec fn iso_datetime_format(seconds: int, nanos: int) -> Option<Seq<char>>;

/// Relies on time's `OffsetDateTime::from_unix_timestamp`,
/// `replace_nanosecond` and `format` with the well-known ISO 8601 format:
/// the text is a function of the instant alone, and the calls fail only
/// outside the crate's representable or formattable range.
#[verifier::external_body]
fn format_iso_datetime(t: &Timestamp) -> (r: Option<String>)
    ensures
        match r {
            Some(s) => iso_datetime_format(t.seconds as int, t.nanos as int) == Some(s@),
            None => iso_datetime_format(t.seconds as int, t.nanos as int) is None,
        },
{
    let base = match time::OffsetDateTime::from_unix_timestamp(t.seconds) {
        Ok(base) => base,
        Err(_) => { return None },
    };
    let instant = match base.replace_nanosecond(t.nanos) {
        Ok(instant) => instant,
        Err(_) => { return None },
    };
    instant.format(&time::format_description::well_known::Iso8601::DEFAULT).ok()
}

/// The index of the first decimal point of `s`, or its length.
pub open spec fn dot_pos(s: Seq<char>) -> int
    decreases s.len(),
{
    if s.len() == 0 {
        0
    } else if s[0] == '.' {
        0
    } else {
        1 + dot_pos(s.drop_first())
    }
}

/// The first-dot position lies within the string.
pub proof fn lemma_dot_pos_bounds(s: Seq<char>)
    ensures
        0 <= dot_pos(s) <= s.len(),
    decreases s.len(),
{
    if s.len() > 0 && s[0] != '.' {
        lemma_dot_pos_bounds(s.drop_first());
    }
}

/// Pins the first-dot position from a scan that found no dot before `i`.
proof fn lemma_dot_pos_at(s: Seq<char>, i: int)
    requires
        0 <= i <= s.len(),
        forall|j: int| 0 <= j < i ==> s[j] != '.',
        i == s.len() || s[i] == '.',
    ensures
        dot_pos(s) == i,
    decreases i,
{
    if i > 0 {
        lemma_dot_pos_at(s.drop_first(), i - 1);
    } else if s.len() > 0 {
        assert(s[0] == '.');
    }
}

/// The index of the first exponent marker of `s`, or its length.
pub open spec fn exp_marker_pos(s: Seq<char>) -> int
    decreases s.len(),
{
    if s.len() == 0 {
        0
    } else if s[0] == 'e' || s[0] == 'E' {
        0
    } else {
        1 + exp_marker_pos(s.drop_first())
    }
}

/// The first exponent marker lies within the string.
pub proof fn lemma_exp_marker_pos_bounds(s: Seq<char>)
    ensures
        0 <= exp_marker_pos(s) <= s.len(),
    decreases s.len(),
{
    if s.len() > 0 && !(s[0] == 'e' || s[0] == 'E') {
        lemma_exp_marker_pos_bounds(s.drop_first());
    }
}

/// Pins the first exponent marker from a scan that saw none before `i`.
proof fn lemma_exp_marker_pos_at(s: Seq<char>, i: int)
    requires
        0 <= i <= s.len(),
        forall|j: int| 0 <= j < i ==> !(s[j] == 'e' || s[j] == 'E'),
        i == s.len() || s[i] == 'e' || s[i] == 'E',
    ensures
        exp_marker_pos(s) == i,
    decreases i,
{
    if i > 0 {
        lemma_exp_marker_pos_at(s.drop_first(), i - 1);
    } else if s.len() > 0 {
        assert(s[0] == 'e' || s[0] == 'E');
    }
}

/// The mantissa: everything before the first exponent marker.
pub open spec fn epoch_mantissa(body: Seq<char>) -> Seq<char> {
    body.take(exp_marker_pos(body))
}

/// The signed integer written in an exponent part: an optional sign, then
/// at least one digit.
pub open spec fn exp_val(p: Seq<char>) -> Option<int> {
    if p.len() == 0 {
        None
    } else if p[0] == '+' || p[0] == '-' {
        let d = p.drop_first();
        if d.len() > 0 && all_digits(d) {
            if p[0] == '-' {
                Some(-(digits_val(d) as int))
            } else {
                Some(digits_val(d) as int)
            }
        } else {
            None
        }
    } else if all_digits(p) {
        Some(digits_val(p) as int)
    } else {
        None
    }
}

/// The numeral's exponent: what follows the marker, or zero when the body
/// carries no marker.
pub open spec fn epoch_exponent(body: Seq<char>) -> Option<int> {
    if exp_marker_pos(body) == body.len() {
        Some(0)
    } else {
        exp_val(body.skip(exp_marker_pos(body) + 1))
    }
}

/// The digits standing before the decimal point once the exponent has
/// moved it: the mantissa's digits up to `point`, padded with zeros on
/// the right when the point passes them all.
pub open spec fn norm_int_digits(digits: Seq<char>, point: int) -> Seq<char> {
    if point <= 0 {
        Seq::empty()
    } else if point >= digits.len() {
        digits + zeros((point - digits.len()) as nat)
    } else {
        digits.take(point)
    }
}

/// The digits standing after the decimal point once the exponent has
/// moved it, padded with zeros on the left when the point moves before
/// them all.
pub open spec fn norm_frac_digits(digits: Seq<char>, point: int) -> Seq<char> {
    if point <= 0 {
        zeros((-point) as nat) + digits
    } else if point >= digits.len() {
        Seq::empty()
    } else {
        digits.skip(point)
    }
}

/// Digit strings shifted by a decimal point stay digit strings.
proof fn lemma_norm_all_digits(digits: Seq<char>, point: int)
    requires
        all_digits(digits),
    ensures
        all_digits(norm_int_digits(digits, point)),
        all_digits(norm_frac_digits(digits, point)),
{
    assert forall|q: int|
        0 <= q < norm_int_digits(digits, point).len() implies is_digit_char(
        #[trigger] norm_int_digits(digits, point)[q],
    ) by {
        if point > 0 && point >= digits.len() && q >= digits.len() {
            assert(norm_int_digits(digits, point)[q] == '0');
        }
    }
    assert forall|q: int|
        0 <= q < norm_frac_digits(digits, point).len() implies is_digit_char(
        #[trigger] norm_frac_digits(digits, point)[q],
    ) by {
        if point <= 0 && q < -point {
            assert(norm_frac_digits(digits, point)[q] == '0');
        }
    }
}

/// Past the last digit the shifted fraction is empty and reads as zero
/// nanoseconds.
proof fn lemma_epoch_frac_empty(digits: Seq<char>, point: int)
    requires
        point >= digits.len(),
    ensures
        frac_nanos(norm_frac_digits(digits, point)) == 0,
{
    assert(norm_frac_digits(digits, point) =~= Seq::<char>::empty());
    assert(digits_val(Seq::<char>::empty()) == 0);
    assert(digits_val(Seq::<char>::empty()) * pow10(9) == 0) by (nonlinear_arith)
        requires
            digits_val(Seq::<char>::empty()) == 0,
    ;
}

/// A point at least twenty places past the digits of a nonzero mantissa
/// pushes the whole-second count beyond the unsigned range.
proof fn lemma_epoch_sat_pos(digits: Seq<char>, point: int)
    requires
        all_digits(digits),
        point >= digits.len() + 20,
        digits_val(digits) >= 1,
    ensures
        digits_val(norm_int_digits(digits, point)) > 0xFFFF_FFFF_FFFF_FFFFu64,
        frac_nanos(norm_frac_digits(digits, point)) == 0,
{
    let k = (point - digits.len()) as nat;
    lemma_digits_val_append_zeros(digits, k);
    lemma_pow10_mono(20, k);
    assert(pow10(20) == 100_000_000_000_000_000_000) by {
        reveal_with_fuel(pow10, 21);
    }
    assert(digits_val(digits) * pow10(k) >= pow10(k)) by (nonlinear_arith)
        requires
            digits_val(digits) >= 1,
            pow10(k) >= 0,
    ;
    lemma_epoch_frac_empty(digits, point);
}

/// An all-zero mantissa reads as zero wherever the point stands past its
/// digits.
proof fn lemma_epoch_zero_mantissa(digits: Seq<char>, point: int)
    requires
        forall|q: int| 0 <= q < digits.len() ==> digits[q] == '0',
        point >= digits.len(),
    ensures
        digits_val(norm_int_digits(digits, point)) == 0,
        frac_nanos(norm_frac_digits(digits, point)) == 0,
{
    let ni = norm_int_digits(digits, point);
    assert forall|q: int| 0 <= q < ni.len() implies ni[q] == '0' by {
        if point > 0 && q >= digits.len() {
            assert(ni[q] == '0');
        }
    }
    lemma_digits_val_of_zeros(ni);
    lemma_epoch_frac_empty(digits, point);
}

/// A point at least nine places before the digits pushes the whole
/// mantissa below one nanosecond.
proof fn lemma_epoch_tiny(digits: Seq<char>, point: int)
    requires
        all_digits(digits),
        point <= -9,
    ensures
        digits_val(norm_int_digits(digits, point)) == 0,
        frac_nanos(norm_frac_digits(digits, point)) == 0,
{
    assert(norm_int_digits(digits, point) =~= Seq::<char>::empty());
    let nf = norm_frac_digits(digits, point);
    let f9 = if nf.len() <= 9 {
        nf
    } else {
        nf.take(9)
    };
    assert forall|q: int| 0 <= q < f9.len() implies f9[q] == '0' by {
        assert(f9[q] == nf[q]);
        assert(nf[q] == zeros((-point) as nat)[q]);
    }
    lemma_digits_val_of_zeros(f9);
    assert(digits_val(f9) * pow10((9 - f9.len()) as nat) == 0) by (nonlinear_arith)
        requires
            digits_val(f9) == 0,
    ;
}

/// Lays the mantissa digits out around the shifted decimal point as two
/// plain digit strings.
fn build_normalized(ip: &str, fp: &str, point_i: i128) -> (r: (String, String))
    requires
        -8 <= point_i <= ip@.len() + fp@.len() + 19,
        ip@.len() + fp@.len() <= usize::MAX,
    ensures
        r.0@ == norm_int_digits(ip@ + fp@, point_i as int),
        r.1@ == norm_frac_digits(ip@ + fp@, point_i as int),
{
    let ipl = ip.unicode_len();
    let fpl = fp.unicode_len();
    let dlen = ipl + fpl;
    let ghost digits = ip@ + fp@;
    let mut int_str = String::new();
    let mut frac_str = String::new();
    if point_i <= 0 {
        let kp = (-point_i) as usize;
        push_zeros(&mut frac_str, kp);
        frac_str.append(ip);
        frac_str.append(fp);
    } else if point_i >= dlen as i128 {
        let k = (point_i - dlen as i128) as usize;
        int_str.append(ip);
        int_str.append(fp);
        push_zeros(&mut int_str, k);
    } else {
        let pt = point_i as usize;
        if pt <= ipl {
            int_str.append(ip.substring_char(0, pt));
            frac_str.append(ip.substring_char(pt, ipl));
            frac_str.append(fp);
        } else {
            int_str.append(ip);
            int_str.append(fp.substring_char(0, pt - ipl));
            frac_str.append(fp.substring_char(pt - ipl, fpl));
        }
    }
    proof {
        assert(int_str@ =~= norm_int_digits(digits, point_i as int));
        assert(frac_str@ =~= norm_frac_digits(digits, point_i as int));
    }
    (int_str, frac_str)
}

/// The numeral after the optional leading minus sign.
pub open spec fn epoch_body(s: Seq<char>) -> Seq<char> {
    if s.len() > 0 && s[0] == '-' {
        s.drop_first()
    } else {
        s
    }
}

/// True when `s` opens with a minus sign.
pub open spec fn epoch_neg(s: Seq<char>) -> bool {
    s.len() > 0 && s[0] == '-'
}

/// The mantissa's digits before its first decimal point.
pub open spec fn epoch_int_part(mantissa: Seq<char>) -> Seq<char> {
    mantissa.take(dot_pos(mantissa))
}

/// The mantissa's digits after its first decimal point, if there is one.
pub open spec fn epoch_frac_part(mantissa: Seq<char>) -> Seq<char> {
    if dot_pos(mantissa) < mantissa.len() {
        mantissa.skip(dot_pos(mantissa) + 1)
    } else {
        Seq::empty()
    }
}

/// The epoch-seconds grammar, covering the JSON number shapes: an
/// optional minus sign, at least one digit, optionally a decimal point
/// followed by digits, and optionally an exponent marker followed by a
/// signed digit run.
pub open spec fn epoch_grammar_ok(s: Seq<char>) -> bool {
    let body = epoch_body(s);
    let m = epoch_mantissa(body);
    epoch_int_part(m).len() > 0 && all_digits(epoch_int_part(m)) && all_digits(epoch_frac_part(m))
        && epoch_exponent(body) is Some
}

/// All mantissa digits of the numeral, the decimal point dropped.
pub open spec fn epoch_digits(s: Seq<char>) -> Seq<char> {
    let m = epoch_mantissa(epoch_body(s));
    epoch_int_part(m) + epoch_frac_part(m)
}

/// Where the decimal point stands among `epoch_digits` once the exponent
/// has moved it.
pub open spec fn epoch_point(s: Seq<char>) -> int {
    let body = epoch_body(s);
    epoch_int_part(epoch_mantissa(body)).len() + epoch_exponent(body).unwrap()
}

/// The fractional digits read as nanoseconds: the first nine digits,
/// padded on the right with zeros; digits beyond the ninth are truncated.
pub open spec fn frac_nanos(fr: Seq<char>) -> nat {
    let f9 = if fr.len() <= 9 {
        fr
    } else {
        fr.take(9)
    };
    digits_val(f9) * pow10((9 - f9.len()) as nat)
}

/// The nanosecond reading of a fraction stays within one second.
pub proof fn lemma_frac_nanos_bound(fr: Seq<char>)
    requires
        all_digits(fr),
    ensures
        frac_nanos(fr) < 1_000_000_000,
{
    let f9 = if fr.len() <= 9 {
        fr
    } else {
        fr.take(9)
    };
    assert(all_digits(f9));
    lemma_digits_val_bound(f9);
    let l = f9.len();
    lemma_pow10_adds(l, (9 - l) as nat);
    assert(digits_val(f9) * pow10((9 - l) as nat) <= (pow10(l) - 1) * pow10((9 - l) as nat))
        by (nonlinear_arith)
        requires
            digits_val(f9) <= pow10(l) - 1,
            pow10((9 - l) as nat) >= 0,
    ;
    assert((pow10(l) - 1) * pow10((9 - l) as nat) == pow10(l) * pow10((9 - l) as nat) - pow10(
        (9 - l) as nat,
    )) by (nonlinear_arith);
    lemma_pow10_mono(0, (9 - l) as nat);
    assert(pow10(9) == 1_000_000_000) by {
        reveal_with_fuel(pow10, 11);
    }
}

/// The signed floor-and-clamp reading of a whole-second count and a
/// nanosecond remainder.
pub open spec fn epoch_combine(neg: bool, whole: int, f: int) -> Timestamp {
    if !neg {
        if whole > i64::MAX as int {
            Timestamp { seconds: i64::MAX, nanos: 999_999_999u32 }
        } else {
            Timestamp { seconds: whole as i64, nanos: f as u32 }
        }
    } else if f == 0 {
        if whole >= 0x8000_0000_0000_0000 {
            Timestamp { seconds: i64::MIN, nanos: 0u32 }
        } else {
            Timestamp { seconds: (-whole) as i64, nanos: 0u32 }
        }
    } else {
        if whole > i64::MAX as int {
            Timestamp { seconds: i64::MIN, nanos: 0u32 }
        } else {
            Timestamp { seconds: (-whole - 1) as i64, nanos: (1_000_000_000 - f) as u32 }
        }
    }
}

/// The instant meant by a decimal epoch-seconds numeral: the numeral's
/// exact value read to nanosecond precision (digits beyond the ninth
/// after the shifted point are truncated), rounded toward minus infinity
/// to whole seconds with the remainder as nanoseconds, and clamped to the
/// range of the seconds counter. Undefined off the grammar.
pub open spec fn epoch_decode_spec(s: Seq<char>) -> Option<Timestamp> {
    if !epoch_grammar_ok(s) {
        None
    } else {
        Some(
            epoch_combine(
                epoch_neg(s),
                digits_val(norm_int_digits(epoch_digits(s), epoch_point(s))) as int,
                frac_nanos(norm_frac_digits(epoch_digits(s), epoch_point(s))) as int,
            ),
        )
    }
}

/// Applies the floor-and-clamp reading in executable code.
fn combine_epoch(
    neg: bool,
    whole_opt: Option<u64>,
    fnanos: u32,
    Ghost(whole): Ghost<int>,
    Ghost(f): Ghost<int>,
) -> (t: Timestamp)
    requires
        fnanos == f,
        0 <= f < 1_000_000_000,
        whole >= 0,
        match whole_opt {
            Some(w) => w == whole,
            None => whole > u64::MAX as int,
        },
    ensures
        t == epoch_combine(neg, whole, f),
        t.wf(),
{
    match whole_opt {
        None => {
            // The whole-second count exceeds even the unsigned range.
            if neg {
                Timestamp { seconds: i64::MIN, nanos: 0 }
            } else {
                Timestamp { seconds: i64::MAX, nanos: 999_999_999 }
            }
        },
        Some(whole_v) => {
            if !neg {
                if whole_v > i64::MAX as u64 {
                    Timestamp { seconds: i64::MAX, nanos: 999_999_999 }
                } else {
                    Timestamp { seconds: whole_v as i64, nanos: fnanos }
                }
            } else if fnanos == 0 {
                if whole_v >= 0x8000_0000_0000_0000u64 {
                    Timestamp { seconds: i64::MIN, nanos: 0 }
                } else {
                    Timestamp { seconds: -(whole_v as i64), nanos: 0 }
                }
            } else {
                if whole_v > i64::MAX as u64 {
                    Timestamp { seconds: i64::MIN, nanos: 0 }
                } else {
                    Timestamp { seconds: -(whole_v as i64) - 1, nanos: 1_000_000_000 - fnanos }
                }
            }
        },
    }
}

/// Reads the fractional digits of an epoch numeral as nanoseconds.
fn frac_nanos_exec(fr: &str) -> (r: u32)
    requires
        all_digits(fr@),
    ensures
        r == frac_nanos(fr@),
        r < 1_000_000_000,
{
    proof {
        lemma_frac_nanos_bound(fr@);
    }
    let len = fr.unicode_len();
    let f9 = if len <= 9 {
        fr
    } else {
        fr.substring_char(0, 9)
    };
    proof {
        if len > 9 {
            assert(f9@ =~= fr@.take(9));
        } else {
            assert(f9@ =~= fr@);
        }
        assert(all_digits(f9@));
    }
    let f9len = f9.unicode_len();
    if f9len == 0 {
        proof {
            assert(f9@ =~= fr@);
            assert(digits_val(fr@) == 0);
            assert(frac_nanos(fr@) == digits_val(fr@) * pow10(9));
            assert(digits_val(fr@) * pow10(9) == 0) by (nonlinear_arith)
                requires
                    digits_val(fr@) == 0,
            ;
        }
        return 0;
    }
    let ghost l = f9@.len() as nat;
    proof {
        lemma_digits_val_bound(f9@);
        lemma_pow10_mono(l, 9);
        lemma_pow10_mono(0, (9 - l) as nat);
        lemma_pow10_adds(l, (9 - l) as nat);
        assert(pow10(9) == 1_000_000_000) by {
            reveal_with_fuel(pow10, 11);
        }
        assert(digits_val(f9@) * pow10((9 - l) as nat) <= (pow10(l) - 1) * pow10((9 - l) as nat))
            by (nonlinear_arith)
            requires
                digits_val(f9@) <= pow10(l) - 1,
                pow10((9 - l) as nat) >= 0,
        ;
        assert((pow10(l) - 1) * pow10((9 - l) as nat) == pow10(l) * pow10((9 - l) as nat) - pow10(
            (9 - l) as nat,
        )) by (nonlinear_arith);
    }
    let val = match parse_u64_digits(f9) {
        Some(val) => val,
        None => {
            proof {
                assert(false);
            }
            0
        },
    };
    let scale = pow10_u32(9 - f9len);
    val as u32 * scale
}

/// A bound just above any magnitude a string length could reach; an
/// exponent at or past it decides the result on its own.
const EXP_CAP: u128 = 0x2_0000_0000_0000_0000;

/// Appends a run of zero digits.
fn push_zeros(t: &mut String, k: usize)
    ensures
        final(t)@ == old(t)@ + zeros(k as nat),
{
    let mut i: usize = 0;
    proof {
        assert(old(t)@ + zeros(0) =~= old(t)@);
    }
    while i < k
        invariant
            0 <= i <= k,
            t@ == old(t)@ + zeros(i as nat),
        decreases k - i,
    {
        t.append("0");
        proof {
            reveal_strlit("0");
            assert(t@ =~= old(t)@ + zeros((i + 1) as nat));
        }
        i = i + 1;
    }
}

/// Decodes a decimal epoch-seconds numeral, in plain or exponent
/// notation, into the instant it means: the digits are read exactly, the
/// decimal point is shifted by the exponent, and the value is read to
/// nanosecond precision and saturated at the representable range.
/// Reports `None` exactly off the grammar.
#[verifier::rlimit(100)]
#[verifier::spinoff_prover]
pub fn decode_epoch_seconds(s: &str) -> (r: Option<Timestamp>)
    ensures
        r == epoch_decode_spec(s@),
        r matches Some(t) ==> t.wf(),
{
    let len = s.unicode_len();
    if len == 0 {
        return None;
    }
    let neg = s.get_char(0) == '-';
    let start: usize = if neg {
        1
    } else {
        0
    };
    let ghost body = epoch_body(s@);
    proof {
        assert(body =~= s@.skip(start as int));
        lemma_exp_marker_pos_bounds(body);
    }
    // Find the exponent marker, if any.
    let mut epos: usize = len;
    let mut i: usize = start;
    while i < len
        invariant_except_break
            s@.len() == len,
            start <= i <= len,
            start <= epos <= len,
            epos == len,
            forall|j: int| start <= j < i ==> !(s@[j] == 'e' || s@[j] == 'E'),
        ensures
            s@.len() == len,
            start <= epos <= len,
            forall|j: int| start <= j < epos ==> !(s@[j] == 'e' || s@[j] == 'E'),
            epos < len ==> (s@[epos as int] == 'e' || s@[epos as int] == 'E'),
        decreases len - i,
    {
        let c = s.get_char(i);
        if c == 'e' || c == 'E' {
            epos = i;
            break ;
        }
        i = i + 1;
    }
    proof {
        lemma_exp_marker_pos_at(body, epos - start);
    }
    let ghost mant = epoch_mantissa(body);
    proof {
        assert(mant =~= s@.skip(start as int).take(epos - start));
        lemma_dot_pos_bounds(mant);
    }
    // Find the mantissa's decimal point, if any.
    let mut dot: usize = epos;
    let mut j: usize = start;
    while j < epos
        invariant_except_break
            s@.len() == len,
            start <= j <= epos <= len,
            start <= dot <= epos,
            dot == epos,
            forall|q: int| start <= q < j ==> s@[q] != '.',
        ensures
            s@.len() == len,
            start <= dot <= epos <= len,
            forall|q: int| start <= q < dot ==> s@[q] != '.',
            dot < epos ==> s@[dot as int] == '.',
        decreases epos - j,
    {
        if s.get_char(j) == '.' {
            dot = j;
            break ;
        }
        j = j + 1;
    }
    proof {
        lemma_dot_pos_at(mant, dot - start);
    }
    let ip = s.substring_char(start, dot);
    proof {
        assert(ip@ =~= epoch_int_part(mant));
    }
    if !is_all_digits(ip) {
        return None;
    }
    let fp = if dot < epos {
        s.substring_char(dot + 1, epos)
    } else {
        s.substring_char(epos, epos)
    };
    proof {
        assert(fp@ =~= epoch_frac_part(mant));
    }
    if !check_digits(fp) {
        return None;
    }
    // Read the exponent, capped just above anything a string length could
    // reach; the exact value only matters below the cap.
    let ghost expv = epoch_exponent(body);
    let mut exp_neg = false;
    let mut exp_capped: u128 = 0;
    let ghost emag: nat = 0 as nat;
    if epos < len {
        let ghost p = body.skip(exp_marker_pos(body) + 1);
        proof {
            assert(p =~= s@.skip(epos + 1));
        }
        let mut ds: usize = epos + 1;
        if ds == len {
            return None;
        }
        let c0 = s.get_char(ds);
        if c0 == '+' {
            ds = ds + 1;
        } else if c0 == '-' {
            exp_neg = true;
            ds = ds + 1;
        }
        if ds == len {
            return None;
        }
        let ed = s.substring_char(ds, len);
        proof {
            if c0 == '+' || c0 == '-' {
                assert(ed@ =~= p.drop_first());
            } else {
                assert(ed@ =~= p);
            }
        }
        if !is_all_digits(ed) {
            return None;
        }
        exp_capped = parse_digits_capped(ed, EXP_CAP);
        proof {
            emag = digits_val(ed@);
            assert(expv == Some(if exp_neg { -(emag as int) } else { emag as int }));
        }
    } else {
        proof {
            assert(expv == Some(0int));
        }
    }
    let ipl = ip.unicode_len();
    let fpl = fp.unicode_len();
    let ghost digits = epoch_digits(s@);
    let ghost point = epoch_point(s@);
    proof {
        assert(digits == ip@ + fp@);
        assert(point == ipl + (if exp_neg { -(emag as int) } else { emag as int }));
        assert(epoch_grammar_ok(s@));
        assert(all_digits(digits)) by {
            assert forall|q: int| 0 <= q < digits.len() implies is_digit_char(
                #[trigger] digits[q],
            ) by {
                if q < ip@.len() {
                    assert(digits[q] == ip@[q]);
                } else {
                    assert(digits[q] == fp@[q - ip@.len()]);
                }
            }
        }
        lemma_norm_all_digits(digits, point);
    }
    // A huge positive exponent pushes the whole mantissa above the range,
    // unless every digit is zero.
    if !exp_neg && exp_capped >= fpl as u128 + 20 {
        proof {
            assert(emag >= fpl + 20);
            assert(point >= digits.len() + 20);
        }
        if all_zero_digits(ip) && all_zero_digits(fp) {
            proof {
                assert forall|q: int| 0 <= q < digits.len() implies digits[q] == '0' by {
                    if q < ip@.len() {
                        assert(digits[q] == ip@[q]);
                    } else {
                        assert(digits[q] == fp@[q - ip@.len()]);
                    }
                }
                lemma_epoch_zero_mantissa(digits, point);
            }
            return Some(Timestamp { seconds: 0, nanos: 0 });
        }
        proof {
            if digits_val(digits) == 0 {
                lemma_digits_val_zero_all_zeros(digits);
                assert forall|q: int| 0 <= q < ip@.len() implies ip@[q] == '0' by {
                    assert(digits[q] == ip@[q]);
                }
                assert forall|q: int| 0 <= q < fp@.len() implies fp@[q] == '0' by {
                    assert(digits[ip@.len() + q] == fp@[q]);
                }
                assert(false);
            }
            lemma_epoch_sat_pos(digits, point);
        }
        if neg {
            return Some(Timestamp { seconds: i64::MIN, nanos: 0 });
        } else {
            return Some(Timestamp { seconds: i64::MAX, nanos: 999_999_999 });
        }
    }
    // A huge negative exponent pushes the whole mantissa below one
    // nanosecond.
    if exp_neg && exp_capped >= ipl as u128 + 9 {
        proof {
            assert(emag >= ipl + 9);
            assert(point <= -9);
            lemma_epoch_tiny(digits, point);
        }
        return Some(Timestamp { seconds: 0, nanos: 0 });
    }
    // The exponent is now exact and the shifted point lies within a few
    // digits of the mantissa; lay the digits out around it.
    proof {
        assert(emag == exp_capped as nat);
        assert(ip@.len() == ipl && fp@.len() == fpl);
    }
    let point_i: i128 = if exp_neg {
        ipl as i128 - exp_capped as i128
    } else {
        ipl as i128 + exp_capped as i128
    };
    proof {
        assert(point == point_i as int);
        assert(-8 <= point_i < ipl as i128 + fpl as i128 + 20);
    }
    let built = build_normalized(ip, fp, point_i);
    let int_str = built.0;
    let frac_str = built.1;
    proof {
        assert(int_str@ == norm_int_digits(digits, point));
        assert(frac_str@ == norm_frac_digits(digits, point));
    }
    let ilen = int_str.as_str().unicode_len();
    let whole_opt: Option<u64> = if ilen == 0 {
        proof {
            assert(digits_val(int_str@) == 0);
        }
        Some(0)
    } else {
        parse_u64_digits(int_str.as_str())
    };
    let fnanos: u32 = frac_nanos_exec(frac_str.as_str());
    let t = combine_epoch(
        neg,
        whole_opt,
        fnanos,
        Ghost(digits_val(norm_int_digits(digits, point)) as int),
        Ghost(frac_nanos(norm_frac_digits(digits, point)) as int),
    );
    Some(t)
}

/// What decoding a wire value as a timestamp means: text is read under
/// the standard date-time format, a number as decimal epoch seconds; no
/// other shape is a timestamp.
pub open spec fn timestamp_decode_spec(v: SpecWire) -> Option<Timestamp> {
    match v {
        SpecWire::Text(s) => match iso_datetime_parse(s) {
            Some((sec, ns)) => Some(Timestamp { seconds: sec as i64, nanos: ns as u32 }),
            None => None,
        },
        SpecWire::Number(s) => epoch_decode_spec(s),
        _ => None,
    }
}

/// Decodes a timestamp from either wire form, failing with the timestamp
/// format error exactly when neither form matches.
pub fn deserialize(v: &WireValue) -> (r: Result<Timestamp, Error>)
    ensures
        match r {
            Ok(t) => timestamp_decode_spec(v@) == Some(t) && t.wf(),
            Err(e) => timestamp_decode_spec(v@) is None && e == Error::TimestampFormat,
        },
{
    match v {
        WireValue::Text(s) => match parse_iso_datetime(s.as_str()) {
            Some(t) => Ok(t),
            None => Err(Error::TimestampFormat),
        },
        WireValue::Number(s) => match decode_epoch_seconds(s.as_str()) {
            Some(t) => Ok(t),
            None => Err(Error::TimestampFormat),
        },
        _ => Err(Error::TimestampFormat),
    }
}

impl DeepView for Timestamp {
    type V = Timestamp;

    open spec fn deep_view(&self) -> Timestamp {
        *self
    }
}

impl crate::wire::WireDecode for Timestamp {
    open spec fn decode_spec(v: SpecWire) -> Option<Timestamp> {
        timestamp_decode_spec(v)
    }

    fn decode_wire(v: &WireValue) -> (r: Result<Self, Error>) {
        deserialize(v)
    }
}

/// What decoding a text-only timestamp field means: only the standard
/// date-time text form is accepted, never the numeric one.
pub open spec fn iso_decode_spec(v: SpecWire) -> Option<Timestamp> {
    match v {
        SpecWire::Text(s) => match iso_datetime_parse(s) {
            Some((sec, ns)) => Some(Timestamp { seconds: sec as i64, nanos: ns as u32 }),
            None => None,
        },
        _ => None,
    }
}

/// The meaning of a required text-only timestamp field of a record.
pub open spec fn iso_field_spec(v: SpecWire, key: Seq<char>) -> Option<Timestamp> {
    match crate::wire::spec_get(v, key) {
        Some(w) => iso_decode_spec(w),
        None => None,
    }
}

/// The meaning of an optional text-only timestamp field of a record: an
/// absent or null entry reads as nothing.
pub open spec fn opt_iso_field_spec(v: SpecWire, key: Seq<char>) -> Option<Option<Timestamp>> {
    match crate::wire::spec_get(v, key) {
        None => Some(None),
        Some(SpecWire::Null) => Some(None),
        Some(w) => match iso_decode_spec(w) {
            Some(t) => Some(Some(t)),
            None => None,
        },
    }
}

/// Decodes a required record field holding standard date-time text.
pub fn decode_iso_field(v: &WireValue, key: &str) -> (r: Result<Timestamp, Error>)
    ensures
        match r {
            Ok(t) => iso_field_spec(v@, key@) == Some(t) && t.wf(),
            Err(e) => iso_field_spec(v@, key@) is None && e == Error::TimestampFormat,
        },
{
    match crate::wire::get_field(v, key) {
        Some(w) => match w {
            WireValue::Text(s) => match parse_iso_datetime(s.as_str()) {
                Some(t) => Ok(t),
                None => Err(Error::TimestampFormat),
            },
            _ => Err(Error::TimestampFormat),
        },
        None => Err(Error::TimestampFormat),
    }
}

/// Decodes an optional record field holding standard date-time text,
/// reading an absent or null entry as nothing.
pub fn decode_opt_iso_field(v: &WireValue, key: &str) -> (r: Result<Option<Timestamp>, Error>)
    ensures
        match r {
            Ok(t) => opt_iso_field_spec(v@, key@) == Some(t) && (t matches Some(x) ==> x.wf()),
            Err(e) => opt_iso_field_spec(v@, key@) is None && e == Error::TimestampFormat,
        },
{
    match crate::wire::get_field(v, key) {
        None => Ok(None),
        Some(w) => match w {
            WireValue::Null => Ok(None),
            WireValue::Text(s) => match parse_iso_datetime(s.as_str()) {
                Some(t) => Ok(Some(t)),
                None => Err(Error::TimestampFormat),
            },
            _ => Err(Error::TimestampFormat),
        },
    }
}

/// The meaning of a mandatory but nullable date-time text field: the
/// entry must be present; null reads as nothing.
pub open spec fn required_opt_iso_field_spec(v: SpecWire, key: Seq<char>) -> Option<
    Option<Timestamp>,
> {
    match crate::wire::spec_get(v, key) {
        None => None,
        Some(SpecWire::Null) => Some(None),
        Some(w) => match iso_decode_spec(w) {
            Some(t) => Some(Some(t)),
            None => None,
        },
    }
}

/// Decodes a mandatory but nullable record field holding standard
/// date-time text.
pub fn decode_required_opt_iso_field(v: &WireValue, key: &str) -> (r: Result<
    Option<Timestamp>,
    Error,
>)
    ensures
        match r {
            Ok(t) => required_opt_iso_field_spec(v@, key@) == Some(t) && (t matches Some(x)
                ==> x.wf()),
            Err(e) => required_opt_iso_field_spec(v@, key@) is None && e
                == Error::TimestampFormat,
        },
{
    match crate::wire::get_field(v, key) {
        None => Err(Error::TimestampFormat),
        Some(w) => match w {
            WireValue::Null => Ok(None),
            WireValue::Text(s) => match parse_iso_datetime(s.as_str()) {
                Some(t) => Ok(Some(t)),
                None => Err(Error::TimestampFormat),
            },
            _ => Err(Error::TimestampFormat),
        },
    }
}

/// What encoding a timestamp means: the standard date-time text of its
/// instant, where the instant is formattable at all.
pub open spec fn timestamp_encode_spec(t: Timestamp) -> Option<Seq<char>> {
    iso_datetime_format(t.seconds as int, t.nanos as int)
}

/// Encodes a timestamp as standard date-time text; the numeric wire form
/// is never re-emitted. Fails with the timestamp format error exactly
/// when the instant lies outside the formattable range.
pub fn serialize(t: &Timestamp) -> (r: Result<String, Error>)
    ensures
        match r {
            Ok(s) => timestamp_encode_spec(*t) == Some(s@),
            Err(e) => timestamp_encode_spec(*t) is None && e == Error::TimestampFormat,
        },
{
    match format_iso_datetime(t) {
        Some(s) => Ok(s),
        None => Err(Error::TimestampFormat),
    }
}

} // verus!
