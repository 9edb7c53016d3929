//! Decimal digit strings: the shared ground for every numeric wire field
//! (page counters, epoch-second timestamps, CIDR octets and prefix lengths).

use vstd::prelude::*;

verus! {

/// True when `c` is one of the ten ASCII decimal digits.
pub open spec fn is_digit_char(c: char) -> bool {
    '0' <= c && c <= '9'
}

/// The numeric value of one decimal digit.
pub open spec fn digit_val(c: char) -> nat {
    (c as int - '0' as int) as nat
}

/// True when every character of `s` is a decimal digit.
pub open spec fn all_digits(s: Seq<char>) -> bool {
    forall|i: int| 0 <= i < s.len() ==> is_digit_char(#[trigger] s[i])
}

/// The value of a digit string read as a base-ten numeral; the empty
/// string reads as zero.
pub open spec fn digits_val(s: Seq<char>) -> nat
    decreases s.len(),
{
    if s.len() == 0 {
        0
    } else {
        digits_val(s.drop_last()) * 10 + digit_val(s.last())
    }
}

/// Extending a numeral on the right never shrinks its value.
pub proof fn lemma_digits_val_prefix(s: Seq<char>, i: int)
    requires
        0 <= i <= s.len(),
    ensures
        digits_val(s.take(i)) <= digits_val(s),
    decreases s.len() - i,
{
    if i < s.len() {
        assert(s.take(i + 1).drop_last() =~= s.take(i));
        lemma_digits_val_prefix(s, i + 1);
    } else {
        assert(s.take(i) =~= s);
    }
}

/// Reads a digit character in executable code.
pub fn digit_of_char(c: char) -> (r: Option<u8>)
    ensures
        match r {
            Some(d) => is_digit_char(c) && d == digit_val(c) && d <= 9,
            None => !is_digit_char(c),
        },
{
    let v = c as u32;
    if 48 <= v && v <= 57 {
        Some((v - 48) as u8)
    } else {
        None
    }
}

/// Parses a non-empty all-digit string into a `u64`; reports `None` exactly
/// when the numeral's value does not fit.
pub fn parse_u64_digits(s: &str) -> (r: Option<u64>)
    requires
        all_digits(s@),
        s@.len() > 0,
    ensures
        match r {
            Some(n) => digits_val(s@) == n,
            None => digits_val(s@) > u64::MAX,
        },
{
    let len = s.unicode_len();
    let mut acc: u64 = 0;
    let mut i: usize = 0;
    while i < len
        invariant
            all_digits(s@),
            s@.len() == len,
            0 <= i <= len,
            acc == digits_val(s@.take(i as int)),
        decreases len - i,
    {
        let c = s.get_char(i);
        let d = digit_of_char(c).unwrap();
        if acc > (u64::MAX - d as u64) / 10 {
            proof {
                assert(s@.take(i + 1).drop_last() =~= s@.take(i as int));
                assert(s@.take(i + 1).last() == s@[i as int]);
                assert(digits_val(s@.take(i + 1)) > u64::MAX);
                lemma_digits_val_prefix(s@, i + 1);
            }
            return None;
        }
        proof {
            assert(s@.take(i + 1).drop_last() =~= s@.take(i as int));
            assert(s@.take(i + 1).last() == s@[i as int]);
        }
        acc = acc * 10 + d as u64;
        i = i + 1;
    }
    proof {
        assert(s@.take(len as int) =~= s@);
    }
    Some(acc)
}

/// Parses a non-empty all-digit string into a `u32`; reports `None` exactly
/// when the numeral's value does not fit.
pub fn parse_u32_digits(s: &str) -> (r: Option<u32>)
    requires
        all_digits(s@),
        s@.len() > 0,
    ensures
        match r {
            Some(n) => digits_val(s@) == n,
            None => digits_val(s@) > u32::MAX,
        },
{
    match parse_u64_digits(s) {
        Some(n) => {
            if n <= u32::MAX as u64 {
                Some(n as u32)
            } else {
                None
            }
        },
        None => None,
    }
}

/// The index of the first occurrence of `c` in `s`, or the length of `s`.
pub open spec fn char_pos(s: Seq<char>, c: char) -> int
    decreases s.len(),
{
    if s.len() == 0 {
        0
    } else if s[0] == c {
        0
    } else {
        1 + char_pos(s.drop_first(), c)
    }
}

/// The first-occurrence position lies within the string.
pub proof fn lemma_char_pos_bounds(s: Seq<char>, c: char)
    ensures
        0 <= char_pos(s, c) <= s.len(),
    decreases s.len(),
{
    if s.len() > 0 && s[0] != c {
        lemma_char_pos_bounds(s.drop_first(), c);
    }
}

/// Pins the first occurrence from a scan that saw none before `i`.
pub proof fn lemma_char_pos_at(s: Seq<char>, c: char, i: int)
    requires
        0 <= i <= s.len(),
        forall|j: int| 0 <= j < i ==> s[j] != c,
        i == s.len() || s[i] == c,
    ensures
        char_pos(s, c) == i,
    decreases i,
{
    if i > 0 {
        lemma_char_pos_at(s.drop_first(), c, i - 1);
    } else if s.len() > 0 {
        assert(s[0] == c);
    }
}

/// Scans for the first occurrence of `c` at or after `start`; reports the
/// string's length when there is none.
pub fn find_char_from(s: &str, start: usize, c: char) -> (r: usize)
    requires
        start <= s@.len(),
    ensures
        start <= r <= s@.len(),
        forall|j: int| start <= j < r ==> s@[j] != c,
        r < s@.len() ==> s@[r as int] == c,
{
    let len = s.unicode_len();
    let mut i: usize = start;
    while i < len
        invariant_except_break
            s@.len() == len,
            start <= i <= len,
            forall|j: int| start <= j < i ==> s@[j] != c,
        ensures
            s@.len() == len,
            start <= i <= len,
            forall|j: int| start <= j < i ==> s@[j] != c,
            i < len ==> s@[i as int] == c,
        decreases len - i,
    {
        if s.get_char(i) == c {
            break ;
        }
        i = i + 1;
    }
    i
}

/// Ten to the power `e`.
pub open spec fn pow10(e: nat) -> nat
    decreases e,
{
    if e == 0 {
        1
    } else {
        10 * pow10((e - 1) as nat)
    }
}

/// Powers of ten multiply by adding exponents.
pub proof fn lemma_pow10_adds(a: nat, b: nat)
    ensures
        pow10(a) * pow10(b) == pow10(a + b),
    decreases a,
{
    if a > 0 {
        lemma_pow10_adds((a - 1) as nat, b);
        assert(pow10(a) * pow10(b) == 10 * (pow10((a - 1) as nat) * pow10(b)))
            by (nonlinear_arith)
            requires
                pow10(a) == 10 * pow10((a - 1) as nat),
        ;
        assert(10 * (pow10((a - 1) as nat) * pow10(b)) == 10 * pow10((a - 1) as nat + b));
        assert((a - 1) as nat + b == (a + b - 1) as nat);
        assert(pow10(a + b) == 10 * pow10((a + b - 1) as nat));
        assert(pow10(a) * pow10(b) == pow10(a + b));
    } else {
        assert(pow10(0) == 1);
        assert(1 * pow10(b) == pow10(b));
    }
}

/// Powers of ten grow with the exponent.
pub proof fn lemma_pow10_mono(a: nat, b: nat)
    requires
        a <= b,
    ensures
        pow10(a) <= pow10(b),
    decreases b,
{
    if a < b {
        lemma_pow10_mono(a, (b - 1) as nat);
    }
}

/// A numeral of `n` digits stays below ten to the `n`.
pub proof fn lemma_digits_val_bound(s: Seq<char>)
    requires
        all_digits(s),
    ensures
        digits_val(s) < pow10(s.len()),
    decreases s.len(),
{
    if s.len() > 0 {
        assert(all_digits(s.drop_last()));
        lemma_digits_val_bound(s.drop_last());
        assert(digit_val(s.last()) <= 9);
    }
}

/// A run of `n` zero digits.
pub open spec fn zeros(n: nat) -> Seq<char> {
    Seq::new(n, |i: int| '0')
}

/// A numeral of zero digits reads as zero.
pub proof fn lemma_digits_val_of_zeros(s: Seq<char>)
    requires
        forall|i: int| 0 <= i < s.len() ==> s[i] == '0',
    ensures
        digits_val(s) == 0,
    decreases s.len(),
{
    if s.len() > 0 {
        lemma_digits_val_of_zeros(s.drop_last());
    }
}

/// A numeral that reads as zero is all zero digits.
pub proof fn lemma_digits_val_zero_all_zeros(s: Seq<char>)
    requires
        all_digits(s),
        digits_val(s) == 0,
    ensures
        forall|i: int| 0 <= i < s.len() ==> s[i] == '0',
    decreases s.len(),
{
    if s.len() > 0 {
        assert(digit_val(s.last()) == 0);
        assert(s.last() as int == '0' as int);
        assert(s.last() == '0');
        assert(digits_val(s.drop_last()) == 0);
        assert(all_digits(s.drop_last()));
        lemma_digits_val_zero_all_zeros(s.drop_last());
        assert forall|i: int| 0 <= i < s.len() implies s[i] == '0' by {
            if i < s.len() - 1 {
                assert(s.drop_last()[i] == '0');
            }
        }
    }
}

/// Appending zero digits scales a numeral by a power of ten.
pub proof fn lemma_digits_val_append_zeros(d: Seq<char>, k: nat)
    ensures
        digits_val(d + zeros(k)) == digits_val(d) * pow10(k),
    decreases k,
{
    if k == 0 {
        assert(d + zeros(0) =~= d);
        assert(pow10(0) == 1);
        assert(digits_val(d) * 1 == digits_val(d));
    } else {
        assert((d + zeros(k)).drop_last() =~= d + zeros((k - 1) as nat));
        assert((d + zeros(k)).last() == '0');
        lemma_digits_val_append_zeros(d, (k - 1) as nat);
        assert(digit_val('0') == 0);
        assert((digits_val(d) * pow10((k - 1) as nat)) * 10 == digits_val(d) * pow10(k))
            by (nonlinear_arith)
            requires
                pow10(k) == 10 * pow10((k - 1) as nat),
        ;
    }
}

/// Checks in executable code that every character of a string is the zero
/// digit.
pub fn all_zero_digits(s: &str) -> (r: bool)
    ensures
        r == (forall|i: int| 0 <= i < s@.len() ==> s@[i] == '0'),
{
    let len = s.unicode_len();
    let mut i: usize = 0;
    while i < len
        invariant
            s@.len() == len,
            0 <= i <= len,
            forall|j: int| 0 <= j < i ==> s@[j] == '0',
        decreases len - i,
    {
        if s.get_char(i) != '0' {
            return false;
        }
        i = i + 1;
    }
    true
}

/// Parses a non-empty all-digit string exactly up to `cap`; a numeral at
/// or beyond the cap reads as the cap itself.
pub fn parse_digits_capped(s: &str, cap: u128) -> (r: u128)
    requires
        all_digits(s@),
        s@.len() > 0,
        cap <= 0xFFFF_FFFF_FFFF_FFFF_FFFFu128,
    ensures
        digits_val(s@) < cap ==> r == digits_val(s@),
        digits_val(s@) >= cap ==> r == cap,
{
    let len = s.unicode_len();
    let mut acc: u128 = 0;
    let mut i: usize = 0;
    while i < len
        invariant
            all_digits(s@),
            s@.len() == len,
            0 <= i <= len,
            cap <= 0xFFFF_FFFF_FFFF_FFFF_FFFFu128,
            digits_val(s@.take(i as int)) < cap ==> acc == digits_val(s@.take(i as int)),
            digits_val(s@.take(i as int)) >= cap ==> acc == cap,
            acc <= cap,
        decreases len - i,
    {
        proof {
            assert(s@.take(i + 1).drop_last() =~= s@.take(i as int));
            assert(s@.take(i + 1).last() == s@[i as int]);
        }
        let c = s.get_char(i);
        let d = digit_of_char(c).unwrap();
        if acc >= cap {
            // The value can only grow as digits are appended.
            proof {
                assert(digits_val(s@.take(i + 1)) >= digits_val(s@.take(i as int)));
            }
            acc = cap;
        } else {
            let v = acc * 10 + d as u128;
            if v >= cap {
                acc = cap;
            } else {
                acc = v;
            }
        }
        i = i + 1;
    }
    proof {
        assert(s@.take(len as int) =~= s@);
    }
    acc
}

/// Computes a small power of ten.
pub fn pow10_u32(e: usize) -> (r: u32)
    requires
        e <= 9,
    ensures
        r == pow10(e as nat),
{
    let mut r: u32 = 1;
    let mut i: usize = 0;
    while i < e
        invariant
            0 <= i <= e <= 9,
            r == pow10(i as nat),
        decreases e - i,
    {
        proof {
            lemma_pow10_mono(i as nat, 8);
            reveal_with_fuel(pow10, 10);
            assert(pow10(8) == 100_000_000);
        }
        r = r * 10;
        i = i + 1;
    }
    r
}

/// Checks in executable code that every character of a string, if any, is
/// a digit.
pub fn check_digits(s: &str) -> (r: bool)
    ensures
        r == all_digits(s@),
{
    let len = s.unicode_len();
    let mut i: usize = 0;
    while i < len
        invariant
            s@.len() == len,
            0 <= i <= len,
            forall|j: int| 0 <= j < i ==> is_digit_char(#[trigger] s@[j]),
        decreases len - i,
    {
        let c = s.get_char(i);
        if digit_of_char(c).is_none() {
            return false;
        }
        i = i + 1;
    }
    true
}

/// Checks in executable code that a string is non-empty and all digits.
pub fn is_all_digits(s: &str) -> (r: bool)
    ensures
        r == (all_digits(s@) && s@.len() > 0),
{
    let len = s.unicode_len();
    if len == 0 {
        return false;
    }
    let mut i: usize = 0;
    while i < len
        invariant
            s@.len() == len,
            0 <= i <= len,
            forall|j: int| 0 <= j < i ==> is_digit_char(#[trigger] s@[j]),
        decreases len - i,
    {
        let c = s.get_char(i);
        if digit_of_char(c).is_none() {
            return false;
        }
        i = i + 1;
    }
    true
}

} // verus!
