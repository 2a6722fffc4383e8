//! Decimal integer text, as the standard library reads and writes it.

use vstd::prelude::*;

verus! {

pub open spec fn is_digit(c: char) -> bool {
    '0' <= c && c <= '9'
}

pub open spec fn digit_value(c: char) -> nat {
    (c as u32 - '0' as u32) as nat
}

pub open spec fn all_digits(s: Seq<char>) -> bool {
    forall|i: int| 0 <= i < s.len() ==> is_digit(#[trigger] s[i])
}

/// The number that a run of decimal digits denotes.
pub open spec fn digits_value(s: Seq<char>) -> nat
    decreases s.len(),
{
    if s.len() == 0 {
        0
    } else {
        digits_value(s.drop_last()) * 10 + digit_value(s.last())
    }
}

/// An integer with no bound on its size: an optional sign, then one or more
/// digits.
pub open spec fn is_integer_text(s: Seq<char>) -> bool {
    unsigned_part(s).len() > 0 && all_digits(unsigned_part(s))
}

/// What follows the sign, if there is one.
pub open spec fn unsigned_part(s: Seq<char>) -> Seq<char> {
    if s.len() > 0 && (s[0] == '-' || s[0] == '+') {
        s.drop_first()
    } else {
        s
    }
}

pub open spec fn min_nat(a: nat, b: nat) -> nat {
    if a <= b {
        a
    } else {
        b
    }
}

/// The decimal digits of `n`, without leading zeros.
pub open spec fn decimal_digits(n: nat) -> Seq<char>
    decreases n,
{
    if n < 10 {
        seq![(n + '0' as u32) as char]
    } else {
        decimal_digits(n / 10).push(((n % 10) + '0' as u32) as char)
    }
}

/// The value of the digits `s[start..]`, or `cap` where the value is above
/// it. The digits may be any number.
pub fn capped_digits_value(s: &str, start: usize, cap: u64) -> (r: u64)
    requires
        start <= s@.len(),
        all_digits(s@.subrange(start as int, s@.len() as int)),
        cap <= 1000,
    ensures
        r as nat == min_nat(digits_value(s@.subrange(start as int, s@.len() as int)), cap as nat),
{
    let len = s.unicode_len();
    let ghost d = s@.subrange(start as int, s@.len() as int);
    let mut acc: u64 = 0;
    let mut i: usize = start;
    assert(d.subrange(0, 0) =~= Seq::<char>::empty());
    while i < len
        invariant
            start <= i <= len,
            len == s@.len(),
            cap <= 1000,
            d == s@.subrange(start as int, s@.len() as int),
            all_digits(d),
            acc as nat == min_nat(digits_value(d.subrange(0, i - start)), cap as nat),
        decreases len - i,
    {
        let c = s.get_char(i);
        proof {
            let p = d.subrange(0, i + 1 - start);
            assert(p.drop_last() =~= d.subrange(0, i - start));
            assert(p.last() == d[i - start]);
            assert(d[i - start] == c);
            assert(is_digit(d[i - start]));
        }
        let next: u64 = acc * 10 + (c as u32 - '0' as u32) as u64;
        acc = if next > cap { cap } else { next };
        i = i + 1;
    }
    assert(d.subrange(0, i - start) =~= d);
    acc
}

/// Whether `s` is an integer: an optional sign, then one or more digits.
pub fn is_integer(s: &str) -> (r: bool)
    ensures
        r == is_integer_text(s@),
{
    let len = s.unicode_len();
    let start: usize = if len > 0 && (s.get_char(0) == '-' || s.get_char(0) == '+') { 1 } else { 0 };
    let ghost d = unsigned_part(s@);
    assert(d =~= s@.subrange(start as int, s@.len() as int));
    if start == len {
        return false;
    }
    let mut i: usize = start;
    while i < len
        invariant
            start <= i <= len,
            len == s@.len(),
            d == s@.subrange(start as int, len as int),
            d == unsigned_part(s@),
            d.len() > 0,
            forall|k: int| 0 <= k < i - start ==> is_digit(#[trigger] d[k]),
        decreases len - i,
    {
        let c = s.get_char(i);
        if !('0' <= c && c <= '9') {
            assert(d[i - start] == c);
            assert(!is_digit(d[i - start]));
            return false;
        }
        i = i + 1;
    }
    true
}

/// Relies on the standard library's `Display` for `u8`: decimal digits
/// without leading zeros.
#[verifier::external_body]
pub(crate) fn u8_decimal(n: u8) -> (r: String)
    ensures
        r@ == decimal_digits(n as nat),
{
    n.to_string()
}

} // verus!
