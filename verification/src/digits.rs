//! Decimal, hexadecimal and octal digits of integers, as ASCII bytes.

use vstd::prelude::*;

verus! {

/// The ASCII digit that stands for a value below sixteen, in lower case.
pub open spec fn digit_char(d: int) -> u8 {
    if d < 10 {
        (48 + d) as u8
    } else {
        (87 + d) as u8
    }
}

/// Whether `c` is one of the ASCII digits `0` to `9`.
pub open spec fn is_decimal_digit(c: u8) -> bool {
    48 <= c <= 57
}

/// The decimal digits of `n`, most significant first, without leading zeros.
pub open spec fn decimal(n: nat) -> Seq<u8>
    decreases n,
{
    if n < 10 {
        seq![digit_char(n as int)]
    } else {
        decimal(n / 10).push(digit_char((n % 10) as int))
    }
}

/// The decimal digits of `v`, after a minus sign where `v` is negative.
pub open spec fn signed_decimal(v: int) -> Seq<u8> {
    if v < 0 {
        seq![45u8] + decimal((-v) as nat)
    } else {
        decimal(v as nat)
    }
}

/// The hexadecimal digits of `n` in lower case, most significant first,
/// without leading zeros.
pub open spec fn hex(n: nat) -> Seq<u8>
    decreases n,
{
    if n < 16 {
        seq![digit_char(n as int)]
    } else {
        hex(n / 16).push(digit_char((n % 16) as int))
    }
}

/// The three octal digits of a byte.
pub open spec fn octal3(v: u8) -> Seq<u8> {
    seq![digit_char(v as int / 64), digit_char((v as int / 8) % 8), digit_char(v as int % 8)]
}

/// The four lower-case hexadecimal digits of a 16-bit value.
pub open spec fn hex4(v: u16) -> Seq<u8> {
    seq![
        digit_char(v as int / 4096),
        digit_char((v as int / 256) % 16),
        digit_char((v as int / 16) % 16),
        digit_char(v as int % 16),
    ]
}

/// The value of an octal digit, if `c` is one.
pub open spec fn octal_digit_value(c: u8) -> Option<int> {
    if 48 <= c <= 55 {
        Some(c as int - 48)
    } else {
        None
    }
}

/// The value of a lower-case hexadecimal digit, if `c` is one.
pub open spec fn hex_digit_value(c: u8) -> Option<int> {
    if 48 <= c <= 57 {
        Some(c as int - 48)
    } else if 97 <= c <= 102 {
        Some(c as int - 87)
    } else {
        None
    }
}

/// Every byte of a decimal numeral is a digit.
pub proof fn lemma_decimal_is_digits(n: nat)
    ensures
        decimal(n).len() >= 1,
        forall|i: int| 0 <= i < decimal(n).len() ==> is_decimal_digit(#[trigger] decimal(n)[i]),
    decreases n,
{
    if n >= 10 {
        lemma_decimal_is_digits(n / 10);
    }
}

/// A signed decimal numeral holds digits and at most a leading minus sign.
pub proof fn lemma_signed_decimal_chars(v: int)
    ensures
        signed_decimal(v).len() >= 1,
        forall|i: int|
            0 <= i < signed_decimal(v).len() ==> {
                let c = #[trigger] signed_decimal(v)[i];
                is_decimal_digit(c) || (c == 45 && i == 0 && v < 0)
            },
{
    if v < 0 {
        lemma_decimal_is_digits((-v) as nat);
    } else {
        lemma_decimal_is_digits(v as nat);
    }
}

/// The ASCII digit for `d`, which is below sixteen.
pub fn digit_byte(d: u8) -> (c: u8)
    requires
        d < 16,
    ensures
        c == digit_char(d as int),
{
    if d < 10 {
        48 + d
    } else {
        87 + d
    }
}

/// Appends the decimal digits of `v`.
pub fn write_decimal(w: &mut Vec<u8>, v: u64)
    ensures
        final(w)@ == old(w)@ + decimal(v as nat),
    decreases v,
{
    if v >= 10 {
        write_decimal(w, v / 10);
    }
    w.push(digit_byte((v % 10) as u8));
}

/// Appends the decimal digits of `v`, after a minus sign where it is negative.
pub fn write_signed_decimal(w: &mut Vec<u8>, v: i64)
    ensures
        final(w)@ == old(w)@ + signed_decimal(v as int),
{
    if v < 0 {
        w.push(45u8);
        if v == i64::MIN {
            write_decimal(w, 9223372036854775808u64);
        } else {
            write_decimal(w, (-v) as u64);
        }
    } else {
        write_decimal(w, v as u64);
    }
}

/// Appends the lower-case hexadecimal digits of `v`, without leading zeros.
pub fn write_hex(w: &mut Vec<u8>, v: u64)
    ensures
        final(w)@ == old(w)@ + hex(v as nat),
    decreases v,
{
    if v >= 16 {
        write_hex(w, v / 16);
    }
    w.push(digit_byte((v % 16) as u8));
}

/// Appends the three octal digits of `v`.
pub fn write_octal3(w: &mut Vec<u8>, v: u8)
    ensures
        final(w)@ == old(w)@ + octal3(v),
{
    w.push(digit_byte(v / 64));
    w.push(digit_byte((v / 8) % 8));
    w.push(digit_byte(v % 8));
}

/// Appends the four lower-case hexadecimal digits of `v`.
pub fn write_hex4(w: &mut Vec<u8>, v: u16)
    ensures
        final(w)@ == old(w)@ + hex4(v),
{
    w.push(digit_byte((v / 4096) as u8));
    w.push(digit_byte(((v / 256) % 16) as u8));
    w.push(digit_byte(((v / 16) % 16) as u8));
    w.push(digit_byte((v % 16) as u8));
}

} // verus!
