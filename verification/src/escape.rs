//! The two string-literal forms of a resource script: narrow literals, which
//! escape single bytes in octal, and wide literals, which escape 16-bit units
//! in hexadecimal.

use crate::digits::{digit_char, hex4, hex_digit_value, octal3, octal_digit_value, write_hex4, write_octal3};
use vstd::prelude::*;
use vstd::string::StringSliceAdditionalSpecFns;

verus! {

/// Whether a byte of a narrow literal is written as an escape: the control
/// characters, the backslash, the double quote and DEL.
pub open spec fn narrow_byte_needs_escape(v: u8) -> bool {
    v <= 31 || v == 92 || v == 34 || v == 127
}

/// What one byte becomes inside a narrow literal.
pub open spec fn narrow_byte_text(v: u8) -> Seq<u8> {
    if narrow_byte_needs_escape(v) {
        seq![92u8] + octal3(v)
    } else {
        seq![v]
    }
}

/// What a byte string becomes between the quotes of a narrow literal.
pub open spec fn narrow_escaped(bytes: Seq<u8>) -> Seq<u8>
    decreases bytes.len(),
{
    if bytes.len() == 0 {
        Seq::empty()
    } else {
        narrow_escaped(bytes.drop_last()) + narrow_byte_text(bytes.last())
    }
}

/// The narrow literal for a byte string, quotes included.
pub open spec fn narrow_str_text(bytes: Seq<u8>) -> Seq<u8> {
    seq![34u8] + narrow_escaped(bytes) + seq![34u8]
}

/// Whether a 16-bit unit of a wide literal is written as an escape: all but
/// printable ASCII, and of that the backslash and the double quote.
pub open spec fn wide_unit_needs_escape(v: u16) -> bool {
    v < 32 || v > 126 || v == 92 || v == 34
}

/// What one 16-bit unit becomes inside a wide literal. The backslash is
/// doubled; every other escaped unit is written as `\x` and four digits.
pub open spec fn wide_unit_text(v: u16) -> Seq<u8> {
    if v == 92 {
        seq![92u8, 92u8]
    } else if wide_unit_needs_escape(v) {
        seq![92u8, 120u8] + hex4(v)
    } else {
        seq![v as u8]
    }
}

/// What a string of 16-bit units becomes between the quotes of a wide literal.
pub open spec fn wide_escaped(units: Seq<u16>) -> Seq<u8>
    decreases units.len(),
{
    if units.len() == 0 {
        Seq::empty()
    } else {
        wide_escaped(units.drop_last()) + wide_unit_text(units.last())
    }
}

/// The wide literal for a string of 16-bit units: the marker `L`, then the
/// quoted text.
pub open spec fn wide_str_text(units: Seq<u16>) -> Seq<u8> {
    seq![76u8, 34u8] + wide_escaped(units) + seq![34u8]
}

/// Whether every unit is plain ASCII.
pub open spec fn all_ascii(units: Seq<u16>) -> bool {
    forall|i: int| 0 <= i < units.len() ==> #[trigger] units[i] <= 127
}

/// The units as bytes, each cut to its low eight bits.
pub open spec fn low_bytes(units: Seq<u16>) -> Seq<u8> {
    Seq::new(units.len(), |i: int| (units[i] % 256) as u8)
}

/// The literal for a string of 16-bit units that prefers the narrow form: it
/// is narrow whenever every unit is plain ASCII, and wide otherwise.
pub open spec fn prefer_narrow_text(units: Seq<u16>) -> Seq<u8> {
    if all_ascii(units) {
        narrow_str_text(low_bytes(units))
    } else {
        wide_str_text(units)
    }
}

/// Reads back what stands between the quotes of a narrow literal: a
/// backslash opens an escape of three octal digits, any other byte stands
/// for itself. `None` where an escape is cut short or names no byte.
pub open spec fn narrow_unescaped(text: Seq<u8>) -> Option<Seq<u8>>
    decreases text.len(),
{
    if text.len() == 0 {
        Some(Seq::empty())
    } else if text[0] == 92 {
        if text.len() >= 4 {
            match (octal_digit_value(text[1]), octal_digit_value(text[2]), octal_digit_value(text[3])) {
                (Some(a), Some(b), Some(c)) => {
                    if a * 64 + b * 8 + c < 256 {
                        match narrow_unescaped(text.skip(4)) {
                            Some(rest) => Some(seq![(a * 64 + b * 8 + c) as u8] + rest),
                            None => None,
                        }
                    } else {
                        None
                    }
                },
                _ => None,
            }
        } else {
            None
        }
    } else {
        match narrow_unescaped(text.skip(1)) {
            Some(rest) => Some(seq![text[0]] + rest),
            None => None,
        }
    }
}

/// Reads back a narrow literal, quotes included.
pub open spec fn narrow_str_parsed(text: Seq<u8>) -> Option<Seq<u8>> {
    if text.len() >= 2 && text[0] == 34 && text.last() == 34 {
        narrow_unescaped(text.subrange(1, text.len() - 1))
    } else {
        None
    }
}

/// Reads back what stands between the quotes of a wide literal: two
/// backslashes stand for one, `\x` opens an escape of four hexadecimal
/// digits, any other byte stands for the unit of the same value.
pub open spec fn wide_unescaped(text: Seq<u8>) -> Option<Seq<u16>>
    decreases text.len(),
{
    if text.len() == 0 {
        Some(Seq::empty())
    } else if text[0] == 92 {
        if text.len() >= 2 && text[1] == 92 {
            match wide_unescaped(text.skip(2)) {
                Some(rest) => Some(seq![92u16] + rest),
                None => None,
            }
        } else if text.len() >= 6 && text[1] == 120 {
            match (
                hex_digit_value(text[2]),
                hex_digit_value(text[3]),
                hex_digit_value(text[4]),
                hex_digit_value(text[5]),
            ) {
                (Some(a), Some(b), Some(c), Some(d)) => match wide_unescaped(text.skip(6)) {
                    Some(rest) => Some(seq![(a * 4096 + b * 256 + c * 16 + d) as u16] + rest),
                    None => None,
                },
                _ => None,
            }
        } else {
            None
        }
    } else {
        match wide_unescaped(text.skip(1)) {
            Some(rest) => Some(seq![text[0] as u16] + rest),
            None => None,
        }
    }
}

/// Reads back a wide literal, marker and quotes included.
pub open spec fn wide_str_parsed(text: Seq<u8>) -> Option<Seq<u16>> {
    if text.len() >= 3 && text[0] == 76 && text[1] == 34 && text.last() == 34 {
        wide_unescaped(text.subrange(2, text.len() - 1))
    } else {
        None
    }
}

/// Escaping a concatenation escapes its parts.
pub proof fn lemma_narrow_escaped_concat(a: Seq<u8>, b: Seq<u8>)
    ensures
        narrow_escaped(a + b) == narrow_escaped(a) + narrow_escaped(b),
    decreases b.len(),
{
    if b.len() == 0 {
        assert(a + b =~= a);
    } else {
        assert((a + b).drop_last() =~= a + b.drop_last());
        lemma_narrow_escaped_concat(a, b.drop_last());
    }
}

/// Escaping a concatenation escapes its parts.
pub proof fn lemma_wide_escaped_concat(a: Seq<u16>, b: Seq<u16>)
    ensures
        wide_escaped(a + b) == wide_escaped(a) + wide_escaped(b),
    decreases b.len(),
{
    if b.len() == 0 {
        assert(a + b =~= a);
    } else {
        assert((a + b).drop_last() =~= a + b.drop_last());
        lemma_wide_escaped_concat(a, b.drop_last());
    }
}

proof fn lemma_narrow_unescaped_step(v: u8, tail: Seq<u8>)
    requires
        narrow_unescaped(tail) is Some,
    ensures
        narrow_unescaped(narrow_byte_text(v) + tail) == Some(
            seq![v] + narrow_unescaped(tail).unwrap(),
        ),
{
    let text = narrow_byte_text(v) + tail;
    if narrow_byte_needs_escape(v) {
        assert(text.skip(4) =~= tail);
        assert(text[0] == 92);
        assert(text[1] == digit_char(v as int / 64));
        assert(text[2] == digit_char((v as int / 8) % 8));
        assert(text[3] == digit_char(v as int % 8));
    } else {
        assert(text.skip(1) =~= tail);
        assert(text[0] == v);
    }
}

proof fn lemma_narrow_unescaped_escaped(bytes: Seq<u8>)
    ensures
        narrow_unescaped(narrow_escaped(bytes)) == Some(bytes),
    decreases bytes.len(),
{
    if bytes.len() > 0 {
        let head = seq![bytes[0]];
        let rest = bytes.skip(1);
        assert(bytes =~= head + rest);
        lemma_narrow_escaped_concat(head, rest);
        assert(narrow_escaped(head) =~= narrow_byte_text(bytes[0])) by {
            reveal_with_fuel(narrow_escaped, 2);
        }
        lemma_narrow_unescaped_escaped(rest);
        lemma_narrow_unescaped_step(bytes[0], narrow_escaped(rest));
    }
}

/// Reading back the narrow literal of a byte string gives that byte string.
pub proof fn lemma_narrow_round_trip(bytes: Seq<u8>)
    ensures
        narrow_str_parsed(narrow_str_text(bytes)) == Some(bytes),
{
    let text = narrow_str_text(bytes);
    assert(text.subrange(1, text.len() - 1) =~= narrow_escaped(bytes));
    lemma_narrow_unescaped_escaped(bytes);
}

proof fn lemma_hex4_reads_back(v: u16)
    ensures
        hex_digit_value(hex4(v)[0]) == Some(v as int / 4096),
        hex_digit_value(hex4(v)[1]) == Some((v as int / 256) % 16),
        hex_digit_value(hex4(v)[2]) == Some((v as int / 16) % 16),
        hex_digit_value(hex4(v)[3]) == Some(v as int % 16),
        (v as int / 4096) * 4096 + ((v as int / 256) % 16) * 256 + ((v as int / 16) % 16) * 16 + (
        v as int % 16) == v,
{
}

proof fn lemma_wide_unescaped_hex(v: u16, tail: Seq<u8>)
    requires
        wide_unescaped(tail) is Some,
        v != 92,
    ensures
        wide_unescaped(seq![92u8, 120u8] + hex4(v) + tail) == Some(
            seq![v] + wide_unescaped(tail).unwrap(),
        ),
{
    let text = seq![92u8, 120u8] + hex4(v) + tail;
    lemma_hex4_reads_back(v);
    assert(text.skip(6) =~= tail);
    assert(text[0] == 92 && text[1] == 120);
    assert(text[2] == hex4(v)[0]);
    assert(text[3] == hex4(v)[1]);
    assert(text[4] == hex4(v)[2]);
    assert(text[5] == hex4(v)[3]);
}

proof fn lemma_wide_unescaped_step(v: u16, tail: Seq<u8>)
    requires
        wide_unescaped(tail) is Some,
    ensures
        wide_unescaped(wide_unit_text(v) + tail) == Some(seq![v] + wide_unescaped(tail).unwrap()),
{
    let text = wide_unit_text(v) + tail;
    if v == 92 {
        assert(text.skip(2) =~= tail);
        assert(text[0] == 92 && text[1] == 92);
    } else if wide_unit_needs_escape(v) {
        lemma_wide_unescaped_hex(v, tail);
    } else {
        assert(text.skip(1) =~= tail);
        assert(text[0] == v as u8);
    }
}

proof fn lemma_wide_unescaped_escaped(units: Seq<u16>)
    ensures
        wide_unescaped(wide_escaped(units)) == Some(units),
    decreases units.len(),
{
    if units.len() > 0 {
        let head = seq![units[0]];
        let rest = units.skip(1);
        assert(units =~= head + rest);
        lemma_wide_escaped_concat(head, rest);
        assert(wide_escaped(head) =~= wide_unit_text(units[0])) by {
            reveal_with_fuel(wide_escaped, 2);
        }
        lemma_wide_unescaped_escaped(rest);
        lemma_wide_unescaped_step(units[0], wide_escaped(rest));
    }
}

/// Reading back the wide literal of a string of units gives that string.
pub proof fn lemma_wide_round_trip(units: Seq<u16>)
    ensures
        wide_str_parsed(wide_str_text(units)) == Some(units),
{
    let text = wide_str_text(units);
    assert(text.subrange(2, text.len() - 1) =~= wide_escaped(units));
    lemma_wide_unescaped_escaped(units);
}

/// Whether a byte of a narrow literal is written as an escape.
pub fn need_escape_narrow_byte(v: &u8) -> (r: bool)
    ensures
        r == narrow_byte_needs_escape(*v),
{
    *v <= 31 || *v == 92 || *v == 34 || *v == 127
}

/// Whether a unit of a wide literal is written as an escape.
pub fn need_escape_wide_u16(v: &u16) -> (r: bool)
    ensures
        r == wide_unit_needs_escape(*v),
{
    *v < 32 || *v > 126 || *v == 92 || *v == 34
}

/// Appends the narrow literal for `bytes`.
pub fn write_narrow_bytes(w: &mut Vec<u8>, bytes: &[u8])
    ensures
        final(w)@ == old(w)@ + narrow_str_text(bytes@),
{
    let ghost start = w@;
    w.push(34u8);
    let mut i: usize = 0;
    while i < bytes.len()
        invariant
            i <= bytes.len(),
            w@ == start + seq![34u8] + narrow_escaped(bytes@.take(i as int)),
        decreases bytes.len() - i,
    {
        let v: u8 = bytes[i];
        proof {
            assert(bytes@.take(i + 1).drop_last() =~= bytes@.take(i as int));
        }
        if need_escape_narrow_byte(&v) {
            w.push(92u8);
            write_octal3(w, v);
        } else {
            w.push(v);
        }
        i += 1;
    }
    proof {
        assert(bytes@.take(i as int) =~= bytes@);
    }
    w.push(34u8);
}

/// Appends the narrow literal for the UTF-8 bytes of `string`.
pub fn write_narrow_str(w: &mut Vec<u8>, string: &str)
    ensures
        final(w)@ == old(w)@ + narrow_str_text(string.spec_bytes()),
{
    write_narrow_bytes(w, string.as_bytes());
}

/// Appends the narrow literal for `string`, or for the empty string where
/// there is none.
pub fn write_mandatory_narrow_str(w: &mut Vec<u8>, string: Option<&str>)
    ensures
        final(w)@ == old(w)@ + match string {
            Some(s) => narrow_str_text(s.spec_bytes()),
            None => narrow_str_text(Seq::empty()),
        },
{
    match string {
        Some(s) => write_narrow_str(w, s),
        None => {
            w.push(34u8);
            w.push(34u8);
        },
    }
}

/// Appends the wide literal for `name`.
pub fn write_wide_os_str(w: &mut Vec<u8>, name: &[u16])
    ensures
        final(w)@ == old(w)@ + wide_str_text(name@),
{
    let ghost start = w@;
    w.push(76u8);
    w.push(34u8);
    let mut i: usize = 0;
    while i < name.len()
        invariant
            i <= name.len(),
            w@ == start + seq![76u8, 34u8] + wide_escaped(name@.take(i as int)),
        decreases name.len() - i,
    {
        let ch: u16 = name[i];
        proof {
            assert(name@.take(i + 1).drop_last() =~= name@.take(i as int));
        }
        if ch == 92 {
            w.push(92u8);
            w.push(92u8);
        } else if !need_escape_wide_u16(&ch) {
            w.push(ch as u8);
        } else {
            w.push(92u8);
            w.push(120u8);
            write_hex4(w, ch);
        }
        i += 1;
    }
    proof {
        assert(name@.take(i as int) =~= name@);
    }
    w.push(34u8);
}

/// Appends the literal for `name` that prefers the narrow form.
pub fn write_os_str_prefer_narrow(w: &mut Vec<u8>, name: &[u16])
    ensures
        final(w)@ == old(w)@ + prefer_narrow_text(name@),
{
    let mut narrow_chars: Vec<u8> = Vec::new();
    let mut narrow = true;
    let mut i: usize = 0;
    while i < name.len() && narrow
        invariant
            i <= name.len(),
            narrow ==> all_ascii(name@.take(i as int)),
            narrow ==> narrow_chars@ == low_bytes(name@.take(i as int)),
            !narrow ==> !all_ascii(name@),
        decreases name.len() - i + if narrow { 1int } else { 0int },
    {
        let ch: u16 = name[i];
        if ch <= 127 {
            narrow_chars.push(ch as u8);
            i += 1;
        } else {
            narrow = false;
        }
    }
    if narrow {
        proof {
            assert(name@.take(i as int) =~= name@);
        }
        write_narrow_bytes(w, narrow_chars.as_slice());
    } else {
        write_wide_os_str(w, name);
    }
}

} // verus!
