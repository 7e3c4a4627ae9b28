//! Hexadecimal and printable renderings of numbers and bytes.

use vstd::prelude::*;
use vstd::string::*;

verus! {

/// `String::push` of the standard library: appends one character to the
/// end of the string and leaves the rest unchanged.
pub assume_specification[ String::push ](s: &mut String, ch: char)
    ensures
        final(s)@ == old(s)@.push(ch),
;

/// The sixteen upper-case hexadecimal digits, in order of value.
pub open spec fn hex_alphabet() -> Seq<char> {
    seq!['0', '1', '2', '3', '4', '5', '6', '7', '8', '9', 'A', 'B', 'C', 'D', 'E', 'F']
}

/// The digit that stands for `n`, for `n` below sixteen.
pub open spec fn hex_digit_of(n: int) -> char
    recommends
        0 <= n < 16,
{
    hex_alphabet()[n]
}

/// The two digits of a byte, high nibble first.
pub open spec fn hex_byte_text(b: u8) -> Seq<char> {
    seq![hex_digit_of(b as int / 16), hex_digit_of(b as int % 16)]
}

/// The lowest `digits` hexadecimal digits of `value`, most significant
/// first, padded with zeros on the left.
pub open spec fn hex_fixed_text(value: int, digits: nat) -> Seq<char>
    recommends
        value >= 0,
    decreases digits,
{
    if digits == 0 {
        Seq::<char>::empty()
    } else {
        hex_fixed_text(value / 16, (digits - 1) as nat).push(hex_digit_of(value % 16))
    }
}

/// The hexadecimal digits of `value` without leading zeros; a single `0`
/// for zero.
pub open spec fn hex_short_text(value: int) -> Seq<char>
    recommends
        value >= 0,
    decreases value,
{
    if value < 16 {
        seq![hex_digit_of(value)]
    } else {
        hex_short_text(value / 16).push(hex_digit_of(value % 16))
    }
}

/// The glyph shown for a byte in the text projection: the byte's own
/// character where it is printable ASCII, a dot otherwise.
pub open spec fn glyph_of(b: u8) -> char {
    if 0x20 <= b <= 0x7E {
        b as char
    } else {
        '.'
    }
}

/// Number of characters of an address label.
pub const ADDRESS_DIGITS: usize = 16;

/// The upper-case hexadecimal digit for a value below sixteen.
pub fn hex_digit(n: u8) -> (c: char)
    requires
        n < 16,
    ensures
        c == hex_digit_of(n as int),
{
    match n {
        0 => '0',
        1 => '1',
        2 => '2',
        3 => '3',
        4 => '4',
        5 => '5',
        6 => '6',
        7 => '7',
        8 => '8',
        9 => '9',
        10 => 'A',
        11 => 'B',
        12 => 'C',
        13 => 'D',
        14 => 'E',
        _ => 'F',
    }
}

/// Appends the two hexadecimal digits of `b` to `out`.
pub fn push_hex_byte(out: &mut String, b: u8)
    ensures
        final(out)@ == old(out)@ + hex_byte_text(b),
{
    out.push(hex_digit(b / 16));
    out.push(hex_digit(b % 16));
    proof {
        assert(final(out)@ =~= old(out)@ + hex_byte_text(b));
    }
}

/// Appends the lowest `digits` hexadecimal digits of `value` to `out`.
pub fn push_hex_fixed(out: &mut String, value: usize, digits: usize)
    ensures
        final(out)@ == old(out)@ + hex_fixed_text(value as int, digits as nat),
    decreases digits,
{
    if digits > 0 {
        push_hex_fixed(out, value / 16, digits - 1);
        let low: usize = value % 16;
        out.push(hex_digit(low as u8));
        proof {
            assert(final(out)@ =~= old(out)@ + hex_fixed_text(value as int, digits as nat));
        }
    } else {
        proof {
            assert(final(out)@ =~= old(out)@ + hex_fixed_text(value as int, digits as nat));
        }
    }
}

/// Appends the hexadecimal digits of `value`, without leading zeros.
pub fn push_hex_short(out: &mut String, value: usize)
    ensures
        final(out)@ == old(out)@ + hex_short_text(value as int),
    decreases value,
{
    if value >= 16 {
        push_hex_short(out, value / 16);
    }
    let low: usize = value % 16;
    out.push(hex_digit(low as u8));
    proof {
        assert(final(out)@ =~= old(out)@ + hex_short_text(value as int));
    }
}

/// The sixteen-digit label of an offset.
pub fn address_label(offset: usize) -> (r: String)
    ensures
        r@ == hex_fixed_text(offset as int, ADDRESS_DIGITS as nat),
{
    let mut out = String::new();
    push_hex_fixed(&mut out, offset, ADDRESS_DIGITS);
    proof {
        assert(out@ =~= hex_fixed_text(offset as int, ADDRESS_DIGITS as nat));
    }
    out
}

/// The glyph shown for a byte in the text projection.
pub fn glyph(b: u8) -> (c: char)
    ensures
        c == glyph_of(b),
{
    if 0x20 <= b && b <= 0x7E {
        b as char
    } else {
        '.'
    }
}

} // verus!
