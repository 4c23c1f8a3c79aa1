//! Colours given as hexadecimal numbers: `0xRRGGBB`, or `0xRRGGBBAA` when
//! the number needs more than 24 bits.
use vstd::prelude::*;

verus! {

/// Does the number carry an alpha byte: is it larger than 24 bits?
pub fn has_alpha(value: u32) -> (r: bool)
    ensures
        r == (value > 0xFFFFFF),
{
    value > 0xFFFFFF
}

/// The byte of `v` that starts `shift` bits up.
pub open spec fn byte_at(v: u32, shift: int) -> u32 {
    ((v as int / pow2_int(shift)) % 256) as u32
}

/// `2^n` for the shifts used here.
pub open spec fn pow2_int(n: int) -> int {
    if n == 24 {
        16777216
    } else if n == 16 {
        65536
    } else if n == 8 {
        256
    } else {
        1
    }
}

/// The red, green and blue bytes of a hexadecimal colour and its alpha
/// byte when it has one.
pub open spec fn hex_channels_spec(color: u32) -> (u32, u32, u32, Option<u32>) {
    if color > 0xFFFFFF {
        (byte_at(color, 24), byte_at(color, 16), byte_at(color, 8), Some(byte_at(color, 0)))
    } else {
        (byte_at(color, 16), byte_at(color, 8), byte_at(color, 0), None)
    }
}

/// Splits a hexadecimal colour into its red, green and blue bytes and,
/// when it has one, its alpha byte.
pub fn hex_channels(color: u32) -> (r: (u32, u32, u32, Option<u32>))
    ensures
        r == hex_channels_spec(color),
{
    assert((color >> 24u32) & 0xFFu32 == (color / 16777216) % 256) by (bit_vector);
    assert((color >> 16u32) & 0xFFu32 == (color / 65536) % 256) by (bit_vector);
    assert((color >> 8u32) & 0xFFu32 == (color / 256) % 256) by (bit_vector);
    assert(color & 0xFFu32 == color % 256) by (bit_vector);
    if has_alpha(color) {
        ((color >> 24) & 0xFF, (color >> 16) & 0xFF, (color >> 8) & 0xFF, Some(color & 0xFF))
    } else {
        ((color >> 16) & 0xFF, (color >> 8) & 0xFF, color & 0xFF, None)
    }
}


/// Splitting a colour into its bytes loses nothing: the bytes, shifted
/// back into place, give the colour again.
pub proof fn lemma_hex_channels_roundtrip(color: u32)
    ensures
        ({
            let (r, g, b, a) = hex_channels_spec(color);
            match a {
                Some(a) => r * 16777216 + g * 65536 + b * 256 + a == color,
                None => r * 65536 + g * 256 + b == color,
            }
        }),
{
    let c = color as int;
    assert(c == (c / 16777216 % 256) * 16777216 + (c / 65536 % 256) * 65536 + (c / 256 % 256) * 256 + c % 256) by (nonlinear_arith)
        requires
            0 <= c < 4294967296,
    ;
    if color <= 0xFFFFFF {
        assert(c / 16777216 == 0);
    }
}

} // verus!
