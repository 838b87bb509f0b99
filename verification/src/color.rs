//! Hex/RGB color conversions: packing 8-bit channels into an unsigned
//! integer, most-significant channel first, and unpacking them again.

use vstd::prelude::*;

verus! {

/// The 24-bit packing of three 8-bit channels, red in the highest byte.
pub open spec fn rgb_hex(r: u8, g: u8, b: u8) -> u32 {
    ((r as u32) << 16) | ((g as u32) << 8) | (b as u32)
}

/// The 32-bit packing of four 8-bit channels, in order red, green, blue,
/// alpha, most-significant byte first.
pub open spec fn rgba_hex(r: u8, g: u8, b: u8, a: u8) -> u32 {
    ((r as u32) << 24) | ((g as u32) << 16) | ((b as u32) << 8) | (a as u32)
}

/// The channels encoded in the lowest 24 bits of a packed value; the
/// highest byte is not significant.
pub open spec fn hex_rgb(val: u32) -> (u8, u8, u8) {
    (((val >> 16) & 0xff) as u8, ((val >> 8) & 0xff) as u8, (val & 0xff) as u8)
}

/// The four channels encoded in a 32-bit packed value.
pub open spec fn hex_rgba(val: u32) -> (u8, u8, u8, u8) {
    (
        ((val >> 24) & 0xff) as u8,
        ((val >> 16) & 0xff) as u8,
        ((val >> 8) & 0xff) as u8,
        (val & 0xff) as u8,
    )
}

/// Convert rgb to hex: pack three 8-bit channels into a 24-bit value.
pub fn rgb2hex(r: u8, g: u8, b: u8) -> (h: u32)
    ensures
        h == rgb_hex(r, g, b),
        h <= 0xffffff,
{
    proof {
        assert(((r as u32) << 16) | ((g as u32) << 8) | (b as u32) <= 0xffffff) by (bit_vector);
    }
    ((r as u32) << 16) | ((g as u32) << 8) | (b as u32)
}

/// Convert rgba to hex: pack four 8-bit channels into a 32-bit value.
pub fn rgba2hex(r: u8, g: u8, b: u8, a: u8) -> (h: u32)
    ensures
        h == rgba_hex(r, g, b, a),
{
    ((r as u32) << 24) | ((g as u32) << 16) | ((b as u32) << 8) | (a as u32)
}

/// Convert hex to rgb: unpack the lowest 24 bits into three channels.
pub fn hex2rgb(val: u32) -> (rgb: (u8, u8, u8))
    ensures
        rgb == hex_rgb(val),
{
    (((val >> 16) & 0xff) as u8, ((val >> 8) & 0xff) as u8, (val & 0xff) as u8)
}

/// Convert hex to rgba: unpack a 32-bit value into four channels.
pub fn hex2rgba(val: u32) -> (rgba: (u8, u8, u8, u8))
    ensures
        rgba == hex_rgba(val),
{
    (
        ((val >> 24) & 0xff) as u8,
        ((val >> 16) & 0xff) as u8,
        ((val >> 8) & 0xff) as u8,
        (val & 0xff) as u8,
    )
}

/// Unpacking a packed 24-bit value recovers exactly the channels that were
/// packed, for every choice of channels.
pub proof fn lemma_rgb_hex_round_trip(r: u8, g: u8, b: u8)
    ensures
        hex_rgb(rgb_hex(r, g, b)) == (r, g, b),
{
    assert(((((r as u32) << 16) | ((g as u32) << 8) | (b as u32)) >> 16) & 0xff == r as u32)
        by (bit_vector);
    assert(((((r as u32) << 16) | ((g as u32) << 8) | (b as u32)) >> 8) & 0xff == g as u32)
        by (bit_vector);
    assert((((r as u32) << 16) | ((g as u32) << 8) | (b as u32)) & 0xff == b as u32)
        by (bit_vector);
}

/// Unpacking a packed 32-bit value recovers exactly the channels that were
/// packed, for every choice of channels.
pub proof fn lemma_rgba_hex_round_trip(r: u8, g: u8, b: u8, a: u8)
    ensures
        hex_rgba(rgba_hex(r, g, b, a)) == (r, g, b, a),
{
    assert((((((r as u32) << 24) | ((g as u32) << 16) | ((b as u32) << 8) | (a as u32)) >> 24)
        & 0xff) == r as u32) by (bit_vector);
    assert((((((r as u32) << 24) | ((g as u32) << 16) | ((b as u32) << 8) | (a as u32)) >> 16)
        & 0xff) == g as u32) by (bit_vector);
    assert((((((r as u32) << 24) | ((g as u32) << 16) | ((b as u32) << 8) | (a as u32)) >> 8)
        & 0xff) == b as u32) by (bit_vector);
    assert(((((r as u32) << 24) | ((g as u32) << 16) | ((b as u32) << 8) | (a as u32)) & 0xff)
        == a as u32) by (bit_vector);
}

} // verus!
