//! The color model: a flat four-channel byte quad, with conversions from
//! packed 32-bit integers, byte tuples and byte arrays.

use vstd::prelude::*;

verus! {

#[derive(Clone, Copy, Debug, PartialEq, Eq, Structural)]
pub struct Color {
    pub r: u8,
    pub g: u8,
    pub b: u8,
    pub a: u8,
}

/// The packed `0xRRGGBBAA` value a color stands for: red in bits 31-24,
/// green in 23-16, blue in 15-8, alpha in 7-0.
pub open spec fn packed_spec(c: Color) -> int {
    c.r * 0x1000000 + c.g * 0x10000 + c.b * 0x100 + c.a
}

impl Color {
    /// Unpacks a `0xRRGGBBAA` value into its four channels.
    pub fn from_u32(v: u32) -> (c: Color)
        ensures
            c.r == (v >> 24) & 0xff,
            c.g == (v >> 16) & 0xff,
            c.b == (v >> 8) & 0xff,
            c.a == v & 0xff,
            packed_spec(c) == v,
    {
        proof {
            assert((v >> 24) & 0xff < 256 && (v >> 16) & 0xff < 256 && (v >> 8) & 0xff < 256 && v
                & 0xff < 256) by (bit_vector);
            assert(((v >> 24) & 0xff) * 0x1000000 + ((v >> 16) & 0xff) * 0x10000 + ((v >> 8)
                & 0xff) * 0x100 + (v & 0xff) == v) by (bit_vector);
        }
        Color {
            r: ((v >> 24) & 0xff) as u8,
            g: ((v >> 16) & 0xff) as u8,
            b: ((v >> 8) & 0xff) as u8,
            a: (v & 0xff) as u8,
        }
    }

    /// Builds a color from a `(red, green, blue, alpha)` tuple.
    pub fn from_tuple(t: (u8, u8, u8, u8)) -> (c: Color)
        ensures
            c == (Color { r: t.0, g: t.1, b: t.2, a: t.3 }),
    {
        Color { r: t.0, g: t.1, b: t.2, a: t.3 }
    }

    /// Builds a color from a `[red, green, blue, alpha]` byte array.
    pub fn from_bytes(bytes: [u8; 4]) -> (c: Color)
        ensures
            c == (Color { r: bytes[0], g: bytes[1], b: bytes[2], a: bytes[3] }),
    {
        Color { r: bytes[0], g: bytes[1], b: bytes[2], a: bytes[3] }
    }
}

} // verus!
