//! The integer side of colors: splitting packed hexadecimal colors into
//! their byte components.

use vstd::prelude::*;

verus! {

/// Splits a `u32` whose last three bytes are an rgb triple into the red,
/// green and blue bytes.
///
/// ```ignore rust
/// hex_rgb_bytes(0xFF5500); // [0xFF, 0x55, 0x00]
/// ```
pub fn hex_rgb_bytes(v: u32) -> (r: [u8; 3])
    ensures
        r[0] == (v / 0x1_0000) % 0x100,
        r[1] == (v / 0x100) % 0x100,
        r[2] == v % 0x100,
{
    let b = v & 0xff;
    let g = (v >> 8) & 0xff;
    let r = (v >> 16) & 0xff;
    proof {
        assert(b == v % 0x100) by (bit_vector)
            requires
                b == v & 0xff,
        ;
        assert(g == (v / 0x100) % 0x100) by (bit_vector)
            requires
                g == (v >> 8) & 0xff,
        ;
        assert(r == (v / 0x1_0000) % 0x100) by (bit_vector)
            requires
                r == (v >> 16) & 0xff,
        ;
    }
    [r as u8, g as u8, b as u8]
}

/// Splits a `u32` into its four bytes, read as red, green, blue and alpha
/// from the most significant byte down.
///
/// ```ignore rust
/// hex_rgba_bytes(0xFF5500AA); // [0xFF, 0x55, 0x00, 0xAA]
/// ```
pub fn hex_rgba_bytes(v: u32) -> (r: [u8; 4])
    ensures
        r[0] == v / 0x100_0000,
        r[1] == (v / 0x1_0000) % 0x100,
        r[2] == (v / 0x100) % 0x100,
        r[3] == v % 0x100,
{
    let a = v & 0xff;
    let b = (v >> 8) & 0xff;
    let g = (v >> 16) & 0xff;
    let r = (v >> 24) & 0xff;
    proof {
        assert(a == v % 0x100) by (bit_vector)
            requires
                a == v & 0xff,
        ;
        assert(b == (v / 0x100) % 0x100) by (bit_vector)
            requires
                b == (v >> 8) & 0xff,
        ;
        assert(g == (v / 0x1_0000) % 0x100) by (bit_vector)
            requires
                g == (v >> 16) & 0xff,
        ;
        assert(r == v / 0x100_0000) by (bit_vector)
            requires
                r == (v >> 24) & 0xff,
        ;
    }
    [r as u8, g as u8, b as u8, a as u8]
}

} // verus!
