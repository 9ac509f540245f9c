use lux::color::{hex_rgb_bytes, hex_rgba_bytes};

#[test]
fn hex_rgb_splits_bytes() {
    assert_eq!(hex_rgb_bytes(0xFF5500), [0xFF, 0x55, 0x00]);
    assert_eq!(hex_rgb_bytes(0x123456), [0x12, 0x34, 0x56]);
    // The first byte is not part of an rgb triple.
    assert_eq!(hex_rgb_bytes(0xAB123456), [0x12, 0x34, 0x56]);
}

#[test]
fn hex_rgba_splits_bytes() {
    assert_eq!(hex_rgba_bytes(0xFF5500AA), [0xFF, 0x55, 0x00, 0xAA]);
    assert_eq!(hex_rgba_bytes(0x00000001), [0, 0, 0, 1]);
}
