use rw_parser::fixed_point::f32_bits_scaled;
use rw_parser::{unpack_build, unpack_version, RwVersion};

#[test]
fn old_style_version_is_returned_unchanged() {
    // Old-style means the high 16 bits are zero: the raw value is already
    // the version.
    assert_eq!(unpack_version(0x0800), 0x0800);
    assert_eq!(unpack_version(0), 0);
    assert_eq!(unpack_version(0xFFFF), 0xFFFF);
}

#[test]
fn old_style_version_has_no_build() {
    assert_eq!(unpack_build(0x0800), 0);
    assert_eq!(unpack_build(0xFFFF), 0);
}

#[test]
fn new_style_version_unpacks() {
    // 3.6.0.3 as shipped by San Andreas assets.
    assert_eq!(unpack_version(0x1803FFFF), 0x36003);
    assert_eq!(unpack_build(0x1803FFFF), 0xFFFF);
    // 3.4.0.3 as shipped by Vice City PC assets.
    assert_eq!(unpack_version(0x1003FFFF), 0x34003);
    // 3.3.0.2 as shipped by III PC assets.
    assert_eq!(unpack_version(0x0C02FFFF), 0x33002);
}

#[test]
fn unpack_is_idempotent_on_old_style_values() {
    for v in [0u32, 1, 0x3FF, 0x8000, 0xFFFF] {
        assert_eq!(unpack_version(unpack_version(v)), unpack_version(v));
    }
}

#[test]
fn known_versions_resolve_to_release_strings() {
    let table = RwVersion::new();
    assert_eq!(
        table.get_version_string(0x36003),
        Some("RenderWare 3.6.0.3 (SA)".to_string())
    );
    assert_eq!(
        table.get_version_string(0x31000),
        Some("RenderWare 3.1.0.0 (III on PS2)".to_string())
    );
    assert_eq!(table.get_version_string(0x12345), None);
}

#[test]
fn fixed_point_samples_convert_to_exact_float_bits() {
    assert_eq!(f32::from_bits(f32_bits_scaled(4096, 12)), 1.0);
    assert_eq!(f32::from_bits(f32_bits_scaled(-4096, 12)), -1.0);
    assert_eq!(f32::from_bits(f32_bits_scaled(2048, 12)), 0.5);
    assert_eq!(f32::from_bits(f32_bits_scaled(1, 12)), 1.0 / 4096.0);
    assert_eq!(f32::from_bits(f32_bits_scaled(-32768, 12)), -8.0);
    assert_eq!(f32::from_bits(f32_bits_scaled(1024, 10)), 1.0);
    assert_eq!(f32::from_bits(f32_bits_scaled(-512, 10)), -0.5);
    assert_eq!(f32::from_bits(f32_bits_scaled(0, 12)), 0.0);
    assert_eq!(f32::from_bits(f32_bits_scaled(32767, 0)), 32767.0);
    assert_eq!(f32::from_bits(f32_bits_scaled(-32768, 0)), -32768.0);
    assert_eq!(f32::from_bits(f32_bits_scaled(100, 0)), 100.0);
    assert_eq!(f32::from_bits(f32_bits_scaled(65535, 0)), 65535.0);
}
