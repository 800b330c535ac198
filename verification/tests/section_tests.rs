use rw_parser::{DecodeError, PaletteType, PlatformType, RasterFormat, RwSections};

#[test]
fn section_codes_round_trip_through_the_enum() {
    for s in [
        RwSections::RwStruct,
        RwSections::RwExtension,
        RwSections::RwTexture,
        RwSections::RwMaterial,
        RwSections::RwMaterialList,
        RwSections::RwFrameList,
        RwSections::RwGeometry,
        RwSections::RwClump,
        RwSections::RwAtomic,
        RwSections::RwTextureNative,
        RwSections::RwTextureDictionary,
        RwSections::RwGeometryList,
        RwSections::RwSkin,
        RwSections::RwAnim,
        RwSections::RwNodeName,
    ] {
        assert_eq!(RwSections::from_code(s.code()), Some(s));
    }
    assert_eq!(RwSections::RwClump.code(), 0x0010);
    assert_eq!(RwSections::RwSkin.code(), 0x0116);
    assert_eq!(RwSections::from_code(0xDEAD_BEEF), None);
}

#[test]
fn image_format_codes_match_the_wire_values() {
    assert_eq!(PaletteType::PaletteNone.code(), 0);
    assert_eq!(PaletteType::Palette4.code(), 1);
    assert_eq!(PaletteType::Palette8.code(), 2);
    assert_eq!(PlatformType::D3d8.code(), 8);
    assert_eq!(PlatformType::D3d9.code(), 9);
    assert_eq!(RasterFormat::Raster565.code(), 0x02);
    assert_eq!(RasterFormat::Raster555.code(), 0x0A);
}

#[test]
fn decode_errors_describe_themselves() {
    assert_eq!(DecodeError::Truncated.describe(), "unexpected end of input");
    assert_eq!(DecodeError::InvalidIndex.describe(), "invalid back-reference index");
    assert_eq!(
        DecodeError::UnsupportedFormat.describe(),
        "unsupported animation package format"
    );
}

#[test]
fn section_headers_compare_by_fields() {
    let a = rw_parser::RwSectionHeader { section_type: 1, section_size: 2, version_number: 3 };
    let b = rw_parser::RwSectionHeader { section_type: 1, section_size: 2, version_number: 3 };
    assert_eq!(a, b);
}

#[test]
fn rw_file_reads_headers_and_exposes_its_stream() {
    let mut buf = Vec::new();
    buf.extend_from_slice(&0x0010u32.to_le_bytes());
    buf.extend_from_slice(&24u32.to_le_bytes());
    buf.extend_from_slice(&0x1803FFFFu32.to_le_bytes());
    buf.extend_from_slice(&7u32.to_le_bytes());
    let mut file = rw_parser::RwFile::new(&buf);
    let h = file.read_section_header().unwrap();
    assert_eq!(h.section_type, 0x0010);
    assert_eq!(h.section_size, 24);
    assert_eq!(h.version_number, 0x1803FFFF);
    assert_eq!(file.get_stream().get_position(), 12);
    assert_eq!(file.get_stream().read_u32(), Ok(7));
    assert_eq!(
        file.read_section_header().unwrap_err(),
        rw_parser::DecodeError::Truncated
    );
}
