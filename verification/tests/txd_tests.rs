use rw_parser::{DecodeError, TxdParser};

fn push_u16(buf: &mut Vec<u8>, v: u16) {
    buf.extend_from_slice(&v.to_le_bytes());
}

fn push_u32(buf: &mut Vec<u8>, v: u32) {
    buf.extend_from_slice(&v.to_le_bytes());
}

fn push_header(buf: &mut Vec<u8>, section_type: u32, section_size: u32, version: u32) {
    push_u32(buf, section_type);
    push_u32(buf, section_size);
    push_u32(buf, version);
}

fn push_name(buf: &mut Vec<u8>, name: &str, width: usize) {
    let bytes = name.as_bytes();
    buf.extend_from_slice(bytes);
    for _ in bytes.len()..width {
        buf.push(0);
    }
}

fn dictionary(natives: &[Vec<u8>]) -> Vec<u8> {
    let mut buf = Vec::new();
    push_header(&mut buf, 0x0001, 4, 0); // struct
    push_header(&mut buf, 0x0016, 0, 0); // dictionary
    push_u16(&mut buf, natives.len() as u16);
    push_u16(&mut buf, 0); // reserved
    for n in natives {
        buf.extend_from_slice(n);
    }
    push_header(&mut buf, 0x0003, 0, 0); // trailing extension, size 0
    buf
}

fn native(
    platform_id: u32,
    tag: &[u8; 4],
    compression_flags: u8,
    width: u16,
    height: u16,
    mip_rasters: &[Vec<u8>],
) -> Vec<u8> {
    let mut buf = Vec::new();
    push_header(&mut buf, 0x0001, 0, 0); // struct
    push_header(&mut buf, 0x0015, 0, 0); // texture native
    push_u32(&mut buf, platform_id);
    push_u32(&mut buf, 0x0001_1106); // filter 0x06, u-addr 1, v-addr 1, mip bit
    push_name(&mut buf, "diffuse", 32);
    push_name(&mut buf, "mask", 32);
    push_u32(&mut buf, 0x0500); // raster format: no palette bits
    buf.extend_from_slice(tag);
    push_u16(&mut buf, width);
    push_u16(&mut buf, height);
    buf.push(32); // depth
    buf.push(mip_rasters.len() as u8); // mipmap count
    buf.push(4); // raster type
    buf.push(compression_flags);
    for raster in mip_rasters {
        push_u32(&mut buf, raster.len() as u32);
        buf.extend_from_slice(raster);
    }
    push_header(&mut buf, 0x0003, 0, 0); // trailing extension, size 0
    buf
}

#[test]
fn empty_dictionary_decodes() {
    let buf = dictionary(&[]);
    let txd = TxdParser::new(&buf).parse().unwrap();
    assert_eq!(txd.texture_dictionary.texture_count, 0);
    assert!(txd.texture_dictionary.texture_natives.is_empty());
}

#[test]
fn truncated_dictionary_fails() {
    let buf = vec![1u8, 0, 0];
    let mut parser = TxdParser::new(&buf);
    assert_eq!(parser.parse().unwrap_err(), DecodeError::Truncated);
}

#[test]
fn native_metadata_is_unpacked_from_the_flag_words() {
    // Platform 9, alpha bit only: no compression, pixels stay empty.
    let buf = dictionary(&[native(9, b"8888", 0b0001, 64, 32, &[vec![0u8; 16]])]);
    let txd = TxdParser::new(&buf).parse().unwrap();
    let t = &txd.texture_dictionary.texture_natives[0];
    assert_eq!(t.platform_id, 9);
    assert_eq!(t.filter_mode, 0x06);
    assert_eq!(t.u_addressing, 1);
    assert_eq!(t.v_addressing, 1);
    assert_eq!(t.texture_name, "diffuse");
    assert_eq!(t.mask_name, "mask");
    assert_eq!(t.d3d_format, "8888");
    assert_eq!((t.width, t.height, t.depth), (64, 32, 32));
    assert_eq!(t.mipmap_count, 1);
    assert_eq!(t.raster_type, 4);
    assert!(t.alpha);
    assert!(!t.cube_texture);
    assert!(!t.auto_mip_maps);
    assert!(!t.compressed);
    assert_eq!(t.mipmaps, vec![Vec::<u8>::new()]);
}

#[test]
fn uniform_dxt1_block_decompresses_to_solid_pixels() {
    // One 4x4 BC1 block: both palette colors white, all indices 0.
    let block = vec![0xFF, 0xFF, 0xFF, 0xFF, 0, 0, 0, 0];
    let buf = dictionary(&[native(8, b"\0\0\0\0", 1, 4, 4, &[block])]);
    let txd = TxdParser::new(&buf).parse().unwrap();
    let t = &txd.texture_dictionary.texture_natives[0];
    assert_eq!(t.mipmaps.len(), 1);
    let pixels = &t.mipmaps[0];
    assert_eq!(pixels.len(), 4 * 4 * 4);
    assert!(pixels.iter().all(|&b| b == 0xFF));
}

#[test]
fn platform9_compressed_native_uses_the_pixel_format_tag() {
    // DXT1 via the tag, compressed bit (8) set; a black opaque block.
    let block = vec![0x00, 0x00, 0x00, 0x00, 0, 0, 0, 0];
    let buf = dictionary(&[native(9, b"DXT1", 0b1000, 4, 4, &[block])]);
    let txd = TxdParser::new(&buf).parse().unwrap();
    let t = &txd.texture_dictionary.texture_natives[0];
    assert!(t.compressed);
    let pixels = &t.mipmaps[0];
    assert_eq!(pixels.len(), 64);
    // Every pixel is opaque black.
    for px in pixels.chunks(4) {
        assert_eq!(px, [0, 0, 0, 0xFF]);
    }
}

#[test]
fn short_compressed_stream_degrades_to_empty_pixels() {
    // Declares 4x4 DXT1 but supplies only 4 bytes: no decode is attempted.
    let buf = dictionary(&[native(8, b"\0\0\0\0", 1, 4, 4, &[vec![0u8; 4]])]);
    let txd = TxdParser::new(&buf).parse().unwrap();
    let t = &txd.texture_dictionary.texture_natives[0];
    assert_eq!(t.mipmaps, vec![Vec::<u8>::new()]);
}

#[test]
fn only_the_first_mip_level_keeps_its_pixels() {
    let block = vec![0xFF, 0xFF, 0xFF, 0xFF, 0, 0, 0, 0];
    let tail = vec![0u8; 8];
    let buf = dictionary(&[native(8, b"\0\0\0\0", 1, 4, 4, &[block, tail])]);
    let txd = TxdParser::new(&buf).parse().unwrap();
    let t = &txd.texture_dictionary.texture_natives[0];
    assert_eq!(t.mipmap_count, 2);
    assert_eq!(t.mipmaps.len(), 1);
    assert_eq!(t.mipmaps[0].len(), 64);
}

#[test]
fn decoding_the_same_dictionary_twice_gives_identical_results() {
    let block = vec![0xFF, 0xFF, 0x00, 0x00, 0x55, 0x55, 0x55, 0x55];
    let buf = dictionary(&[native(8, b"\0\0\0\0", 1, 4, 4, &[block])]);
    let first = TxdParser::new(&buf).parse().unwrap();
    let second = TxdParser::new(&buf).parse().unwrap();
    assert_eq!(first, second);
}

#[test]
fn palettized_raster_consumes_its_palette_and_yields_empty_pixels() {
    let mut n = Vec::new();
    push_header(&mut n, 0x0001, 0, 0);
    push_header(&mut n, 0x0015, 0, 0);
    push_u32(&mut n, 8); // platform
    push_u32(&mut n, 0x0106);
    push_name(&mut n, "pal", 32);
    push_name(&mut n, "", 32);
    push_u32(&mut n, 1 << 13); // palette type 1 in bits 13-14
    n.extend_from_slice(b"\0\0\0\0");
    push_u16(&mut n, 8);
    push_u16(&mut n, 8);
    n.push(4); // depth 4: a 64-byte palette block
    n.push(1); // one mip level
    n.push(4);
    n.push(1); // compression flags nonzero, but the palette wins
    n.extend_from_slice(&[0xABu8; 64]); // palette block, consumed and discarded
    push_u32(&mut n, 32); // mip byte length
    n.extend_from_slice(&[0u8; 32]);
    push_header(&mut n, 0x0003, 0, 0);
    let buf = dictionary(&[n]);
    let txd = TxdParser::new(&buf).parse().unwrap();
    let t = &txd.texture_dictionary.texture_natives[0];
    assert_eq!(t.texture_name, "pal");
    assert_eq!(t.raster_format, 1 << 13);
    // Palette-indexed pixel reconstruction is not implemented: the pixels
    // stay empty while the stream position stays exact.
    assert_eq!(t.mipmaps, vec![Vec::<u8>::new()]);
}
