//! Decoder for RenderWare texture dictionaries (TXD): a dictionary section
//! holding texture natives with bit-packed sampler and format flags. For
//! block-compressed rasters the first mip level is decompressed to RGBA
//! through an outside block-decompression routine; palette-indexed and raw
//! rasters keep their metadata but yield empty pixel buffers.
//!
//! Every decode step is mirrored by a spec function over the byte buffer;
//! the decompressed pixels are named by an uninterpreted function of the
//! compressed data, so a decoded dictionary is the unique value determined
//! by the bytes.

use vstd::prelude::*;

use crate::byte_stream::{sat_add, spec_read_bytes, spec_read_string, spec_read_u16, spec_read_u32, spec_read_u8};
use crate::error::{mirrors_value, mirrors_view, DecodeError};
use crate::image_format_enums::{PaletteType, PlatformType};
use crate::rw_file::{spec_read_header, RwFile};
use crate::text::spec_field_text;

verus! {

broadcast use vstd::std_specs::control_flow::group_control_flow_axioms;

/// Blocks needed to cover `n` texels at 4 per block.
pub open spec fn spec_bc_blocks(n: int) -> int {
    (n + 3) / 4
}

/// Bytes per 4x4 block of each block-compression kind (1, 2 or 3).
pub open spec fn spec_bc_block_size(kind: u8) -> int {
    if kind == 1 {
        8
    } else {
        16
    }
}

/// What the outside block decompressor returns for a compressed stream of
/// the given kind and dimensions. The pixels are a function of these
/// arguments alone.
pub uninterp spec fn bc_decompressed(kind: u8, data: Seq<u8>, width: u16, height: u16) -> Seq<u8>;

/// Relies on `texpresso::Format::decompress`: fills a caller-allocated
/// RGBA buffer of exactly width x height x 4 bytes from a BC1/BC2/BC3
/// block stream that covers the image; the result depends on the format,
/// the block data and the dimensions alone.
#[verifier::external_body]
fn bc_decompress(kind: u8, data: &Vec<u8>, width: u16, height: u16) -> (r: Vec<u8>)
    requires
        1 <= kind <= 3,
        width >= 1,
        (width as int) * (height as int) * 4 <= usize::MAX,
        data@.len() >= spec_bc_blocks(width as int) * spec_bc_blocks(height as int)
            * spec_bc_block_size(kind),
    ensures
        r@ == bc_decompressed(kind, data@, width, height),
        r@.len() == (width as int) * (height as int) * 4,
{
    let format = match kind {
        1 => texpresso::Format::Bc1,
        2 => texpresso::Format::Bc2,
        _ => texpresso::Format::Bc3,
    };
    let mut out = vec![0u8; width as usize * height as usize * 4];
    format.decompress(data.as_slice(), width as usize, height as usize, &mut out);
    out
}

/// The block-compression kind named by a platform-8 compression-flags
/// value: 1 maps to BC1, 2 and 3 to BC2, 4 and 5 to BC3, anything else to
/// no known kind.
pub open spec fn spec_bc_kind_code(n: u8) -> Option<u8> {
    if n == 1 {
        Some(1u8)
    } else if n == 2 || n == 3 {
        Some(2u8)
    } else if n == 4 || n == 5 {
        Some(3u8)
    } else {
        None
    }
}

/// The block-compression kind named by a 4-character pixel-format tag.
pub open spec fn spec_bc_kind_tag(tag: Seq<u8>) -> Option<u8> {
    if tag == seq![0x44u8, 0x58u8, 0x54u8, 0x31u8] {
        Some(1u8)
    } else if tag == seq![0x44u8, 0x58u8, 0x54u8, 0x32u8] || tag == seq![
        0x44u8,
        0x58u8,
        0x54u8,
        0x33u8,
    ] {
        Some(2u8)
    } else if tag == seq![0x44u8, 0x58u8, 0x54u8, 0x34u8] || tag == seq![
        0x44u8,
        0x58u8,
        0x54u8,
        0x35u8,
    ] {
        Some(3u8)
    } else {
        None
    }
}

/// The pixels decoded for a mip level: the named decompression result when
/// a known kind applies, the dimensions are sane and the block stream
/// covers the image, and an empty buffer in every other case.
pub open spec fn spec_mip_pixels(kind: Option<u8>, raster: Seq<u8>, width: u16, height: u16) -> Seq<
    u8,
> {
    match kind {
        Some(k) => {
            if width >= 1 && (width as int) * (height as int) * 4 <= usize::MAX && raster.len()
                >= spec_bc_blocks(width as int) * spec_bc_blocks(height as int)
                * spec_bc_block_size(k) {
                bc_decompressed(k, raster, width, height)
            } else {
                Seq::empty()
            }
        },
        None => Seq::empty(),
    }
}

/// The byte length of a decoded mip level: the full RGBA size exactly
/// when decompression runs, and zero in every degraded case. This is the
/// one fact about the named decompression result that the outside routine
/// guarantees through the buffer the caller hands it.
pub open spec fn spec_mip_pixel_len(kind: Option<u8>, raster: Seq<u8>, width: u16, height: u16) -> int {
    match kind {
        Some(k) => {
            if width >= 1 && (width as int) * (height as int) * 4 <= usize::MAX && raster.len()
                >= spec_bc_blocks(width as int) * spec_bc_blocks(height as int)
                * spec_bc_block_size(k) {
                (width as int) * (height as int) * 4
            } else {
                0
            }
        },
        None => 0,
    }
}

/// Every native's decoded mip buffers are empty or exactly RGBA-sized for
/// its dimensions: width x height x 4 bytes.
pub open spec fn spec_native_mip_lens_ok(t: RwTextureNativeV) -> bool {
    forall|j: int|
        0 <= j < t.mipmaps.len() ==> ((#[trigger] t.mipmaps[j]).len() == 0 || t.mipmaps[j].len()
            == (t.width as int) * (t.height as int) * 4)
}

/// As `spec_native_mip_lens_ok`, for every native of a dictionary.
pub open spec fn spec_txd_mip_lens_ok(d: RwTextureDictionaryV) -> bool {
    forall|i: int| 0 <= i < d.texture_natives.len() ==> spec_native_mip_lens_ok(
        #[trigger] d.texture_natives[i],
    )
}

/// One texture native entry of a dictionary.
#[derive(Debug, Clone, PartialEq)]
pub struct RwTextureNative {
    pub platform_id: u32,
    pub filter_mode: u8,
    pub u_addressing: u8,
    pub v_addressing: u8,
    pub texture_name: String,
    pub mask_name: String,
    pub raster_format: u32,
    /// The 4-character pixel-format tag.
    pub d3d_format: String,
    pub width: u16,
    pub height: u16,
    pub depth: u8,
    pub mipmap_count: u8,
    pub raster_type: u8,
    pub alpha: bool,
    pub cube_texture: bool,
    pub auto_mip_maps: bool,
    pub compressed: bool,
    /// Decoded pixels of mip level 0 only; the remaining declared levels
    /// are consumed from the stream but their pixels discarded.
    pub mipmaps: Vec<Vec<u8>>,
}

/// Spec-level value of a texture native.
pub struct RwTextureNativeV {
    pub platform_id: u32,
    pub filter_mode: u8,
    pub u_addressing: u8,
    pub v_addressing: u8,
    pub texture_name: Seq<char>,
    pub mask_name: Seq<char>,
    pub raster_format: u32,
    pub d3d_format: Seq<char>,
    pub width: u16,
    pub height: u16,
    pub depth: u8,
    pub mipmap_count: u8,
    pub raster_type: u8,
    pub alpha: bool,
    pub cube_texture: bool,
    pub auto_mip_maps: bool,
    pub compressed: bool,
    pub mipmaps: Seq<Seq<u8>>,
}

impl View for RwTextureNative {
    type V = RwTextureNativeV;

    open spec fn view(&self) -> RwTextureNativeV {
        RwTextureNativeV {
            platform_id: self.platform_id,
            filter_mode: self.filter_mode,
            u_addressing: self.u_addressing,
            v_addressing: self.v_addressing,
            texture_name: self.texture_name@,
            mask_name: self.mask_name@,
            raster_format: self.raster_format,
            d3d_format: self.d3d_format@,
            width: self.width,
            height: self.height,
            depth: self.depth,
            mipmap_count: self.mipmap_count,
            raster_type: self.raster_type,
            alpha: self.alpha,
            cube_texture: self.cube_texture,
            auto_mip_maps: self.auto_mip_maps,
            compressed: self.compressed,
            mipmaps: self.mipmaps@.map_values(|m: Vec<u8>| m@),
        }
    }
}

/// The dictionary: a declared count and its texture natives.
#[derive(Debug, Clone, PartialEq)]
pub struct RwTextureDictionary {
    pub texture_count: u16,
    pub texture_natives: Vec<RwTextureNative>,
}

/// Spec-level value of a texture dictionary.
pub struct RwTextureDictionaryV {
    pub texture_count: u16,
    pub texture_natives: Seq<RwTextureNativeV>,
}

impl View for RwTextureDictionary {
    type V = RwTextureDictionaryV;

    open spec fn view(&self) -> RwTextureDictionaryV {
        RwTextureDictionaryV {
            texture_count: self.texture_count,
            texture_natives: self.texture_natives@.map_values(|t: RwTextureNative| t@),
        }
    }
}

/// A decoded texture dictionary file.
#[derive(Debug, Clone, PartialEq)]
pub struct RwTxd {
    pub texture_dictionary: RwTextureDictionary,
}

/// Spec-level value of a decoded texture dictionary file.
pub struct RwTxdV {
    pub texture_dictionary: RwTextureDictionaryV,
}

impl View for RwTxd {
    type V = RwTxdV;

    open spec fn view(&self) -> RwTxdV {
        RwTxdV { texture_dictionary: self.texture_dictionary@ }
    }
}

/// The palette block consumed for a palettized raster: 1024 bytes for
/// 8-bit palettes, 64 bytes at depth 4, else 128 bytes.
pub open spec fn spec_palette_size(palette_type: u32, depth: u8) -> int {
    if palette_type == 2 {
        1024
    } else if depth == 4 {
        64
    } else {
        128
    }
}

/// Consumes the remaining `n` mip levels: each is a byte length followed
/// by that many raw bytes, read and discarded.
pub open spec fn spec_skip_mips(data: Seq<u8>, pos: int, n: nat) -> Result<int, DecodeError>
    decreases n,
{
    if n == 0 {
        Ok(pos)
    } else {
        match spec_read_u32(data, pos) {
            Err(e) => Err(e),
            Ok((size, p1)) => match spec_read_bytes(data, p1, size as int) {
                Err(e) => Err(e),
                Ok((_bytes, p2)) => spec_skip_mips(data, p2, (n - 1) as nat),
            },
        }
    }
}

/// The mip sequence of a native: when at least one level is declared, the
/// first level's pixels are decoded and kept and every further level is
/// consumed and discarded; with no declared levels nothing is read.
pub open spec fn spec_read_mips(
    data: Seq<u8>,
    pos: int,
    n: nat,
    kind: Option<u8>,
    width: u16,
    height: u16,
) -> Result<(Seq<Seq<u8>>, int), DecodeError> {
    if n == 0 {
        Ok((Seq::empty(), pos))
    } else {
        match spec_read_u32(data, pos) {
            Err(e) => Err(e),
            Ok((size, p1)) => match spec_read_bytes(data, p1, size as int) {
                Err(e) => Err(e),
                Ok((raster, p2)) => match spec_skip_mips(data, p2, (n - 1) as nat) {
                    Err(e) => Err(e),
                    Ok(p3) => Ok((seq![spec_mip_pixels(kind, raster, width, height)], p3)),
                },
            },
        }
    }
}

/// One texture native: wrapper headers, the platform id, the packed
/// sampler word, two 32-byte name fields, the raster format and pixel
/// format tag, dimensions, depth, mip count, raster type, the compression
/// flags byte, an optional palette block (consumed, not modeled), the mip
/// levels, and a trailing section skipped by its declared size.
#[verifier::opaque]
pub open spec fn spec_read_texture_native(data: Seq<u8>, pos: int) -> Result<
    (RwTextureNativeV, int),
    DecodeError,
> {
    match spec_read_header(data, pos) {
        Err(e) => Err(e),
        Ok((_h1, p1)) => match spec_read_header(data, p1) {
            Err(e) => Err(e),
            Ok((_h2, p2)) => match spec_read_u32(data, p2) {
                Err(e) => Err(e),
                Ok((platform_id, p3)) => match spec_read_u32(data, p3) {
                    Err(e) => Err(e),
                    Ok((flags, p4)) => match spec_read_string(data, p4, 32) {
                        Err(e) => Err(e),
                        Ok((texture_name, p5)) => match spec_read_string(data, p5, 32) {
                            Err(e) => Err(e),
                            Ok((mask_name, p6)) => match spec_read_u32(data, p6) {
                                Err(e) => Err(e),
                                Ok((raster_format, p7)) => match spec_read_bytes(data, p7, 4) {
                                    Err(e) => Err(e),
                                    Ok((tag, p8)) => match spec_read_u16(data, p8) {
                                        Err(e) => Err(e),
                                        Ok((width, p9)) => match spec_read_u16(data, p9) {
                                            Err(e) => Err(e),
                                            Ok((height, p10)) => match spec_read_u8(data, p10) {
                                                Err(e) => Err(e),
                                                Ok((depth, p11)) => match spec_read_u8(
                                                    data,
                                                    p11,
                                                ) {
                                                    Err(e) => Err(e),
                                                    Ok((mipmap_count, p12)) => match spec_read_u8(
                                                        data,
                                                        p12,
                                                    ) {
                                                        Err(e) => Err(e),
                                                        Ok((raster_type, p13)) => match spec_read_u8(
                                                            data,
                                                            p13,
                                                        ) {
                                                            Err(e) => Err(e),
                                                            Ok(
                                                                (compression_flags, p14),
                                                            ) => spec_read_native_tail(
                                                                data,
                                                                p14,
                                                                RwNativeHead {
                                                                    platform_id,
                                                                    flags,
                                                                    texture_name,
                                                                    mask_name,
                                                                    raster_format,
                                                                    tag,
                                                                    width,
                                                                    height,
                                                                    depth,
                                                                    mipmap_count,
                                                                    raster_type,
                                                                    compression_flags,
                                                                },
                                                            ),
                                                        },
                                                    },
                                                },
                                            },
                                        },
                                    },
                                },
                            },
                        },
                    },
                },
            },
        },
    }
}

/// The fixed fields of a texture native read before its raster data.
pub struct RwNativeHead {
    pub platform_id: u32,
    pub flags: u32,
    pub texture_name: Seq<char>,
    pub mask_name: Seq<char>,
    pub raster_format: u32,
    pub tag: Seq<u8>,
    pub width: u16,
    pub height: u16,
    pub depth: u8,
    pub mipmap_count: u8,
    pub raster_type: u8,
    pub compression_flags: u8,
}

/// The tail of a texture native: the palette block when the raster is
/// palettized, the mip levels, and the trailing skipped section.
#[verifier::opaque]
pub open spec fn spec_read_native_tail(data: Seq<u8>, pos: int, head: RwNativeHead) -> Result<
    (RwTextureNativeV, int),
    DecodeError,
> {
    let palette_type = (head.raster_format >> 13) & 3;
    let kind: Option<u8> = if palette_type != 0 {
        None
    } else if head.platform_id == 8 && head.compression_flags != 0 {
        spec_bc_kind_code(head.compression_flags)
    } else if head.platform_id == 9 && head.compression_flags & 8 != 0 {
        spec_bc_kind_tag(head.tag)
    } else {
        None
    };
    match (if palette_type != 0 {
        spec_read_bytes(data, pos, spec_palette_size(palette_type, head.depth))
    } else {
        Ok((Seq::<u8>::empty(), pos))
    }) {
        Err(e) => Err(e),
        Ok((_palette, p1)) => match spec_read_mips(
            data,
            p1,
            head.mipmap_count as nat,
            kind,
            head.width,
            head.height,
        ) {
            Err(e) => Err(e),
            Ok((mipmaps, p2)) => match spec_read_header(data, p2) {
                Err(e) => Err(e),
                Ok((trailer, p3)) => Ok(
                    (
                        RwTextureNativeV {
                            platform_id: head.platform_id,
                            filter_mode: (head.flags & 0xFF) as u8,
                            u_addressing: ((head.flags & 0xF00) >> 8) as u8,
                            v_addressing: ((head.flags & 0xF000) >> 12) as u8,
                            texture_name: head.texture_name,
                            mask_name: head.mask_name,
                            raster_format: head.raster_format,
                            d3d_format: spec_field_text(head.tag),
                            width: head.width,
                            height: head.height,
                            depth: head.depth,
                            mipmap_count: head.mipmap_count,
                            raster_type: head.raster_type,
                            alpha: head.compression_flags & 1 != 0,
                            cube_texture: head.compression_flags & 2 != 0,
                            auto_mip_maps: head.compression_flags & 4 != 0,
                            compressed: head.compression_flags & 8 != 0,
                            mipmaps,
                        },
                        sat_add(p3, trailer.section_size as int),
                    ),
                ),
            },
        },
    }
}

/// `n` consecutive texture natives.
pub open spec fn spec_read_natives(data: Seq<u8>, pos: int, n: nat) -> Result<
    (Seq<RwTextureNativeV>, int),
    DecodeError,
>
    decreases n,
{
    if n == 0 {
        Ok((Seq::empty(), pos))
    } else {
        match spec_read_texture_native(data, pos) {
            Err(e) => Err(e),
            Ok((t, p)) => match spec_read_natives(data, p, (n - 1) as nat) {
                Err(e) => Err(e),
                Ok((s, p2)) => Ok((seq![t] + s, p2)),
            },
        }
    }
}

/// A dictionary: wrapper headers, the texture count and 2 reserved bytes,
/// the texture natives, and a trailing section skipped by declared size.
#[verifier::opaque]
pub open spec fn spec_read_texture_dictionary(data: Seq<u8>, pos: int) -> Result<
    (RwTextureDictionaryV, int),
    DecodeError,
> {
    match spec_read_header(data, pos) {
        Err(e) => Err(e),
        Ok((_h1, p1)) => match spec_read_header(data, p1) {
            Err(e) => Err(e),
            Ok((_h2, p2)) => match spec_read_u16(data, p2) {
                Err(e) => Err(e),
                Ok((texture_count, p3)) => match spec_read_natives(
                    data,
                    sat_add(p3, 2),
                    texture_count as nat,
                ) {
                    Err(e) => Err(e),
                    Ok((texture_natives, p4)) => match spec_read_header(data, p4) {
                        Err(e) => Err(e),
                        Ok((trailer, p5)) => Ok(
                            (
                                RwTextureDictionaryV { texture_count, texture_natives },
                                sat_add(p5, trailer.section_size as int),
                            ),
                        ),
                    },
                },
            },
        },
    }
}

/// The whole-file decode, from the cursor.
pub open spec fn spec_parse_txd(data: Seq<u8>, pos: int) -> Result<RwTxdV, DecodeError> {
    match spec_read_texture_dictionary(data, pos) {
        Err(e) => Err(e),
        Ok((d, _end)) => Ok(RwTxdV { texture_dictionary: d }),
    }
}

/// Decodes the pixels of one mip level from its raster data: the named
/// decompression result when a known block-compression kind applies and
/// the stream covers the image, an empty buffer otherwise.
pub fn bitmap_for_mip(kind_code: Option<u8>, raster: &Vec<u8>, width: u16, height: u16) -> (r: Vec<
    u8,
>)
    requires
        kind_code matches Some(k) ==> 1 <= k <= 3,
    ensures
        r@ == spec_mip_pixels(kind_code, raster@, width, height),
        r@.len() == spec_mip_pixel_len(kind_code, raster@, width, height),
{
    match kind_code {
        Some(k) => {
            let bw = (width as u64 + 3) / 4;
            let bh = (height as u64 + 3) / 4;
            let bs: u64 = if k == 1 {
                8
            } else {
                16
            };
            proof {
                assert(bw <= 16384 && bh <= 16384);
                assert(bw * bh * bs <= 0x400000000) by (nonlinear_arith)
                    requires
                        0 <= bw <= 16384,
                        0 <= bh <= 16384,
                        0 <= bs <= 16,
                ;
            }
            let needed = bw * bh * bs;
            proof {
                assert((width as u64) * (height as u64) * 4 <= 0x400000000) by (nonlinear_arith)
                    requires
                        width <= 0xFFFF,
                        height <= 0xFFFF,
                ;
            }
            let pixel_bytes = (width as u64) * (height as u64) * 4;
            if width >= 1 && pixel_bytes <= usize::MAX as u64 && raster.len() as u64 >= needed {
                bc_decompress(k, raster, width, height)
            } else {
                let v: Vec<u8> = Vec::new();
                proof {
                    assert(v@ =~= Seq::<u8>::empty());
                }
                v
            }
        },
        None => {
            let v: Vec<u8> = Vec::new();
            proof {
                assert(v@ =~= Seq::<u8>::empty());
            }
            v
        },
    }
}

/// The decoder for texture dictionaries: owns the framed file and performs
/// a single forward pass over it.
pub struct TxdParser<'a> {
    file: RwFile<'a>,
}

impl<'a> TxdParser<'a> {
    /// The bytes of the dictionary file.
    pub closed spec fn spec_data(&self) -> Seq<u8> {
        self.file.spec_data()
    }

    /// The cursor position.
    pub closed spec fn spec_pos(&self) -> int {
        self.file.spec_pos()
    }

    /// Opens a decoder over a whole dictionary buffer.
    pub fn new(buffer: &'a [u8]) -> (r: TxdParser<'a>)
        ensures
            r.spec_data() == buffer@,
            r.spec_pos() == 0,
    {
        TxdParser { file: RwFile::new(buffer) }
    }

    /// Decodes the whole dictionary.
    pub fn parse(&mut self) -> (r: Result<RwTxd, DecodeError>)
        ensures
            final(self).spec_data() == old(self).spec_data(),
            mirrors_value(spec_parse_txd(old(self).spec_data(), old(self).spec_pos()), r),
            r matches Ok(t) ==> spec_txd_mip_lens_ok(t@.texture_dictionary),
    {
        let texture_dictionary = self.read_texture_dictionary()?;
        Ok(RwTxd { texture_dictionary })
    }

    /// Reads the dictionary section and its texture natives.
    fn read_texture_dictionary(&mut self) -> (r: Result<RwTextureDictionary, DecodeError>)
        ensures
            final(self).spec_data() == old(self).spec_data(),
            mirrors_view(
                spec_read_texture_dictionary(old(self).spec_data(), old(self).spec_pos()),
                r,
                final(self).spec_pos(),
            ),
            r matches Ok(d) ==> spec_txd_mip_lens_ok(d@),
    {
        proof {
            reveal(spec_read_texture_dictionary);
        }
        let _struct_header = self.file.read_section_header()?;
        let _dict_header = self.file.read_section_header()?;
        let texture_count = self.file.get_stream().read_u16()?;
        self.file.get_stream().skip(2);
        let texture_natives = self.read_natives(texture_count)?;
        let trailer = self.file.read_section_header()?;
        self.file.get_stream().skip(trailer.section_size as usize);
        Ok(RwTextureDictionary { texture_count, texture_natives })
    }

    /// Reads `n` texture natives.
    fn read_natives(&mut self, n: u16) -> (r: Result<Vec<RwTextureNative>, DecodeError>)
        ensures
            final(self).spec_data() == old(self).spec_data(),
            match r {
                Ok(v) => spec_read_natives(old(self).spec_data(), old(self).spec_pos(), n as nat)
                    matches Ok((s, end)) && s == v@.map_values(|t: RwTextureNative| t@) && end
                    == final(self).spec_pos() && (forall|i: int|
                    0 <= i < v@.len() ==> spec_native_mip_lens_ok((#[trigger] v@[i])@)),
                Err(e) => spec_read_natives(old(self).spec_data(), old(self).spec_pos(), n as nat)
                    == Err::<(Seq<RwTextureNativeV>, int), DecodeError>(e),
            },
    {
        let ghost data0 = self.spec_data();
        let ghost pos0 = self.spec_pos();
        let mut out: Vec<RwTextureNative> = Vec::new();
        let mut i: u16 = 0;
        proof {
            assert(out@.map_values(|t: RwTextureNative| t@) =~= Seq::<RwTextureNativeV>::empty());
        }
        while i < n
            invariant
                0 <= i <= n,
                data0 == old(self).spec_data(),
                pos0 == old(self).spec_pos(),
                self.spec_data() == data0,
                out@.len() == i,
                forall|k: int| 0 <= k < out@.len() ==> spec_native_mip_lens_ok(
                    (#[trigger] out@[k])@,
                ),
                spec_read_natives(data0, pos0, n as nat) == (match spec_read_natives(
                    data0,
                    self.spec_pos(),
                    (n - i) as nat,
                ) {
                    Ok((s, p)) => Ok::<(Seq<RwTextureNativeV>, int), DecodeError>(
                        (out@.map_values(|t: RwTextureNative| t@) + s, p),
                    ),
                    Err(e) => Err::<(Seq<RwTextureNativeV>, int), DecodeError>(e),
                }),
            decreases n - i,
        {
            let ghost views_before = out@.map_values(|t: RwTextureNative| t@);
            let t = match self.read_texture_native() {
                Ok(t) => t,
                Err(e) => {
                    return Err(e);
                },
            };
            out.push(t);
            proof {
                let rest = spec_read_natives(data0, self.spec_pos(), (n - i - 1) as nat);
                assert(out@.map_values(|x: RwTextureNative| x@) =~= views_before + seq![
                    out@[i as int]@,
                ]);
                match rest {
                    Ok((s, p)) => {
                        assert((views_before + seq![out@[i as int]@]) + s =~= views_before + (seq![
                            out@[i as int]@,
                        ] + s));
                    },
                    Err(e) => {},
                }
            }
            i += 1;
        }
        proof {
            assert(out@.map_values(|t: RwTextureNative| t@) + Seq::<RwTextureNativeV>::empty()
                =~= out@.map_values(|t: RwTextureNative| t@));
        }
        Ok(out)
    }

    /// Reads one texture native.
    #[verifier::rlimit(100)]
    fn read_texture_native(&mut self) -> (r: Result<RwTextureNative, DecodeError>)
        ensures
            final(self).spec_data() == old(self).spec_data(),
            mirrors_view(
                spec_read_texture_native(old(self).spec_data(), old(self).spec_pos()),
                r,
                final(self).spec_pos(),
            ),
            r matches Ok(t) ==> spec_native_mip_lens_ok(t@),
    {
        proof {
            reveal(spec_read_texture_native);
            reveal(spec_read_native_tail);
        }
        let _struct_header = self.file.read_section_header()?;
        let _native_header = self.file.read_section_header()?;
        let platform_id = self.file.get_stream().read_u32()?;
        let flags = self.file.get_stream().read_u32()?;
        let filter_mode = (flags & 0xFF) as u8;
        let u_addressing = ((flags & 0xF00) >> 8) as u8;
        let v_addressing = ((flags & 0xF000) >> 12) as u8;
        let texture_name = self.file.get_stream().read_string(32)?;
        let mask_name = self.file.get_stream().read_string(32)?;
        let raster_format = self.file.get_stream().read_u32()?;
        let tag = self.file.get_stream().read(4)?;
        let d3d_format = crate::text::field_text(&tag);
        let width = self.file.get_stream().read_u16()?;
        let height = self.file.get_stream().read_u16()?;
        let depth = self.file.get_stream().read_u8()?;
        let mipmap_count = self.file.get_stream().read_u8()?;
        let raster_type = self.file.get_stream().read_u8()?;
        let compression_flags = self.file.get_stream().read_u8()?;
        let alpha = compression_flags & 1 != 0;
        let cube_texture = compression_flags & 2 != 0;
        let auto_mip_maps = compression_flags & 4 != 0;
        let compressed = compression_flags & 8 != 0;
        let palette_type = (raster_format >> 13) & 3;
        if palette_type != PaletteType::PaletteNone.code() {
            let _palette = self.read_palette(palette_type, depth)?;
        }
        let kind_code: Option<u8> = if palette_type != 0 {
            None
        } else if platform_id == PlatformType::D3d8.code() && compression_flags != 0 {
            if compression_flags == 1 {
                Some(1)
            } else if compression_flags == 2 || compression_flags == 3 {
                Some(2)
            } else if compression_flags == 4 || compression_flags == 5 {
                Some(3)
            } else {
                None
            }
        } else if platform_id == PlatformType::D3d9.code() && compressed {
            if tag.len() == 4 && tag[0] == 0x44 && tag[1] == 0x58 && tag[2] == 0x54 {
                if tag[3] == 0x31 {
                    Some(1)
                } else if tag[3] == 0x32 || tag[3] == 0x33 {
                    Some(2)
                } else if tag[3] == 0x34 || tag[3] == 0x35 {
                    Some(3)
                } else {
                    None
                }
            } else {
                None
            }
        } else {
            None
        };
        proof {
            let tv = tag@;
            if platform_id == 9 && compressed && palette_type == 0 {
                if tv == seq![0x44u8, 0x58u8, 0x54u8, 0x31u8] {
                    assert(tv[0] == 0x44 && tv[1] == 0x58 && tv[2] == 0x54 && tv[3] == 0x31);
                }
                if tv == seq![0x44u8, 0x58u8, 0x54u8, 0x32u8] {
                    assert(tv[3] == 0x32);
                }
                if tv == seq![0x44u8, 0x58u8, 0x54u8, 0x33u8] {
                    assert(tv[3] == 0x33);
                }
                if tv == seq![0x44u8, 0x58u8, 0x54u8, 0x34u8] {
                    assert(tv[3] == 0x34);
                }
                if tv == seq![0x44u8, 0x58u8, 0x54u8, 0x35u8] {
                    assert(tv[3] == 0x35);
                }
                if tag.len() == 4 && tv[0] == 0x44 && tv[1] == 0x58 && tv[2] == 0x54 {
                    if tv[3] == 0x31 {
                        assert(tv =~= seq![0x44u8, 0x58u8, 0x54u8, 0x31u8]);
                    } else if tv[3] == 0x32 {
                        assert(tv =~= seq![0x44u8, 0x58u8, 0x54u8, 0x32u8]);
                    } else if tv[3] == 0x33 {
                        assert(tv =~= seq![0x44u8, 0x58u8, 0x54u8, 0x33u8]);
                    } else if tv[3] == 0x34 {
                        assert(tv =~= seq![0x44u8, 0x58u8, 0x54u8, 0x34u8]);
                    } else if tv[3] == 0x35 {
                        assert(tv =~= seq![0x44u8, 0x58u8, 0x54u8, 0x35u8]);
                    }
                }
                assert(kind_code == spec_bc_kind_tag(tv));
            }
        }
        let mipmaps = self.read_mips(mipmap_count, kind_code, width, height)?;
        let trailer = self.file.read_section_header()?;
        self.file.get_stream().skip(trailer.section_size as usize);
        Ok(
            RwTextureNative {
                platform_id,
                filter_mode,
                u_addressing,
                v_addressing,
                texture_name,
                mask_name,
                raster_format,
                d3d_format,
                width,
                height,
                depth,
                mipmap_count,
                raster_type,
                alpha,
                cube_texture,
                auto_mip_maps,
                compressed,
                mipmaps,
            },
        )
    }

    /// Reads and discards the palette block of a palettized raster.
    pub fn read_palette(&mut self, palette_type: u32, depth: u8) -> (r: Result<Vec<u8>, DecodeError>)
        ensures
            final(self).spec_data() == old(self).spec_data(),
            mirrors_view(
                spec_read_bytes(
                    old(self).spec_data(),
                    old(self).spec_pos(),
                    spec_palette_size(palette_type, depth),
                ),
                r,
                final(self).spec_pos(),
            ),
    {
        let size: usize = if palette_type == PaletteType::Palette8.code() {
            1024
        } else if depth == 4 {
            64
        } else {
            128
        };
        self.file.get_stream().read(size)
    }

    /// Reads the declared mip levels, decoding only the first.
    fn read_mips(&mut self, n: u8, kind_code: Option<u8>, width: u16, height: u16) -> (r: Result<
        Vec<Vec<u8>>,
        DecodeError,
    >)
        requires
            kind_code matches Some(k) ==> 1 <= k <= 3,
        ensures
            final(self).spec_data() == old(self).spec_data(),
            match r {
                Ok(v) => spec_read_mips(
                    old(self).spec_data(),
                    old(self).spec_pos(),
                    n as nat,
                    kind_code,
                    width,
                    height,
                ) matches Ok((s, end)) && s == v@.map_values(|m: Vec<u8>| m@) && end == final(self).spec_pos() && (forall|j: int|
                    0 <= j < v@.len() ==> ((#[trigger] v@[j])@.len() == 0 || v@[j]@.len() == (
                    width as int) * (height as int) * 4)),
                Err(e) => spec_read_mips(
                    old(self).spec_data(),
                    old(self).spec_pos(),
                    n as nat,
                    kind_code,
                    width,
                    height,
                ) == Err::<(Seq<Seq<u8>>, int), DecodeError>(e),
            },
    {
        let ghost data0 = self.spec_data();
        let ghost pos0 = self.spec_pos();
        let mut out: Vec<Vec<u8>> = Vec::new();
        if n == 0 {
            proof {
                assert(out@.map_values(|m: Vec<u8>| m@) =~= Seq::<Seq<u8>>::empty());
            }
            return Ok(out);
        }
        let size = self.file.get_stream().read_u32()?;
        let raster = self.file.get_stream().read(size as usize)?;
        let bitmap = bitmap_for_mip(kind_code, &raster, width, height);
        out.push(bitmap);
        let ghost pos1 = self.spec_pos();
        proof {
            assert(out@.map_values(|m: Vec<u8>| m@) =~= seq![
                spec_mip_pixels(kind_code, raster@, width, height),
            ]);
        }
        let mut j: u8 = 1;
        while j < n
            invariant
                1 <= j <= n,
                data0 == old(self).spec_data(),
                pos0 == old(self).spec_pos(),
                self.spec_data() == data0,
                spec_skip_mips(data0, pos1, (n - 1) as nat) == spec_skip_mips(
                    data0,
                    self.spec_pos(),
                    (n - j) as nat,
                ),
                spec_read_mips(data0, pos0, n as nat, kind_code, width, height) == (
                match spec_skip_mips(data0, pos1, (n - 1) as nat) {
                    Ok(p3) => Ok::<(Seq<Seq<u8>>, int), DecodeError>(
                        (out@.map_values(|m: Vec<u8>| m@), p3),
                    ),
                    Err(e) => Err::<(Seq<Seq<u8>>, int), DecodeError>(e),
                }),
            decreases n - j,
        {
            let msize = match self.file.get_stream().read_u32() {
                Ok(v) => v,
                Err(e) => {
                    return Err(e);
                },
            };
            let _mbytes = match self.file.get_stream().read(msize as usize) {
                Ok(v) => v,
                Err(e) => {
                    return Err(e);
                },
            };
            j += 1;
        }
        proof {
            assert(out@.map_values(|m: Vec<u8>| m@) =~= seq![
                spec_mip_pixels(kind_code, raster@, width, height),
            ]);
        }
        Ok(out)
    }
}

/// Decoding is deterministic: any two results that meet the decode
/// contract for the same bytes and start position are the same value.
pub proof fn lemma_txd_decode_deterministic(
    data: Seq<u8>,
    pos: int,
    r1: Result<RwTxdV, DecodeError>,
    r2: Result<RwTxdV, DecodeError>,
)
    requires
        r1 == spec_parse_txd(data, pos),
        r2 == spec_parse_txd(data, pos),
    ensures
        r1 == r2,
{
}

} // verus!
