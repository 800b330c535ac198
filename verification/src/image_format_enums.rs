//! Raster and platform codes used by the texture dictionary format.

use vstd::prelude::*;

verus! {

/// How a raster's palette is stored, if at all.
#[derive(Clone, Copy, Debug, PartialEq, Eq, Structural)]
pub enum PaletteType {
    PaletteNone,
    Palette4,
    Palette8,
}

impl PaletteType {
    /// The palette-type code carried in bits 13-14 of the raster format.
    pub fn code(&self) -> (r: u32)
        ensures
            r == spec_palette_code(*self),
    {
        match *self {
            PaletteType::PaletteNone => 0,
            PaletteType::Palette4 => 1,
            PaletteType::Palette8 => 2,
        }
    }
}

/// The palette-type code of each variant.
pub open spec fn spec_palette_code(p: PaletteType) -> u32 {
    match p {
        PaletteType::PaletteNone => 0,
        PaletteType::Palette4 => 1,
        PaletteType::Palette8 => 2,
    }
}

/// The renderer platform a texture native was written for.
#[derive(Clone, Copy, Debug, PartialEq, Eq, Structural)]
pub enum PlatformType {
    D3d8,
    D3d9,
}

impl PlatformType {
    /// The platform id on the wire.
    pub fn code(&self) -> (r: u32)
        ensures
            r == spec_platform_code(*self),
    {
        match *self {
            PlatformType::D3d8 => 8,
            PlatformType::D3d9 => 9,
        }
    }
}

/// The platform id of each variant.
pub open spec fn spec_platform_code(p: PlatformType) -> u32 {
    match p {
        PlatformType::D3d8 => 8,
        PlatformType::D3d9 => 9,
    }
}

/// Known uncompressed raster pixel layouts.
#[derive(Clone, Copy, Debug, PartialEq, Eq, Structural)]
pub enum RasterFormat {
    Raster1555,
    Raster565,
    Raster4444,
    RasterLum,
    Raster8888,
    Raster888,
    Raster555,
}

impl RasterFormat {
    /// The raster-format code on the wire.
    pub fn code(&self) -> (r: u32)
        ensures
            r == spec_raster_code(*self),
    {
        match *self {
            RasterFormat::Raster1555 => 0x01,
            RasterFormat::Raster565 => 0x02,
            RasterFormat::Raster4444 => 0x03,
            RasterFormat::RasterLum => 0x04,
            RasterFormat::Raster8888 => 0x05,
            RasterFormat::Raster888 => 0x06,
            RasterFormat::Raster555 => 0x0A,
        }
    }
}

/// The raster-format code of each variant.
pub open spec fn spec_raster_code(f: RasterFormat) -> u32 {
    match f {
        RasterFormat::Raster1555 => 0x01,
        RasterFormat::Raster565 => 0x02,
        RasterFormat::Raster4444 => 0x03,
        RasterFormat::RasterLum => 0x04,
        RasterFormat::Raster8888 => 0x05,
        RasterFormat::Raster888 => 0x06,
        RasterFormat::Raster555 => 0x0A,
    }
}

/// Direct3D block-compression formats a texture native may carry.
#[derive(Clone, Copy, Debug, PartialEq, Eq, Structural)]
pub enum D3dFormat {
    D3dfmtA8l8,
    D3dDxt1,
    D3dDxt2,
    D3dDxt3,
    D3dDxt4,
    D3dDxt5,
}

} // verus!
