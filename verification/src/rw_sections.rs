//! The closed set of section type codes the decoders dispatch on. Any code
//! outside this set is skipped by its declared length, which keeps the
//! decoders forward-compatible with unknown chunks.

use vstd::prelude::*;

verus! {

/// Section type codes known to the decoders.
#[derive(Clone, Copy, Debug, PartialEq, Eq, Structural)]
pub enum RwSections {
    RwStruct,
    RwString,
    RwExtension,
    RwTexture,
    RwMaterial,
    RwMaterialList,
    RwFrameList,
    RwGeometry,
    RwClump,
    RwAtomic,
    RwTextureNative,
    RwTextureDictionary,
    RwGeometryList,
    RwSkin,
    RwAnim,
    RwMaterialEffectsPLG,
    RwReflectionMaterial,
    RwNodeName,
}

/// The on-disk code of each known section type.
pub open spec fn spec_section_code(s: RwSections) -> u32 {
    match s {
        RwSections::RwStruct => 0x0001,
        RwSections::RwString => 0x0002,
        RwSections::RwExtension => 0x0003,
        RwSections::RwTexture => 0x0006,
        RwSections::RwMaterial => 0x0007,
        RwSections::RwMaterialList => 0x0008,
        RwSections::RwFrameList => 0x000E,
        RwSections::RwGeometry => 0x000F,
        RwSections::RwClump => 0x0010,
        RwSections::RwAtomic => 0x0014,
        RwSections::RwTextureNative => 0x0015,
        RwSections::RwTextureDictionary => 0x0016,
        RwSections::RwGeometryList => 0x001A,
        RwSections::RwSkin => 0x0116,
        RwSections::RwAnim => 0x011E,
        RwSections::RwMaterialEffectsPLG => 0x0120,
        RwSections::RwReflectionMaterial => 0x0253F2FC,
        RwSections::RwNodeName => 0x0253F2FE,
    }
}

impl RwSections {
    /// The on-disk code of this section type.
    pub fn code(&self) -> (r: u32)
        ensures
            r == spec_section_code(*self),
    {
        match *self {
            RwSections::RwStruct => 0x0001,
            RwSections::RwString => 0x0002,
            RwSections::RwExtension => 0x0003,
            RwSections::RwTexture => 0x0006,
            RwSections::RwMaterial => 0x0007,
            RwSections::RwMaterialList => 0x0008,
            RwSections::RwFrameList => 0x000E,
            RwSections::RwGeometry => 0x000F,
            RwSections::RwClump => 0x0010,
            RwSections::RwAtomic => 0x0014,
            RwSections::RwTextureNative => 0x0015,
            RwSections::RwTextureDictionary => 0x0016,
            RwSections::RwGeometryList => 0x001A,
            RwSections::RwSkin => 0x0116,
            RwSections::RwAnim => 0x011E,
            RwSections::RwMaterialEffectsPLG => 0x0120,
            RwSections::RwReflectionMaterial => 0x0253F2FC,
            RwSections::RwNodeName => 0x0253F2FE,
        }
    }

    /// The section type a code names, or `None` for an unknown code.
    pub fn from_code(code: u32) -> (r: Option<RwSections>)
        ensures
            match r {
                Some(s) => spec_section_code(s) == code,
                None => forall|s: RwSections| spec_section_code(s) != code,
            },
    {
        match code {
            0x0001 => Some(RwSections::RwStruct),
            0x0002 => Some(RwSections::RwString),
            0x0003 => Some(RwSections::RwExtension),
            0x0006 => Some(RwSections::RwTexture),
            0x0007 => Some(RwSections::RwMaterial),
            0x0008 => Some(RwSections::RwMaterialList),
            0x000E => Some(RwSections::RwFrameList),
            0x000F => Some(RwSections::RwGeometry),
            0x0010 => Some(RwSections::RwClump),
            0x0014 => Some(RwSections::RwAtomic),
            0x0015 => Some(RwSections::RwTextureNative),
            0x0016 => Some(RwSections::RwTextureDictionary),
            0x001A => Some(RwSections::RwGeometryList),
            0x0116 => Some(RwSections::RwSkin),
            0x011E => Some(RwSections::RwAnim),
            0x0120 => Some(RwSections::RwMaterialEffectsPLG),
            0x0253F2FC => Some(RwSections::RwReflectionMaterial),
            0x0253F2FE => Some(RwSections::RwNodeName),
            _ => None,
        }
    }
}

} // verus!
