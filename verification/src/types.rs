//! Plain value types shared by the decoders. The wire formats store scalar
//! quantities as IEEE-754 single-precision floats; these types carry each
//! such scalar as its raw 32-bit pattern, exactly as read from (or computed
//! for) the wire, so every field is a plain integer value.

use vstd::prelude::*;

verus! {

/// A 2-component vector; each component is an IEEE-754 single bit pattern.
#[derive(Clone, Copy, Debug, PartialEq, Eq, Structural)]
pub struct RwVector2 {
    pub x: u32,
    pub y: u32,
}

/// A 3-component vector; each component is an IEEE-754 single bit pattern.
#[derive(Clone, Copy, Debug, PartialEq, Eq, Structural)]
pub struct RwVector3 {
    pub x: u32,
    pub y: u32,
    pub z: u32,
}

/// A 4-component vector; each component is an IEEE-754 single bit pattern.
#[derive(Clone, Copy, Debug, PartialEq, Eq, Structural)]
pub struct RwVector4 {
    pub x: u32,
    pub y: u32,
    pub z: u32,
    pub t: u32,
}

/// A quaternion; each component is an IEEE-754 single bit pattern.
#[derive(Clone, Copy, Debug, PartialEq, Eq, Structural)]
pub struct RwQuaternion {
    pub x: u32,
    pub y: u32,
    pub z: u32,
    pub w: u32,
}

/// A 3x3 row-major matrix.
#[derive(Clone, Copy, Debug, PartialEq, Eq, Structural)]
pub struct RwMatrix3 {
    pub right: RwVector3,
    pub up: RwVector3,
    pub at: RwVector3,
}

/// A 4x4 row-major matrix.
#[derive(Clone, Copy, Debug, PartialEq, Eq, Structural)]
pub struct RwMatrix4 {
    pub right: RwVector4,
    pub up: RwVector4,
    pub at: RwVector4,
    pub transform: RwVector4,
}

/// An 8-bit-per-channel RGBA color.
#[derive(Clone, Copy, Debug, PartialEq, Eq, Structural)]
pub struct RwColor {
    pub r: u8,
    pub g: u8,
    pub b: u8,
    pub a: u8,
}

/// A UV texture coordinate; each component is an IEEE-754 single bit pattern.
#[derive(Clone, Copy, Debug, PartialEq, Eq, Structural)]
pub struct RwTextureCoordinate {
    pub u: u32,
    pub v: u32,
}

/// A triangle: three vertex indices carried as IEEE-754 single bit patterns
/// in a vector, plus a material id, mirroring the decoded layout.
#[derive(Clone, Copy, Debug, PartialEq, Eq, Structural)]
pub struct RwTriangle {
    pub vector: RwVector3,
    pub material_id: u16,
}

/// A bounding sphere: center and radius (IEEE-754 single bit patterns).
#[derive(Clone, Copy, Debug, PartialEq, Eq, Structural)]
pub struct RwSphere {
    pub vector: RwVector3,
    pub radius: u32,
}

} // verus!
