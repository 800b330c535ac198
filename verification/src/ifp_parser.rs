//! Decoder for RenderWare animation packages (IFP). Two incompatible
//! sub-formats share one result shape: the legacy fixed-point format
//! (signature "ANP3") and the modern floating-point format (signature
//! "ANPK"). The decoder dispatches on the leading 4-byte signature and
//! fails with an unsupported-format error on anything else.
//!
//! Every decode step is mirrored by a spec function over the byte buffer,
//! so the decoded package is the unique value determined by the bytes.

use vstd::prelude::*;

use crate::byte_stream::{
    sat_add, spec_read_bytes, spec_read_i16, spec_read_i32, spec_read_string, spec_read_u32,
};
use crate::error::{mirrors, mirrors_value, mirrors_view, DecodeError};
use crate::fixed_point::{f32_bits_scaled, spec_f32_bits_scaled, F32_BITS_ONE};
use crate::rw_file::RwFile;
use crate::types::{RwQuaternion, RwVector3};

verus! {

broadcast use vstd::std_specs::control_flow::group_control_flow_axioms;

/// The sub-format of an animation package.
#[derive(Clone, Copy, Debug, PartialEq, Eq, Structural)]
pub enum IfpVersion {
    /// Legacy fixed-point format.
    ANP3,
    /// Modern floating-point format.
    ANPK,
    /// Neither known signature.
    UNSUPPORTED,
}

/// One keyframe of a bone track. Scalars are IEEE-754 single bit patterns;
/// position defaults to the origin and scale to the unit vector when the
/// track's channel tag says those channels are not encoded.
#[derive(Clone, Copy, Debug, PartialEq, Eq, Structural)]
pub struct RwIfpKeyframe {
    pub time: u32,
    pub position: RwVector3,
    pub rotation: RwQuaternion,
    pub scale: RwVector3,
}

/// One per-bone track of an animation.
#[derive(Debug, Clone, PartialEq)]
pub struct RwIfpBone {
    pub name: String,
    /// Four-character channel-type tag controlling which fields are present.
    pub keyframe_type: String,
    /// Whether a numeric bone id was physically encoded.
    pub use_bone_id: bool,
    /// The bone id, or 0 when none was encoded.
    pub bone_id: i32,
    pub keyframes: Vec<RwIfpKeyframe>,
}

/// Spec-level value of a bone track.
pub struct RwIfpBoneV {
    pub name: Seq<char>,
    pub keyframe_type: Seq<char>,
    pub use_bone_id: bool,
    pub bone_id: i32,
    pub keyframes: Seq<RwIfpKeyframe>,
}

impl View for RwIfpBone {
    type V = RwIfpBoneV;

    open spec fn view(&self) -> RwIfpBoneV {
        RwIfpBoneV {
            name: self.name@,
            keyframe_type: self.keyframe_type@,
            use_bone_id: self.use_bone_id,
            bone_id: self.bone_id,
            keyframes: self.keyframes@,
        }
    }
}

/// One animation: a name and its per-bone tracks.
#[derive(Debug, Clone, PartialEq)]
pub struct RwIfpAnimation {
    pub name: String,
    pub bones: Vec<RwIfpBone>,
}

/// Spec-level value of an animation.
pub struct RwIfpAnimationV {
    pub name: Seq<char>,
    pub bones: Seq<RwIfpBoneV>,
}

impl View for RwIfpAnimation {
    type V = RwIfpAnimationV;

    open spec fn view(&self) -> RwIfpAnimationV {
        RwIfpAnimationV {
            name: self.name@,
            bones: self.bones@.map_values(|b: RwIfpBone| b@),
        }
    }
}

/// A decoded animation package.
#[derive(Debug, Clone, PartialEq)]
pub struct RwIfp {
    pub version: IfpVersion,
    pub name: String,
    pub animations: Vec<RwIfpAnimation>,
}

/// Spec-level value of an animation package.
pub struct RwIfpV {
    pub version: IfpVersion,
    pub name: Seq<char>,
    pub animations: Seq<RwIfpAnimationV>,
}

impl View for RwIfp {
    type V = RwIfpV;

    open spec fn view(&self) -> RwIfpV {
        RwIfpV {
            version: self.version,
            name: self.name@,
            animations: self.animations@.map_values(|a: RwIfpAnimation| a@),
        }
    }
}

/// The channel tag encodes a translation channel when its third character
/// is 'T' (and no NUL terminates the tag earlier).
pub open spec fn spec_tag_has_translation(tag: Seq<u8>) -> bool {
    tag.len() >= 3 && tag[0] != 0 && tag[1] != 0 && tag[2] == 0x54
}

/// The channel tag encodes a scale channel when its fourth character is 'S'
/// (and no NUL terminates the tag earlier).
pub open spec fn spec_tag_has_scale(tag: Seq<u8>) -> bool {
    tag.len() >= 4 && tag[0] != 0 && tag[1] != 0 && tag[2] != 0 && tag[3] == 0x53
}

/// The origin, as bit patterns.
pub open spec fn spec_origin() -> RwVector3 {
    RwVector3 { x: 0, y: 0, z: 0 }
}

/// The unit scale vector, as bit patterns.
pub open spec fn spec_unit_scale() -> RwVector3 {
    RwVector3 { x: F32_BITS_ONE, y: F32_BITS_ONE, z: F32_BITS_ONE }
}

/// One legacy keyframe: a rotation quadruple scaled by 1/4096, a raw time,
/// and — only when the channel tag encodes translation — a position triple
/// scaled by 1/1024. Scale is never encoded on this path.
pub open spec fn spec_read_anp3_keyframe(data: Seq<u8>, pos: int, has_t: bool) -> Result<
    (RwIfpKeyframe, int),
    DecodeError,
> {
    match spec_read_i16(data, pos) {
        Err(e) => Err(e),
        Ok((qx, p1)) => match spec_read_i16(data, p1) {
            Err(e) => Err(e),
            Ok((qy, p2)) => match spec_read_i16(data, p2) {
                Err(e) => Err(e),
                Ok((qz, p3)) => match spec_read_i16(data, p3) {
                    Err(e) => Err(e),
                    Ok((qw, p4)) => match spec_read_i16(data, p4) {
                        Err(e) => Err(e),
                        Ok((t, p5)) => {
                            let rotation = RwQuaternion {
                                x: spec_f32_bits_scaled(qx as int, 12),
                                y: spec_f32_bits_scaled(qy as int, 12),
                                z: spec_f32_bits_scaled(qz as int, 12),
                                w: spec_f32_bits_scaled(qw as int, 12),
                            };
                            let time = spec_f32_bits_scaled(t as int, 0);
                            if has_t {
                                match spec_read_i16(data, p5) {
                                    Err(e) => Err(e),
                                    Ok((px, p6)) => match spec_read_i16(data, p6) {
                                        Err(e) => Err(e),
                                        Ok((py, p7)) => match spec_read_i16(data, p7) {
                                            Err(e) => Err(e),
                                            Ok((pz, p8)) => Ok(
                                                (
                                                    RwIfpKeyframe {
                                                        time,
                                                        position: RwVector3 {
                                                            x: spec_f32_bits_scaled(px as int, 10),
                                                            y: spec_f32_bits_scaled(py as int, 10),
                                                            z: spec_f32_bits_scaled(pz as int, 10),
                                                        },
                                                        rotation,
                                                        scale: spec_unit_scale(),
                                                    },
                                                    p8,
                                                ),
                                            ),
                                        },
                                    },
                                }
                            } else {
                                Ok(
                                    (
                                        RwIfpKeyframe {
                                            time,
                                            position: spec_origin(),
                                            rotation,
                                            scale: spec_unit_scale(),
                                        },
                                        p5,
                                    ),
                                )
                            }
                        },
                    },
                },
            },
        },
    }
}

/// `n` consecutive legacy keyframes.
pub open spec fn spec_read_anp3_keyframes(data: Seq<u8>, pos: int, has_t: bool, n: nat) -> Result<
    (Seq<RwIfpKeyframe>, int),
    DecodeError,
>
    decreases n,
{
    if n == 0 {
        Ok((Seq::empty(), pos))
    } else {
        match spec_read_anp3_keyframe(data, pos, has_t) {
            Err(e) => Err(e),
            Ok((k, p)) => match spec_read_anp3_keyframes(data, p, has_t, (n - 1) as nat) {
                Err(e) => Err(e),
                Ok((s, p2)) => Ok((seq![k] + s, p2)),
            },
        }
    }
}

/// One legacy bone track: a 24-byte name, a channel selector (4 means the
/// tag "KRT0", anything else "KR00"), a keyframe count, an always-present
/// bone id, then the keyframes.
pub open spec fn spec_read_anp3_bone(data: Seq<u8>, pos: int) -> Result<
    (RwIfpBoneV, int),
    DecodeError,
> {
    match spec_read_string(data, pos, 24) {
        Err(e) => Err(e),
        Ok((name, p1)) => match spec_read_u32(data, p1) {
            Err(e) => Err(e),
            Ok((kind, p2)) => match spec_read_u32(data, p2) {
                Err(e) => Err(e),
                Ok((count, p3)) => match spec_read_i32(data, p3) {
                    Err(e) => Err(e),
                    Ok((bone_id, p4)) => {
                        let has_t = kind == 4;
                        match spec_read_anp3_keyframes(data, p4, has_t, count as nat) {
                            Err(e) => Err(e),
                            Ok((keyframes, p5)) => Ok(
                                (
                                    RwIfpBoneV {
                                        name,
                                        keyframe_type: if has_t {
                                            "KRT0"@
                                        } else {
                                            "KR00"@
                                        },
                                        use_bone_id: true,
                                        bone_id,
                                        keyframes,
                                    },
                                    p5,
                                ),
                            ),
                        }
                    },
                },
            },
        },
    }
}

/// `n` consecutive legacy bone tracks.
pub open spec fn spec_read_anp3_bones(data: Seq<u8>, pos: int, n: nat) -> Result<
    (Seq<RwIfpBoneV>, int),
    DecodeError,
>
    decreases n,
{
    if n == 0 {
        Ok((Seq::empty(), pos))
    } else {
        match spec_read_anp3_bone(data, pos) {
            Err(e) => Err(e),
            Ok((b, p)) => match spec_read_anp3_bones(data, p, (n - 1) as nat) {
                Err(e) => Err(e),
                Ok((s, p2)) => Ok((seq![b] + s, p2)),
            },
        }
    }
}

/// One legacy animation: a 24-byte name, a bone count, 8 reserved bytes,
/// then the bone tracks.
pub open spec fn spec_read_anp3_animation(data: Seq<u8>, pos: int) -> Result<
    (RwIfpAnimationV, int),
    DecodeError,
> {
    match spec_read_string(data, pos, 24) {
        Err(e) => Err(e),
        Ok((name, p1)) => match spec_read_u32(data, p1) {
            Err(e) => Err(e),
            Ok((count, p2)) => match spec_read_anp3_bones(data, sat_add(p2, 8), count as nat) {
                Err(e) => Err(e),
                Ok((bones, p3)) => Ok((RwIfpAnimationV { name, bones }, p3)),
            },
        },
    }
}

/// `n` consecutive legacy animations.
pub open spec fn spec_read_anp3_animations(data: Seq<u8>, pos: int, n: nat) -> Result<
    (Seq<RwIfpAnimationV>, int),
    DecodeError,
>
    decreases n,
{
    if n == 0 {
        Ok((Seq::empty(), pos))
    } else {
        match spec_read_anp3_animation(data, pos) {
            Err(e) => Err(e),
            Ok((a, p)) => match spec_read_anp3_animations(data, p, (n - 1) as nat) {
                Err(e) => Err(e),
                Ok((s, p2)) => Ok((seq![a] + s, p2)),
            },
        }
    }
}

/// A whole legacy package, decoded from `pos`: signature and total size,
/// a 24-byte package name, an animation count, then the animations.
#[verifier::opaque]
pub open spec fn spec_read_anp3(data: Seq<u8>, pos: int) -> Result<(RwIfpV, int), DecodeError> {
    match spec_read_u32(data, sat_add(pos, 4)) {
        Err(e) => Err(e),
        Ok((_size, p1)) => match spec_read_string(data, p1, 24) {
            Err(e) => Err(e),
            Ok((name, p2)) => match spec_read_u32(data, p2) {
                Err(e) => Err(e),
                Ok((count, p3)) => match spec_read_anp3_animations(data, p3, count as nat) {
                    Err(e) => Err(e),
                    Ok((animations, p4)) => Ok(
                        (RwIfpV { version: IfpVersion::ANP3, name, animations }, p4),
                    ),
                },
            },
        },
    }
}

/// One modern keyframe: a rotation quadruple, an optional position triple,
/// an optional scale triple, then a time — each scalar a raw 32-bit float
/// pattern taken from the wire.
pub open spec fn spec_read_anpk_keyframe(data: Seq<u8>, pos: int, has_t: bool, has_s: bool) -> Result<
    (RwIfpKeyframe, int),
    DecodeError,
> {
    match spec_read_u32(data, pos) {
        Err(e) => Err(e),
        Ok((qx, p1)) => match spec_read_u32(data, p1) {
            Err(e) => Err(e),
            Ok((qy, p2)) => match spec_read_u32(data, p2) {
                Err(e) => Err(e),
                Ok((qz, p3)) => match spec_read_u32(data, p3) {
                    Err(e) => Err(e),
                    Ok((qw, p4)) => {
                        let rotation = RwQuaternion { x: qx, y: qy, z: qz, w: qw };
                        match (if has_t {
                            match spec_read_u32(data, p4) {
                                Err(e) => Err(e),
                                Ok((px, q1)) => match spec_read_u32(data, q1) {
                                    Err(e) => Err(e),
                                    Ok((py, q2)) => match spec_read_u32(data, q2) {
                                        Err(e) => Err(e),
                                        Ok((pz, q3)) => Ok((RwVector3 { x: px, y: py, z: pz }, q3)),
                                    },
                                },
                            }
                        } else {
                            Ok((spec_origin(), p4))
                        }) {
                            Err(e) => Err(e),
                            Ok((position, p5)) => match (if has_s {
                                match spec_read_u32(data, p5) {
                                    Err(e) => Err(e),
                                    Ok((sx, q1)) => match spec_read_u32(data, q1) {
                                        Err(e) => Err(e),
                                        Ok((sy, q2)) => match spec_read_u32(data, q2) {
                                            Err(e) => Err(e),
                                            Ok((sz, q3)) => Ok(
                                                (RwVector3 { x: sx, y: sy, z: sz }, q3),
                                            ),
                                        },
                                    },
                                }
                            } else {
                                Ok((spec_unit_scale(), p5))
                            }) {
                                Err(e) => Err(e),
                                Ok((scale, p6)) => match spec_read_u32(data, p6) {
                                    Err(e) => Err(e),
                                    Ok((time, p7)) => Ok(
                                        (RwIfpKeyframe { time, position, rotation, scale }, p7),
                                    ),
                                },
                            },
                        }
                    },
                },
            },
        },
    }
}

/// `n` consecutive modern keyframes.
pub open spec fn spec_read_anpk_keyframes(
    data: Seq<u8>,
    pos: int,
    has_t: bool,
    has_s: bool,
    n: nat,
) -> Result<(Seq<RwIfpKeyframe>, int), DecodeError>
    decreases n,
{
    if n == 0 {
        Ok((Seq::empty(), pos))
    } else {
        match spec_read_anpk_keyframe(data, pos, has_t, has_s) {
            Err(e) => Err(e),
            Ok((k, p)) => match spec_read_anpk_keyframes(data, p, has_t, has_s, (n - 1) as nat) {
                Err(e) => Err(e),
                Ok((s, p2)) => Ok((seq![k] + s, p2)),
            },
        }
    }
}

/// One modern bone track. Nested framing tags are skipped; the declared
/// track length decides whether a bone id is physically present (a length
/// of 44), and a zero keyframe count leaves the sentinel tag "K000".
pub open spec fn spec_read_anpk_bone(data: Seq<u8>, pos: int) -> Result<
    (RwIfpBoneV, int),
    DecodeError,
> {
    match spec_read_u32(data, sat_add(pos, 12)) {
        Err(e) => Err(e),
        Ok((anim_len, p1)) => match spec_read_string(data, p1, 28) {
            Err(e) => Err(e),
            Ok((name, p2)) => match spec_read_u32(data, p2) {
                Err(e) => Err(e),
                Ok((count, p3)) => {
                    let use_bone_id = anim_len == 44;
                    match (if use_bone_id {
                        spec_read_i32(data, sat_add(p3, 8))
                    } else {
                        Ok((0 as i32, sat_add(sat_add(p3, 8), 8)))
                    }) {
                        Err(e) => Err(e),
                        Ok((bone_id, p4)) => {
                            if count > 0 {
                                match spec_read_bytes(data, p4, 4) {
                                    Err(e) => Err(e),
                                    Ok((tag, p5)) => {
                                        let has_t = spec_tag_has_translation(tag);
                                        let has_s = spec_tag_has_scale(tag);
                                        match spec_read_anpk_keyframes(
                                            data,
                                            sat_add(p5, 4),
                                            has_t,
                                            has_s,
                                            count as nat,
                                        ) {
                                            Err(e) => Err(e),
                                            Ok((keyframes, p6)) => Ok(
                                                (
                                                    RwIfpBoneV {
                                                        name,
                                                        keyframe_type: crate::text::spec_field_text(
                                                            tag,
                                                        ),
                                                        use_bone_id,
                                                        bone_id,
                                                        keyframes,
                                                    },
                                                    p6,
                                                ),
                                            ),
                                        }
                                    },
                                }
                            } else {
                                Ok(
                                    (
                                        RwIfpBoneV {
                                            name,
                                            keyframe_type: "K000"@,
                                            use_bone_id,
                                            bone_id,
                                            keyframes: Seq::empty(),
                                        },
                                        p4,
                                    ),
                                )
                            }
                        },
                    }
                },
            },
        },
    }
}

/// `n` consecutive modern bone tracks.
pub open spec fn spec_read_anpk_bones(data: Seq<u8>, pos: int, n: nat) -> Result<
    (Seq<RwIfpBoneV>, int),
    DecodeError,
>
    decreases n,
{
    if n == 0 {
        Ok((Seq::empty(), pos))
    } else {
        match spec_read_anpk_bone(data, pos) {
            Err(e) => Err(e),
            Ok((b, p)) => match spec_read_anpk_bones(data, p, (n - 1) as nat) {
                Err(e) => Err(e),
                Ok((s, p2)) => Ok((seq![b] + s, p2)),
            },
        }
    }
}

/// Padding that re-aligns a name block to a multiple of 4 bytes.
pub open spec fn spec_align4(n: int) -> int {
    (4 - n % 4) % 4
}

/// One modern animation: a tagged, 4-byte-aligned name block, 16 reserved
/// bytes of nested framing, a bone count, 4 reserved bytes, then the bones.
pub open spec fn spec_read_anpk_animation(data: Seq<u8>, pos: int) -> Result<
    (RwIfpAnimationV, int),
    DecodeError,
> {
    match spec_read_u32(data, sat_add(pos, 4)) {
        Err(e) => Err(e),
        Ok((name_len, p1)) => match spec_read_string(data, p1, name_len as int) {
            Err(e) => Err(e),
            Ok((name, p2)) => match spec_read_u32(
                data,
                sat_add(sat_add(p2, spec_align4(name_len as int)), 16),
            ) {
                Err(e) => Err(e),
                Ok((count, p3)) => match spec_read_anpk_bones(data, sat_add(p3, 4), count as nat) {
                    Err(e) => Err(e),
                    Ok((bones, p4)) => Ok((RwIfpAnimationV { name, bones }, p4)),
                },
            },
        },
    }
}

/// `n` consecutive modern animations.
pub open spec fn spec_read_anpk_animations(data: Seq<u8>, pos: int, n: nat) -> Result<
    (Seq<RwIfpAnimationV>, int),
    DecodeError,
>
    decreases n,
{
    if n == 0 {
        Ok((Seq::empty(), pos))
    } else {
        match spec_read_anpk_animation(data, pos) {
            Err(e) => Err(e),
            Ok((a, p)) => match spec_read_anpk_animations(data, p, (n - 1) as nat) {
                Err(e) => Err(e),
                Ok((s, p2)) => Ok((seq![a] + s, p2)),
            },
        }
    }
}

/// A whole modern package, decoded from `pos`: signature, total size, an
/// info block holding the animation count and the package name (aligned to
/// 4 bytes), then the animations. An info block shorter than its own count
/// field is truncated input.
#[verifier::opaque]
pub open spec fn spec_read_anpk(data: Seq<u8>, pos: int) -> Result<(RwIfpV, int), DecodeError> {
    match spec_read_u32(data, sat_add(pos, 12)) {
        Err(e) => Err(e),
        Ok((info_len, p1)) => match spec_read_u32(data, p1) {
            Err(e) => Err(e),
            Ok((count, p2)) => {
                if info_len < 4 {
                    Err(DecodeError::Truncated)
                } else {
                    match spec_read_string(data, p2, info_len - 4) {
                        Err(e) => Err(e),
                        Ok((name, p3)) => match spec_read_anpk_animations(
                            data,
                            sat_add(p3, spec_align4(info_len as int)),
                            count as nat,
                        ) {
                            Err(e) => Err(e),
                            Ok((animations, p4)) => Ok(
                                (RwIfpV { version: IfpVersion::ANPK, name, animations }, p4),
                            ),
                        },
                    }
                }
            },
        },
    }
}

/// The whole-package decode: dispatch on the leading 4-byte signature read
/// at the cursor, then decode the matching sub-format from the buffer
/// start. A buffer whose signature matches neither sub-format is
/// unsupported.
pub open spec fn spec_parse_ifp(data: Seq<u8>, pos: int) -> Result<RwIfpV, DecodeError> {
    match spec_read_bytes(data, pos, 4) {
        Err(e) => Err(e),
        Ok((sig, _p)) => {
            if sig == seq![0x41u8, 0x4Eu8, 0x50u8, 0x33u8] {
                match spec_read_anp3(data, 0) {
                    Err(e) => Err(e),
                    Ok((v, _end)) => Ok(v),
                }
            } else if sig == seq![0x41u8, 0x4Eu8, 0x50u8, 0x4Bu8] {
                match spec_read_anpk(data, 0) {
                    Err(e) => Err(e),
                    Ok((v, _end)) => Ok(v),
                }
            } else {
                Err(DecodeError::UnsupportedFormat)
            }
        },
    }
}

/// The decoder for animation packages: owns the framed file and performs a
/// single forward pass over it.
pub struct IfpParser<'a> {
    file: RwFile<'a>,
}

impl<'a> IfpParser<'a> {
    /// The bytes of the package.
    pub closed spec fn spec_data(&self) -> Seq<u8> {
        self.file.spec_data()
    }

    /// The cursor position.
    pub closed spec fn spec_pos(&self) -> int {
        self.file.spec_pos()
    }

    /// Opens a decoder over a whole package buffer.
    pub fn new(buffer: &'a [u8]) -> (r: IfpParser<'a>)
        ensures
            r.spec_data() == buffer@,
            r.spec_pos() == 0,
    {
        IfpParser { file: RwFile::new(buffer) }
    }

    /// Decodes the whole package: detects the sub-format by its leading
    /// signature and runs the matching decoder. On an unrecognized
    /// signature the cursor does not advance past the buffer start.
    #[verifier::rlimit(60)]
    pub fn parse(&mut self) -> (r: Result<RwIfp, DecodeError>)
        ensures
            final(self).spec_data() == old(self).spec_data(),
            mirrors_value(spec_parse_ifp(old(self).spec_data(), old(self).spec_pos()), r),
            (match spec_read_bytes(old(self).spec_data(), old(self).spec_pos(), 4) {
                Ok((sig, _)) => (sig != seq![0x41u8, 0x4Eu8, 0x50u8, 0x33u8] && sig != seq![
                    0x41u8,
                    0x4Eu8,
                    0x50u8,
                    0x4Bu8,
                ]) ==> (r == Err::<RwIfp, DecodeError>(DecodeError::UnsupportedFormat) && final(self).spec_pos() == 0),
                Err(_) => final(self).spec_pos() == old(self).spec_pos(),
            }),
    {
        let sig = self.file.get_stream().read(4)?;
        self.file.get_stream().set_position(0);
        if sig.len() == 4 && sig[0] == 0x41 && sig[1] == 0x4E && sig[2] == 0x50 && sig[3] == 0x33 {
            proof {
                assert(sig@ =~= seq![0x41u8, 0x4Eu8, 0x50u8, 0x33u8]);
            }
            self.read_anp3()
        } else if sig.len() == 4 && sig[0] == 0x41 && sig[1] == 0x4E && sig[2] == 0x50 && sig[3]
            == 0x4B {
            proof {
                assert(sig@ =~= seq![0x41u8, 0x4Eu8, 0x50u8, 0x4Bu8]);
            }
            self.read_anpk()
        } else {
            proof {
                if sig@ == seq![0x41u8, 0x4Eu8, 0x50u8, 0x33u8] {
                    assert(sig@.len() == 4);
                    assert(sig@[0] == 0x41 && sig@[1] == 0x4E && sig@[2] == 0x50 && sig@[3]
                        == 0x33);
                }
                if sig@ == seq![0x41u8, 0x4Eu8, 0x50u8, 0x4Bu8] {
                    assert(sig@.len() == 4);
                    assert(sig@[0] == 0x41 && sig@[1] == 0x4E && sig@[2] == 0x50 && sig@[3]
                        == 0x4B);
                }
            }
            Err(DecodeError::UnsupportedFormat)
        }
    }

    /// Decodes a legacy fixed-point package from the buffer start.
    fn read_anp3(&mut self) -> (r: Result<RwIfp, DecodeError>)
        requires
            old(self).spec_pos() == 0,
        ensures
            final(self).spec_data() == old(self).spec_data(),
            match r {
                Ok(v) => spec_read_anp3(old(self).spec_data(), 0) matches Ok((sv, end)) && sv == v@
                    && end == final(self).spec_pos(),
                Err(e) => spec_read_anp3(old(self).spec_data(), 0) == Err::<
                    (RwIfpV, int),
                    DecodeError,
                >(e),
            },
    {
        proof {
            reveal(spec_read_anp3);
        }
        self.file.get_stream().skip(4);
        let _size = self.file.get_stream().read_u32()?;
        let name = self.file.get_stream().read_string(24)?;
        let count = self.file.get_stream().read_u32()?;
        let animations = self.read_anp3_animations(count)?;
        Ok(RwIfp { version: IfpVersion::ANP3, name, animations })
    }

    /// Decodes `n` legacy animations at the cursor.
    fn read_anp3_animations(&mut self, n: u32) -> (r: Result<Vec<RwIfpAnimation>, DecodeError>)
        ensures
            final(self).spec_data() == old(self).spec_data(),
            match r {
                Ok(v) => spec_read_anp3_animations(
                    old(self).spec_data(),
                    old(self).spec_pos(),
                    n as nat,
                ) matches Ok((s, end)) && s == v@.map_values(|a: RwIfpAnimation| a@) && end == final(self).spec_pos(),
                Err(e) => spec_read_anp3_animations(
                    old(self).spec_data(),
                    old(self).spec_pos(),
                    n as nat,
                ) == Err::<(Seq<RwIfpAnimationV>, int), DecodeError>(e),
            },
    {
        let ghost data0 = self.spec_data();
        let ghost pos0 = self.spec_pos();
        let mut out: Vec<RwIfpAnimation> = Vec::new();
        let mut i: u32 = 0;
        while i < n
            invariant
                0 <= i <= n,
                data0 == old(self).spec_data(),
                pos0 == old(self).spec_pos(),
                self.spec_data() == data0,
                out@.len() == i,
                spec_read_anp3_animations(data0, pos0, n as nat) == (
                match spec_read_anp3_animations(data0, self.spec_pos(), (n - i) as nat) {
                    Ok((s, p)) => Ok::<(Seq<RwIfpAnimationV>, int), DecodeError>(
                        (out@.map_values(|a: RwIfpAnimation| a@) + s, p),
                    ),
                    Err(e) => Err::<(Seq<RwIfpAnimationV>, int), DecodeError>(e),
                }),
            decreases n - i,
        {
            let ghost views_before = out@.map_values(|a: RwIfpAnimation| a@);
            let a = match self.read_anp3_animation() {
                Ok(a) => a,
                Err(e) => {
                    return Err(e);
                },
            };
            out.push(a);
            proof {
                let rest = spec_read_anp3_animations(data0, self.spec_pos(), (n - i - 1) as nat);
                assert(out@.map_values(|x: RwIfpAnimation| x@) =~= views_before + seq![a@]);
                match rest {
                    Ok((s, p)) => {
                        assert((views_before + seq![a@]) + s =~= views_before + (seq![a@] + s));
                    },
                    Err(e) => {},
                }
            }
            i += 1;
        }
        proof {
            assert(spec_read_anp3_animations(data0, self.spec_pos(), 0) == Ok::<
                (Seq<RwIfpAnimationV>, int),
                DecodeError,
            >((Seq::empty(), self.spec_pos())));
            assert(out@.map_values(|a: RwIfpAnimation| a@) + Seq::<RwIfpAnimationV>::empty()
                =~= out@.map_values(|a: RwIfpAnimation| a@));
        }
        Ok(out)
    }

    /// Decodes one legacy animation at the cursor.
    fn read_anp3_animation(&mut self) -> (r: Result<RwIfpAnimation, DecodeError>)
        ensures
            final(self).spec_data() == old(self).spec_data(),
            match r {
                Ok(v) => spec_read_anp3_animation(old(self).spec_data(), old(self).spec_pos())
                    matches Ok((sv, end)) && sv == v@ && end == final(self).spec_pos(),
                Err(e) => spec_read_anp3_animation(old(self).spec_data(), old(self).spec_pos())
                    == Err::<(RwIfpAnimationV, int), DecodeError>(e),
            },
    {
        let name = self.file.get_stream().read_string(24)?;
        let count = self.file.get_stream().read_u32()?;
        self.file.get_stream().skip(8);
        let bones = self.read_anp3_bones(count)?;
        Ok(RwIfpAnimation { name, bones })
    }

    /// Decodes `n` legacy bone tracks at the cursor.
    fn read_anp3_bones(&mut self, n: u32) -> (r: Result<Vec<RwIfpBone>, DecodeError>)
        ensures
            final(self).spec_data() == old(self).spec_data(),
            match r {
                Ok(v) => spec_read_anp3_bones(old(self).spec_data(), old(self).spec_pos(), n as nat)
                    matches Ok((s, end)) && s == v@.map_values(|b: RwIfpBone| b@) && end == final(self).spec_pos(),
                Err(e) => spec_read_anp3_bones(old(self).spec_data(), old(self).spec_pos(), n as nat)
                    == Err::<(Seq<RwIfpBoneV>, int), DecodeError>(e),
            },
    {
        let ghost data0 = self.spec_data();
        let ghost pos0 = self.spec_pos();
        let mut out: Vec<RwIfpBone> = Vec::new();
        let mut i: u32 = 0;
        while i < n
            invariant
                0 <= i <= n,
                data0 == old(self).spec_data(),
                pos0 == old(self).spec_pos(),
                self.spec_data() == data0,
                out@.len() == i,
                spec_read_anp3_bones(data0, pos0, n as nat) == (match spec_read_anp3_bones(
                    data0,
                    self.spec_pos(),
                    (n - i) as nat,
                ) {
                    Ok((s, p)) => Ok::<(Seq<RwIfpBoneV>, int), DecodeError>(
                        (out@.map_values(|b: RwIfpBone| b@) + s, p),
                    ),
                    Err(e) => Err::<(Seq<RwIfpBoneV>, int), DecodeError>(e),
                }),
            decreases n - i,
        {
            let ghost views_before = out@.map_values(|b: RwIfpBone| b@);
            let b = match self.read_anp3_bone() {
                Ok(b) => b,
                Err(e) => {
                    return Err(e);
                },
            };
            out.push(b);
            proof {
                let rest = spec_read_anp3_bones(data0, self.spec_pos(), (n - i - 1) as nat);
                assert(out@.map_values(|x: RwIfpBone| x@) =~= views_before + seq![b@]);
                match rest {
                    Ok((s, p)) => {
                        assert((views_before + seq![b@]) + s =~= views_before + (seq![b@] + s));
                    },
                    Err(e) => {},
                }
            }
            i += 1;
        }
        proof {
            assert(out@.map_values(|b: RwIfpBone| b@) + Seq::<RwIfpBoneV>::empty()
                =~= out@.map_values(|b: RwIfpBone| b@));
        }
        Ok(out)
    }

    /// Decodes one legacy bone track at the cursor.
    fn read_anp3_bone(&mut self) -> (r: Result<RwIfpBone, DecodeError>)
        ensures
            final(self).spec_data() == old(self).spec_data(),
            match r {
                Ok(v) => spec_read_anp3_bone(old(self).spec_data(), old(self).spec_pos()) matches Ok(
                    (sv, end),
                ) && sv == v@ && end == final(self).spec_pos(),
                Err(e) => spec_read_anp3_bone(old(self).spec_data(), old(self).spec_pos()) == Err::<
                    (RwIfpBoneV, int),
                    DecodeError,
                >(e),
            },
    {
        let name = self.file.get_stream().read_string(24)?;
        let kind = self.file.get_stream().read_u32()?;
        let count = self.file.get_stream().read_u32()?;
        let has_t = kind == 4;
        let keyframe_type: String = if has_t {
            "KRT0".to_owned()
        } else {
            "KR00".to_owned()
        };
        let bone_id = self.file.get_stream().read_i32()?;
        let keyframes = self.read_anp3_keyframes(has_t, count)?;
        Ok(RwIfpBone { name, keyframe_type, use_bone_id: true, bone_id, keyframes })
    }

    /// Decodes `n` legacy keyframes at the cursor.
    fn read_anp3_keyframes(&mut self, has_t: bool, n: u32) -> (r: Result<
        Vec<RwIfpKeyframe>,
        DecodeError,
    >)
        ensures
            final(self).spec_data() == old(self).spec_data(),
            mirrors_view(
                spec_read_anp3_keyframes(
                    old(self).spec_data(),
                    old(self).spec_pos(),
                    has_t,
                    n as nat,
                ),
                r,
                final(self).spec_pos(),
            ),
    {
        let ghost data0 = self.spec_data();
        let ghost pos0 = self.spec_pos();
        let mut out: Vec<RwIfpKeyframe> = Vec::new();
        let mut i: u32 = 0;
        while i < n
            invariant
                0 <= i <= n,
                data0 == old(self).spec_data(),
                pos0 == old(self).spec_pos(),
                self.spec_data() == data0,
                out@.len() == i,
                spec_read_anp3_keyframes(data0, pos0, has_t, n as nat) == (
                match spec_read_anp3_keyframes(data0, self.spec_pos(), has_t, (n - i) as nat) {
                    Ok((s, p)) => Ok::<(Seq<RwIfpKeyframe>, int), DecodeError>((out@ + s, p)),
                    Err(e) => Err::<(Seq<RwIfpKeyframe>, int), DecodeError>(e),
                }),
            decreases n - i,
        {
            let ghost views_before = out@;
            let k = match self.read_anp3_keyframe(has_t) {
                Ok(k) => k,
                Err(e) => {
                    return Err(e);
                },
            };
            out.push(k);
            proof {
                let rest = spec_read_anp3_keyframes(data0, self.spec_pos(), has_t, (n - i
                    - 1) as nat);
                assert(out@ =~= views_before + seq![k]);
                match rest {
                    Ok((s, p)) => {
                        assert((views_before + seq![k]) + s =~= views_before + (seq![k] + s));
                    },
                    Err(e) => {},
                }
            }
            i += 1;
        }
        proof {
            assert(out@ + Seq::<RwIfpKeyframe>::empty() =~= out@);
        }
        Ok(out)
    }

    /// Decodes one legacy keyframe at the cursor.
    fn read_anp3_keyframe(&mut self, has_t: bool) -> (r: Result<RwIfpKeyframe, DecodeError>)
        ensures
            final(self).spec_data() == old(self).spec_data(),
            mirrors(
                spec_read_anp3_keyframe(old(self).spec_data(), old(self).spec_pos(), has_t),
                r,
                final(self).spec_pos(),
            ),
    {
        let qx = self.file.get_stream().read_i16()?;
        let qy = self.file.get_stream().read_i16()?;
        let qz = self.file.get_stream().read_i16()?;
        let qw = self.file.get_stream().read_i16()?;
        let t = self.file.get_stream().read_i16()?;
        let rotation = RwQuaternion {
            x: f32_bits_scaled(qx as i32, 12),
            y: f32_bits_scaled(qy as i32, 12),
            z: f32_bits_scaled(qz as i32, 12),
            w: f32_bits_scaled(qw as i32, 12),
        };
        let time = f32_bits_scaled(t as i32, 0);
        let position = if has_t {
            let px = self.file.get_stream().read_i16()?;
            let py = self.file.get_stream().read_i16()?;
            let pz = self.file.get_stream().read_i16()?;
            RwVector3 {
                x: f32_bits_scaled(px as i32, 10),
                y: f32_bits_scaled(py as i32, 10),
                z: f32_bits_scaled(pz as i32, 10),
            }
        } else {
            RwVector3 { x: 0, y: 0, z: 0 }
        };
        let scale = RwVector3 { x: F32_BITS_ONE, y: F32_BITS_ONE, z: F32_BITS_ONE };
        Ok(RwIfpKeyframe { time, position, rotation, scale })
    }

    /// Decodes a modern floating-point package from the buffer start.
    fn read_anpk(&mut self) -> (r: Result<RwIfp, DecodeError>)
        requires
            old(self).spec_pos() == 0,
        ensures
            final(self).spec_data() == old(self).spec_data(),
            match r {
                Ok(v) => spec_read_anpk(old(self).spec_data(), 0) matches Ok((sv, end)) && sv == v@
                    && end == final(self).spec_pos(),
                Err(e) => spec_read_anpk(old(self).spec_data(), 0) == Err::<
                    (RwIfpV, int),
                    DecodeError,
                >(e),
            },
    {
        proof {
            reveal(spec_read_anpk);
        }
        self.file.get_stream().skip(12);
        let info_len = self.file.get_stream().read_u32()?;
        let count = self.file.get_stream().read_u32()?;
        if info_len < 4 {
            return Err(DecodeError::Truncated);
        }
        let name = self.file.get_stream().read_string((info_len - 4) as usize)?;
        let align = ((4 - info_len % 4) % 4) as usize;
        self.file.get_stream().skip(align);
        let animations = self.read_anpk_animations(count)?;
        Ok(RwIfp { version: IfpVersion::ANPK, name, animations })
    }

    /// Decodes `n` modern animations at the cursor.
    fn read_anpk_animations(&mut self, n: u32) -> (r: Result<Vec<RwIfpAnimation>, DecodeError>)
        ensures
            final(self).spec_data() == old(self).spec_data(),
            match r {
                Ok(v) => spec_read_anpk_animations(
                    old(self).spec_data(),
                    old(self).spec_pos(),
                    n as nat,
                ) matches Ok((s, end)) && s == v@.map_values(|a: RwIfpAnimation| a@) && end == final(self).spec_pos(),
                Err(e) => spec_read_anpk_animations(
                    old(self).spec_data(),
                    old(self).spec_pos(),
                    n as nat,
                ) == Err::<(Seq<RwIfpAnimationV>, int), DecodeError>(e),
            },
    {
        let ghost data0 = self.spec_data();
        let ghost pos0 = self.spec_pos();
        let mut out: Vec<RwIfpAnimation> = Vec::new();
        let mut i: u32 = 0;
        while i < n
            invariant
                0 <= i <= n,
                data0 == old(self).spec_data(),
                pos0 == old(self).spec_pos(),
                self.spec_data() == data0,
                out@.len() == i,
                spec_read_anpk_animations(data0, pos0, n as nat) == (
                match spec_read_anpk_animations(data0, self.spec_pos(), (n - i) as nat) {
                    Ok((s, p)) => Ok::<(Seq<RwIfpAnimationV>, int), DecodeError>(
                        (out@.map_values(|a: RwIfpAnimation| a@) + s, p),
                    ),
                    Err(e) => Err::<(Seq<RwIfpAnimationV>, int), DecodeError>(e),
                }),
            decreases n - i,
        {
            let ghost views_before = out@.map_values(|a: RwIfpAnimation| a@);
            let a = match self.read_anpk_animation() {
                Ok(a) => a,
                Err(e) => {
                    return Err(e);
                },
            };
            out.push(a);
            proof {
                let rest = spec_read_anpk_animations(data0, self.spec_pos(), (n - i - 1) as nat);
                assert(out@.map_values(|x: RwIfpAnimation| x@) =~= views_before + seq![a@]);
                match rest {
                    Ok((s, p)) => {
                        assert((views_before + seq![a@]) + s =~= views_before + (seq![a@] + s));
                    },
                    Err(e) => {},
                }
            }
            i += 1;
        }
        proof {
            assert(out@.map_values(|a: RwIfpAnimation| a@) + Seq::<RwIfpAnimationV>::empty()
                =~= out@.map_values(|a: RwIfpAnimation| a@));
        }
        Ok(out)
    }

    /// Decodes one modern animation at the cursor.
    fn read_anpk_animation(&mut self) -> (r: Result<RwIfpAnimation, DecodeError>)
        ensures
            final(self).spec_data() == old(self).spec_data(),
            match r {
                Ok(v) => spec_read_anpk_animation(old(self).spec_data(), old(self).spec_pos())
                    matches Ok((sv, end)) && sv == v@ && end == final(self).spec_pos(),
                Err(e) => spec_read_anpk_animation(old(self).spec_data(), old(self).spec_pos())
                    == Err::<(RwIfpAnimationV, int), DecodeError>(e),
            },
    {
        self.file.get_stream().skip(4);
        let name_len = self.file.get_stream().read_u32()?;
        let name = self.file.get_stream().read_string(name_len as usize)?;
        let align = ((4 - name_len % 4) % 4) as usize;
        self.file.get_stream().skip(align);
        self.file.get_stream().skip(16);
        let count = self.file.get_stream().read_u32()?;
        self.file.get_stream().skip(4);
        let bones = self.read_anpk_bones(count)?;
        Ok(RwIfpAnimation { name, bones })
    }

    /// Decodes `n` modern bone tracks at the cursor.
    fn read_anpk_bones(&mut self, n: u32) -> (r: Result<Vec<RwIfpBone>, DecodeError>)
        ensures
            final(self).spec_data() == old(self).spec_data(),
            match r {
                Ok(v) => spec_read_anpk_bones(old(self).spec_data(), old(self).spec_pos(), n as nat)
                    matches Ok((s, end)) && s == v@.map_values(|b: RwIfpBone| b@) && end == final(self).spec_pos(),
                Err(e) => spec_read_anpk_bones(old(self).spec_data(), old(self).spec_pos(), n as nat)
                    == Err::<(Seq<RwIfpBoneV>, int), DecodeError>(e),
            },
    {
        let ghost data0 = self.spec_data();
        let ghost pos0 = self.spec_pos();
        let mut out: Vec<RwIfpBone> = Vec::new();
        let mut i: u32 = 0;
        while i < n
            invariant
                0 <= i <= n,
                data0 == old(self).spec_data(),
                pos0 == old(self).spec_pos(),
                self.spec_data() == data0,
                out@.len() == i,
                spec_read_anpk_bones(data0, pos0, n as nat) == (match spec_read_anpk_bones(
                    data0,
                    self.spec_pos(),
                    (n - i) as nat,
                ) {
                    Ok((s, p)) => Ok::<(Seq<RwIfpBoneV>, int), DecodeError>(
                        (out@.map_values(|b: RwIfpBone| b@) + s, p),
                    ),
                    Err(e) => Err::<(Seq<RwIfpBoneV>, int), DecodeError>(e),
                }),
            decreases n - i,
        {
            let ghost views_before = out@.map_values(|b: RwIfpBone| b@);
            let b = match self.read_anpk_bone() {
                Ok(b) => b,
                Err(e) => {
                    return Err(e);
                },
            };
            out.push(b);
            proof {
                let rest = spec_read_anpk_bones(data0, self.spec_pos(), (n - i - 1) as nat);
                assert(out@.map_values(|x: RwIfpBone| x@) =~= views_before + seq![b@]);
                match rest {
                    Ok((s, p)) => {
                        assert((views_before + seq![b@]) + s =~= views_before + (seq![b@] + s));
                    },
                    Err(e) => {},
                }
            }
            i += 1;
        }
        proof {
            assert(out@.map_values(|b: RwIfpBone| b@) + Seq::<RwIfpBoneV>::empty()
                =~= out@.map_values(|b: RwIfpBone| b@));
        }
        Ok(out)
    }

    /// Decodes one modern bone track at the cursor.
    fn read_anpk_bone(&mut self) -> (r: Result<RwIfpBone, DecodeError>)
        ensures
            final(self).spec_data() == old(self).spec_data(),
            match r {
                Ok(v) => spec_read_anpk_bone(old(self).spec_data(), old(self).spec_pos()) matches Ok(
                    (sv, end),
                ) && sv == v@ && end == final(self).spec_pos(),
                Err(e) => spec_read_anpk_bone(old(self).spec_data(), old(self).spec_pos()) == Err::<
                    (RwIfpBoneV, int),
                    DecodeError,
                >(e),
            },
    {
        self.file.get_stream().skip(12);
        let anim_len = self.file.get_stream().read_u32()?;
        let name = self.file.get_stream().read_string(28)?;
        let count = self.file.get_stream().read_u32()?;
        self.file.get_stream().skip(8);
        let use_bone_id = anim_len == 44;
        let bone_id = if use_bone_id {
            self.file.get_stream().read_i32()?
        } else {
            self.file.get_stream().skip(8);
            0
        };
        if count > 0 {
            let tag = self.file.get_stream().read(4)?;
            let has_t = tag[0] != 0 && tag[1] != 0 && tag[2] == 0x54;
            let has_s = tag[0] != 0 && tag[1] != 0 && tag[2] != 0 && tag[3] == 0x53;
            let keyframe_type = crate::text::field_text(&tag);
            self.file.get_stream().skip(4);
            let keyframes = self.read_anpk_keyframes(has_t, has_s, count)?;
            Ok(RwIfpBone { name, keyframe_type, use_bone_id, bone_id, keyframes })
        } else {
            let keyframe_type: String = "K000".to_owned();
            Ok(RwIfpBone { name, keyframe_type, use_bone_id, bone_id, keyframes: Vec::new() })
        }
    }

    /// Decodes `n` modern keyframes at the cursor.
    fn read_anpk_keyframes(&mut self, has_t: bool, has_s: bool, n: u32) -> (r: Result<
        Vec<RwIfpKeyframe>,
        DecodeError,
    >)
        ensures
            final(self).spec_data() == old(self).spec_data(),
            mirrors_view(
                spec_read_anpk_keyframes(
                    old(self).spec_data(),
                    old(self).spec_pos(),
                    has_t,
                    has_s,
                    n as nat,
                ),
                r,
                final(self).spec_pos(),
            ),
    {
        let ghost data0 = self.spec_data();
        let ghost pos0 = self.spec_pos();
        let mut out: Vec<RwIfpKeyframe> = Vec::new();
        let mut i: u32 = 0;
        while i < n
            invariant
                0 <= i <= n,
                data0 == old(self).spec_data(),
                pos0 == old(self).spec_pos(),
                self.spec_data() == data0,
                out@.len() == i,
                spec_read_anpk_keyframes(data0, pos0, has_t, has_s, n as nat) == (
                match spec_read_anpk_keyframes(data0, self.spec_pos(), has_t, has_s, (n
                    - i) as nat) {
                    Ok((s, p)) => Ok::<(Seq<RwIfpKeyframe>, int), DecodeError>((out@ + s, p)),
                    Err(e) => Err::<(Seq<RwIfpKeyframe>, int), DecodeError>(e),
                }),
            decreases n - i,
        {
            let ghost views_before = out@;
            let k = match self.read_anpk_keyframe(has_t, has_s) {
                Ok(k) => k,
                Err(e) => {
                    return Err(e);
                },
            };
            out.push(k);
            proof {
                let rest = spec_read_anpk_keyframes(data0, self.spec_pos(), has_t, has_s, (n - i
                    - 1) as nat);
                assert(out@ =~= views_before + seq![k]);
                match rest {
                    Ok((s, p)) => {
                        assert((views_before + seq![k]) + s =~= views_before + (seq![k] + s));
                    },
                    Err(e) => {},
                }
            }
            i += 1;
        }
        proof {
            assert(out@ + Seq::<RwIfpKeyframe>::empty() =~= out@);
        }
        Ok(out)
    }

    /// Decodes one modern keyframe at the cursor.
    fn read_anpk_keyframe(&mut self, has_t: bool, has_s: bool) -> (r: Result<
        RwIfpKeyframe,
        DecodeError,
    >)
        ensures
            final(self).spec_data() == old(self).spec_data(),
            mirrors(
                spec_read_anpk_keyframe(old(self).spec_data(), old(self).spec_pos(), has_t, has_s),
                r,
                final(self).spec_pos(),
            ),
    {
        let qx = self.file.get_stream().read_f32_bits()?;
        let qy = self.file.get_stream().read_f32_bits()?;
        let qz = self.file.get_stream().read_f32_bits()?;
        let qw = self.file.get_stream().read_f32_bits()?;
        let rotation = RwQuaternion { x: qx, y: qy, z: qz, w: qw };
        let position = if has_t {
            let px = self.file.get_stream().read_f32_bits()?;
            let py = self.file.get_stream().read_f32_bits()?;
            let pz = self.file.get_stream().read_f32_bits()?;
            RwVector3 { x: px, y: py, z: pz }
        } else {
            RwVector3 { x: 0, y: 0, z: 0 }
        };
        let scale = if has_s {
            let sx = self.file.get_stream().read_f32_bits()?;
            let sy = self.file.get_stream().read_f32_bits()?;
            let sz = self.file.get_stream().read_f32_bits()?;
            RwVector3 { x: sx, y: sy, z: sz }
        } else {
            RwVector3 { x: F32_BITS_ONE, y: F32_BITS_ONE, z: F32_BITS_ONE }
        };
        let time = self.file.get_stream().read_f32_bits()?;
        Ok(RwIfpKeyframe { time, position, rotation, scale })
    }
}

/// Decoding is deterministic: any two results that meet the decode
/// contract for the same bytes and start position are the same value.
pub proof fn lemma_ifp_decode_deterministic(
    data: Seq<u8>,
    pos: int,
    r1: Result<RwIfpV, DecodeError>,
    r2: Result<RwIfpV, DecodeError>,
)
    requires
        r1 == spec_parse_ifp(data, pos),
        r2 == spec_parse_ifp(data, pos),
    ensures
        r1 == r2,
{
}

} // verus!
