//! Decoder for RenderWare model clumps (DFF): skeleton frames, geometries
//! with materials, skinning data, mesh batches, attachment bindings and
//! auxiliary node metadata, walked in one forward pass over the section
//! tree. Unknown section types are skipped by their declared length.
//!
//! Every decode step is mirrored by a spec function over the byte buffer,
//! so a decoded clump is the unique value determined by the bytes.

use vstd::prelude::*;
use vstd::pervasive::VecAdditionalExecFns;

use crate::byte_stream::{
    sat_add, spec_read_bytes, spec_read_i32, spec_read_string, spec_read_u16, spec_read_u32,
    spec_read_u8,
};
use crate::dff_model_type::DffModelType;
use crate::error::{mirrors, mirrors_value, mirrors_view, DecodeError};
use crate::rw_file::{spec_read_header, RwFile};
use crate::rw_sections::RwSections;
use crate::rw_version::{spec_unpack_version, spec_version_name, unpack_version, RwVersion};
use crate::text::{lower_of, lowercase, spec_contains_seq, str_contains};
use crate::types::{
    RwColor, RwMatrix3, RwMatrix4, RwSphere, RwTextureCoordinate, RwTriangle, RwVector3, RwVector4,
};

verus! {

broadcast use vstd::std_specs::control_flow::group_control_flow_axioms;

/// Counts carried by a clump struct section. The decoder does not read
/// these today; the type names the layout for callers that do.
#[derive(Clone, Copy, Debug, PartialEq, Eq, Structural)]
pub struct RwClump {
    pub atomic_count: u32,
    pub light_count: Option<u32>,
    pub camera_count: Option<u32>,
}

/// One bone entry of an animation node.
#[derive(Clone, Copy, Debug, PartialEq, Eq, Structural)]
pub struct RwBone {
    pub bone_id: i32,
    pub bone_index: i32,
    pub flags: i32,
}

/// A per-clump bone-hierarchy descriptor.
#[derive(Debug, Clone, PartialEq)]
pub struct RwAnimNode {
    pub bone_id: i32,
    pub bones_count: i32,
    pub bones: Vec<RwBone>,
}

/// Spec-level value of an animation node.
pub struct RwAnimNodeV {
    pub bone_id: i32,
    pub bones_count: i32,
    pub bones: Seq<RwBone>,
}

impl View for RwAnimNode {
    type V = RwAnimNodeV;

    open spec fn view(&self) -> RwAnimNodeV {
        RwAnimNodeV { bone_id: self.bone_id, bones_count: self.bones_count, bones: self.bones@ }
    }
}

/// One skeleton frame: orientation, offset and parent index (-1 = root).
#[derive(Clone, Copy, Debug, PartialEq, Eq, Structural)]
pub struct RwFrame {
    pub rotation_matrix: RwMatrix3,
    pub coordinates_offset: RwVector3,
    pub parent_frame: i32,
}

/// The skeleton: an ordered frame hierarchy.
#[derive(Debug, Clone, PartialEq)]
pub struct RwFrameList {
    pub frame_count: u32,
    pub frames: Vec<RwFrame>,
}

/// Spec-level value of a frame list.
pub struct RwFrameListV {
    pub frame_count: u32,
    pub frames: Seq<RwFrame>,
}

impl View for RwFrameList {
    type V = RwFrameListV;

    open spec fn view(&self) -> RwFrameListV {
        RwFrameListV { frame_count: self.frame_count, frames: self.frames@ }
    }
}

/// A texture reference of a material.
#[derive(Debug, Clone, PartialEq)]
pub struct RwTexture {
    pub texture_filtering: u8,
    pub u_addressing: u8,
    pub v_addressing: u8,
    pub uses_mip_levels: bool,
    pub texture_name: String,
}

/// Spec-level value of a texture reference.
pub struct RwTextureV {
    pub texture_filtering: u8,
    pub u_addressing: u8,
    pub v_addressing: u8,
    pub uses_mip_levels: bool,
    pub texture_name: Seq<char>,
}

impl View for RwTexture {
    type V = RwTextureV;

    open spec fn view(&self) -> RwTextureV {
        RwTextureV {
            texture_filtering: self.texture_filtering,
            u_addressing: self.u_addressing,
            v_addressing: self.v_addressing,
            uses_mip_levels: self.uses_mip_levels,
            texture_name: self.texture_name@,
        }
    }
}

/// One material. The three coefficients are present only on sufficiently
/// new section versions and are IEEE-754 single bit patterns.
#[derive(Debug, Clone, PartialEq)]
pub struct RwMaterial {
    pub color: RwColor,
    pub is_textured: bool,
    pub ambient: Option<u32>,
    pub specular: Option<u32>,
    pub diffuse: Option<u32>,
    pub texture: Option<RwTexture>,
}

/// Spec-level value of a material.
pub struct RwMaterialV {
    pub color: RwColor,
    pub is_textured: bool,
    pub ambient: Option<u32>,
    pub specular: Option<u32>,
    pub diffuse: Option<u32>,
    pub texture: Option<RwTextureV>,
}

impl View for RwMaterial {
    type V = RwMaterialV;

    open spec fn view(&self) -> RwMaterialV {
        RwMaterialV {
            color: self.color,
            is_textured: self.is_textured,
            ambient: self.ambient,
            specular: self.specular,
            diffuse: self.diffuse,
            texture: match self.texture {
                Some(t) => Some(t@),
                None => None,
            },
        }
    }
}

/// The materials of a geometry, in decode order. An alias entry is an
/// independent copy of an earlier entry, never a shared reference.
#[derive(Debug, Clone, PartialEq)]
pub struct RwMaterialList {
    pub material_instance_count: u32,
    pub material_data: Vec<RwMaterial>,
}

/// Spec-level value of a material list.
pub struct RwMaterialListV {
    pub material_instance_count: u32,
    pub material_data: Seq<RwMaterialV>,
}

impl View for RwMaterialList {
    type V = RwMaterialListV;

    open spec fn view(&self) -> RwMaterialListV {
        RwMaterialListV {
            material_instance_count: self.material_instance_count,
            material_data: self.material_data@.map_values(|m: RwMaterial| m@),
        }
    }
}

/// One render batch: a material index and its vertex indices.
#[derive(Debug, Clone, PartialEq)]
pub struct RwMesh {
    pub material_index: u32,
    pub index_count: u32,
    pub indices: Vec<u32>,
}

/// Spec-level value of a mesh batch.
pub struct RwMeshV {
    pub material_index: u32,
    pub index_count: u32,
    pub indices: Seq<u32>,
}

impl View for RwMesh {
    type V = RwMeshV;

    open spec fn view(&self) -> RwMeshV {
        RwMeshV {
            material_index: self.material_index,
            index_count: self.index_count,
            indices: self.indices@,
        }
    }
}

/// A geometry's render-batch list.
#[derive(Debug, Clone, PartialEq)]
pub struct RwBinMesh {
    pub mesh_count: u32,
    pub meshes: Vec<RwMesh>,
}

/// Spec-level value of a bin mesh.
pub struct RwBinMeshV {
    pub mesh_count: u32,
    pub meshes: Seq<RwMeshV>,
}

impl View for RwBinMesh {
    type V = RwBinMeshV;

    open spec fn view(&self) -> RwBinMeshV {
        RwBinMeshV {
            mesh_count: self.mesh_count,
            meshes: self.meshes@.map_values(|m: RwMesh| m@),
        }
    }
}

/// Per-vertex bone influences and inverse bind matrices. Every vertex has
/// exactly 4 index slots and 4 weight slots (weights are IEEE-754 single
/// bit patterns), padded when fewer influences apply.
#[derive(Debug, Clone, PartialEq)]
pub struct RwSkin {
    pub bone_count: u8,
    pub used_bone_count: u8,
    pub max_weights_per_vertex: u8,
    pub bone_vertex_indices: Vec<Vec<u8>>,
    pub vertex_weights: Vec<Vec<u32>>,
    pub inverse_bone_matrices: Vec<RwMatrix4>,
}

/// Spec-level value of a skin.
pub struct RwSkinV {
    pub bone_count: u8,
    pub used_bone_count: u8,
    pub max_weights_per_vertex: u8,
    pub bone_vertex_indices: Seq<Seq<u8>>,
    pub vertex_weights: Seq<Seq<u32>>,
    pub inverse_bone_matrices: Seq<RwMatrix4>,
}

impl View for RwSkin {
    type V = RwSkinV;

    open spec fn view(&self) -> RwSkinV {
        RwSkinV {
            bone_count: self.bone_count,
            used_bone_count: self.used_bone_count,
            max_weights_per_vertex: self.max_weights_per_vertex,
            bone_vertex_indices: self.bone_vertex_indices@.map_values(|v: Vec<u8>| v@),
            vertex_weights: self.vertex_weights@.map_values(|v: Vec<u32>| v@),
            inverse_bone_matrices: self.inverse_bone_matrices@,
        }
    }
}

/// One geometry: optional per-vertex colors, UV channels, triangles,
/// positions and normals, a bounding sphere, its material list, its render
/// batches and an optional skin.
#[derive(Debug, Clone, PartialEq)]
pub struct RwGeometry {
    pub vertex_color_information: Vec<RwColor>,
    pub texture_coordinates_count: u8,
    pub texture_mapping_information: Vec<Vec<RwTextureCoordinate>>,
    pub has_vertices: bool,
    pub has_normals: bool,
    pub triangle_information: Vec<RwTriangle>,
    pub vertex_information: Vec<RwVector3>,
    pub normal_information: Vec<RwVector3>,
    pub bounding_sphere: Option<RwSphere>,
    pub material_list: RwMaterialList,
    pub bin_mesh: RwBinMesh,
    pub skin: Option<RwSkin>,
}

/// Spec-level value of a geometry.
pub struct RwGeometryV {
    pub vertex_color_information: Seq<RwColor>,
    pub texture_coordinates_count: u8,
    pub texture_mapping_information: Seq<Seq<RwTextureCoordinate>>,
    pub has_vertices: bool,
    pub has_normals: bool,
    pub triangle_information: Seq<RwTriangle>,
    pub vertex_information: Seq<RwVector3>,
    pub normal_information: Seq<RwVector3>,
    pub bounding_sphere: Option<RwSphere>,
    pub material_list: RwMaterialListV,
    pub bin_mesh: RwBinMeshV,
    pub skin: Option<RwSkinV>,
}

impl View for RwGeometry {
    type V = RwGeometryV;

    open spec fn view(&self) -> RwGeometryV {
        RwGeometryV {
            vertex_color_information: self.vertex_color_information@,
            texture_coordinates_count: self.texture_coordinates_count,
            texture_mapping_information: self.texture_mapping_information@.map_values(
                |v: Vec<RwTextureCoordinate>| v@,
            ),
            has_vertices: self.has_vertices,
            has_normals: self.has_normals,
            triangle_information: self.triangle_information@,
            vertex_information: self.vertex_information@,
            normal_information: self.normal_information@,
            bounding_sphere: self.bounding_sphere,
            material_list: self.material_list@,
            bin_mesh: self.bin_mesh@,
            skin: match self.skin {
                Some(s) => Some(s@),
                None => None,
            },
        }
    }
}

/// The geometries of a clump, in decode order.
#[derive(Debug, Clone, PartialEq)]
pub struct RwGeometryList {
    pub geometric_object_count: u32,
    pub geometries: Vec<RwGeometry>,
}

/// Spec-level value of a geometry list.
pub struct RwGeometryListV {
    pub geometric_object_count: u32,
    pub geometries: Seq<RwGeometryV>,
}

impl View for RwGeometryList {
    type V = RwGeometryListV;

    open spec fn view(&self) -> RwGeometryListV {
        RwGeometryListV {
            geometric_object_count: self.geometric_object_count,
            geometries: self.geometries@.map_values(|g: RwGeometry| g@),
        }
    }
}

/// One geometry-to-frame binding.
#[derive(Clone, Copy, Debug, PartialEq, Eq, Structural)]
pub struct RwAtomic {
    pub frame_index: u32,
    pub geometry_index: u32,
    pub flags: u32,
}

/// A fully decoded clump.
#[derive(Debug, Clone, PartialEq)]
pub struct RwDff {
    /// The derived model classification.
    pub model_type: DffModelType,
    /// The release string of the file version, or empty when unknown.
    pub version: String,
    /// The unpacked file version number.
    pub version_number: u32,
    pub geometry_list: Option<RwGeometryList>,
    pub frame_list: Option<RwFrameList>,
    /// Frame index bound to each geometry index; gaps are filled with 0.
    pub atomics: Vec<u32>,
    /// Auxiliary node names, in decode order.
    pub dummies: Vec<String>,
    pub anim_nodes: Vec<RwAnimNode>,
}

/// Spec-level value of a decoded clump.
pub struct RwDffV {
    pub model_type: DffModelType,
    pub version: Seq<char>,
    pub version_number: u32,
    pub geometry_list: Option<RwGeometryListV>,
    pub frame_list: Option<RwFrameListV>,
    pub atomics: Seq<u32>,
    pub dummies: Seq<Seq<char>>,
    pub anim_nodes: Seq<RwAnimNodeV>,
}

impl View for RwDff {
    type V = RwDffV;

    open spec fn view(&self) -> RwDffV {
        RwDffV {
            model_type: self.model_type,
            version: self.version@,
            version_number: self.version_number,
            geometry_list: match self.geometry_list {
                Some(gl) => Some(gl@),
                None => None,
            },
            frame_list: match self.frame_list {
                Some(fl) => Some(fl@),
                None => None,
            },
            atomics: self.atomics@,
            dummies: self.dummies@.map_values(|d: String| d@),
            anim_nodes: self.anim_nodes@.map_values(|a: RwAnimNode| a@),
        }
    }
}

/// A 3-component vector of raw 32-bit float patterns.
pub open spec fn spec_read_vec3(data: Seq<u8>, pos: int) -> Result<(RwVector3, int), DecodeError> {
    match spec_read_u32(data, pos) {
        Err(e) => Err(e),
        Ok((x, p1)) => match spec_read_u32(data, p1) {
            Err(e) => Err(e),
            Ok((y, p2)) => match spec_read_u32(data, p2) {
                Err(e) => Err(e),
                Ok((z, p3)) => Ok((RwVector3 { x, y, z }, p3)),
            },
        },
    }
}

/// A 4-component vector of raw 32-bit float patterns.
pub open spec fn spec_read_vec4(data: Seq<u8>, pos: int) -> Result<(RwVector4, int), DecodeError> {
    match spec_read_u32(data, pos) {
        Err(e) => Err(e),
        Ok((x, p1)) => match spec_read_u32(data, p1) {
            Err(e) => Err(e),
            Ok((y, p2)) => match spec_read_u32(data, p2) {
                Err(e) => Err(e),
                Ok((z, p3)) => match spec_read_u32(data, p3) {
                    Err(e) => Err(e),
                    Ok((t, p4)) => Ok((RwVector4 { x, y, z, t }, p4)),
                },
            },
        },
    }
}

/// An RGBA color: four bytes in r, g, b, a order.
pub open spec fn spec_read_color(data: Seq<u8>, pos: int) -> Result<(RwColor, int), DecodeError> {
    match spec_read_u8(data, pos) {
        Err(e) => Err(e),
        Ok((r, p1)) => match spec_read_u8(data, p1) {
            Err(e) => Err(e),
            Ok((g, p2)) => match spec_read_u8(data, p2) {
                Err(e) => Err(e),
                Ok((b, p3)) => match spec_read_u8(data, p3) {
                    Err(e) => Err(e),
                    Ok((a, p4)) => Ok((RwColor { r, g, b, a }, p4)),
                },
            },
        },
    }
}

/// One skeleton frame: a 3x3 orientation (rows right, up, at), an offset,
/// a signed parent index, and 4 ignored bytes of internal flags.
pub open spec fn spec_read_frame(data: Seq<u8>, pos: int) -> Result<(RwFrame, int), DecodeError> {
    match spec_read_vec3(data, pos) {
        Err(e) => Err(e),
        Ok((right, p1)) => match spec_read_vec3(data, p1) {
            Err(e) => Err(e),
            Ok((up, p2)) => match spec_read_vec3(data, p2) {
                Err(e) => Err(e),
                Ok((at, p3)) => match spec_read_vec3(data, p3) {
                    Err(e) => Err(e),
                    Ok((coordinates_offset, p4)) => match spec_read_i32(data, p4) {
                        Err(e) => Err(e),
                        Ok((parent_frame, p5)) => Ok(
                            (
                                RwFrame {
                                    rotation_matrix: RwMatrix3 { right, up, at },
                                    coordinates_offset,
                                    parent_frame,
                                },
                                sat_add(p5, 4),
                            ),
                        ),
                    },
                },
            },
        },
    }
}

/// A parent index is valid for the frame at position `idx` when it marks
/// the root (-1) or names an earlier frame: the hierarchy is forward
/// declared, so a parent can only point at a frame already decoded.
pub open spec fn spec_valid_parent(parent: i32, idx: int) -> bool {
    parent == -1 || (0 <= parent && (parent as int) < idx)
}

/// `n` consecutive skeleton frames, the first standing at position `idx`
/// of its list. Each frame's parent index is validated on read: one that
/// is neither the root marker nor an earlier frame's position is an
/// invalid index.
pub open spec fn spec_read_frames(data: Seq<u8>, pos: int, idx: nat, n: nat) -> Result<
    (Seq<RwFrame>, int),
    DecodeError,
>
    decreases n,
{
    if n == 0 {
        Ok((Seq::empty(), pos))
    } else {
        match spec_read_frame(data, pos) {
            Err(e) => Err(e),
            Ok((f, p)) => {
                if !spec_valid_parent(f.parent_frame, idx as int) {
                    Err(DecodeError::InvalidIndex)
                } else {
                    match spec_read_frames(data, p, (idx + 1) as nat, (n - 1) as nat) {
                        Err(e) => Err(e),
                        Ok((s, p2)) => Ok((seq![f] + s, p2)),
                    }
                }
            },
        }
    }
}

/// A frame list: a struct header, the frame count, then the frames with
/// their parent indices validated against their positions.
#[verifier::opaque]
pub open spec fn spec_read_frame_list(data: Seq<u8>, pos: int) -> Result<
    (RwFrameListV, int),
    DecodeError,
> {
    match spec_read_header(data, pos) {
        Err(e) => Err(e),
        Ok((_h, p1)) => match spec_read_u32(data, p1) {
            Err(e) => Err(e),
            Ok((frame_count, p2)) => match spec_read_frames(data, p2, 0, frame_count as nat) {
                Err(e) => Err(e),
                Ok((frames, p3)) => Ok((RwFrameListV { frame_count, frames }, p3)),
            },
        },
    }
}

/// An atomic binding: a struct header, frame index, geometry index, flags,
/// and 4 unused bytes.
#[verifier::opaque]
pub open spec fn spec_read_atomic(data: Seq<u8>, pos: int) -> Result<(RwAtomic, int), DecodeError> {
    match spec_read_header(data, pos) {
        Err(e) => Err(e),
        Ok((_h, p1)) => match spec_read_u32(data, p1) {
            Err(e) => Err(e),
            Ok((frame_index, p2)) => match spec_read_u32(data, p2) {
                Err(e) => Err(e),
                Ok((geometry_index, p3)) => match spec_read_u32(data, p3) {
                    Err(e) => Err(e),
                    Ok((flags, p4)) => Ok(
                        (RwAtomic { frame_index, geometry_index, flags }, sat_add(p4, 4)),
                    ),
                },
            },
        },
    }
}

/// One bone entry: three signed 32-bit fields.
pub open spec fn spec_read_bone(data: Seq<u8>, pos: int) -> Result<(RwBone, int), DecodeError> {
    match spec_read_i32(data, pos) {
        Err(e) => Err(e),
        Ok((bone_id, p1)) => match spec_read_i32(data, p1) {
            Err(e) => Err(e),
            Ok((bone_index, p2)) => match spec_read_i32(data, p2) {
                Err(e) => Err(e),
                Ok((flags, p3)) => Ok((RwBone { bone_id, bone_index, flags }, p3)),
            },
        },
    }
}

/// `n` consecutive bone entries.
pub open spec fn spec_read_bones(data: Seq<u8>, pos: int, n: nat) -> Result<
    (Seq<RwBone>, int),
    DecodeError,
>
    decreases n,
{
    if n == 0 {
        Ok((Seq::empty(), pos))
    } else {
        match spec_read_bone(data, pos) {
            Err(e) => Err(e),
            Ok((b, p)) => match spec_read_bones(data, p, (n - 1) as nat) {
                Err(e) => Err(e),
                Ok((s, p2)) => Ok((seq![b] + s, p2)),
            },
        }
    }
}

/// An animation node: a skipped version tag, a bone id, a declared bone
/// count, an extra 8-byte skip only for the whole-clump node (bone id 0),
/// then the bone entries (none when the declared count is not positive).
#[verifier::opaque]
pub open spec fn spec_read_anim_node(data: Seq<u8>, pos: int) -> Result<
    (RwAnimNodeV, int),
    DecodeError,
> {
    match spec_read_i32(data, sat_add(pos, 4)) {
        Err(e) => Err(e),
        Ok((bone_id, p1)) => match spec_read_i32(data, p1) {
            Err(e) => Err(e),
            Ok((bones_count, p2)) => {
                let p3 = if bone_id == 0 {
                    sat_add(p2, 8)
                } else {
                    p2
                };
                let n: nat = if bones_count > 0 {
                    bones_count as nat
                } else {
                    0
                };
                match spec_read_bones(data, p3, n) {
                    Err(e) => Err(e),
                    Ok((bones, p4)) => Ok((RwAnimNodeV { bone_id, bones_count, bones }, p4)),
                }
            },
        },
    }
}

/// A texture reference: two wrapper headers, one packed word (filter mode,
/// two addressing modes, a mip flag), a name sized by its own section
/// header, then two trailing sections skipped unconditionally.
#[verifier::opaque]
pub open spec fn spec_read_texture(data: Seq<u8>, pos: int) -> Result<
    (RwTextureV, int),
    DecodeError,
> {
    match spec_read_header(data, pos) {
        Err(e) => Err(e),
        Ok((_h1, p1)) => match spec_read_header(data, p1) {
            Err(e) => Err(e),
            Ok((_h2, p2)) => match spec_read_u32(data, p2) {
                Err(e) => Err(e),
                Ok((word, p3)) => match spec_read_header(data, p3) {
                    Err(e) => Err(e),
                    Ok((h4, p4)) => match spec_read_string(data, p4, h4.section_size as int) {
                        Err(e) => Err(e),
                        Ok((texture_name, p5)) => match spec_read_header(data, p5) {
                            Err(e) => Err(e),
                            Ok((h6, p6)) => match spec_read_header(
                                data,
                                sat_add(p6, h6.section_size as int),
                            ) {
                                Err(e) => Err(e),
                                Ok((h7, p7)) => Ok(
                                    (
                                        RwTextureV {
                                            texture_filtering: (word & 0xFF) as u8,
                                            u_addressing: ((word & 0xF00) >> 8) as u8,
                                            v_addressing: ((word & 0xF000) >> 12) as u8,
                                            uses_mip_levels: word & 0x10000 != 0,
                                            texture_name,
                                        },
                                        sat_add(p7, h7.section_size as int),
                                    ),
                                ),
                            },
                        },
                    },
                },
            },
        },
    }
}

/// One material decoded inline: wrapper headers (the second carries the
/// deciding section version), a skipped flags word, the color, a skipped
/// word, the textured flag, three coefficient floats only when the raw
/// section version exceeds 0x30400, the texture only when textured, then a
/// forced skip over one trailing section.
#[verifier::opaque]
pub open spec fn spec_read_material(data: Seq<u8>, pos: int) -> Result<
    (RwMaterialV, int),
    DecodeError,
> {
    match spec_read_header(data, pos) {
        Err(e) => Err(e),
        Ok((_h1, p1)) => match spec_read_header(data, p1) {
            Err(e) => Err(e),
            Ok((h2, p2)) => match spec_read_color(data, sat_add(p2, 4)) {
                Err(e) => Err(e),
                Ok((color, p3)) => match spec_read_u32(data, sat_add(p3, 4)) {
                    Err(e) => Err(e),
                    Ok((textured_word, p4)) => {
                        let is_textured = textured_word > 0;
                        match (if h2.version_number > 0x30400 {
                            match spec_read_u32(data, p4) {
                                Err(e) => Err(e),
                                Ok((am, q1)) => match spec_read_u32(data, q1) {
                                    Err(e) => Err(e),
                                    Ok((sp, q2)) => match spec_read_u32(data, q2) {
                                        Err(e) => Err(e),
                                        Ok((di, q3)) => Ok(
                                            ((Some(am), Some(sp), Some(di)), q3),
                                        ),
                                    },
                                },
                            }
                        } else {
                            Ok(((None::<u32>, None::<u32>, None::<u32>), p4))
                        }) {
                            Err(e) => Err(e),
                            Ok((coeffs, p5)) => match (if is_textured {
                                match spec_read_texture(data, p5) {
                                    Err(e) => Err(e),
                                    Ok((t, q)) => Ok((Some(t), q)),
                                }
                            } else {
                                Ok((None::<RwTextureV>, p5))
                            }) {
                                Err(e) => Err(e),
                                Ok((texture, p6)) => match spec_read_header(data, p6) {
                                    Err(e) => Err(e),
                                    Ok((h8, p7)) => Ok(
                                        (
                                            RwMaterialV {
                                                color,
                                                is_textured,
                                                ambient: coeffs.0,
                                                specular: coeffs.1,
                                                diffuse: coeffs.2,
                                                texture,
                                            },
                                            sat_add(p7, h8.section_size as int),
                                        ),
                                    ),
                                },
                            },
                        }
                    },
                },
            },
        },
    }
}

/// `n` consecutive signed 32-bit alias indices.
pub open spec fn spec_read_i32s(data: Seq<u8>, pos: int, n: nat) -> Result<
    (Seq<i32>, int),
    DecodeError,
>
    decreases n,
{
    if n == 0 {
        Ok((Seq::empty(), pos))
    } else {
        match spec_read_i32(data, pos) {
            Err(e) => Err(e),
            Ok((v, p)) => match spec_read_i32s(data, p, (n - 1) as nat) {
                Err(e) => Err(e),
                Ok((s, p2)) => Ok((seq![v] + s, p2)),
            },
        }
    }
}

/// Resolves the alias array: -1 decodes a fresh material inline, a
/// non-negative index copies the material already decoded at that index,
/// and anything else — negative-but-not-sentinel or not-yet-decoded — is an
/// invalid index.
pub open spec fn spec_read_materials(
    data: Seq<u8>,
    pos: int,
    idxs: Seq<i32>,
    acc: Seq<RwMaterialV>,
) -> Result<(Seq<RwMaterialV>, int), DecodeError>
    decreases idxs.len(),
{
    if idxs.len() == 0 {
        Ok((acc, pos))
    } else {
        let ix = idxs[0];
        if ix == -1 {
            match spec_read_material(data, pos) {
                Err(e) => Err(e),
                Ok((m, p)) => spec_read_materials(data, p, idxs.drop_first(), acc.push(m)),
            }
        } else if 0 <= ix < acc.len() {
            spec_read_materials(data, pos, idxs.drop_first(), acc.push(acc[ix as int]))
        } else {
            Err(DecodeError::InvalidIndex)
        }
    }
}

/// A material list: wrapper headers, the instance count, the alias index
/// array, then the materials resolved against it.
#[verifier::opaque]
pub open spec fn spec_read_material_list(data: Seq<u8>, pos: int) -> Result<
    (RwMaterialListV, int),
    DecodeError,
> {
    match spec_read_header(data, pos) {
        Err(e) => Err(e),
        Ok((_h1, p1)) => match spec_read_header(data, p1) {
            Err(e) => Err(e),
            Ok((_h2, p2)) => match spec_read_u32(data, p2) {
                Err(e) => Err(e),
                Ok((material_instance_count, p3)) => match spec_read_i32s(
                    data,
                    p3,
                    material_instance_count as nat,
                ) {
                    Err(e) => Err(e),
                    Ok((idxs, p4)) => match spec_read_materials(data, p4, idxs, Seq::empty()) {
                        Err(e) => Err(e),
                        Ok((material_data, p5)) => Ok(
                            (RwMaterialListV { material_instance_count, material_data }, p5),
                        ),
                    },
                },
            },
        },
    }
}

/// `n` consecutive unsigned 32-bit values.
pub open spec fn spec_read_u32s(data: Seq<u8>, pos: int, n: nat) -> Result<
    (Seq<u32>, int),
    DecodeError,
>
    decreases n,
{
    if n == 0 {
        Ok((Seq::empty(), pos))
    } else {
        match spec_read_u32(data, pos) {
            Err(e) => Err(e),
            Ok((v, p)) => match spec_read_u32s(data, p, (n - 1) as nat) {
                Err(e) => Err(e),
                Ok((s, p2)) => Ok((seq![v] + s, p2)),
            },
        }
    }
}

/// One mesh batch: its index count, its material index, then that many
/// vertex indices (the material index follows the count on the wire).
pub open spec fn spec_read_mesh(data: Seq<u8>, pos: int) -> Result<(RwMeshV, int), DecodeError> {
    match spec_read_u32(data, pos) {
        Err(e) => Err(e),
        Ok((index_count, p1)) => match spec_read_u32(data, p1) {
            Err(e) => Err(e),
            Ok((material_index, p2)) => match spec_read_u32s(data, p2, index_count as nat) {
                Err(e) => Err(e),
                Ok((indices, p3)) => Ok((RwMeshV { material_index, index_count, indices }, p3)),
            },
        },
    }
}

/// `n` consecutive mesh batches.
pub open spec fn spec_read_meshes(data: Seq<u8>, pos: int, n: nat) -> Result<
    (Seq<RwMeshV>, int),
    DecodeError,
>
    decreases n,
{
    if n == 0 {
        Ok((Seq::empty(), pos))
    } else {
        match spec_read_mesh(data, pos) {
            Err(e) => Err(e),
            Ok((m, p)) => match spec_read_meshes(data, p, (n - 1) as nat) {
                Err(e) => Err(e),
                Ok((s, p2)) => Ok((seq![m] + s, p2)),
            },
        }
    }
}

/// A bin mesh: a struct header, 4 skipped flag bytes, the batch count,
/// 4 skipped bytes of redundant totals, then the batches.
#[verifier::opaque]
pub open spec fn spec_read_bin_mesh(data: Seq<u8>, pos: int) -> Result<
    (RwBinMeshV, int),
    DecodeError,
> {
    match spec_read_header(data, pos) {
        Err(e) => Err(e),
        Ok((_h, p1)) => match spec_read_u32(data, sat_add(p1, 4)) {
            Err(e) => Err(e),
            Ok((mesh_count, p2)) => match spec_read_meshes(
                data,
                sat_add(p2, 4),
                mesh_count as nat,
            ) {
                Err(e) => Err(e),
                Ok((meshes, p3)) => Ok((RwBinMeshV { mesh_count, meshes }, p3)),
            },
        },
    }
}

/// `n` rows of 4 bone-index bytes each.
pub open spec fn spec_read_index_rows(data: Seq<u8>, pos: int, n: nat) -> Result<
    (Seq<Seq<u8>>, int),
    DecodeError,
>
    decreases n,
{
    if n == 0 {
        Ok((Seq::empty(), pos))
    } else {
        match spec_read_bytes(data, pos, 4) {
            Err(e) => Err(e),
            Ok((row, p)) => match spec_read_index_rows(data, p, (n - 1) as nat) {
                Err(e) => Err(e),
                Ok((s, p2)) => Ok((seq![row] + s, p2)),
            },
        }
    }
}

/// `n` rows of 4 weight floats each (raw bit patterns).
pub open spec fn spec_read_weight_rows(data: Seq<u8>, pos: int, n: nat) -> Result<
    (Seq<Seq<u32>>, int),
    DecodeError,
>
    decreases n,
{
    if n == 0 {
        Ok((Seq::empty(), pos))
    } else {
        match spec_read_u32s(data, pos, 4) {
            Err(e) => Err(e),
            Ok((row, p)) => match spec_read_weight_rows(data, p, (n - 1) as nat) {
                Err(e) => Err(e),
                Ok((s, p2)) => Ok((seq![row] + s, p2)),
            },
        }
    }
}

/// One 4x4 matrix: rows right, up, at, transform.
pub open spec fn spec_read_matrix4(data: Seq<u8>, pos: int) -> Result<
    (RwMatrix4, int),
    DecodeError,
> {
    match spec_read_vec4(data, pos) {
        Err(e) => Err(e),
        Ok((right, p1)) => match spec_read_vec4(data, p1) {
            Err(e) => Err(e),
            Ok((up, p2)) => match spec_read_vec4(data, p2) {
                Err(e) => Err(e),
                Ok((at, p3)) => match spec_read_vec4(data, p3) {
                    Err(e) => Err(e),
                    Ok((transform, p4)) => Ok((RwMatrix4 { right, up, at, transform }, p4)),
                },
            },
        },
    }
}

/// `n` consecutive 4x4 matrices.
pub open spec fn spec_read_matrices(data: Seq<u8>, pos: int, n: nat) -> Result<
    (Seq<RwMatrix4>, int),
    DecodeError,
>
    decreases n,
{
    if n == 0 {
        Ok((Seq::empty(), pos))
    } else {
        match spec_read_matrix4(data, pos) {
            Err(e) => Err(e),
            Ok((m, p)) => match spec_read_matrices(data, p, (n - 1) as nat) {
                Err(e) => Err(e),
                Ok((s, p2)) => Ok((seq![m] + s, p2)),
            },
        }
    }
}

/// A skin: bone counts and the per-vertex influence width, a padding byte,
/// a skipped special-bone table, exactly 4 index bytes and then 4 weight
/// floats per vertex, and one inverse bind matrix per bone.
#[verifier::opaque]
pub open spec fn spec_read_skin(data: Seq<u8>, pos: int, vertex_count: u32) -> Result<
    (RwSkinV, int),
    DecodeError,
> {
    match spec_read_u8(data, pos) {
        Err(e) => Err(e),
        Ok((bone_count, p1)) => match spec_read_u8(data, p1) {
            Err(e) => Err(e),
            Ok((used_bone_count, p2)) => match spec_read_u8(data, p2) {
                Err(e) => Err(e),
                Ok((max_weights_per_vertex, p3)) => {
                    let p4 = sat_add(sat_add(p3, 1), used_bone_count as int);
                    match spec_read_index_rows(data, p4, vertex_count as nat) {
                        Err(e) => Err(e),
                        Ok((bone_vertex_indices, p5)) => match spec_read_weight_rows(
                            data,
                            p5,
                            vertex_count as nat,
                        ) {
                            Err(e) => Err(e),
                            Ok((vertex_weights, p6)) => match spec_read_matrices(
                                data,
                                p6,
                                bone_count as nat,
                            ) {
                                Err(e) => Err(e),
                                Ok((inverse_bone_matrices, p7)) => Ok(
                                    (
                                        RwSkinV {
                                            bone_count,
                                            used_bone_count,
                                            max_weights_per_vertex,
                                            bone_vertex_indices,
                                            vertex_weights,
                                            inverse_bone_matrices,
                                        },
                                        p7,
                                    ),
                                ),
                            },
                        },
                    }
                },
            },
        },
    }
}

/// `n` consecutive RGBA colors.
pub open spec fn spec_read_colors(data: Seq<u8>, pos: int, n: nat) -> Result<
    (Seq<RwColor>, int),
    DecodeError,
>
    decreases n,
{
    if n == 0 {
        Ok((Seq::empty(), pos))
    } else {
        match spec_read_color(data, pos) {
            Err(e) => Err(e),
            Ok((c, p)) => match spec_read_colors(data, p, (n - 1) as nat) {
                Err(e) => Err(e),
                Ok((s, p2)) => Ok((seq![c] + s, p2)),
            },
        }
    }
}

/// One UV coordinate: two raw 32-bit float patterns.
pub open spec fn spec_read_texcoord(data: Seq<u8>, pos: int) -> Result<
    (RwTextureCoordinate, int),
    DecodeError,
> {
    match spec_read_u32(data, pos) {
        Err(e) => Err(e),
        Ok((u, p1)) => match spec_read_u32(data, p1) {
            Err(e) => Err(e),
            Ok((v, p2)) => Ok((RwTextureCoordinate { u, v }, p2)),
        },
    }
}

/// `n` consecutive UV coordinates.
pub open spec fn spec_read_texcoords(data: Seq<u8>, pos: int, n: nat) -> Result<
    (Seq<RwTextureCoordinate>, int),
    DecodeError,
>
    decreases n,
{
    if n == 0 {
        Ok((Seq::empty(), pos))
    } else {
        match spec_read_texcoord(data, pos) {
            Err(e) => Err(e),
            Ok((c, p)) => match spec_read_texcoords(data, p, (n - 1) as nat) {
                Err(e) => Err(e),
                Ok((s, p2)) => Ok((seq![c] + s, p2)),
            },
        }
    }
}

/// `channels` UV channels of `verts` coordinates each.
pub open spec fn spec_read_uv_channels(data: Seq<u8>, pos: int, channels: nat, verts: u32) -> Result<
    (Seq<Seq<RwTextureCoordinate>>, int),
    DecodeError,
>
    decreases channels,
{
    if channels == 0 {
        Ok((Seq::empty(), pos))
    } else {
        match spec_read_texcoords(data, pos, verts as nat) {
            Err(e) => Err(e),
            Ok((c, p)) => match spec_read_uv_channels(data, p, (channels - 1) as nat, verts) {
                Err(e) => Err(e),
                Ok((s, p2)) => Ok((seq![c] + s, p2)),
            },
        }
    }
}

/// One triangle: the wire holds vertex2, vertex1, the material id, then
/// vertex3; the decoded vector carries vertex1, vertex2, vertex3 in that
/// order as exact float patterns of the indices.
pub open spec fn spec_read_triangle(data: Seq<u8>, pos: int) -> Result<
    (RwTriangle, int),
    DecodeError,
> {
    match spec_read_u16(data, pos) {
        Err(e) => Err(e),
        Ok((vertex2, p1)) => match spec_read_u16(data, p1) {
            Err(e) => Err(e),
            Ok((vertex1, p2)) => match spec_read_u16(data, p2) {
                Err(e) => Err(e),
                Ok((material_id, p3)) => match spec_read_u16(data, p3) {
                    Err(e) => Err(e),
                    Ok((vertex3, p4)) => Ok(
                        (
                            RwTriangle {
                                vector: RwVector3 {
                                    x: crate::fixed_point::spec_f32_bits_scaled(vertex1 as int, 0),
                                    y: crate::fixed_point::spec_f32_bits_scaled(vertex2 as int, 0),
                                    z: crate::fixed_point::spec_f32_bits_scaled(vertex3 as int, 0),
                                },
                                material_id,
                            },
                            p4,
                        ),
                    ),
                },
            },
        },
    }
}

/// `n` consecutive triangles.
pub open spec fn spec_read_triangles(data: Seq<u8>, pos: int, n: nat) -> Result<
    (Seq<RwTriangle>, int),
    DecodeError,
>
    decreases n,
{
    if n == 0 {
        Ok((Seq::empty(), pos))
    } else {
        match spec_read_triangle(data, pos) {
            Err(e) => Err(e),
            Ok((t, p)) => match spec_read_triangles(data, p, (n - 1) as nat) {
                Err(e) => Err(e),
                Ok((s, p2)) => Ok((seq![t] + s, p2)),
            },
        }
    }
}

/// `n` consecutive 3-component vectors.
pub open spec fn spec_read_vec3s(data: Seq<u8>, pos: int, n: nat) -> Result<
    (Seq<RwVector3>, int),
    DecodeError,
>
    decreases n,
{
    if n == 0 {
        Ok((Seq::empty(), pos))
    } else {
        match spec_read_vec3(data, pos) {
            Err(e) => Err(e),
            Ok((v, p)) => match spec_read_vec3s(data, p, (n - 1) as nat) {
                Err(e) => Err(e),
                Ok((s, p2)) => Ok((seq![v] + s, p2)),
            },
        }
    }
}

/// A bounding sphere: center and radius, raw float patterns.
pub open spec fn spec_read_sphere(data: Seq<u8>, pos: int) -> Result<(RwSphere, int), DecodeError> {
    match spec_read_vec3(data, pos) {
        Err(e) => Err(e),
        Ok((vector, p1)) => match spec_read_u32(data, p1) {
            Err(e) => Err(e),
            Ok((radius, p2)) => Ok((RwSphere { vector, radius }, p2)),
        },
    }
}

/// One geometry, version-gated. The fixed order is: flags, UV channel
/// count, native flags, triangle and vertex and morph-target counts, a
/// legacy 12-byte skip below version 0x34000, colors only when the prelit
/// bit (3) is set, UV channels only when bit 2 or bit 7 is set, triangles,
/// the bounding sphere, two presence words, optional positions and normals,
/// the material list, one wrapper header whose declared size later forces
/// the end position, the bin mesh, a speculative header that selects an
/// inline skin only when it names the skin section, and finally a forced
/// seek to the wrapper's declared end.
#[verifier::opaque]
pub open spec fn spec_read_geometry(data: Seq<u8>, pos: int, version: u32) -> Result<
    (RwGeometryV, int),
    DecodeError,
> {
    match spec_read_u16(data, pos) {
        Err(e) => Err(e),
        Ok((flags, p1)) => match spec_read_u8(data, p1) {
            Err(e) => Err(e),
            Ok((texture_coordinates_count, p2)) => match spec_read_u8(data, p2) {
                Err(e) => Err(e),
                Ok((_native, p3)) => match spec_read_u32(data, p3) {
                    Err(e) => Err(e),
                    Ok((triangle_count, p4)) => match spec_read_u32(data, p4) {
                        Err(e) => Err(e),
                        Ok((vertex_count, p5)) => match spec_read_u32(data, p5) {
                            Err(e) => Err(e),
                            Ok((_morph, p6)) => {
                                let p7 = if version < 0x34000 {
                                    sat_add(p6, 12)
                                } else {
                                    p6
                                };
                                let prelit = flags & 8 != 0;
                                let textured = (flags & 4 != 0) || (flags & 128 != 0);
                                match (if prelit {
                                    spec_read_colors(data, p7, vertex_count as nat)
                                } else {
                                    Ok((Seq::empty(), p7))
                                }) {
                                    Err(e) => Err(e),
                                    Ok((vertex_color_information, p8)) => match (if textured {
                                        spec_read_uv_channels(
                                            data,
                                            p8,
                                            texture_coordinates_count as nat,
                                            vertex_count,
                                        )
                                    } else {
                                        Ok((Seq::empty(), p8))
                                    }) {
                                        Err(e) => Err(e),
                                        Ok((texture_mapping_information, p9)) => match spec_read_triangles(
                                            data,
                                            p9,
                                            triangle_count as nat,
                                        ) {
                                            Err(e) => Err(e),
                                            Ok((triangle_information, p10)) => match spec_read_sphere(
                                                data,
                                                p10,
                                            ) {
                                                Err(e) => Err(e),
                                                Ok((sphere, p11)) => match spec_read_u32(
                                                    data,
                                                    p11,
                                                ) {
                                                    Err(e) => Err(e),
                                                    Ok((hv, p12)) => match spec_read_u32(
                                                        data,
                                                        p12,
                                                    ) {
                                                        Err(e) => Err(e),
                                                        Ok((hn, p13)) => spec_read_geometry_tail(
                                                            data,
                                                            p13,
                                                            RwGeometryHead {
                                                                vertex_color_information,
                                                                texture_coordinates_count,
                                                                texture_mapping_information,
                                                                triangle_information,
                                                                sphere,
                                                                has_vertices: hv != 0,
                                                                has_normals: hn != 0,
                                                                vertex_count,
                                                            },
                                                        ),
                                                    },
                                                },
                                            },
                                        },
                                    },
                                }
                            },
                        },
                    },
                },
            },
        },
    }
}

/// The fields of a geometry decoded before its optional arrays.
pub struct RwGeometryHead {
    pub vertex_color_information: Seq<RwColor>,
    pub texture_coordinates_count: u8,
    pub texture_mapping_information: Seq<Seq<RwTextureCoordinate>>,
    pub triangle_information: Seq<RwTriangle>,
    pub sphere: RwSphere,
    pub has_vertices: bool,
    pub has_normals: bool,
    pub vertex_count: u32,
}

/// The tail of a geometry: optional vertex and normal arrays, the material
/// list, the wrapper-framed bin mesh, the speculative skin, and the forced
/// seek to the wrapper's declared end.
#[verifier::opaque]
pub open spec fn spec_read_geometry_tail(data: Seq<u8>, pos: int, head: RwGeometryHead) -> Result<
    (RwGeometryV, int),
    DecodeError,
> {
    match (if head.has_vertices {
        spec_read_vec3s(data, pos, head.vertex_count as nat)
    } else {
        Ok((Seq::empty(), pos))
    }) {
        Err(e) => Err(e),
        Ok((vertex_information, p1)) => match (if head.has_normals {
            spec_read_vec3s(data, p1, head.vertex_count as nat)
        } else {
            Ok((Seq::empty(), p1))
        }) {
            Err(e) => Err(e),
            Ok((normal_information, p2)) => match spec_read_material_list(data, p2) {
                Err(e) => Err(e),
                Ok((material_list, p3)) => match spec_read_header(data, p3) {
                    Err(e) => Err(e),
                    Ok((wrapper, p4)) => match spec_read_bin_mesh(data, p4) {
                        Err(e) => Err(e),
                        Ok((bin_mesh, p5)) => match spec_read_header(data, p5) {
                            Err(e) => Err(e),
                            Ok((next, p6)) => match (if next.section_type == 0x116 {
                                match spec_read_skin(data, p6, head.vertex_count) {
                                    Err(e) => Err(e),
                                    Ok((s, q)) => Ok((Some(s), q)),
                                }
                            } else {
                                Ok((None::<RwSkinV>, p6))
                            }) {
                                Err(e) => Err(e),
                                Ok((skin, _p7)) => Ok(
                                    (
                                        RwGeometryV {
                                            vertex_color_information:
                                                head.vertex_color_information,
                                            texture_coordinates_count:
                                                head.texture_coordinates_count,
                                            texture_mapping_information:
                                                head.texture_mapping_information,
                                            has_vertices: head.has_vertices,
                                            has_normals: head.has_normals,
                                            triangle_information: head.triangle_information,
                                            vertex_information,
                                            normal_information,
                                            bounding_sphere: Some(head.sphere),
                                            material_list,
                                            bin_mesh,
                                            skin,
                                        },
                                        sat_add(p4, wrapper.section_size as int),
                                    ),
                                ),
                            },
                        },
                    },
                },
            },
        },
    }
}

/// `n` consecutive geometries, each behind two wrapper headers, all gated
/// by the geometry list's version.
pub open spec fn spec_read_geometries(data: Seq<u8>, pos: int, n: nat, version: u32) -> Result<
    (Seq<RwGeometryV>, int),
    DecodeError,
>
    decreases n,
{
    if n == 0 {
        Ok((Seq::empty(), pos))
    } else {
        match spec_read_header(data, pos) {
            Err(e) => Err(e),
            Ok((_h1, p1)) => match spec_read_header(data, p1) {
                Err(e) => Err(e),
                Ok((_h2, p2)) => match spec_read_geometry(data, p2, version) {
                    Err(e) => Err(e),
                    Ok((g, p3)) => match spec_read_geometries(data, p3, (n - 1) as nat, version) {
                        Err(e) => Err(e),
                        Ok((s, p4)) => Ok((seq![g] + s, p4)),
                    },
                },
            },
        }
    }
}

/// A geometry list: a struct header whose version gates every geometry,
/// the declared count, then the geometries.
#[verifier::opaque]
pub open spec fn spec_read_geometry_list(data: Seq<u8>, pos: int) -> Result<
    (RwGeometryListV, int),
    DecodeError,
> {
    match spec_read_header(data, pos) {
        Err(e) => Err(e),
        Ok((h, p1)) => match spec_read_u32(data, p1) {
            Err(e) => Err(e),
            Ok((geometric_object_count, p2)) => match spec_read_geometries(
                data,
                p2,
                geometric_object_count as nat,
                spec_unpack_version(h.version_number),
            ) {
                Err(e) => Err(e),
                Ok((geometries, p3)) => Ok(
                    (RwGeometryListV { geometric_object_count, geometries }, p3),
                ),
            },
        },
    }
}

/// The decoder state accumulated while scanning top-level sections.
pub struct DffScanV {
    pub version_number: Option<u32>,
    pub geometry_list: Option<RwGeometryListV>,
    pub frame_list: Option<RwFrameListV>,
    pub atomics: Seq<u32>,
    pub dummies: Seq<Seq<char>>,
    pub anim_nodes: Seq<RwAnimNodeV>,
}

/// The state before any section has been scanned.
pub open spec fn spec_initial_scan() -> DffScanV {
    DffScanV {
        version_number: None,
        geometry_list: None,
        frame_list: None,
        atomics: Seq::empty(),
        dummies: Seq::empty(),
        anim_nodes: Seq::empty(),
    }
}

/// Records one atomic binding: the table grows to cover the geometry index,
/// back-filling new slots with frame 0, then binds that index.
pub open spec fn spec_record_atomic(atomics: Seq<u32>, a: RwAtomic) -> Seq<u32> {
    let gi = a.geometry_index as int;
    let grown = if atomics.len() <= gi {
        atomics + Seq::new((gi + 1 - atomics.len()) as nat, |_i: int| 0u32)
    } else {
        atomics
    };
    grown.update(gi, a.frame_index)
}

/// One forward pass over the top-level sections, from `pos` to the end of
/// the buffer or a terminal type-0 header. Dispatch is by section type
/// code; an unknown code is skipped by its declared size. The fuel only
/// bounds the recursion: every processed section consumes at least its
/// 12-byte header, so a fuel of the buffer length never runs out.
pub open spec fn spec_scan_sections(data: Seq<u8>, pos: int, st: DffScanV, fuel: nat) -> Result<
    DffScanV,
    DecodeError,
>
    decreases fuel,
{
    if pos >= data.len() {
        Ok(st)
    } else if fuel == 0 {
        Ok(st)
    } else {
        match spec_read_header(data, pos) {
            Err(e) => Err(e),
            Ok((h, p1)) => {
                if h.section_type == 0 {
                    Ok(st)
                } else if h.section_size == 0 {
                    spec_scan_sections(data, p1, st, (fuel - 1) as nat)
                } else if h.section_type == 0x0010 {
                    let st2 = if st.version_number is None {
                        DffScanV {
                            version_number: Some(spec_unpack_version(h.version_number)),
                            ..st
                        }
                    } else {
                        st
                    };
                    spec_scan_sections(data, p1, st2, (fuel - 1) as nat)
                } else if h.section_type == 0x000E {
                    match spec_read_frame_list(data, p1) {
                        Err(e) => Err(e),
                        Ok((fl, p2)) => spec_scan_sections(
                            data,
                            p2,
                            DffScanV { frame_list: Some(fl), ..st },
                            (fuel - 1) as nat,
                        ),
                    }
                } else if h.section_type == 0x0003 {
                    match spec_read_header(data, p1) {
                        Err(e) => Err(e),
                        Ok((h2, p2)) => {
                            if h2.section_type == 0x0253F2FE {
                                match spec_read_string(data, p2, h2.section_size as int) {
                                    Err(e) => Err(e),
                                    Ok((name, p3)) => spec_scan_sections(
                                        data,
                                        p3,
                                        DffScanV { dummies: st.dummies.push(name), ..st },
                                        (fuel - 1) as nat,
                                    ),
                                }
                            } else if h2.section_type == 0x011E {
                                match spec_read_anim_node(data, p2) {
                                    Err(e) => Err(e),
                                    Ok((an, p3)) => spec_scan_sections(
                                        data,
                                        p3,
                                        DffScanV { anim_nodes: st.anim_nodes.push(an), ..st },
                                        (fuel - 1) as nat,
                                    ),
                                }
                            } else {
                                spec_scan_sections(
                                    data,
                                    sat_add(p2, h2.section_size as int),
                                    st,
                                    (fuel - 1) as nat,
                                )
                            }
                        },
                    }
                } else if h.section_type == 0x001A {
                    match spec_read_geometry_list(data, p1) {
                        Err(e) => Err(e),
                        Ok((gl, p2)) => spec_scan_sections(
                            data,
                            p2,
                            DffScanV { geometry_list: Some(gl), ..st },
                            (fuel - 1) as nat,
                        ),
                    }
                } else if h.section_type == 0x0014 {
                    match spec_read_atomic(data, p1) {
                        Err(e) => Err(e),
                        Ok((a, p2)) => spec_scan_sections(
                            data,
                            p2,
                            DffScanV { atomics: spec_record_atomic(st.atomics, a), ..st },
                            (fuel - 1) as nat,
                        ),
                    }
                } else if h.section_type == 0x0253F2FE {
                    match spec_read_string(data, p1, h.section_size as int) {
                        Err(e) => Err(e),
                        Ok((name, p2)) => spec_scan_sections(
                            data,
                            p2,
                            DffScanV { dummies: st.dummies.push(name), ..st },
                            (fuel - 1) as nat,
                        ),
                    }
                } else if h.section_type == 0x011E {
                    match spec_read_anim_node(data, p1) {
                        Err(e) => Err(e),
                        Ok((an, p2)) => spec_scan_sections(
                            data,
                            p2,
                            DffScanV { anim_nodes: st.anim_nodes.push(an), ..st },
                            (fuel - 1) as nat,
                        ),
                    }
                } else {
                    spec_scan_sections(
                        data,
                        sat_add(p1, h.section_size as int),
                        st,
                        (fuel - 1) as nat,
                    )
                }
            },
        }
    }
}

/// An auxiliary node name marks a vehicle when, lowercased, it contains
/// "wheel" or "chassis".
pub open spec fn spec_is_vehicle_name(d: Seq<char>) -> bool {
    spec_contains_seq(lower_of(d), "wheel"@) || spec_contains_seq(lower_of(d), "chassis"@)
}

/// Whether any decoded geometry carries a skin.
pub open spec fn spec_has_skin(gl: Option<RwGeometryListV>) -> bool {
    match gl {
        Some(gl) => exists|i: int|
            0 <= i < gl.geometries.len() && (#[trigger] gl.geometries[i]).skin is Some,
        None => false,
    }
}

/// The model classification: skinned beats vehicle beats generic.
pub open spec fn spec_classify(gl: Option<RwGeometryListV>, dummies: Seq<Seq<char>>) -> DffModelType {
    if spec_has_skin(gl) {
        DffModelType::Skin
    } else if exists|i: int| 0 <= i < dummies.len() && spec_is_vehicle_name(#[trigger] dummies[i]) {
        DffModelType::Vehicle
    } else {
        DffModelType::Generic
    }
}

/// The release string shown for a captured version: the table entry when
/// the version is known, empty otherwise, and empty when no clump marker
/// carried a version at all.
pub open spec fn spec_version_text(vn: Option<u32>) -> Seq<char> {
    match vn {
        Some(v) => match spec_version_name(v) {
            Some(s) => s,
            None => Seq::empty(),
        },
        None => Seq::empty(),
    }
}

/// The whole-buffer model decode: scan the section tree from the start,
/// then derive the classification and version text from the final state.
pub open spec fn spec_parse_dff(data: Seq<u8>) -> Result<RwDffV, DecodeError> {
    match spec_scan_sections(data, 0, spec_initial_scan(), data.len()) {
        Err(e) => Err(e),
        Ok(st) => Ok(
            RwDffV {
                model_type: spec_classify(st.geometry_list, st.dummies),
                version: spec_version_text(st.version_number),
                version_number: match st.version_number {
                    Some(v) => v,
                    None => 0,
                },
                geometry_list: st.geometry_list,
                frame_list: st.frame_list,
                atomics: st.atomics,
                dummies: st.dummies,
                anim_nodes: st.anim_nodes,
            },
        ),
    }
}

/// The decoder for model clumps: owns the framed file and performs a
/// single forward, depth-first pass over the section tree.
pub struct DffParser<'a> {
    file: RwFile<'a>,
}

impl<'a> DffParser<'a> {
    /// The bytes of the model file.
    pub closed spec fn spec_data(&self) -> Seq<u8> {
        self.file.spec_data()
    }

    /// The cursor position.
    pub closed spec fn spec_pos(&self) -> int {
        self.file.spec_pos()
    }

    /// Opens a decoder over a whole model buffer.
    pub fn new(buffer: &'a [u8]) -> (r: DffParser<'a>)
        ensures
            r.spec_data() == buffer@,
            r.spec_pos() == 0,
    {
        DffParser { file: RwFile::new(buffer) }
    }

    /// Reads a 3-component vector of raw float patterns.
    fn read_vec3(&mut self) -> (r: Result<RwVector3, DecodeError>)
        ensures
            final(self).spec_data() == old(self).spec_data(),
            mirrors(
                spec_read_vec3(old(self).spec_data(), old(self).spec_pos()),
                r,
                final(self).spec_pos(),
            ),
    {
        let x = self.file.get_stream().read_f32_bits()?;
        let y = self.file.get_stream().read_f32_bits()?;
        let z = self.file.get_stream().read_f32_bits()?;
        Ok(RwVector3 { x, y, z })
    }

    /// Reads a 4-component vector of raw float patterns.
    fn read_vec4(&mut self) -> (r: Result<RwVector4, DecodeError>)
        ensures
            final(self).spec_data() == old(self).spec_data(),
            mirrors(
                spec_read_vec4(old(self).spec_data(), old(self).spec_pos()),
                r,
                final(self).spec_pos(),
            ),
    {
        let x = self.file.get_stream().read_f32_bits()?;
        let y = self.file.get_stream().read_f32_bits()?;
        let z = self.file.get_stream().read_f32_bits()?;
        let t = self.file.get_stream().read_f32_bits()?;
        Ok(RwVector4 { x, y, z, t })
    }

    /// Reads an RGBA color.
    fn read_color(&mut self) -> (r: Result<RwColor, DecodeError>)
        ensures
            final(self).spec_data() == old(self).spec_data(),
            mirrors(
                spec_read_color(old(self).spec_data(), old(self).spec_pos()),
                r,
                final(self).spec_pos(),
            ),
    {
        let cr = self.file.get_stream().read_u8()?;
        let cg = self.file.get_stream().read_u8()?;
        let cb = self.file.get_stream().read_u8()?;
        let ca = self.file.get_stream().read_u8()?;
        Ok(RwColor { r: cr, g: cg, b: cb, a: ca })
    }

    /// Reads one skeleton frame.
    fn read_frame(&mut self) -> (r: Result<RwFrame, DecodeError>)
        ensures
            final(self).spec_data() == old(self).spec_data(),
            mirrors(
                spec_read_frame(old(self).spec_data(), old(self).spec_pos()),
                r,
                final(self).spec_pos(),
            ),
    {
        let right = self.read_vec3()?;
        let up = self.read_vec3()?;
        let at = self.read_vec3()?;
        let coordinates_offset = self.read_vec3()?;
        let parent_frame = self.file.get_stream().read_i32()?;
        self.file.get_stream().skip(4);
        Ok(RwFrame { rotation_matrix: RwMatrix3 { right, up, at }, coordinates_offset, parent_frame })
    }

    /// Reads `n` consecutive skeleton frames, rejecting a frame whose
    /// parent index is neither -1 nor an earlier frame's position.
    fn read_frames(&mut self, n: u32) -> (r: Result<Vec<RwFrame>, DecodeError>)
        ensures
            final(self).spec_data() == old(self).spec_data(),
            mirrors_view(
                spec_read_frames(old(self).spec_data(), old(self).spec_pos(), 0, n as nat),
                r,
                final(self).spec_pos(),
            ),
    {
        let ghost data0 = self.spec_data();
        let ghost pos0 = self.spec_pos();
        let mut out: Vec<RwFrame> = Vec::new();
        let mut i: u32 = 0;
        while i < n
            invariant
                0 <= i <= n,
                data0 == old(self).spec_data(),
                pos0 == old(self).spec_pos(),
                self.spec_data() == data0,
                out@.len() == i,
                spec_read_frames(data0, pos0, 0, n as nat) == (match spec_read_frames(
                    data0,
                    self.spec_pos(),
                    i as nat,
                    (n - i) as nat,
                ) {
                    Ok((s, p)) => Ok::<(Seq<RwFrame>, int), DecodeError>((out@ + s, p)),
                    Err(e) => Err::<(Seq<RwFrame>, int), DecodeError>(e),
                }),
            decreases n - i,
        {
            let ghost views_before = out@;
            let f = match self.read_frame() {
                Ok(f) => f,
                Err(e) => {
                    return Err(e);
                },
            };
            let parent_ok = f.parent_frame == -1 || (f.parent_frame >= 0 && (f.parent_frame as u32)
                < i);
            if !parent_ok {
                return Err(DecodeError::InvalidIndex);
            }
            out.push(f);
            proof {
                let rest = spec_read_frames(data0, self.spec_pos(), (i + 1) as nat, (n - i
                    - 1) as nat);
                assert(out@ =~= views_before + seq![f]);
                match rest {
                    Ok((s, p)) => {
                        assert((views_before + seq![f]) + s =~= views_before + (seq![f] + s));
                    },
                    Err(e) => {},
                }
            }
            i += 1;
        }
        proof {
            assert(out@ + Seq::<RwFrame>::empty() =~= out@);
        }
        Ok(out)
    }

    /// Reads the skeleton frame list.
    fn read_frame_list(&mut self) -> (r: Result<RwFrameList, DecodeError>)
        ensures
            final(self).spec_data() == old(self).spec_data(),
            mirrors_view(
                spec_read_frame_list(old(self).spec_data(), old(self).spec_pos()),
                r,
                final(self).spec_pos(),
            ),
    {
        proof {
            reveal(spec_read_frame_list);
        }
        let _struct_header = self.file.read_section_header()?;
        let frame_count = self.file.get_stream().read_u32()?;
        let frames = self.read_frames(frame_count)?;
        Ok(RwFrameList { frame_count, frames })
    }

    /// Reads one atomic binding.
    pub fn read_atomic(&mut self) -> (r: Result<RwAtomic, DecodeError>)
        ensures
            final(self).spec_data() == old(self).spec_data(),
            mirrors(
                spec_read_atomic(old(self).spec_data(), old(self).spec_pos()),
                r,
                final(self).spec_pos(),
            ),
    {
        proof {
            reveal(spec_read_atomic);
        }
        let _struct_header = self.file.read_section_header()?;
        let frame_index = self.file.get_stream().read_u32()?;
        let geometry_index = self.file.get_stream().read_u32()?;
        let flags = self.file.get_stream().read_u32()?;
        self.file.get_stream().skip(4);
        Ok(RwAtomic { frame_index, geometry_index, flags })
    }

    /// Reads `n` bone entries.
    fn read_bones(&mut self, n: u32) -> (r: Result<Vec<RwBone>, DecodeError>)
        ensures
            final(self).spec_data() == old(self).spec_data(),
            mirrors_view(
                spec_read_bones(old(self).spec_data(), old(self).spec_pos(), n as nat),
                r,
                final(self).spec_pos(),
            ),
    {
        let ghost data0 = self.spec_data();
        let ghost pos0 = self.spec_pos();
        let mut out: Vec<RwBone> = Vec::new();
        let mut i: u32 = 0;
        while i < n
            invariant
                0 <= i <= n,
                data0 == old(self).spec_data(),
                pos0 == old(self).spec_pos(),
                self.spec_data() == data0,
                out@.len() == i,
                spec_read_bones(data0, pos0, n as nat) == (match spec_read_bones(
                    data0,
                    self.spec_pos(),
                    (n - i) as nat,
                ) {
                    Ok((s, p)) => Ok::<(Seq<RwBone>, int), DecodeError>((out@ + s, p)),
                    Err(e) => Err::<(Seq<RwBone>, int), DecodeError>(e),
                }),
            decreases n - i,
        {
            let ghost views_before = out@;
            let bone_id = match self.file.get_stream().read_i32() {
                Ok(v) => v,
                Err(e) => {
                    return Err(e);
                },
            };
            let bone_index = match self.file.get_stream().read_i32() {
                Ok(v) => v,
                Err(e) => {
                    return Err(e);
                },
            };
            let flags = match self.file.get_stream().read_i32() {
                Ok(v) => v,
                Err(e) => {
                    return Err(e);
                },
            };
            let b = RwBone { bone_id, bone_index, flags };
            out.push(b);
            proof {
                let rest = spec_read_bones(data0, self.spec_pos(), (n - i - 1) as nat);
                assert(out@ =~= views_before + seq![b]);
                match rest {
                    Ok((s, p)) => {
                        assert((views_before + seq![b]) + s =~= views_before + (seq![b] + s));
                    },
                    Err(e) => {},
                }
            }
            i += 1;
        }
        proof {
            assert(out@ + Seq::<RwBone>::empty() =~= out@);
        }
        Ok(out)
    }

    /// Reads one animation node.
    pub fn read_anim_node(&mut self) -> (r: Result<RwAnimNode, DecodeError>)
        ensures
            final(self).spec_data() == old(self).spec_data(),
            mirrors_view(
                spec_read_anim_node(old(self).spec_data(), old(self).spec_pos()),
                r,
                final(self).spec_pos(),
            ),
    {
        proof {
            reveal(spec_read_anim_node);
        }
        self.file.get_stream().skip(4);
        let bone_id = self.file.get_stream().read_i32()?;
        let bones_count = self.file.get_stream().read_i32()?;
        if bone_id == 0 {
            self.file.get_stream().skip(8);
        }
        let n: u32 = if bones_count > 0 {
            bones_count as u32
        } else {
            0
        };
        let bones = self.read_bones(n)?;
        Ok(RwAnimNode { bone_id, bones_count, bones })
    }

    /// Reads one texture reference.
    pub fn read_texture(&mut self) -> (r: Result<RwTexture, DecodeError>)
        ensures
            final(self).spec_data() == old(self).spec_data(),
            mirrors_view(
                spec_read_texture(old(self).spec_data(), old(self).spec_pos()),
                r,
                final(self).spec_pos(),
            ),
    {
        proof {
            reveal(spec_read_texture);
        }
        let _struct_header = self.file.read_section_header()?;
        let _texture_header = self.file.read_section_header()?;
        let word = self.file.get_stream().read_u32()?;
        let name_header = self.file.read_section_header()?;
        let texture_name = self.file.get_stream().read_string(name_header.section_size as usize)?;
        let trailer1 = self.file.read_section_header()?;
        self.file.get_stream().skip(trailer1.section_size as usize);
        let trailer2 = self.file.read_section_header()?;
        self.file.get_stream().skip(trailer2.section_size as usize);
        Ok(
            RwTexture {
                texture_filtering: (word & 0xFF) as u8,
                u_addressing: ((word & 0xF00) >> 8) as u8,
                v_addressing: ((word & 0xF000) >> 12) as u8,
                uses_mip_levels: word & 0x10000 != 0,
                texture_name,
            },
        )
    }

    /// Reads one material decoded inline.
    #[verifier::rlimit(60)]
    fn read_material(&mut self) -> (r: Result<RwMaterial, DecodeError>)
        ensures
            final(self).spec_data() == old(self).spec_data(),
            mirrors_view(
                spec_read_material(old(self).spec_data(), old(self).spec_pos()),
                r,
                final(self).spec_pos(),
            ),
    {
        proof {
            reveal(spec_read_material);
        }
        let _struct_header = self.file.read_section_header()?;
        let material_header = self.file.read_section_header()?;
        self.file.get_stream().skip(4);
        let color = self.read_color()?;
        self.file.get_stream().skip(4);
        let textured_word = self.file.get_stream().read_u32()?;
        let is_textured = textured_word > 0;
        let mut ambient: Option<u32> = None;
        let mut specular: Option<u32> = None;
        let mut diffuse: Option<u32> = None;
        if material_header.version_number > 0x30400 {
            ambient = Some(self.file.get_stream().read_f32_bits()?);
            specular = Some(self.file.get_stream().read_f32_bits()?);
            diffuse = Some(self.file.get_stream().read_f32_bits()?);
        }
        let texture: Option<RwTexture> = if is_textured {
            Some(self.read_texture()?)
        } else {
            None
        };
        let trailer = self.file.read_section_header()?;
        self.file.get_stream().skip(trailer.section_size as usize);
        Ok(RwMaterial { color, is_textured, ambient, specular, diffuse, texture })
    }

    /// Reads `n` signed alias indices.
    fn read_material_indices(&mut self, n: u32) -> (r: Result<Vec<i32>, DecodeError>)
        ensures
            final(self).spec_data() == old(self).spec_data(),
            mirrors_view(
                spec_read_i32s(old(self).spec_data(), old(self).spec_pos(), n as nat),
                r,
                final(self).spec_pos(),
            ),
    {
        let ghost data0 = self.spec_data();
        let ghost pos0 = self.spec_pos();
        let mut out: Vec<i32> = Vec::new();
        let mut i: u32 = 0;
        while i < n
            invariant
                0 <= i <= n,
                data0 == old(self).spec_data(),
                pos0 == old(self).spec_pos(),
                self.spec_data() == data0,
                out@.len() == i,
                spec_read_i32s(data0, pos0, n as nat) == (match spec_read_i32s(
                    data0,
                    self.spec_pos(),
                    (n - i) as nat,
                ) {
                    Ok((s, p)) => Ok::<(Seq<i32>, int), DecodeError>((out@ + s, p)),
                    Err(e) => Err::<(Seq<i32>, int), DecodeError>(e),
                }),
            decreases n - i,
        {
            let ghost views_before = out@;
            let v = match self.file.get_stream().read_i32() {
                Ok(v) => v,
                Err(e) => {
                    return Err(e);
                },
            };
            out.push(v);
            proof {
                let rest = spec_read_i32s(data0, self.spec_pos(), (n - i - 1) as nat);
                assert(out@ =~= views_before + seq![v]);
                match rest {
                    Ok((s, p)) => {
                        assert((views_before + seq![v]) + s =~= views_before + (seq![v] + s));
                    },
                    Err(e) => {},
                }
            }
            i += 1;
        }
        proof {
            assert(out@ + Seq::<i32>::empty() =~= out@);
        }
        Ok(out)
    }

    /// Resolves the alias array into materials: -1 decodes inline, a valid
    /// back-reference copies the earlier entry, anything else is an error.
    fn read_materials(&mut self, idxs: &Vec<i32>) -> (r: Result<Vec<RwMaterial>, DecodeError>)
        ensures
            final(self).spec_data() == old(self).spec_data(),
            match r {
                Ok(v) => spec_read_materials(
                    old(self).spec_data(),
                    old(self).spec_pos(),
                    idxs@,
                    Seq::empty(),
                ) matches Ok((s, end)) && s == v@.map_values(|m: RwMaterial| m@) && end == final(self).spec_pos(),
                Err(e) => spec_read_materials(
                    old(self).spec_data(),
                    old(self).spec_pos(),
                    idxs@,
                    Seq::empty(),
                ) == Err::<(Seq<RwMaterialV>, int), DecodeError>(e),
            },
    {
        let ghost data0 = self.spec_data();
        let ghost pos0 = self.spec_pos();
        let n = idxs.len();
        let mut out: Vec<RwMaterial> = Vec::new();
        let mut i: usize = 0;
        proof {
            assert(idxs@.skip(0) =~= idxs@);
            assert(out@.map_values(|m: RwMaterial| m@) =~= Seq::<RwMaterialV>::empty());
        }
        while i < n
            invariant
                0 <= i <= n,
                n == idxs@.len(),
                data0 == old(self).spec_data(),
                pos0 == old(self).spec_pos(),
                self.spec_data() == data0,
                out@.len() == i,
                spec_read_materials(data0, pos0, idxs@, Seq::empty()) == spec_read_materials(
                    data0,
                    self.spec_pos(),
                    idxs@.skip(i as int),
                    out@.map_values(|m: RwMaterial| m@),
                ),
            decreases n - i,
        {
            let ghost views_before = out@.map_values(|m: RwMaterial| m@);
            proof {
                assert(idxs@.skip(i as int).len() == n - i);
                assert(idxs@.skip(i as int)[0] == idxs@[i as int]);
                assert(idxs@.skip(i as int).drop_first() =~= idxs@.skip(i + 1));
            }
            let ix = idxs[i];
            if ix == -1 {
                let m = match self.read_material() {
                    Ok(m) => m,
                    Err(e) => {
                        return Err(e);
                    },
                };
                out.push(m);
                proof {
                    assert(out@.map_values(|x: RwMaterial| x@) =~= views_before.push(m@));
                }
            } else if ix >= 0 && (ix as usize) < out.len() {
                let m = Self::duplicate_material(&out[ix as usize]);
                out.push(m);
                proof {
                    assert(out@.map_values(|x: RwMaterial| x@) =~= views_before.push(
                        views_before[ix as int],
                    ));
                }
            } else {
                return Err(DecodeError::InvalidIndex);
            }
            i += 1;
        }
        proof {
            assert(idxs@.skip(n as int).len() == 0);
        }
        Ok(out)
    }

    /// Builds an independent copy of a decoded material: same field values,
    /// no shared ownership.
    fn duplicate_material(m: &RwMaterial) -> (r: RwMaterial)
        ensures
            r@ == m@,
    {
        RwMaterial {
            color: m.color,
            is_textured: m.is_textured,
            ambient: m.ambient,
            specular: m.specular,
            diffuse: m.diffuse,
            texture: match &m.texture {
                Some(t) => Some(
                    RwTexture {
                        texture_filtering: t.texture_filtering,
                        u_addressing: t.u_addressing,
                        v_addressing: t.v_addressing,
                        uses_mip_levels: t.uses_mip_levels,
                        texture_name: t.texture_name.clone(),
                    },
                ),
                None => None,
            },
        }
    }

    /// Reads the material list of a geometry.
    fn read_material_list(&mut self) -> (r: Result<RwMaterialList, DecodeError>)
        ensures
            final(self).spec_data() == old(self).spec_data(),
            mirrors_view(
                spec_read_material_list(old(self).spec_data(), old(self).spec_pos()),
                r,
                final(self).spec_pos(),
            ),
    {
        proof {
            reveal(spec_read_material_list);
        }
        let _struct_header = self.file.read_section_header()?;
        let _list_header = self.file.read_section_header()?;
        let material_instance_count = self.file.get_stream().read_u32()?;
        let idxs = self.read_material_indices(material_instance_count)?;
        let material_data = self.read_materials(&idxs)?;
        Ok(RwMaterialList { material_instance_count, material_data })
    }

    /// Reads `n` unsigned 32-bit values.
    fn read_u32_run(&mut self, n: u32) -> (r: Result<Vec<u32>, DecodeError>)
        ensures
            final(self).spec_data() == old(self).spec_data(),
            mirrors_view(
                spec_read_u32s(old(self).spec_data(), old(self).spec_pos(), n as nat),
                r,
                final(self).spec_pos(),
            ),
    {
        let ghost data0 = self.spec_data();
        let ghost pos0 = self.spec_pos();
        let mut out: Vec<u32> = Vec::new();
        let mut i: u32 = 0;
        while i < n
            invariant
                0 <= i <= n,
                data0 == old(self).spec_data(),
                pos0 == old(self).spec_pos(),
                self.spec_data() == data0,
                out@.len() == i,
                spec_read_u32s(data0, pos0, n as nat) == (match spec_read_u32s(
                    data0,
                    self.spec_pos(),
                    (n - i) as nat,
                ) {
                    Ok((s, p)) => Ok::<(Seq<u32>, int), DecodeError>((out@ + s, p)),
                    Err(e) => Err::<(Seq<u32>, int), DecodeError>(e),
                }),
            decreases n - i,
        {
            let ghost views_before = out@;
            let v = match self.file.get_stream().read_u32() {
                Ok(v) => v,
                Err(e) => {
                    return Err(e);
                },
            };
            out.push(v);
            proof {
                let rest = spec_read_u32s(data0, self.spec_pos(), (n - i - 1) as nat);
                assert(out@ =~= views_before + seq![v]);
                match rest {
                    Ok((s, p)) => {
                        assert((views_before + seq![v]) + s =~= views_before + (seq![v] + s));
                    },
                    Err(e) => {},
                }
            }
            i += 1;
        }
        proof {
            assert(out@ + Seq::<u32>::empty() =~= out@);
        }
        Ok(out)
    }

    /// Reads one mesh batch.
    pub fn read_mesh(&mut self) -> (r: Result<RwMesh, DecodeError>)
        ensures
            final(self).spec_data() == old(self).spec_data(),
            mirrors_view(
                spec_read_mesh(old(self).spec_data(), old(self).spec_pos()),
                r,
                final(self).spec_pos(),
            ),
    {
        let index_count = self.file.get_stream().read_u32()?;
        let material_index = self.file.get_stream().read_u32()?;
        let indices = self.read_u32_run(index_count)?;
        Ok(RwMesh { material_index, index_count, indices })
    }

    /// Reads `n` mesh batches.
    fn read_meshes(&mut self, n: u32) -> (r: Result<Vec<RwMesh>, DecodeError>)
        ensures
            final(self).spec_data() == old(self).spec_data(),
            match r {
                Ok(v) => spec_read_meshes(old(self).spec_data(), old(self).spec_pos(), n as nat)
                    matches Ok((s, end)) && s == v@.map_values(|m: RwMesh| m@) && end == final(self).spec_pos(),
                Err(e) => spec_read_meshes(old(self).spec_data(), old(self).spec_pos(), n as nat)
                    == Err::<(Seq<RwMeshV>, int), DecodeError>(e),
            },
    {
        let ghost data0 = self.spec_data();
        let ghost pos0 = self.spec_pos();
        let mut out: Vec<RwMesh> = Vec::new();
        let mut i: u32 = 0;
        while i < n
            invariant
                0 <= i <= n,
                data0 == old(self).spec_data(),
                pos0 == old(self).spec_pos(),
                self.spec_data() == data0,
                out@.len() == i,
                spec_read_meshes(data0, pos0, n as nat) == (match spec_read_meshes(
                    data0,
                    self.spec_pos(),
                    (n - i) as nat,
                ) {
                    Ok((s, p)) => Ok::<(Seq<RwMeshV>, int), DecodeError>(
                        (out@.map_values(|m: RwMesh| m@) + s, p),
                    ),
                    Err(e) => Err::<(Seq<RwMeshV>, int), DecodeError>(e),
                }),
            decreases n - i,
        {
            let ghost views_before = out@.map_values(|m: RwMesh| m@);
            let m = match self.read_mesh() {
                Ok(m) => m,
                Err(e) => {
                    return Err(e);
                },
            };
            out.push(m);
            proof {
                let rest = spec_read_meshes(data0, self.spec_pos(), (n - i - 1) as nat);
                assert(out@.map_values(|x: RwMesh| x@) =~= views_before + seq![m@]);
                match rest {
                    Ok((s, p)) => {
                        assert((views_before + seq![m@]) + s =~= views_before + (seq![m@] + s));
                    },
                    Err(e) => {},
                }
            }
            i += 1;
        }
        proof {
            assert(out@.map_values(|m: RwMesh| m@) + Seq::<RwMeshV>::empty() =~= out@.map_values(
                |m: RwMesh| m@,
            ));
        }
        Ok(out)
    }

    /// Reads a geometry's bin mesh.
    pub fn read_bin_mesh(&mut self) -> (r: Result<RwBinMesh, DecodeError>)
        ensures
            final(self).spec_data() == old(self).spec_data(),
            mirrors_view(
                spec_read_bin_mesh(old(self).spec_data(), old(self).spec_pos()),
                r,
                final(self).spec_pos(),
            ),
    {
        proof {
            reveal(spec_read_bin_mesh);
        }
        let _struct_header = self.file.read_section_header()?;
        self.file.get_stream().skip(4);
        let mesh_count = self.file.get_stream().read_u32()?;
        self.file.get_stream().skip(4);
        let meshes = self.read_meshes(mesh_count)?;
        Ok(RwBinMesh { mesh_count, meshes })
    }

    /// Reads `n` rows of 4 bone-index bytes.
    fn read_index_rows(&mut self, n: u32) -> (r: Result<Vec<Vec<u8>>, DecodeError>)
        ensures
            final(self).spec_data() == old(self).spec_data(),
            match r {
                Ok(v) => spec_read_index_rows(old(self).spec_data(), old(self).spec_pos(), n as nat)
                    matches Ok((s, end)) && s == v@.map_values(|x: Vec<u8>| x@) && end == final(self).spec_pos(),
                Err(e) => spec_read_index_rows(
                    old(self).spec_data(),
                    old(self).spec_pos(),
                    n as nat,
                ) == Err::<(Seq<Seq<u8>>, int), DecodeError>(e),
            },
    {
        let ghost data0 = self.spec_data();
        let ghost pos0 = self.spec_pos();
        let mut out: Vec<Vec<u8>> = Vec::new();
        let mut i: u32 = 0;
        while i < n
            invariant
                0 <= i <= n,
                data0 == old(self).spec_data(),
                pos0 == old(self).spec_pos(),
                self.spec_data() == data0,
                out@.len() == i,
                spec_read_index_rows(data0, pos0, n as nat) == (match spec_read_index_rows(
                    data0,
                    self.spec_pos(),
                    (n - i) as nat,
                ) {
                    Ok((s, p)) => Ok::<(Seq<Seq<u8>>, int), DecodeError>(
                        (out@.map_values(|x: Vec<u8>| x@) + s, p),
                    ),
                    Err(e) => Err::<(Seq<Seq<u8>>, int), DecodeError>(e),
                }),
            decreases n - i,
        {
            let ghost views_before = out@.map_values(|x: Vec<u8>| x@);
            let row = match self.file.get_stream().read(4) {
                Ok(row) => row,
                Err(e) => {
                    return Err(e);
                },
            };
            out.push(row);
            proof {
                let rest = spec_read_index_rows(data0, self.spec_pos(), (n - i - 1) as nat);
                assert(out@.map_values(|x: Vec<u8>| x@) =~= views_before + seq![out@[i as int]@]);
                match rest {
                    Ok((s, p)) => {
                        assert((views_before + seq![out@[i as int]@]) + s =~= views_before + (seq![
                            out@[i as int]@,
                        ] + s));
                    },
                    Err(e) => {},
                }
            }
            i += 1;
        }
        proof {
            assert(out@.map_values(|x: Vec<u8>| x@) + Seq::<Seq<u8>>::empty() =~= out@.map_values(
                |x: Vec<u8>| x@,
            ));
        }
        Ok(out)
    }

    /// Reads `n` rows of 4 weight floats (raw bit patterns).
    fn read_weight_rows(&mut self, n: u32) -> (r: Result<Vec<Vec<u32>>, DecodeError>)
        ensures
            final(self).spec_data() == old(self).spec_data(),
            match r {
                Ok(v) => spec_read_weight_rows(
                    old(self).spec_data(),
                    old(self).spec_pos(),
                    n as nat,
                ) matches Ok((s, end)) && s == v@.map_values(|x: Vec<u32>| x@) && end == final(self).spec_pos(),
                Err(e) => spec_read_weight_rows(
                    old(self).spec_data(),
                    old(self).spec_pos(),
                    n as nat,
                ) == Err::<(Seq<Seq<u32>>, int), DecodeError>(e),
            },
    {
        let ghost data0 = self.spec_data();
        let ghost pos0 = self.spec_pos();
        let mut out: Vec<Vec<u32>> = Vec::new();
        let mut i: u32 = 0;
        while i < n
            invariant
                0 <= i <= n,
                data0 == old(self).spec_data(),
                pos0 == old(self).spec_pos(),
                self.spec_data() == data0,
                out@.len() == i,
                spec_read_weight_rows(data0, pos0, n as nat) == (match spec_read_weight_rows(
                    data0,
                    self.spec_pos(),
                    (n - i) as nat,
                ) {
                    Ok((s, p)) => Ok::<(Seq<Seq<u32>>, int), DecodeError>(
                        (out@.map_values(|x: Vec<u32>| x@) + s, p),
                    ),
                    Err(e) => Err::<(Seq<Seq<u32>>, int), DecodeError>(e),
                }),
            decreases n - i,
        {
            let ghost views_before = out@.map_values(|x: Vec<u32>| x@);
            let row = match self.read_u32_run(4) {
                Ok(row) => row,
                Err(e) => {
                    return Err(e);
                },
            };
            out.push(row);
            proof {
                let rest = spec_read_weight_rows(data0, self.spec_pos(), (n - i - 1) as nat);
                assert(out@.map_values(|x: Vec<u32>| x@) =~= views_before + seq![out@[i as int]@]);
                match rest {
                    Ok((s, p)) => {
                        assert((views_before + seq![out@[i as int]@]) + s =~= views_before + (seq![
                            out@[i as int]@,
                        ] + s));
                    },
                    Err(e) => {},
                }
            }
            i += 1;
        }
        proof {
            assert(out@.map_values(|x: Vec<u32>| x@) + Seq::<Seq<u32>>::empty() =~= out@.map_values(
                |x: Vec<u32>| x@,
            ));
        }
        Ok(out)
    }

    /// Reads one 4x4 matrix.
    fn read_matrix4(&mut self) -> (r: Result<RwMatrix4, DecodeError>)
        ensures
            final(self).spec_data() == old(self).spec_data(),
            mirrors(
                spec_read_matrix4(old(self).spec_data(), old(self).spec_pos()),
                r,
                final(self).spec_pos(),
            ),
    {
        let right = self.read_vec4()?;
        let up = self.read_vec4()?;
        let at = self.read_vec4()?;
        let transform = self.read_vec4()?;
        Ok(RwMatrix4 { right, up, at, transform })
    }

    /// Reads `n` 4x4 matrices.
    fn read_matrices(&mut self, n: u32) -> (r: Result<Vec<RwMatrix4>, DecodeError>)
        ensures
            final(self).spec_data() == old(self).spec_data(),
            mirrors_view(
                spec_read_matrices(old(self).spec_data(), old(self).spec_pos(), n as nat),
                r,
                final(self).spec_pos(),
            ),
    {
        let ghost data0 = self.spec_data();
        let ghost pos0 = self.spec_pos();
        let mut out: Vec<RwMatrix4> = Vec::new();
        let mut i: u32 = 0;
        while i < n
            invariant
                0 <= i <= n,
                data0 == old(self).spec_data(),
                pos0 == old(self).spec_pos(),
                self.spec_data() == data0,
                out@.len() == i,
                spec_read_matrices(data0, pos0, n as nat) == (match spec_read_matrices(
                    data0,
                    self.spec_pos(),
                    (n - i) as nat,
                ) {
                    Ok((s, p)) => Ok::<(Seq<RwMatrix4>, int), DecodeError>((out@ + s, p)),
                    Err(e) => Err::<(Seq<RwMatrix4>, int), DecodeError>(e),
                }),
            decreases n - i,
        {
            let ghost views_before = out@;
            let m = match self.read_matrix4() {
                Ok(m) => m,
                Err(e) => {
                    return Err(e);
                },
            };
            out.push(m);
            proof {
                let rest = spec_read_matrices(data0, self.spec_pos(), (n - i - 1) as nat);
                assert(out@ =~= views_before + seq![m]);
                match rest {
                    Ok((s, p)) => {
                        assert((views_before + seq![m]) + s =~= views_before + (seq![m] + s));
                    },
                    Err(e) => {},
                }
            }
            i += 1;
        }
        proof {
            assert(out@ + Seq::<RwMatrix4>::empty() =~= out@);
        }
        Ok(out)
    }

    /// Reads a skin for a geometry of `vertex_count` vertices.
    fn read_skin(&mut self, vertex_count: u32) -> (r: Result<RwSkin, DecodeError>)
        ensures
            final(self).spec_data() == old(self).spec_data(),
            mirrors_view(
                spec_read_skin(old(self).spec_data(), old(self).spec_pos(), vertex_count),
                r,
                final(self).spec_pos(),
            ),
    {
        proof {
            reveal(spec_read_skin);
        }
        let bone_count = self.file.get_stream().read_u8()?;
        let used_bone_count = self.file.get_stream().read_u8()?;
        let max_weights_per_vertex = self.file.get_stream().read_u8()?;
        self.file.get_stream().skip(1);
        self.file.get_stream().skip(used_bone_count as usize);
        let bone_vertex_indices = self.read_index_rows(vertex_count)?;
        let vertex_weights = self.read_weight_rows(vertex_count)?;
        let inverse_bone_matrices = self.read_matrices(bone_count as u32)?;
        Ok(
            RwSkin {
                bone_count,
                used_bone_count,
                max_weights_per_vertex,
                bone_vertex_indices,
                vertex_weights,
                inverse_bone_matrices,
            },
        )
    }

    /// Reads `n` RGBA colors.
    fn read_colors(&mut self, n: u32) -> (r: Result<Vec<RwColor>, DecodeError>)
        ensures
            final(self).spec_data() == old(self).spec_data(),
            mirrors_view(
                spec_read_colors(old(self).spec_data(), old(self).spec_pos(), n as nat),
                r,
                final(self).spec_pos(),
            ),
    {
        let ghost data0 = self.spec_data();
        let ghost pos0 = self.spec_pos();
        let mut out: Vec<RwColor> = Vec::new();
        let mut i: u32 = 0;
        while i < n
            invariant
                0 <= i <= n,
                data0 == old(self).spec_data(),
                pos0 == old(self).spec_pos(),
                self.spec_data() == data0,
                out@.len() == i,
                spec_read_colors(data0, pos0, n as nat) == (match spec_read_colors(
                    data0,
                    self.spec_pos(),
                    (n - i) as nat,
                ) {
                    Ok((s, p)) => Ok::<(Seq<RwColor>, int), DecodeError>((out@ + s, p)),
                    Err(e) => Err::<(Seq<RwColor>, int), DecodeError>(e),
                }),
            decreases n - i,
        {
            let ghost views_before = out@;
            let c = match self.read_color() {
                Ok(c) => c,
                Err(e) => {
                    return Err(e);
                },
            };
            out.push(c);
            proof {
                let rest = spec_read_colors(data0, self.spec_pos(), (n - i - 1) as nat);
                assert(out@ =~= views_before + seq![c]);
                match rest {
                    Ok((s, p)) => {
                        assert((views_before + seq![c]) + s =~= views_before + (seq![c] + s));
                    },
                    Err(e) => {},
                }
            }
            i += 1;
        }
        proof {
            assert(out@ + Seq::<RwColor>::empty() =~= out@);
        }
        Ok(out)
    }

    /// Reads `n` UV coordinates.
    fn read_texcoords(&mut self, n: u32) -> (r: Result<Vec<RwTextureCoordinate>, DecodeError>)
        ensures
            final(self).spec_data() == old(self).spec_data(),
            mirrors_view(
                spec_read_texcoords(old(self).spec_data(), old(self).spec_pos(), n as nat),
                r,
                final(self).spec_pos(),
            ),
    {
        let ghost data0 = self.spec_data();
        let ghost pos0 = self.spec_pos();
        let mut out: Vec<RwTextureCoordinate> = Vec::new();
        let mut i: u32 = 0;
        while i < n
            invariant
                0 <= i <= n,
                data0 == old(self).spec_data(),
                pos0 == old(self).spec_pos(),
                self.spec_data() == data0,
                out@.len() == i,
                spec_read_texcoords(data0, pos0, n as nat) == (match spec_read_texcoords(
                    data0,
                    self.spec_pos(),
                    (n - i) as nat,
                ) {
                    Ok((s, p)) => Ok::<(Seq<RwTextureCoordinate>, int), DecodeError>(
                        (out@ + s, p),
                    ),
                    Err(e) => Err::<(Seq<RwTextureCoordinate>, int), DecodeError>(e),
                }),
            decreases n - i,
        {
            let ghost views_before = out@;
            let u = match self.file.get_stream().read_f32_bits() {
                Ok(v) => v,
                Err(e) => {
                    return Err(e);
                },
            };
            let v = match self.file.get_stream().read_f32_bits() {
                Ok(v) => v,
                Err(e) => {
                    return Err(e);
                },
            };
            let c = RwTextureCoordinate { u, v };
            out.push(c);
            proof {
                let rest = spec_read_texcoords(data0, self.spec_pos(), (n - i - 1) as nat);
                assert(out@ =~= views_before + seq![c]);
                match rest {
                    Ok((s, p)) => {
                        assert((views_before + seq![c]) + s =~= views_before + (seq![c] + s));
                    },
                    Err(e) => {},
                }
            }
            i += 1;
        }
        proof {
            assert(out@ + Seq::<RwTextureCoordinate>::empty() =~= out@);
        }
        Ok(out)
    }

    /// Reads `channels` UV channels of `verts` coordinates each.
    fn read_uv_channels(&mut self, channels: u8, verts: u32) -> (r: Result<
        Vec<Vec<RwTextureCoordinate>>,
        DecodeError,
    >)
        ensures
            final(self).spec_data() == old(self).spec_data(),
            match r {
                Ok(v) => spec_read_uv_channels(
                    old(self).spec_data(),
                    old(self).spec_pos(),
                    channels as nat,
                    verts,
                ) matches Ok((s, end)) && s == v@.map_values(|x: Vec<RwTextureCoordinate>| x@)
                    && end == final(self).spec_pos(),
                Err(e) => spec_read_uv_channels(
                    old(self).spec_data(),
                    old(self).spec_pos(),
                    channels as nat,
                    verts,
                ) == Err::<(Seq<Seq<RwTextureCoordinate>>, int), DecodeError>(e),
            },
    {
        let ghost data0 = self.spec_data();
        let ghost pos0 = self.spec_pos();
        let mut out: Vec<Vec<RwTextureCoordinate>> = Vec::new();
        let mut i: u8 = 0;
        while i < channels
            invariant
                0 <= i <= channels,
                data0 == old(self).spec_data(),
                pos0 == old(self).spec_pos(),
                self.spec_data() == data0,
                out@.len() == i,
                spec_read_uv_channels(data0, pos0, channels as nat, verts) == (
                match spec_read_uv_channels(
                    data0,
                    self.spec_pos(),
                    (channels - i) as nat,
                    verts,
                ) {
                    Ok((s, p)) => Ok::<(Seq<Seq<RwTextureCoordinate>>, int), DecodeError>(
                        (out@.map_values(|x: Vec<RwTextureCoordinate>| x@) + s, p),
                    ),
                    Err(e) => Err::<(Seq<Seq<RwTextureCoordinate>>, int), DecodeError>(e),
                }),
            decreases channels - i,
        {
            let ghost views_before = out@.map_values(|x: Vec<RwTextureCoordinate>| x@);
            let c = match self.read_texcoords(verts) {
                Ok(c) => c,
                Err(e) => {
                    return Err(e);
                },
            };
            out.push(c);
            proof {
                let rest = spec_read_uv_channels(
                    data0,
                    self.spec_pos(),
                    (channels - i - 1) as nat,
                    verts,
                );
                assert(out@.map_values(|x: Vec<RwTextureCoordinate>| x@) =~= views_before + seq![
                    out@[i as int]@,
                ]);
                match rest {
                    Ok((s, p)) => {
                        assert((views_before + seq![out@[i as int]@]) + s =~= views_before + (seq![
                            out@[i as int]@,
                        ] + s));
                    },
                    Err(e) => {},
                }
            }
            i += 1;
        }
        proof {
            assert(out@.map_values(|x: Vec<RwTextureCoordinate>| x@) + Seq::<
                Seq<RwTextureCoordinate>,
            >::empty() =~= out@.map_values(|x: Vec<RwTextureCoordinate>| x@));
        }
        Ok(out)
    }

    /// Reads `n` triangles, restoring the vertex1, vertex2, vertex3 order.
    fn read_triangles(&mut self, n: u32) -> (r: Result<Vec<RwTriangle>, DecodeError>)
        ensures
            final(self).spec_data() == old(self).spec_data(),
            mirrors_view(
                spec_read_triangles(old(self).spec_data(), old(self).spec_pos(), n as nat),
                r,
                final(self).spec_pos(),
            ),
    {
        let ghost data0 = self.spec_data();
        let ghost pos0 = self.spec_pos();
        let mut out: Vec<RwTriangle> = Vec::new();
        let mut i: u32 = 0;
        while i < n
            invariant
                0 <= i <= n,
                data0 == old(self).spec_data(),
                pos0 == old(self).spec_pos(),
                self.spec_data() == data0,
                out@.len() == i,
                spec_read_triangles(data0, pos0, n as nat) == (match spec_read_triangles(
                    data0,
                    self.spec_pos(),
                    (n - i) as nat,
                ) {
                    Ok((s, p)) => Ok::<(Seq<RwTriangle>, int), DecodeError>((out@ + s, p)),
                    Err(e) => Err::<(Seq<RwTriangle>, int), DecodeError>(e),
                }),
            decreases n - i,
        {
            let ghost views_before = out@;
            let vertex2 = match self.file.get_stream().read_u16() {
                Ok(v) => v,
                Err(e) => {
                    return Err(e);
                },
            };
            let vertex1 = match self.file.get_stream().read_u16() {
                Ok(v) => v,
                Err(e) => {
                    return Err(e);
                },
            };
            let material_id = match self.file.get_stream().read_u16() {
                Ok(v) => v,
                Err(e) => {
                    return Err(e);
                },
            };
            let vertex3 = match self.file.get_stream().read_u16() {
                Ok(v) => v,
                Err(e) => {
                    return Err(e);
                },
            };
            let t = RwTriangle {
                vector: RwVector3 {
                    x: crate::fixed_point::f32_bits_scaled(vertex1 as i32, 0),
                    y: crate::fixed_point::f32_bits_scaled(vertex2 as i32, 0),
                    z: crate::fixed_point::f32_bits_scaled(vertex3 as i32, 0),
                },
                material_id,
            };
            out.push(t);
            proof {
                let rest = spec_read_triangles(data0, self.spec_pos(), (n - i - 1) as nat);
                assert(out@ =~= views_before + seq![t]);
                match rest {
                    Ok((s, p)) => {
                        assert((views_before + seq![t]) + s =~= views_before + (seq![t] + s));
                    },
                    Err(e) => {},
                }
            }
            i += 1;
        }
        proof {
            assert(out@ + Seq::<RwTriangle>::empty() =~= out@);
        }
        Ok(out)
    }

    /// Reads `n` 3-component vectors.
    fn read_vec3s(&mut self, n: u32) -> (r: Result<Vec<RwVector3>, DecodeError>)
        ensures
            final(self).spec_data() == old(self).spec_data(),
            mirrors_view(
                spec_read_vec3s(old(self).spec_data(), old(self).spec_pos(), n as nat),
                r,
                final(self).spec_pos(),
            ),
    {
        let ghost data0 = self.spec_data();
        let ghost pos0 = self.spec_pos();
        let mut out: Vec<RwVector3> = Vec::new();
        let mut i: u32 = 0;
        while i < n
            invariant
                0 <= i <= n,
                data0 == old(self).spec_data(),
                pos0 == old(self).spec_pos(),
                self.spec_data() == data0,
                out@.len() == i,
                spec_read_vec3s(data0, pos0, n as nat) == (match spec_read_vec3s(
                    data0,
                    self.spec_pos(),
                    (n - i) as nat,
                ) {
                    Ok((s, p)) => Ok::<(Seq<RwVector3>, int), DecodeError>((out@ + s, p)),
                    Err(e) => Err::<(Seq<RwVector3>, int), DecodeError>(e),
                }),
            decreases n - i,
        {
            let ghost views_before = out@;
            let v = match self.read_vec3() {
                Ok(v) => v,
                Err(e) => {
                    return Err(e);
                },
            };
            out.push(v);
            proof {
                let rest = spec_read_vec3s(data0, self.spec_pos(), (n - i - 1) as nat);
                assert(out@ =~= views_before + seq![v]);
                match rest {
                    Ok((s, p)) => {
                        assert((views_before + seq![v]) + s =~= views_before + (seq![v] + s));
                    },
                    Err(e) => {},
                }
            }
            i += 1;
        }
        proof {
            assert(out@ + Seq::<RwVector3>::empty() =~= out@);
        }
        Ok(out)
    }

    /// Reads one geometry, gated by the geometry list's version.
    #[verifier::rlimit(100)]
    fn read_geometry(&mut self, version_number: u32) -> (r: Result<RwGeometry, DecodeError>)
        ensures
            final(self).spec_data() == old(self).spec_data(),
            mirrors_view(
                spec_read_geometry(old(self).spec_data(), old(self).spec_pos(), version_number),
                r,
                final(self).spec_pos(),
            ),
    {
        proof {
            reveal(spec_read_geometry);
            reveal(spec_read_geometry_tail);
        }
        let flags = self.file.get_stream().read_u16()?;
        let texture_coordinates_count = self.file.get_stream().read_u8()?;
        let _native_geometry_flags = self.file.get_stream().read_u8()?;
        let triangle_count = self.file.get_stream().read_u32()?;
        let vertex_count = self.file.get_stream().read_u32()?;
        let _morph_target_count = self.file.get_stream().read_u32()?;
        if version_number < 0x34000 {
            self.file.get_stream().skip(12);
        }
        let is_geometry_prelit = flags & 8 != 0;
        let is_textured = (flags & 4 != 0) || (flags & 128 != 0);
        let vertex_color_information: Vec<RwColor> = if is_geometry_prelit {
            self.read_colors(vertex_count)?
        } else {
            let v: Vec<RwColor> = Vec::new();
            proof {
                assert(v@ =~= Seq::<RwColor>::empty());
            }
            v
        };
        let texture_mapping_information: Vec<Vec<RwTextureCoordinate>> = if is_textured {
            self.read_uv_channels(texture_coordinates_count, vertex_count)?
        } else {
            let v: Vec<Vec<RwTextureCoordinate>> = Vec::new();
            proof {
                assert(v@.map_values(|x: Vec<RwTextureCoordinate>| x@) =~= Seq::<
                    Seq<RwTextureCoordinate>,
                >::empty());
            }
            v
        };
        let triangle_information = self.read_triangles(triangle_count)?;
        let sphere_vector = self.read_vec3()?;
        let sphere_radius = self.file.get_stream().read_f32_bits()?;
        let has_vertices = self.file.get_stream().read_u32()? != 0;
        let has_normals = self.file.get_stream().read_u32()? != 0;
        let vertex_information: Vec<RwVector3> = if has_vertices {
            self.read_vec3s(vertex_count)?
        } else {
            let v: Vec<RwVector3> = Vec::new();
            proof {
                assert(v@ =~= Seq::<RwVector3>::empty());
            }
            v
        };
        let normal_information: Vec<RwVector3> = if has_normals {
            self.read_vec3s(vertex_count)?
        } else {
            let v: Vec<RwVector3> = Vec::new();
            proof {
                assert(v@ =~= Seq::<RwVector3>::empty());
            }
            v
        };
        let material_list = self.read_material_list()?;
        let wrapper = self.file.read_section_header()?;
        let position = self.file.get_stream().get_position();
        let bin_mesh = self.read_bin_mesh()?;
        let next_header = self.file.read_section_header()?;
        let skin: Option<RwSkin> = if next_header.section_type == 0x116 {
            Some(self.read_skin(vertex_count)?)
        } else {
            None
        };
        self.file.get_stream().set_position(position);
        self.file.get_stream().skip(wrapper.section_size as usize);
        Ok(
            RwGeometry {
                vertex_color_information,
                texture_coordinates_count,
                texture_mapping_information,
                has_vertices,
                has_normals,
                triangle_information,
                vertex_information,
                normal_information,
                bounding_sphere: Some(RwSphere { vector: sphere_vector, radius: sphere_radius }),
                material_list,
                bin_mesh,
                skin,
            },
        )
    }

    /// Reads `n` geometries, each behind two wrapper headers.
    fn read_geometries(&mut self, n: u32, version_number: u32) -> (r: Result<
        Vec<RwGeometry>,
        DecodeError,
    >)
        ensures
            final(self).spec_data() == old(self).spec_data(),
            match r {
                Ok(v) => spec_read_geometries(
                    old(self).spec_data(),
                    old(self).spec_pos(),
                    n as nat,
                    version_number,
                ) matches Ok((s, end)) && s == v@.map_values(|g: RwGeometry| g@) && end == final(self).spec_pos(),
                Err(e) => spec_read_geometries(
                    old(self).spec_data(),
                    old(self).spec_pos(),
                    n as nat,
                    version_number,
                ) == Err::<(Seq<RwGeometryV>, int), DecodeError>(e),
            },
    {
        let ghost data0 = self.spec_data();
        let ghost pos0 = self.spec_pos();
        let mut out: Vec<RwGeometry> = Vec::new();
        let mut i: u32 = 0;
        while i < n
            invariant
                0 <= i <= n,
                data0 == old(self).spec_data(),
                pos0 == old(self).spec_pos(),
                self.spec_data() == data0,
                out@.len() == i,
                spec_read_geometries(data0, pos0, n as nat, version_number) == (
                match spec_read_geometries(
                    data0,
                    self.spec_pos(),
                    (n - i) as nat,
                    version_number,
                ) {
                    Ok((s, p)) => Ok::<(Seq<RwGeometryV>, int), DecodeError>(
                        (out@.map_values(|g: RwGeometry| g@) + s, p),
                    ),
                    Err(e) => Err::<(Seq<RwGeometryV>, int), DecodeError>(e),
                }),
            decreases n - i,
        {
            let ghost views_before = out@.map_values(|g: RwGeometry| g@);
            let _outer = match self.file.read_section_header() {
                Ok(h) => h,
                Err(e) => {
                    return Err(e);
                },
            };
            let _inner = match self.file.read_section_header() {
                Ok(h) => h,
                Err(e) => {
                    return Err(e);
                },
            };
            let g = match self.read_geometry(version_number) {
                Ok(g) => g,
                Err(e) => {
                    return Err(e);
                },
            };
            out.push(g);
            proof {
                let rest = spec_read_geometries(
                    data0,
                    self.spec_pos(),
                    (n - i - 1) as nat,
                    version_number,
                );
                assert(out@.map_values(|x: RwGeometry| x@) =~= views_before + seq![
                    out@[i as int]@,
                ]);
                match rest {
                    Ok((s, p)) => {
                        assert((views_before + seq![out@[i as int]@]) + s =~= views_before + (seq![
                            out@[i as int]@,
                        ] + s));
                    },
                    Err(e) => {},
                }
            }
            i += 1;
        }
        proof {
            assert(out@.map_values(|g: RwGeometry| g@) + Seq::<RwGeometryV>::empty()
                =~= out@.map_values(|g: RwGeometry| g@));
        }
        Ok(out)
    }

    /// Reads the geometry list.
    fn read_geometry_list(&mut self) -> (r: Result<RwGeometryList, DecodeError>)
        ensures
            final(self).spec_data() == old(self).spec_data(),
            mirrors_view(
                spec_read_geometry_list(old(self).spec_data(), old(self).spec_pos()),
                r,
                final(self).spec_pos(),
            ),
    {
        proof {
            reveal(spec_read_geometry_list);
        }
        let struct_header = self.file.read_section_header()?;
        let geometric_object_count = self.file.get_stream().read_u32()?;
        let version_number = unpack_version(struct_header.version_number);
        let geometries = self.read_geometries(geometric_object_count, version_number)?;
        Ok(RwGeometryList { geometric_object_count, geometries })
    }

    /// Derives the model classification from the decoded data.
    fn classify(geometry_list: &Option<RwGeometryList>, dummies: &Vec<String>) -> (r: DffModelType)
        ensures
            r == spec_classify(
                match geometry_list {
                    Some(gl) => Some(gl@),
                    None => None,
                },
                dummies@.map_values(|d: String| d@),
            ),
    {
        let has_skin: bool = match geometry_list {
            Some(gl) => {
                let n = gl.geometries.len();
                let mut found = false;
                let mut i: usize = 0;
                while i < n
                    invariant
                        0 <= i <= n,
                        n == gl.geometries@.len(),
                        found <==> exists|j: int|
                            0 <= j < i && (#[trigger] gl.geometries@[j])@.skin is Some,
                    decreases n - i,
                {
                    if gl.geometries[i].skin.is_some() {
                        found = true;
                    }
                    i += 1;
                }
                proof {
                    if found {
                        let j = choose|j: int|
                            0 <= j < n && (#[trigger] gl.geometries@[j])@.skin is Some;
                        assert(gl@.geometries[j].skin is Some);
                    }
                    if spec_has_skin(Some(gl@)) {
                        let j = choose|j: int|
                            0 <= j < gl@.geometries.len() && (#[trigger] gl@.geometries[j]).skin
                                is Some;
                        assert(gl.geometries@[j]@.skin is Some);
                    }
                }
                found
            },
            None => false,
        };
        let mut vehicle = false;
        let dn = dummies.len();
        let mut k: usize = 0;
        while k < dn
            invariant
                0 <= k <= dn,
                dn == dummies@.len(),
                vehicle <==> exists|j: int|
                    0 <= j < k && spec_is_vehicle_name((#[trigger] dummies@[j])@),
            decreases dn - k,
        {
            let lw = lowercase(dummies[k].as_str());
            let w = str_contains(lw.as_str(), "wheel");
            let c = str_contains(lw.as_str(), "chassis");
            if w || c {
                vehicle = true;
            }
            k += 1;
        }
        proof {
            let dv = dummies@.map_values(|d: String| d@);
            if vehicle {
                let j = choose|j: int|
                    0 <= j < dn && spec_is_vehicle_name((#[trigger] dummies@[j])@);
                assert(dv[j] == dummies@[j]@);
            }
            if exists|i: int| 0 <= i < dv.len() && spec_is_vehicle_name(#[trigger] dv[i]) {
                let j = choose|j: int| 0 <= j < dv.len() && spec_is_vehicle_name(#[trigger] dv[j]);
                assert(dummies@[j]@ == dv[j]);
            }
        }
        if has_skin {
            DffModelType::Skin
        } else if vehicle {
            DffModelType::Vehicle
        } else {
            DffModelType::Generic
        }
    }

    /// Decodes the whole model buffer: scans the top-level sections until
    /// the end of the buffer or a terminal type-0 header, then derives the
    /// classification and the version text.
    #[verifier::rlimit(100)]
    pub fn parse(&mut self) -> (r: Result<RwDff, DecodeError>)
        requires
            old(self).spec_pos() == 0,
        ensures
            final(self).spec_data() == old(self).spec_data(),
            mirrors_value(spec_parse_dff(old(self).spec_data()), r),
    {
        let ghost data0 = self.spec_data();
        let dlen = self.file.get_stream().get_size();
        let mut fuel_exec: usize = dlen;
        let mut version_str: Option<String> = None;
        let mut version_number_opt: Option<u32> = None;
        let mut atomics: Vec<u32> = Vec::new();
        let mut dummies: Vec<String> = Vec::new();
        let mut anim_nodes: Vec<RwAnimNode> = Vec::new();
        let mut geometry_list: Option<RwGeometryList> = None;
        let mut frame_list: Option<RwFrameList> = None;
        let mut finished = false;
        proof {
            assert(dummies@.map_values(|d: String| d@) =~= Seq::<Seq<char>>::empty());
            assert(anim_nodes@.map_values(|a: RwAnimNode| a@) =~= Seq::<RwAnimNodeV>::empty());
            assert(atomics@ =~= Seq::<u32>::empty());
        }
        while !finished && self.file.get_stream().get_position() < dlen && fuel_exec > 0
            invariant
                data0 == old(self).spec_data(),
                self.spec_data() == data0,
                dlen == data0.len(),
                (match version_number_opt {
                    Some(vn) => version_str matches Some(s) && s@ == spec_version_text(Some(vn)),
                    None => version_str is None,
                }),
                (if finished {
                    spec_scan_sections(data0, 0, spec_initial_scan(), data0.len() as nat) == Ok::<
                        DffScanV,
                        DecodeError,
                    >(
                        DffScanV {
                            version_number: version_number_opt,
                            geometry_list: match geometry_list {
                                Some(gl) => Some(gl@),
                                None => None,
                            },
                            frame_list: match frame_list {
                                Some(fl) => Some(fl@),
                                None => None,
                            },
                            atomics: atomics@,
                            dummies: dummies@.map_values(|d: String| d@),
                            anim_nodes: anim_nodes@.map_values(|a: RwAnimNode| a@),
                        },
                    )
                } else {
                    spec_scan_sections(data0, 0, spec_initial_scan(), data0.len() as nat)
                        == spec_scan_sections(
                        data0,
                        self.spec_pos(),
                        DffScanV {
                            version_number: version_number_opt,
                            geometry_list: match geometry_list {
                                Some(gl) => Some(gl@),
                                None => None,
                            },
                            frame_list: match frame_list {
                                Some(fl) => Some(fl@),
                                None => None,
                            },
                            atomics: atomics@,
                            dummies: dummies@.map_values(|d: String| d@),
                            anim_nodes: anim_nodes@.map_values(|a: RwAnimNode| a@),
                        },
                        fuel_exec as nat,
                    )
                }),
            decreases fuel_exec,
        {
            fuel_exec -= 1;
            let header = match self.file.read_section_header() {
                Ok(h) => h,
                Err(e) => {
                    return Err(e);
                },
            };
            if header.section_type == 0 {
                finished = true;
            } else if header.section_size == 0 {
                // A section that carries only identity, no payload.
            } else if header.section_type == RwSections::RwClump.code() {
                if version_number_opt.is_none() {
                    let vn = unpack_version(header.version_number);
                    let table = RwVersion::new();
                    let vs: String = match table.get_version_string(vn) {
                        Some(s) => s,
                        None => String::new(),
                    };
                    proof {
                        assert(vs@ =~= spec_version_text(Some(vn)));
                    }
                    version_number_opt = Some(vn);
                    version_str = Some(vs);
                }
            } else if header.section_type == RwSections::RwFrameList.code() {
                let fl = match self.read_frame_list() {
                    Ok(fl) => fl,
                    Err(e) => {
                        return Err(e);
                    },
                };
                frame_list = Some(fl);
            } else if header.section_type == RwSections::RwExtension.code() {
                let extension_header = match self.file.read_section_header() {
                    Ok(h) => h,
                    Err(e) => {
                        return Err(e);
                    },
                };
                if extension_header.section_type == RwSections::RwNodeName.code() {
                    let ghost dummies_before = dummies@.map_values(|d: String| d@);
                    let name = match self.file.get_stream().read_string(
                        extension_header.section_size as usize,
                    ) {
                        Ok(s) => s,
                        Err(e) => {
                            return Err(e);
                        },
                    };
                    dummies.push(name);
                    proof {
                        assert(dummies@.map_values(|d: String| d@) =~= dummies_before.push(
                            dummies@[dummies@.len() - 1]@,
                        ));
                    }
                } else if extension_header.section_type == RwSections::RwAnim.code() {
                    let ghost nodes_before = anim_nodes@.map_values(|a: RwAnimNode| a@);
                    let an = match self.read_anim_node() {
                        Ok(a) => a,
                        Err(e) => {
                            return Err(e);
                        },
                    };
                    anim_nodes.push(an);
                    proof {
                        assert(anim_nodes@.map_values(|a: RwAnimNode| a@) =~= nodes_before.push(
                            anim_nodes@[anim_nodes@.len() - 1]@,
                        ));
                    }
                } else {
                    self.file.get_stream().skip(extension_header.section_size as usize);
                }
            } else if header.section_type == RwSections::RwGeometryList.code() {
                let gl = match self.read_geometry_list() {
                    Ok(gl) => gl,
                    Err(e) => {
                        return Err(e);
                    },
                };
                geometry_list = Some(gl);
            } else if header.section_type == RwSections::RwAtomic.code() {
                let atomic = match self.read_atomic() {
                    Ok(a) => a,
                    Err(e) => {
                        return Err(e);
                    },
                };
                let ghost atomics_before = atomics@;
                let gi = atomic.geometry_index as usize;
                let old_len = atomics.len();
                while atomics.len() <= gi
                    invariant
                        old_len <= atomics@.len() <= gi + 1 || (old_len > gi && atomics@.len()
                            == old_len),
                        atomics@.subrange(0, old_len as int) =~= atomics_before,
                        atomics_before.len() == old_len,
                        forall|j: int| old_len <= j < atomics@.len() ==> atomics@[j] == 0,
                    decreases gi + 1 - atomics@.len(),
                {
                    atomics.push(0);
                }
                proof {
                    if old_len <= gi {
                        assert(atomics@.len() == gi + 1);
                        assert(atomics@ =~= atomics_before + Seq::new(
                            (gi + 1 - old_len) as nat,
                            |_i: int| 0u32,
                        ));
                    } else {
                        assert(atomics@ =~= atomics_before);
                    }
                }
                atomics.set(gi, atomic.frame_index);
                proof {
                    assert(atomics@ =~= spec_record_atomic(atomics_before, atomic));
                }
            } else if header.section_type == RwSections::RwNodeName.code() {
                let ghost dummies_before = dummies@.map_values(|d: String| d@);
                let name = match self.file.get_stream().read_string(
                    header.section_size as usize,
                ) {
                    Ok(s) => s,
                    Err(e) => {
                        return Err(e);
                    },
                };
                dummies.push(name);
                proof {
                    assert(dummies@.map_values(|d: String| d@) =~= dummies_before.push(
                        dummies@[dummies@.len() - 1]@,
                    ));
                }
            } else if header.section_type == RwSections::RwAnim.code() {
                let ghost nodes_before = anim_nodes@.map_values(|a: RwAnimNode| a@);
                let an = match self.read_anim_node() {
                    Ok(a) => a,
                    Err(e) => {
                        return Err(e);
                    },
                };
                anim_nodes.push(an);
                proof {
                    assert(anim_nodes@.map_values(|a: RwAnimNode| a@) =~= nodes_before.push(
                        anim_nodes@[anim_nodes@.len() - 1]@,
                    ));
                }
            } else {
                self.file.get_stream().skip(header.section_size as usize);
            }
        }
        let model_type = Self::classify(&geometry_list, &dummies);
        let version: String = match version_str {
            Some(s) => s,
            None => String::new(),
        };
        let version_number: u32 = match version_number_opt {
            Some(v) => v,
            None => 0,
        };
        proof {
            if version_number_opt is None {
                assert(version@ =~= spec_version_text(version_number_opt));
            }
        }
        Ok(
            RwDff {
                model_type,
                version,
                version_number,
                geometry_list,
                frame_list,
                atomics,
                dummies,
                anim_nodes,
            },
        )
    }
}

/// Materials decoded when the alias array holds only the inline sentinel:
/// the same sequence of fresh inline decodes, one after another.
pub open spec fn spec_read_materials_fresh(data: Seq<u8>, pos: int, n: nat) -> Result<
    (Seq<RwMaterialV>, int),
    DecodeError,
>
    decreases n,
{
    if n == 0 {
        Ok((Seq::empty(), pos))
    } else {
        match spec_read_material(data, pos) {
            Err(e) => Err(e),
            Ok((m, p)) => match spec_read_materials_fresh(data, p, (n - 1) as nat) {
                Err(e) => Err(e),
                Ok((s, p2)) => Ok((seq![m] + s, p2)),
            },
        }
    }
}

/// An alias array holding only the sentinel -1 decodes every entry fresh:
/// the material list is exactly the sequence of inline decodes.
pub proof fn lemma_materials_all_fresh(data: Seq<u8>, pos: int, idxs: Seq<i32>, acc: Seq<RwMaterialV>)
    requires
        forall|k: int| 0 <= k < idxs.len() ==> idxs[k] == -1,
    ensures
        spec_read_materials(data, pos, idxs, acc) == (match spec_read_materials_fresh(
            data,
            pos,
            idxs.len(),
        ) {
            Ok((s, p)) => Ok::<(Seq<RwMaterialV>, int), DecodeError>((acc + s, p)),
            Err(e) => Err::<(Seq<RwMaterialV>, int), DecodeError>(e),
        }),
    decreases idxs.len(),
{
    if idxs.len() == 0 {
        assert(acc + Seq::<RwMaterialV>::empty() =~= acc);
    } else {
        assert(idxs[0] == -1);
        match spec_read_material(data, pos) {
            Err(e) => {},
            Ok((m, p)) => {
                lemma_materials_all_fresh(data, p, idxs.drop_first(), acc.push(m));
                assert(idxs.drop_first().len() == idxs.len() - 1);
                match spec_read_materials_fresh(data, p, (idxs.len() - 1) as nat) {
                    Err(e) => {},
                    Ok((s, p2)) => {
                        assert(acc.push(m) + s =~= acc + (seq![m] + s));
                    },
                }
            },
        }
    }
}

/// Every decoded material list extends its accumulator, and every alias
/// entry is an exact copy of the earlier entry it references.
pub proof fn lemma_materials_alias_copies(
    data: Seq<u8>,
    pos: int,
    idxs: Seq<i32>,
    acc: Seq<RwMaterialV>,
    ms: Seq<RwMaterialV>,
    end: int,
)
    requires
        spec_read_materials(data, pos, idxs, acc) == Ok::<(Seq<RwMaterialV>, int), DecodeError>(
            (ms, end),
        ),
    ensures
        ms.len() == acc.len() + idxs.len(),
        ms.subrange(0, acc.len() as int) == acc,
        forall|k: int|
            0 <= k < idxs.len() && idxs[k] >= 0 ==> idxs[k] < acc.len() + k && ms[acc.len() + k]
                == ms[idxs[k] as int],
    decreases idxs.len(),
{
    if idxs.len() == 0 {
        assert(ms == acc);
        assert(ms.subrange(0, acc.len() as int) =~= acc);
    } else {
        let ix = idxs[0];
        if ix == -1 {
            match spec_read_material(data, pos) {
                Err(e) => {
                    assert(false);
                },
                Ok((m, p)) => {
                    lemma_materials_alias_copies(data, p, idxs.drop_first(), acc.push(m), ms, end);
                    assert(acc.push(m).subrange(0, acc.len() as int) =~= acc);
                    assert(ms.subrange(0, acc.len() + 1 as int).subrange(0, acc.len() as int)
                        =~= ms.subrange(0, acc.len() as int));
                    assert forall|k: int|
                        0 <= k < idxs.len() && idxs[k] >= 0 implies idxs[k] < acc.len() + k && ms[
                        acc.len() + k] == ms[idxs[k] as int] by {
                        if k > 0 {
                            assert(idxs.drop_first()[k - 1] == idxs[k]);
                        }
                    }
                },
            }
        } else if 0 <= ix < acc.len() {
            lemma_materials_alias_copies(
                data,
                pos,
                idxs.drop_first(),
                acc.push(acc[ix as int]),
                ms,
                end,
            );
            assert(acc.push(acc[ix as int]).subrange(0, acc.len() as int) =~= acc);
            assert(ms.subrange(0, acc.len() + 1 as int).subrange(0, acc.len() as int) =~= ms.subrange(
                0,
                acc.len() as int,
            ));
            assert forall|k: int|
                0 <= k < idxs.len() && idxs[k] >= 0 implies idxs[k] < acc.len() + k && ms[acc.len()
                + k] == ms[idxs[k] as int] by {
                if k == 0 {
                    assert(ms.subrange(0, acc.len() + 1 as int) =~= acc.push(acc[ix as int]));
                    assert(ms.subrange(0, acc.len() + 1 as int)[acc.len() as int] == ms[acc.len() as int]);
                    assert(ms[acc.len() as int] == acc[ix as int]);
                    assert(ms.subrange(0, acc.len() + 1 as int)[ix as int] == ms[ix as int]);
                    assert(ms[ix as int] == acc[ix as int]);
                } else {
                    assert(idxs.drop_first()[k - 1] == idxs[k]);
                }
            }
        } else {
            assert(false);
        }
    }
}

/// A successful alias-index read yields one index per declared entry.
proof fn lemma_i32s_len(data: Seq<u8>, pos: int, n: nat)
    ensures
        spec_read_i32s(data, pos, n) matches Ok((s, end)) ==> s.len() == n,
    decreases n,
{
    if n > 0 {
        match spec_read_i32(data, pos) {
            Err(_) => {},
            Ok((v, p)) => {
                lemma_i32s_len(data, p, (n - 1) as nat);
            },
        }
    }
}

/// A decoded material list holds exactly as many materials as its
/// declared instance count.
pub proof fn lemma_material_list_count(data: Seq<u8>, pos: int, ml: RwMaterialListV, end: int)
    requires
        spec_read_material_list(data, pos) == Ok::<(RwMaterialListV, int), DecodeError>((ml, end)),
    ensures
        ml.material_data.len() == ml.material_instance_count,
{
    reveal(spec_read_material_list);
    match spec_read_header(data, pos) {
        Err(_) => {
            assert(false);
        },
        Ok((_h1, p1)) => match spec_read_header(data, p1) {
            Err(_) => {
                assert(false);
            },
            Ok((_h2, p2)) => match spec_read_u32(data, p2) {
                Err(_) => {
                    assert(false);
                },
                Ok((count, p3)) => match spec_read_i32s(data, p3, count as nat) {
                    Err(_) => {
                        assert(false);
                    },
                    Ok((idxs, p4)) => {
                        lemma_i32s_len(data, p3, count as nat);
                        match spec_read_materials(data, p4, idxs, Seq::empty()) {
                            Err(_) => {
                                assert(false);
                            },
                            Ok((ms, p5)) => {
                                lemma_materials_alias_copies(
                                    data,
                                    p4,
                                    idxs,
                                    Seq::empty(),
                                    ms,
                                    p5,
                                );
                            },
                        }
                    },
                },
            },
        },
    }
}

/// A material list whose alias array holds only the inline sentinel -1
/// decodes every entry fresh, in order: the whole list is exactly the
/// sequence of inline material decodes that starts right after the index
/// array (whose 28-byte offset covers the two wrapper headers and the
/// count field).
pub proof fn lemma_material_list_all_fresh(
    data: Seq<u8>,
    pos: int,
    ml: RwMaterialListV,
    end: int,
    idxs: Seq<i32>,
    ip: int,
)
    requires
        spec_read_material_list(data, pos) == Ok::<(RwMaterialListV, int), DecodeError>((ml, end)),
        spec_read_i32s(data, pos + 28, ml.material_instance_count as nat) == Ok::<
            (Seq<i32>, int),
            DecodeError,
        >((idxs, ip)),
        forall|k: int| 0 <= k < idxs.len() ==> idxs[k] == -1,
    ensures
        spec_read_materials_fresh(data, ip, idxs.len()) matches Ok((ms, p)) && ml.material_data
            == ms && end == p,
{
    reveal(spec_read_material_list);
    lemma_materials_all_fresh(data, ip, idxs, Seq::empty());
    match spec_read_materials_fresh(data, ip, idxs.len()) {
        Err(_) => {},
        Ok((ms, p)) => {
            assert(Seq::<RwMaterialV>::empty() + ms =~= ms);
        },
    }
}

/// In a decoded material list, every non-negative alias index names an
/// earlier entry, and the aliased entry equals its target in every field.
pub proof fn lemma_material_list_alias_is_copy(
    data: Seq<u8>,
    pos: int,
    ml: RwMaterialListV,
    end: int,
    idxs: Seq<i32>,
    ip: int,
    k: int,
)
    requires
        spec_read_material_list(data, pos) == Ok::<(RwMaterialListV, int), DecodeError>((ml, end)),
        spec_read_i32s(data, pos + 28, ml.material_instance_count as nat) == Ok::<
            (Seq<i32>, int),
            DecodeError,
        >((idxs, ip)),
        0 <= k < idxs.len(),
        idxs[k] >= 0,
    ensures
        0 <= idxs[k] < k,
        ml.material_data[k] == ml.material_data[idxs[k] as int],
{
    reveal(spec_read_material_list);
    lemma_materials_alias_copies(data, ip, idxs, Seq::empty(), ml.material_data, end);
}

/// A frame list with a declared count of 0 yields no frames and leaves the
/// cursor exactly 4 bytes past the struct header: only the count field is
/// consumed.
pub proof fn lemma_frame_list_zero_count(data: Seq<u8>, pos: int, fl: RwFrameListV, end: int)
    requires
        spec_read_frame_list(data, pos) == Ok::<(RwFrameListV, int), DecodeError>((fl, end)),
        fl.frame_count == 0,
    ensures
        fl.frames.len() == 0,
        end == pos + 16,
{
    reveal(spec_read_frame_list);
}

/// A decoded frame sequence holds one frame per declared slot, and each
/// obeys the forward-declared hierarchy relative to its position.
proof fn lemma_frames_hierarchy(data: Seq<u8>, pos: int, idx: nat, n: nat, s: Seq<RwFrame>, end: int)
    requires
        spec_read_frames(data, pos, idx, n) == Ok::<(Seq<RwFrame>, int), DecodeError>((s, end)),
    ensures
        s.len() == n,
        forall|i: int|
            0 <= i < s.len() ==> spec_valid_parent((#[trigger] s[i]).parent_frame, idx + i),
    decreases n,
{
    if n > 0 {
        match spec_read_frame(data, pos) {
            Err(_) => {
                assert(false);
            },
            Ok((f, p)) => {
                match spec_read_frames(data, p, (idx + 1) as nat, (n - 1) as nat) {
                    Err(_) => {
                        assert(false);
                    },
                    Ok((rest, p2)) => {
                        lemma_frames_hierarchy(data, p, (idx + 1) as nat, (n - 1) as nat, rest, p2);
                        assert forall|i: int|
                            0 <= i < s.len() implies spec_valid_parent(
                            (#[trigger] s[i]).parent_frame,
                            idx + i,
                        ) by {
                            if i > 0 {
                                assert(s[i] == rest[i - 1]);
                            }
                        }
                    },
                }
            },
        }
    }
}

/// Every frame of a decoded skeleton obeys the forward-declared hierarchy:
/// its parent index marks the root (-1) or names a frame that stands
/// earlier in the list. A buffer that breaks this is rejected on read, so
/// a decoded list never carries a forward or out-of-range parent.
pub proof fn lemma_frame_list_forward_hierarchy(data: Seq<u8>, pos: int, fl: RwFrameListV, end: int)
    requires
        spec_read_frame_list(data, pos) == Ok::<(RwFrameListV, int), DecodeError>((fl, end)),
    ensures
        fl.frames.len() == fl.frame_count,
        forall|i: int|
            0 <= i < fl.frames.len() ==> spec_valid_parent(
                (#[trigger] fl.frames[i]).parent_frame,
                i,
            ),
{
    reveal(spec_read_frame_list);
    match spec_read_header(data, pos) {
        Err(_) => {
            assert(false);
        },
        Ok((_h, p1)) => match spec_read_u32(data, p1) {
            Err(_) => {
                assert(false);
            },
            Ok((frame_count, p2)) => match spec_read_frames(data, p2, 0, frame_count as nat) {
                Err(_) => {
                    assert(false);
                },
                Ok((frames, p3)) => {
                    lemma_frames_hierarchy(data, p2, 0, frame_count as nat, frames, p3);
                },
            },
        },
    }
}

/// A geometry whose prelit bit (3) is clear carries no vertex colors, and
/// one with both UV bits (2 and 7) clear carries no UV channels, whatever
/// the declared vertex and channel counts say. The declared channel count
/// itself is still reported from the header byte, and no contradiction is
/// raised when it is nonzero while the UV bits are clear.
pub proof fn lemma_geometry_flag_gates(data: Seq<u8>, pos: int, version: u32, g: RwGeometryV, end: int)
    requires
        spec_read_geometry(data, pos, version) == Ok::<(RwGeometryV, int), DecodeError>((g, end)),
    ensures
        spec_read_u16(data, pos) matches Ok((flags, p)) && (flags & 8 == 0
            ==> g.vertex_color_information.len() == 0) && ((flags & 4 == 0 && flags & 128 == 0)
            ==> g.texture_mapping_information.len() == 0),
        spec_read_u8(data, pos + 2) matches Ok((channel_count, q)) && g.texture_coordinates_count
            == channel_count,
{
    reveal(spec_read_geometry);
    reveal(spec_read_geometry_tail);
}

/// Decoding is deterministic: any two results that meet the model decode
/// contract for the same bytes are the same value.
pub proof fn lemma_dff_decode_deterministic(
    data: Seq<u8>,
    r1: Result<RwDffV, DecodeError>,
    r2: Result<RwDffV, DecodeError>,
)
    requires
        r1 == spec_parse_dff(data),
        r2 == spec_parse_dff(data),
    ensures
        r1 == r2,
{
}


/// Bounds every cursor position a successful frame-sequence read yields.
proof fn lemma_frames_advance(data: Seq<u8>, pos: int, idx: nat, n: nat)
    requires
        0 <= pos <= usize::MAX,
        data.len() <= usize::MAX,
    ensures
        spec_read_frames(data, pos, idx, n) matches Ok((s, end)) ==> pos <= end <= usize::MAX,
    decreases n,
{
    if n > 0 {
        match spec_read_frame(data, pos) {
            Ok((f, p)) => {
                lemma_frames_advance(data, p, (idx + 1) as nat, (n - 1) as nat);
            },
            Err(_) => {},
        }
    }
}

/// Bounds every cursor position a successful frame-list read yields.
proof fn lemma_frame_list_advance(data: Seq<u8>, pos: int)
    requires
        0 <= pos <= usize::MAX,
        data.len() <= usize::MAX,
    ensures
        spec_read_frame_list(data, pos) matches Ok((fl, end)) ==> pos <= end <= usize::MAX,
{
    reveal(spec_read_frame_list);
    match spec_read_header(data, pos) {
        Ok((h, p1)) => match spec_read_u32(data, p1) {
            Ok((c, p2)) => {
                lemma_frames_advance(data, p2, 0, c as nat);
            },
            Err(_) => {},
        },
        Err(_) => {},
    }
}

/// Bounds every cursor position a successful bone-sequence read yields.
proof fn lemma_bones_advance(data: Seq<u8>, pos: int, n: nat)
    requires
        0 <= pos <= usize::MAX,
        data.len() <= usize::MAX,
    ensures
        spec_read_bones(data, pos, n) matches Ok((s, end)) ==> pos <= end <= usize::MAX,
    decreases n,
{
    if n > 0 {
        match spec_read_bone(data, pos) {
            Ok((b, p)) => {
                lemma_bones_advance(data, p, (n - 1) as nat);
            },
            Err(_) => {},
        }
    }
}

/// Bounds every cursor position a successful anim-node read yields.
proof fn lemma_anim_node_advance(data: Seq<u8>, pos: int)
    requires
        0 <= pos <= usize::MAX,
        data.len() <= usize::MAX,
    ensures
        spec_read_anim_node(data, pos) matches Ok((an, end)) ==> pos <= end <= usize::MAX,
{
    reveal(spec_read_anim_node);
    match spec_read_i32(data, sat_add(pos, 4)) {
        Ok((bone_id, p1)) => match spec_read_i32(data, p1) {
            Ok((bones_count, p2)) => {
                let p3 = if bone_id == 0 {
                    sat_add(p2, 8)
                } else {
                    p2
                };
                let n: nat = if bones_count > 0 {
                    bones_count as nat
                } else {
                    0
                };
                lemma_bones_advance(data, p3, n);
            },
            Err(_) => {},
        },
        Err(_) => {},
    }
}

/// Bounds every cursor position a successful texture read yields.
proof fn lemma_texture_advance(data: Seq<u8>, pos: int)
    requires
        0 <= pos <= usize::MAX,
        data.len() <= usize::MAX,
    ensures
        spec_read_texture(data, pos) matches Ok((t, end)) ==> pos <= end <= usize::MAX,
{
    reveal(spec_read_texture);
}

/// Bounds every cursor position a successful material read yields.
proof fn lemma_material_advance(data: Seq<u8>, pos: int)
    requires
        0 <= pos <= usize::MAX,
        data.len() <= usize::MAX,
    ensures
        spec_read_material(data, pos) matches Ok((m, end)) ==> pos <= end <= usize::MAX,
{
    reveal(spec_read_material);
    match spec_read_header(data, pos) {
        Ok((h1, p1)) => match spec_read_header(data, p1) {
            Ok((h2, p2)) => match spec_read_color(data, sat_add(p2, 4)) {
                Ok((c, p3)) => match spec_read_u32(data, sat_add(p3, 4)) {
                    Ok((w, p4)) => {
                        let p5 = if h2.version_number > 0x30400 {
                            match spec_read_u32(data, p4) {
                                Ok((_, q1)) => match spec_read_u32(data, q1) {
                                    Ok((_, q2)) => match spec_read_u32(data, q2) {
                                        Ok((_, q3)) => q3,
                                        Err(_) => p4,
                                    },
                                    Err(_) => p4,
                                },
                                Err(_) => p4,
                            }
                        } else {
                            p4
                        };
                        lemma_texture_advance(data, p5);
                    },
                    Err(_) => {},
                },
                Err(_) => {},
            },
            Err(_) => {},
        },
        Err(_) => {},
    }
}

/// Bounds every cursor position successful alias resolution yields.
proof fn lemma_materials_advance(data: Seq<u8>, pos: int, idxs: Seq<i32>, acc: Seq<RwMaterialV>)
    requires
        0 <= pos <= usize::MAX,
        data.len() <= usize::MAX,
    ensures
        spec_read_materials(data, pos, idxs, acc) matches Ok((s, end)) ==> pos <= end
            <= usize::MAX,
    decreases idxs.len(),
{
    if idxs.len() > 0 {
        let ix = idxs[0];
        if ix == -1 {
            match spec_read_material(data, pos) {
                Ok((m, p)) => {
                    lemma_material_advance(data, pos);
                    lemma_materials_advance(data, p, idxs.drop_first(), acc.push(m));
                },
                Err(_) => {},
            }
        } else if 0 <= ix < acc.len() {
            lemma_materials_advance(data, pos, idxs.drop_first(), acc.push(acc[ix as int]));
        }
    }
}

/// Bounds every cursor position a successful index-array read yields.
proof fn lemma_i32s_advance(data: Seq<u8>, pos: int, n: nat)
    requires
        0 <= pos <= usize::MAX,
        data.len() <= usize::MAX,
    ensures
        spec_read_i32s(data, pos, n) matches Ok((s, end)) ==> pos <= end <= usize::MAX,
    decreases n,
{
    if n > 0 {
        match spec_read_i32(data, pos) {
            Ok((v, p)) => {
                lemma_i32s_advance(data, p, (n - 1) as nat);
            },
            Err(_) => {},
        }
    }
}

/// Bounds every cursor position a successful material-list read yields.
proof fn lemma_material_list_advance(data: Seq<u8>, pos: int)
    requires
        0 <= pos <= usize::MAX,
        data.len() <= usize::MAX,
    ensures
        spec_read_material_list(data, pos) matches Ok((ml, end)) ==> pos <= end <= usize::MAX,
{
    reveal(spec_read_material_list);
    match spec_read_header(data, pos) {
        Ok((h1, p1)) => match spec_read_header(data, p1) {
            Ok((h2, p2)) => match spec_read_u32(data, p2) {
                Ok((c, p3)) => {
                    lemma_i32s_advance(data, p3, c as nat);
                    match spec_read_i32s(data, p3, c as nat) {
                        Ok((idxs, p4)) => {
                            lemma_materials_advance(data, p4, idxs, Seq::empty());
                        },
                        Err(_) => {},
                    }
                },
                Err(_) => {},
            },
            Err(_) => {},
        },
        Err(_) => {},
    }
}

/// Bounds every cursor position a successful value-run read yields.
proof fn lemma_u32s_advance(data: Seq<u8>, pos: int, n: nat)
    requires
        0 <= pos <= usize::MAX,
        data.len() <= usize::MAX,
    ensures
        spec_read_u32s(data, pos, n) matches Ok((s, end)) ==> pos <= end <= usize::MAX,
    decreases n,
{
    if n > 0 {
        match spec_read_u32(data, pos) {
            Ok((v, p)) => {
                lemma_u32s_advance(data, p, (n - 1) as nat);
            },
            Err(_) => {},
        }
    }
}

/// Bounds every cursor position a successful batch-sequence read yields.
proof fn lemma_meshes_advance(data: Seq<u8>, pos: int, n: nat)
    requires
        0 <= pos <= usize::MAX,
        data.len() <= usize::MAX,
    ensures
        spec_read_meshes(data, pos, n) matches Ok((s, end)) ==> pos <= end <= usize::MAX,
    decreases n,
{
    if n > 0 {
        match spec_read_u32(data, pos) {
            Ok((ic, p1)) => match spec_read_u32(data, p1) {
                Ok((mi, p2)) => {
                    lemma_u32s_advance(data, p2, ic as nat);
                    match spec_read_u32s(data, p2, ic as nat) {
                        Ok((s, p3)) => {
                            lemma_meshes_advance(data, p3, (n - 1) as nat);
                        },
                        Err(_) => {},
                    }
                },
                Err(_) => {},
            },
            Err(_) => {},
        }
    }
}

/// Bounds every cursor position a successful bin-mesh read yields.
proof fn lemma_bin_mesh_advance(data: Seq<u8>, pos: int)
    requires
        0 <= pos <= usize::MAX,
        data.len() <= usize::MAX,
    ensures
        spec_read_bin_mesh(data, pos) matches Ok((bm, end)) ==> pos <= end <= usize::MAX,
{
    reveal(spec_read_bin_mesh);
    match spec_read_header(data, pos) {
        Ok((h, p1)) => match spec_read_u32(data, sat_add(p1, 4)) {
            Ok((c, p2)) => {
                lemma_meshes_advance(data, sat_add(p2, 4), c as nat);
            },
            Err(_) => {},
        },
        Err(_) => {},
    }
}

/// Bounds every cursor position a successful influence-row read yields.
proof fn lemma_index_rows_advance(data: Seq<u8>, pos: int, n: nat)
    requires
        0 <= pos <= usize::MAX,
        data.len() <= usize::MAX,
    ensures
        spec_read_index_rows(data, pos, n) matches Ok((s, end)) ==> pos <= end <= usize::MAX,
    decreases n,
{
    if n > 0 {
        match spec_read_bytes(data, pos, 4) {
            Ok((row, p)) => {
                lemma_index_rows_advance(data, p, (n - 1) as nat);
            },
            Err(_) => {},
        }
    }
}

/// Bounds every cursor position a successful weight-row read yields.
proof fn lemma_weight_rows_advance(data: Seq<u8>, pos: int, n: nat)
    requires
        0 <= pos <= usize::MAX,
        data.len() <= usize::MAX,
    ensures
        spec_read_weight_rows(data, pos, n) matches Ok((s, end)) ==> pos <= end <= usize::MAX,
    decreases n,
{
    if n > 0 {
        match spec_read_u32s(data, pos, 4) {
            Ok((row, p)) => {
                lemma_u32s_advance(data, pos, 4);
                lemma_weight_rows_advance(data, p, (n - 1) as nat);
            },
            Err(_) => {},
        }
    }
}

/// Bounds every cursor position a successful matrix-sequence read yields.
proof fn lemma_matrices_advance(data: Seq<u8>, pos: int, n: nat)
    requires
        0 <= pos <= usize::MAX,
        data.len() <= usize::MAX,
    ensures
        spec_read_matrices(data, pos, n) matches Ok((s, end)) ==> pos <= end <= usize::MAX,
    decreases n,
{
    if n > 0 {
        match spec_read_matrix4(data, pos) {
            Ok((m, p)) => {
                lemma_matrices_advance(data, p, (n - 1) as nat);
            },
            Err(_) => {},
        }
    }
}

/// Bounds every cursor position a successful skin read yields.
proof fn lemma_skin_advance(data: Seq<u8>, pos: int, vertex_count: u32)
    requires
        0 <= pos <= usize::MAX,
        data.len() <= usize::MAX,
    ensures
        spec_read_skin(data, pos, vertex_count) matches Ok((s, end)) ==> pos <= end <= usize::MAX,
{
    reveal(spec_read_skin);
    match spec_read_u8(data, pos) {
        Ok((bc, p1)) => match spec_read_u8(data, p1) {
            Ok((ub, p2)) => match spec_read_u8(data, p2) {
                Ok((mw, p3)) => {
                    let p4 = sat_add(sat_add(p3, 1), ub as int);
                    lemma_index_rows_advance(data, p4, vertex_count as nat);
                    match spec_read_index_rows(data, p4, vertex_count as nat) {
                        Ok((r1, p5)) => {
                            lemma_weight_rows_advance(data, p5, vertex_count as nat);
                            match spec_read_weight_rows(data, p5, vertex_count as nat) {
                                Ok((r2, p6)) => {
                                    lemma_matrices_advance(data, p6, bc as nat);
                                },
                                Err(_) => {},
                            }
                        },
                        Err(_) => {},
                    }
                },
                Err(_) => {},
            },
            Err(_) => {},
        },
        Err(_) => {},
    }
}

/// Bounds every cursor position a successful color-run read yields.
proof fn lemma_colors_advance(data: Seq<u8>, pos: int, n: nat)
    requires
        0 <= pos <= usize::MAX,
        data.len() <= usize::MAX,
    ensures
        spec_read_colors(data, pos, n) matches Ok((s, end)) ==> pos <= end <= usize::MAX,
    decreases n,
{
    if n > 0 {
        match spec_read_color(data, pos) {
            Ok((c, p)) => {
                lemma_colors_advance(data, p, (n - 1) as nat);
            },
            Err(_) => {},
        }
    }
}

/// Bounds every cursor position a successful coordinate-run read yields.
proof fn lemma_texcoords_advance(data: Seq<u8>, pos: int, n: nat)
    requires
        0 <= pos <= usize::MAX,
        data.len() <= usize::MAX,
    ensures
        spec_read_texcoords(data, pos, n) matches Ok((s, end)) ==> pos <= end <= usize::MAX,
    decreases n,
{
    if n > 0 {
        match spec_read_texcoord(data, pos) {
            Ok((c, p)) => {
                lemma_texcoords_advance(data, p, (n - 1) as nat);
            },
            Err(_) => {},
        }
    }
}

/// Bounds every cursor position a successful channel-run read yields.
proof fn lemma_uv_channels_advance(data: Seq<u8>, pos: int, channels: nat, verts: u32)
    requires
        0 <= pos <= usize::MAX,
        data.len() <= usize::MAX,
    ensures
        spec_read_uv_channels(data, pos, channels, verts) matches Ok((s, end)) ==> pos <= end
            <= usize::MAX,
    decreases channels,
{
    if channels > 0 {
        lemma_texcoords_advance(data, pos, verts as nat);
        match spec_read_texcoords(data, pos, verts as nat) {
            Ok((c, p)) => {
                lemma_uv_channels_advance(data, p, (channels - 1) as nat, verts);
            },
            Err(_) => {},
        }
    }
}

/// Bounds every cursor position a successful triangle-run read yields.
proof fn lemma_triangles_advance(data: Seq<u8>, pos: int, n: nat)
    requires
        0 <= pos <= usize::MAX,
        data.len() <= usize::MAX,
    ensures
        spec_read_triangles(data, pos, n) matches Ok((s, end)) ==> pos <= end <= usize::MAX,
    decreases n,
{
    if n > 0 {
        match spec_read_triangle(data, pos) {
            Ok((t, p)) => {
                lemma_triangles_advance(data, p, (n - 1) as nat);
            },
            Err(_) => {},
        }
    }
}

/// Bounds every cursor position a successful vector-run read yields.
proof fn lemma_vec3s_advance(data: Seq<u8>, pos: int, n: nat)
    requires
        0 <= pos <= usize::MAX,
        data.len() <= usize::MAX,
    ensures
        spec_read_vec3s(data, pos, n) matches Ok((s, end)) ==> pos <= end <= usize::MAX,
    decreases n,
{
    if n > 0 {
        match spec_read_vec3(data, pos) {
            Ok((v, p)) => {
                lemma_vec3s_advance(data, p, (n - 1) as nat);
            },
            Err(_) => {},
        }
    }
}

/// Bounds every cursor position a successful geometry read yields.
#[verifier::rlimit(100)]
proof fn lemma_geometry_advance(data: Seq<u8>, pos: int, version: u32)
    requires
        0 <= pos <= usize::MAX,
        data.len() <= usize::MAX,
    ensures
        spec_read_geometry(data, pos, version) matches Ok((g, end)) ==> pos <= end <= usize::MAX,
{
    reveal(spec_read_geometry);
    reveal(spec_read_geometry_tail);
    match spec_read_u16(data, pos) {
        Err(_) => {},
        Ok((flags, p1)) => match spec_read_u8(data, p1) {
            Err(_) => {},
            Ok((tcc, p2)) => match spec_read_u8(data, p2) {
                Err(_) => {},
                Ok((native, p3)) => match spec_read_u32(data, p3) {
                    Err(_) => {},
                    Ok((tric, p4)) => match spec_read_u32(data, p4) {
                        Err(_) => {},
                        Ok((vc, p5)) => match spec_read_u32(data, p5) {
                            Err(_) => {},
                            Ok((morph, p6)) => {
                                let p7 = if version < 0x34000 {
                                    sat_add(p6, 12)
                                } else {
                                    p6
                                };
                                let prelit = flags & 8 != 0;
                                let textured = (flags & 4 != 0) || (flags & 128 != 0);
                                if prelit {
                                    lemma_colors_advance(data, p7, vc as nat);
                                }
                                match (if prelit {
                                    spec_read_colors(data, p7, vc as nat)
                                } else {
                                    Ok((Seq::empty(), p7))
                                }) {
                                    Err(_) => {},
                                    Ok((colors, p8)) => {
                                        if textured {
                                            lemma_uv_channels_advance(data, p8, tcc as nat, vc);
                                        }
                                        match (if textured {
                                            spec_read_uv_channels(data, p8, tcc as nat, vc)
                                        } else {
                                            Ok((Seq::empty(), p8))
                                        }) {
                                            Err(_) => {},
                                            Ok((uv, p9)) => {
                                                lemma_triangles_advance(data, p9, tric as nat);
                                                match spec_read_triangles(data, p9, tric as nat) {
                                                    Err(_) => {},
                                                    Ok((tris, p10)) => match spec_read_sphere(
                                                        data,
                                                        p10,
                                                    ) {
                                                        Err(_) => {},
                                                        Ok((sph, p11)) => match spec_read_u32(
                                                            data,
                                                            p11,
                                                        ) {
                                                            Err(_) => {},
                                                            Ok((hv, p12)) => match spec_read_u32(
                                                                data,
                                                                p12,
                                                            ) {
                                                                Err(_) => {},
                                                                Ok((hn, p13)) => {
                                                                    lemma_geometry_tail_advance(
                                                                        data,
                                                                        p13,
                                                                        hv != 0,
                                                                        hn != 0,
                                                                        vc,
                                                                    );
                                                                },
                                                            },
                                                        },
                                                    },
                                                }
                                            },
                                        }
                                    },
                                }
                            },
                        },
                    },
                },
            },
        },
    }
}

/// Bounds every cursor position a successful geometry-tail read yields,
/// whatever head fields it is given.
proof fn lemma_geometry_tail_advance(data: Seq<u8>, pos: int, hv: bool, hn: bool, vc: u32)
    requires
        0 <= pos <= usize::MAX,
        data.len() <= usize::MAX,
    ensures
        forall|head: RwGeometryHead|
            (head.has_vertices == hv && head.has_normals == hn && head.vertex_count == vc)
                ==> (#[trigger] spec_read_geometry_tail(data, pos, head) matches Ok((g, end))
                ==> pos <= end <= usize::MAX),
{
    reveal(spec_read_geometry_tail);
    if hv {
        lemma_vec3s_advance(data, pos, vc as nat);
    }
    match (if hv {
        spec_read_vec3s(data, pos, vc as nat)
    } else {
        Ok((Seq::empty(), pos))
    }) {
        Err(_) => {},
        Ok((vs, p1)) => {
            if hn {
                lemma_vec3s_advance(data, p1, vc as nat);
            }
            match (if hn {
                spec_read_vec3s(data, p1, vc as nat)
            } else {
                Ok((Seq::empty(), p1))
            }) {
                Err(_) => {},
                Ok((ns, p2)) => {
                    lemma_material_list_advance(data, p2);
                },
            }
        },
    }
}

/// Bounds every cursor position a successful geometry-sequence read yields.
proof fn lemma_geometries_advance(data: Seq<u8>, pos: int, n: nat, version: u32)
    requires
        0 <= pos <= usize::MAX,
        data.len() <= usize::MAX,
    ensures
        spec_read_geometries(data, pos, n, version) matches Ok((s, end)) ==> pos <= end
            <= usize::MAX,
    decreases n,
{
    if n > 0 {
        match spec_read_header(data, pos) {
            Err(_) => {},
            Ok((h1, p1)) => match spec_read_header(data, p1) {
                Err(_) => {},
                Ok((h2, p2)) => {
                    lemma_geometry_advance(data, p2, version);
                    match spec_read_geometry(data, p2, version) {
                        Err(_) => {},
                        Ok((g, p3)) => {
                            lemma_geometries_advance(data, p3, (n - 1) as nat, version);
                        },
                    }
                },
            },
        }
    }
}

/// Bounds every cursor position a successful geometry-list read yields.
proof fn lemma_geometry_list_advance(data: Seq<u8>, pos: int)
    requires
        0 <= pos <= usize::MAX,
        data.len() <= usize::MAX,
    ensures
        spec_read_geometry_list(data, pos) matches Ok((gl, end)) ==> pos <= end <= usize::MAX,
{
    reveal(spec_read_geometry_list);
    match spec_read_header(data, pos) {
        Err(_) => {},
        Ok((h, p1)) => match spec_read_u32(data, p1) {
            Err(_) => {},
            Ok((c, p2)) => {
                lemma_geometries_advance(data, p2, c as nat, spec_unpack_version(h.version_number));
            },
        },
    }
}

/// The scan's fuel only bounds its recursion depth: every processed
/// section consumes at least its 12-byte header, so any two fuels that
/// cover the remaining bytes give the same result.
pub proof fn lemma_scan_fuel_irrelevant(data: Seq<u8>, pos: int, st: DffScanV, f1: nat, f2: nat)
    requires
        0 <= pos <= usize::MAX,
        data.len() <= usize::MAX,
        f1 >= data.len() - pos,
        f2 >= data.len() - pos,
    ensures
        spec_scan_sections(data, pos, st, f1) == spec_scan_sections(data, pos, st, f2),
    decreases f1 + f2,
{
    if pos >= data.len() {
    } else {
        assert(f1 > 0 && f2 > 0);
        match spec_read_header(data, pos) {
            Err(_) => {},
            Ok((h, p1)) => {
                assert(p1 == pos + 12);
                if h.section_type == 0 {
                } else if h.section_size == 0 {
                    lemma_scan_fuel_irrelevant(data, p1, st, (f1 - 1) as nat, (f2 - 1) as nat);
                } else if h.section_type == 0x0010 {
                    let st2 = if st.version_number is None {
                        DffScanV {
                            version_number: Some(spec_unpack_version(h.version_number)),
                            ..st
                        }
                    } else {
                        st
                    };
                    lemma_scan_fuel_irrelevant(data, p1, st2, (f1 - 1) as nat, (f2 - 1) as nat);
                } else if h.section_type == 0x000E {
                    lemma_frame_list_advance(data, p1);
                    match spec_read_frame_list(data, p1) {
                        Err(_) => {},
                        Ok((fl, p2)) => {
                            lemma_scan_fuel_irrelevant(
                                data,
                                p2,
                                DffScanV { frame_list: Some(fl), ..st },
                                (f1 - 1) as nat,
                                (f2 - 1) as nat,
                            );
                        },
                    }
                } else if h.section_type == 0x0003 {
                    match spec_read_header(data, p1) {
                        Err(_) => {},
                        Ok((h2, p2)) => {
                            if h2.section_type == 0x0253F2FE {
                                match spec_read_string(data, p2, h2.section_size as int) {
                                    Err(_) => {},
                                    Ok((name, p3)) => {
                                        lemma_scan_fuel_irrelevant(
                                            data,
                                            p3,
                                            DffScanV { dummies: st.dummies.push(name), ..st },
                                            (f1 - 1) as nat,
                                            (f2 - 1) as nat,
                                        );
                                    },
                                }
                            } else if h2.section_type == 0x011E {
                                lemma_anim_node_advance(data, p2);
                                match spec_read_anim_node(data, p2) {
                                    Err(_) => {},
                                    Ok((an, p3)) => {
                                        lemma_scan_fuel_irrelevant(
                                            data,
                                            p3,
                                            DffScanV {
                                                anim_nodes: st.anim_nodes.push(an),
                                                ..st
                                            },
                                            (f1 - 1) as nat,
                                            (f2 - 1) as nat,
                                        );
                                    },
                                }
                            } else {
                                lemma_scan_fuel_irrelevant(
                                    data,
                                    sat_add(p2, h2.section_size as int),
                                    st,
                                    (f1 - 1) as nat,
                                    (f2 - 1) as nat,
                                );
                            }
                        },
                    }
                } else if h.section_type == 0x001A {
                    lemma_geometry_list_advance(data, p1);
                    match spec_read_geometry_list(data, p1) {
                        Err(_) => {},
                        Ok((gl, p2)) => {
                            lemma_scan_fuel_irrelevant(
                                data,
                                p2,
                                DffScanV { geometry_list: Some(gl), ..st },
                                (f1 - 1) as nat,
                                (f2 - 1) as nat,
                            );
                        },
                    }
                } else if h.section_type == 0x0014 {
                    match spec_read_atomic(data, p1) {
                        Err(_) => {},
                        Ok((a, p2)) => {
                            assert(pos + 12 <= p2 <= usize::MAX) by {
                                reveal(spec_read_atomic);
                            }
                            lemma_scan_fuel_irrelevant(
                                data,
                                p2,
                                DffScanV { atomics: spec_record_atomic(st.atomics, a), ..st },
                                (f1 - 1) as nat,
                                (f2 - 1) as nat,
                            );
                        },
                    }
                } else if h.section_type == 0x0253F2FE {
                    match spec_read_string(data, p1, h.section_size as int) {
                        Err(_) => {},
                        Ok((name, p2)) => {
                            lemma_scan_fuel_irrelevant(
                                data,
                                p2,
                                DffScanV { dummies: st.dummies.push(name), ..st },
                                (f1 - 1) as nat,
                                (f2 - 1) as nat,
                            );
                        },
                    }
                } else if h.section_type == 0x011E {
                    lemma_anim_node_advance(data, p1);
                    match spec_read_anim_node(data, p1) {
                        Err(_) => {},
                        Ok((an, p2)) => {
                            lemma_scan_fuel_irrelevant(
                                data,
                                p2,
                                DffScanV { anim_nodes: st.anim_nodes.push(an), ..st },
                                (f1 - 1) as nat,
                                (f2 - 1) as nat,
                            );
                        },
                    }
                } else {
                    lemma_scan_fuel_irrelevant(
                        data,
                        sat_add(p1, h.section_size as int),
                        st,
                        (f1 - 1) as nat,
                        (f2 - 1) as nat,
                    );
                }
            },
        }
    }
}


/// The whole-buffer scan does not depend on the particular fuel: any bound
/// of at least the buffer length yields the same final state, so the fuel
/// in `spec_parse_dff` is a recursion bound and nothing more.
pub proof fn lemma_parse_fuel_independent(data: Seq<u8>, fuel: nat)
    requires
        data.len() <= usize::MAX,
        fuel >= data.len(),
    ensures
        spec_scan_sections(data, 0, spec_initial_scan(), fuel) == spec_scan_sections(
            data,
            0,
            spec_initial_scan(),
            data.len(),
        ),
{
    lemma_scan_fuel_irrelevant(data, 0, spec_initial_scan(), fuel, data.len());
}

} // verus!
