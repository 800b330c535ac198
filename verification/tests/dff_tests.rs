use rw_parser::{DecodeError, DffModelType, DffParser};

fn push_u16(buf: &mut Vec<u8>, v: u16) {
    buf.extend_from_slice(&v.to_le_bytes());
}

fn push_u32(buf: &mut Vec<u8>, v: u32) {
    buf.extend_from_slice(&v.to_le_bytes());
}

fn push_i32(buf: &mut Vec<u8>, v: i32) {
    buf.extend_from_slice(&v.to_le_bytes());
}

fn push_header(buf: &mut Vec<u8>, section_type: u32, section_size: u32, version: u32) {
    push_u32(buf, section_type);
    push_u32(buf, section_size);
    push_u32(buf, version);
}

#[test]
fn root_marker_only_decodes_to_an_empty_generic_model() {
    let mut buf = Vec::new();
    // A clump marker whose declared payload size is 0, then a terminal header.
    push_header(&mut buf, 0x0010, 0, 0x1803FFFF);
    push_header(&mut buf, 0, 0, 0);
    let mut parser = DffParser::new(&buf);
    let dff = parser.parse().unwrap();
    assert_eq!(dff.model_type, DffModelType::Generic);
    assert!(dff.frame_list.is_none());
    assert!(dff.geometry_list.is_none());
    assert!(dff.dummies.is_empty());
    assert!(dff.atomics.is_empty());
    assert!(dff.anim_nodes.is_empty());
}

#[test]
fn clump_marker_with_payload_captures_the_version() {
    let mut buf = Vec::new();
    push_header(&mut buf, 0x0010, 4, 0x1803FFFF);
    push_header(&mut buf, 0, 0, 0);
    let mut parser = DffParser::new(&buf);
    let dff = parser.parse().unwrap();
    assert_eq!(dff.version_number, 0x36003);
    assert_eq!(dff.version, "RenderWare 3.6.0.3 (SA)");
}

#[test]
fn decoding_the_same_bytes_twice_gives_identical_results() {
    let mut buf = Vec::new();
    push_header(&mut buf, 0x0010, 4, 0x1803FFFF);
    push_header(&mut buf, 0x0253F2FE, 5, 0); // node name
    buf.extend_from_slice(b"dummy");
    push_header(&mut buf, 0, 0, 0);
    let first = DffParser::new(&buf).parse().unwrap();
    let second = DffParser::new(&buf).parse().unwrap();
    assert_eq!(first, second);
}

#[test]
fn empty_frame_list_consumes_only_the_count_field() {
    let mut buf = Vec::new();
    push_header(&mut buf, 0x000E, 16, 0); // frame list
    push_header(&mut buf, 0x0001, 4, 0); // struct
    push_u32(&mut buf, 0); // frame count
    // The cursor must sit exactly here: a terminal header right after the
    // count is found and honored.
    push_header(&mut buf, 0, 0, 0);
    let mut parser = DffParser::new(&buf);
    let dff = parser.parse().unwrap();
    let fl = dff.frame_list.expect("frame list decoded");
    assert_eq!(fl.frame_count, 0);
    assert!(fl.frames.is_empty());
}

#[test]
fn frame_list_decodes_matrix_offset_and_parent() {
    let mut buf = Vec::new();
    push_header(&mut buf, 0x000E, 60, 0);
    push_header(&mut buf, 0x0001, 4, 0);
    push_u32(&mut buf, 1); // one frame
    for v in [1.0f32, 0.0, 0.0, 0.0, 1.0, 0.0, 0.0, 0.0, 1.0] {
        push_u32(&mut buf, v.to_bits()); // rotation rows
    }
    for v in [2.5f32, -1.0, 0.25] {
        push_u32(&mut buf, v.to_bits()); // offset
    }
    push_i32(&mut buf, -1); // parent
    push_u32(&mut buf, 0); // internal flags, ignored
    push_header(&mut buf, 0, 0, 0);
    let dff = DffParser::new(&buf).parse().unwrap();
    let fl = dff.frame_list.unwrap();
    assert_eq!(fl.frames.len(), 1);
    let f = &fl.frames[0];
    assert_eq!(f.parent_frame, -1);
    assert_eq!(f32::from_bits(f.rotation_matrix.right.x), 1.0);
    assert_eq!(f32::from_bits(f.rotation_matrix.up.y), 1.0);
    assert_eq!(f32::from_bits(f.coordinates_offset.x), 2.5);
    assert_eq!(f32::from_bits(f.coordinates_offset.y), -1.0);
}

#[test]
fn atomics_bind_geometry_indices_to_frames_with_zero_backfill() {
    let mut buf = Vec::new();
    push_header(&mut buf, 0x0014, 16, 0); // atomic
    push_header(&mut buf, 0x0001, 16, 0); // struct
    push_u32(&mut buf, 7); // frame index
    push_u32(&mut buf, 2); // geometry index
    push_u32(&mut buf, 0); // flags
    push_u32(&mut buf, 0); // reserved
    push_header(&mut buf, 0, 0, 0);
    let dff = DffParser::new(&buf).parse().unwrap();
    assert_eq!(dff.atomics, vec![0, 0, 7]);
}

#[test]
fn node_names_drive_the_vehicle_classification() {
    let mut buf = Vec::new();
    push_header(&mut buf, 0x0253F2FE, 8, 0);
    buf.extend_from_slice(b"WHEEL_LF");
    push_header(&mut buf, 0, 0, 0);
    let dff = DffParser::new(&buf).parse().unwrap();
    assert_eq!(dff.dummies, vec!["WHEEL_LF".to_string()]);
    assert_eq!(dff.model_type, DffModelType::Vehicle);
}

#[test]
fn unknown_sections_are_skipped_by_declared_size() {
    let mut buf = Vec::new();
    push_header(&mut buf, 0x0BAD, 6, 0); // unknown type with 6-byte payload
    buf.extend_from_slice(&[1, 2, 3, 4, 5, 6]);
    push_header(&mut buf, 0x0253F2FE, 4, 0);
    buf.extend_from_slice(b"part");
    push_header(&mut buf, 0, 0, 0);
    let dff = DffParser::new(&buf).parse().unwrap();
    assert_eq!(dff.dummies, vec!["part".to_string()]);
    assert_eq!(dff.model_type, DffModelType::Generic);
}

#[test]
fn truncated_section_header_fails_the_decode() {
    let buf = [0x10u8, 0, 0]; // three bytes: not even a full type field
    let mut parser = DffParser::new(&buf);
    assert_eq!(parser.parse().unwrap_err(), DecodeError::Truncated);
}

#[test]
fn anim_node_reads_its_bone_table() {
    let mut buf = Vec::new();
    // Extension wrapping an anim node: two bones, per-bone node (id != 0).
    let anim_payload = 4 + 4 + 4 + 2 * 12;
    push_header(&mut buf, 0x0003, anim_payload + 12, 0);
    push_header(&mut buf, 0x011E, anim_payload, 0);
    push_u32(&mut buf, 0x100); // version tag, skipped
    push_i32(&mut buf, 5); // bone id (nonzero: no extra skip)
    push_i32(&mut buf, 2); // bone count
    push_i32(&mut buf, 10);
    push_i32(&mut buf, 0);
    push_i32(&mut buf, 3);
    push_i32(&mut buf, 11);
    push_i32(&mut buf, 1);
    push_i32(&mut buf, 0);
    push_header(&mut buf, 0, 0, 0);
    let dff = DffParser::new(&buf).parse().unwrap();
    assert_eq!(dff.anim_nodes.len(), 1);
    let node = &dff.anim_nodes[0];
    assert_eq!(node.bone_id, 5);
    assert_eq!(node.bones_count, 2);
    assert_eq!(node.bones.len(), 2);
    assert_eq!(node.bones[0].bone_id, 10);
    assert_eq!(node.bones[0].flags, 3);
    assert_eq!(node.bones[1].bone_index, 1);
}

fn minimal_geometry_dff(material_indices: &[i32]) -> Vec<u8> {
    let mut buf = Vec::new();
    push_header(&mut buf, 0x001A, 1, 0); // geometry list (size only gates skipping)
    push_header(&mut buf, 0x0001, 4, 0); // struct carrying the list version
    push_u32(&mut buf, 1); // one geometry
    push_header(&mut buf, 0x000F, 1, 0); // geometry wrapper
    push_header(&mut buf, 0x0001, 1, 0); // struct wrapper
    push_u16(&mut buf, 0); // flags: no prelit, no uv
    buf.push(2); // texture coordinate channel count (unused: uv bits clear)
    buf.push(0); // native flags
    push_u32(&mut buf, 0); // triangle count
    push_u32(&mut buf, 3); // vertex count (unused: no per-vertex data present)
    push_u32(&mut buf, 0); // morph target count
    buf.extend_from_slice(&[0u8; 12]); // legacy lighting block (version < 0x34000)
    buf.extend_from_slice(&[0u8; 16]); // bounding sphere
    push_u32(&mut buf, 0); // has vertices
    push_u32(&mut buf, 0); // has normals
    // material list
    push_header(&mut buf, 0x0001, 0, 0);
    push_header(&mut buf, 0x0008, 0, 0);
    push_u32(&mut buf, material_indices.len() as u32);
    for &ix in material_indices {
        push_i32(&mut buf, ix);
    }
    for &ix in material_indices {
        if ix == -1 {
            push_header(&mut buf, 0x0001, 0, 0);
            push_header(&mut buf, 0x0007, 0, 0); // version 0: no coefficients
            push_u32(&mut buf, 0); // flags, skipped
            buf.extend_from_slice(&[10, 20, 30, 40]); // color
            push_u32(&mut buf, 0); // unknown, skipped
            push_u32(&mut buf, 0); // not textured
            push_header(&mut buf, 0x0003, 0, 0); // trailing extension, size 0
        }
    }
    // wrapper header whose size re-synchronizes after the bin mesh
    push_header(&mut buf, 0x0003, 24, 0);
    push_header(&mut buf, 0x0001, 12, 0); // bin mesh struct
    push_u32(&mut buf, 0); // flags
    push_u32(&mut buf, 0); // mesh count
    push_u32(&mut buf, 0); // total indices
    push_header(&mut buf, 0, 0, 0); // speculative skin probe lands here
    buf
}

#[test]
fn material_list_with_only_sentinels_decodes_fresh_materials() {
    let buf = minimal_geometry_dff(&[-1, -1]);
    let dff = DffParser::new(&buf).parse().unwrap();
    let gl = dff.geometry_list.unwrap();
    assert_eq!(gl.geometries.len(), 1);
    let ml = &gl.geometries[0].material_list;
    assert_eq!(ml.material_instance_count, 2);
    assert_eq!(ml.material_data.len(), 2);
    for m in &ml.material_data {
        assert_eq!((m.color.r, m.color.g, m.color.b, m.color.a), (10, 20, 30, 40));
        assert!(!m.is_textured);
        assert!(m.ambient.is_none());
        assert!(m.texture.is_none());
    }
}

#[test]
fn material_alias_produces_an_independent_equal_copy() {
    let buf = minimal_geometry_dff(&[-1, 0]);
    let dff = DffParser::new(&buf).parse().unwrap();
    let gl = dff.geometry_list.unwrap();
    let mut ml = gl.geometries[0].material_list.clone();
    assert_eq!(ml.material_data.len(), 2);
    assert_eq!(ml.material_data[0], ml.material_data[1]);
    // The copy is independent: changing one entry leaves the other alone.
    ml.material_data[0].color.r = 99;
    assert_eq!(ml.material_data[1].color.r, 10);
}

#[test]
fn material_alias_pointing_forward_is_an_invalid_index() {
    let buf = minimal_geometry_dff(&[1, -1]);
    let mut parser = DffParser::new(&buf);
    assert_eq!(parser.parse().unwrap_err(), DecodeError::InvalidIndex);
}

#[test]
fn geometry_without_prelit_or_uv_bits_has_no_colors_or_channels() {
    let buf = minimal_geometry_dff(&[-1]);
    let dff = DffParser::new(&buf).parse().unwrap();
    let gl = dff.geometry_list.unwrap();
    let g = &gl.geometries[0];
    assert_eq!(g.texture_coordinates_count, 2);
    assert!(g.vertex_color_information.is_empty());
    assert!(g.texture_mapping_information.is_empty());
    assert!(g.skin.is_none());
    assert_eq!(g.bin_mesh.mesh_count, 0);
}

fn skinned_geometry_dff() -> Vec<u8> {
    let mut buf = Vec::new();
    push_header(&mut buf, 0x001A, 1, 0);
    push_header(&mut buf, 0x0001, 4, 0);
    push_u32(&mut buf, 1);
    push_header(&mut buf, 0x000F, 1, 0);
    push_header(&mut buf, 0x0001, 1, 0);
    push_u16(&mut buf, 0); // flags
    buf.push(0); // uv channel count
    buf.push(0); // native flags
    push_u32(&mut buf, 0); // triangles
    push_u32(&mut buf, 3); // vertices
    push_u32(&mut buf, 0); // morph targets
    buf.extend_from_slice(&[0u8; 12]); // legacy lighting block
    buf.extend_from_slice(&[0u8; 16]); // bounding sphere
    push_u32(&mut buf, 0); // has vertices
    push_u32(&mut buf, 0); // has normals
    // material list with a single inline material
    push_header(&mut buf, 0x0001, 0, 0);
    push_header(&mut buf, 0x0008, 0, 0);
    push_u32(&mut buf, 1);
    push_i32(&mut buf, -1);
    push_header(&mut buf, 0x0001, 0, 0);
    push_header(&mut buf, 0x0007, 0, 0);
    push_u32(&mut buf, 0);
    buf.extend_from_slice(&[1, 2, 3, 4]);
    push_u32(&mut buf, 0);
    push_u32(&mut buf, 0);
    push_header(&mut buf, 0x0003, 0, 0);
    // The wrapper spans the bin mesh block, the skin header and its data.
    let skin_payload = 3 + 1 + 1 + 3 * 4 + 3 * 16 + 2 * 64;
    push_header(&mut buf, 0x0003, 24 + 12 + skin_payload, 0);
    push_header(&mut buf, 0x0001, 12, 0);
    push_u32(&mut buf, 0);
    push_u32(&mut buf, 0); // no mesh batches
    push_u32(&mut buf, 0);
    push_header(&mut buf, 0x0116, skin_payload, 0); // skin follows
    buf.push(2); // bone count
    buf.push(1); // used bone count
    buf.push(1); // max weights per vertex
    buf.push(0); // padding
    buf.push(0); // special bone index table (1 entry)
    for v in 0..3u8 {
        buf.extend_from_slice(&[v, 0, 0, 0]); // bone indices per vertex
    }
    for _ in 0..3 {
        for w in [1.0f32, 0.0, 0.0, 0.0] {
            push_u32(&mut buf, w.to_bits()); // weights per vertex
        }
    }
    for _ in 0..2 {
        for v in [
            1.0f32, 0.0, 0.0, 0.0, 0.0, 1.0, 0.0, 0.0, 0.0, 0.0, 1.0, 0.0, 0.0, 0.0, 0.0, 1.0,
        ] {
            push_u32(&mut buf, v.to_bits()); // inverse bind matrix rows
        }
    }
    push_header(&mut buf, 0, 0, 0);
    buf
}

#[test]
fn skinned_geometry_decodes_and_classifies_as_skin() {
    let buf = skinned_geometry_dff();
    let dff = DffParser::new(&buf).parse().unwrap();
    assert_eq!(dff.model_type, DffModelType::Skin);
    let gl = dff.geometry_list.unwrap();
    let skin = gl.geometries[0].skin.as_ref().expect("skin decoded");
    assert_eq!(skin.bone_count, 2);
    assert_eq!(skin.used_bone_count, 1);
    assert_eq!(skin.max_weights_per_vertex, 1);
    assert_eq!(skin.bone_vertex_indices.len(), 3);
    assert_eq!(skin.bone_vertex_indices[2], vec![2, 0, 0, 0]);
    assert_eq!(skin.vertex_weights.len(), 3);
    assert_eq!(f32::from_bits(skin.vertex_weights[0][0]), 1.0);
    assert_eq!(skin.inverse_bone_matrices.len(), 2);
    assert_eq!(f32::from_bits(skin.inverse_bone_matrices[1].transform.t), 1.0);
}

fn textured_geometry_dff() -> Vec<u8> {
    let mut buf = Vec::new();
    push_header(&mut buf, 0x001A, 1, 0x1003FFFF); // list version unpacks to 0x34003
    push_header(&mut buf, 0x0001, 4, 0x1003FFFF);
    push_u32(&mut buf, 1);
    push_header(&mut buf, 0x000F, 1, 0);
    push_header(&mut buf, 0x0001, 1, 0);
    push_u16(&mut buf, 0x0C); // prelit (bit 3) and one-channel uv (bit 2)
    buf.push(1); // one uv channel
    buf.push(0);
    push_u32(&mut buf, 1); // one triangle
    push_u32(&mut buf, 2); // two vertices
    push_u32(&mut buf, 0);
    // no legacy lighting block: the list version is at least 0x34000
    buf.extend_from_slice(&[255, 0, 0, 255]); // vertex colors
    buf.extend_from_slice(&[0, 255, 0, 128]);
    for v in [0.25f32, 0.5, 0.75, 1.0] {
        push_u32(&mut buf, v.to_bits()); // uv channel: two coordinates
    }
    // triangle on the wire: vertex2, vertex1, material id, vertex3
    push_u16(&mut buf, 1);
    push_u16(&mut buf, 0);
    push_u16(&mut buf, 5);
    push_u16(&mut buf, 1);
    for v in [1.0f32, 2.0, 3.0, 4.0] {
        push_u32(&mut buf, v.to_bits()); // bounding sphere
    }
    push_u32(&mut buf, 1); // has vertices
    push_u32(&mut buf, 1); // has normals
    for v in [0.0f32, 0.0, 0.0, 1.0, 1.0, 1.0] {
        push_u32(&mut buf, v.to_bits()); // two positions
    }
    for v in [0.0f32, 0.0, 1.0, 0.0, 1.0, 0.0] {
        push_u32(&mut buf, v.to_bits()); // two normals
    }
    // material list: one textured material on a new section version
    push_header(&mut buf, 0x0001, 0, 0);
    push_header(&mut buf, 0x0008, 0, 0);
    push_u32(&mut buf, 1);
    push_i32(&mut buf, -1);
    push_header(&mut buf, 0x0001, 0, 0);
    push_header(&mut buf, 0x0007, 0, 0x30401); // above 0x30400: coefficients present
    push_u32(&mut buf, 0);
    buf.extend_from_slice(&[9, 9, 9, 9]);
    push_u32(&mut buf, 0);
    push_u32(&mut buf, 1); // textured
    for v in [0.1f32, 0.2, 0.3] {
        push_u32(&mut buf, v.to_bits()); // ambient, specular, diffuse
    }
    // texture: packed word, name sized by its own header, two trailers
    push_header(&mut buf, 0x0001, 0, 0);
    push_header(&mut buf, 0x0006, 0, 0);
    push_u32(&mut buf, 0x2 | (1 << 8) | (3 << 12) | (1 << 16));
    push_header(&mut buf, 0x0002, 8, 0);
    buf.extend_from_slice(b"tex_name");
    push_header(&mut buf, 0x0002, 0, 0);
    push_header(&mut buf, 0x0003, 0, 0);
    push_header(&mut buf, 0x0003, 0, 0); // material trailer
    // bin mesh with one batch of three indices
    push_header(&mut buf, 0x0003, 44, 0);
    push_header(&mut buf, 0x0001, 32, 0);
    push_u32(&mut buf, 0);
    push_u32(&mut buf, 1); // one batch
    push_u32(&mut buf, 3);
    push_u32(&mut buf, 3); // index count
    push_u32(&mut buf, 0); // material index
    push_u32(&mut buf, 0);
    push_u32(&mut buf, 1);
    push_u32(&mut buf, 1);
    push_header(&mut buf, 0, 0, 0);
    buf
}

#[test]
fn textured_geometry_decodes_every_per_vertex_channel() {
    let buf = textured_geometry_dff();
    let dff = DffParser::new(&buf).parse().unwrap();
    let gl = dff.geometry_list.unwrap();
    let g = &gl.geometries[0];
    assert_eq!(g.vertex_color_information.len(), 2);
    assert_eq!(g.vertex_color_information[1].g, 255);
    assert_eq!(g.vertex_color_information[1].a, 128);
    assert_eq!(g.texture_mapping_information.len(), 1);
    let uv = &g.texture_mapping_information[0];
    assert_eq!(uv.len(), 2);
    assert_eq!(f32::from_bits(uv[0].u), 0.25);
    assert_eq!(f32::from_bits(uv[1].v), 1.0);
    assert_eq!(g.triangle_information.len(), 1);
    let t = &g.triangle_information[0];
    // The wire order vertex2, vertex1, material, vertex3 is restored to
    // vertex1, vertex2, vertex3.
    assert_eq!(f32::from_bits(t.vector.x), 0.0);
    assert_eq!(f32::from_bits(t.vector.y), 1.0);
    assert_eq!(f32::from_bits(t.vector.z), 1.0);
    assert_eq!(t.material_id, 5);
    let sphere = g.bounding_sphere.unwrap();
    assert_eq!(f32::from_bits(sphere.radius), 4.0);
    assert!(g.has_vertices && g.has_normals);
    assert_eq!(f32::from_bits(g.vertex_information[1].z), 1.0);
    assert_eq!(f32::from_bits(g.normal_information[1].y), 1.0);
    let m = &g.material_list.material_data[0];
    assert!(m.is_textured);
    assert_eq!(m.ambient.map(f32::from_bits), Some(0.1));
    assert_eq!(m.specular.map(f32::from_bits), Some(0.2));
    assert_eq!(m.diffuse.map(f32::from_bits), Some(0.3));
    let tex = m.texture.as_ref().unwrap();
    assert_eq!(tex.texture_name, "tex_name");
    assert_eq!(tex.texture_filtering, 2);
    assert_eq!(tex.u_addressing, 1);
    assert_eq!(tex.v_addressing, 3);
    assert!(tex.uses_mip_levels);
    assert_eq!(g.bin_mesh.mesh_count, 1);
    assert_eq!(g.bin_mesh.meshes[0].indices, vec![0, 1, 1]);
    assert_eq!(g.bin_mesh.meshes[0].material_index, 0);
}

fn push_frame(buf: &mut Vec<u8>, parent: i32) {
    for v in [1.0f32, 0.0, 0.0, 0.0, 1.0, 0.0, 0.0, 0.0, 1.0] {
        push_u32(buf, v.to_bits()); // rotation rows
    }
    for v in [0.0f32, 0.0, 0.0] {
        push_u32(buf, v.to_bits()); // offset
    }
    push_i32(buf, parent);
    push_u32(buf, 0); // internal flags, ignored
}

fn frame_list_dff(parents: &[i32]) -> Vec<u8> {
    let mut buf = Vec::new();
    push_header(&mut buf, 0x000E, 1, 0);
    push_header(&mut buf, 0x0001, 4, 0);
    push_u32(&mut buf, parents.len() as u32);
    for &p in parents {
        push_frame(&mut buf, p);
    }
    push_header(&mut buf, 0, 0, 0);
    buf
}

#[test]
fn frame_parents_may_reference_earlier_frames() {
    let buf = frame_list_dff(&[-1, 0, 1, 0]);
    let dff = DffParser::new(&buf).parse().unwrap();
    let fl = dff.frame_list.unwrap();
    assert_eq!(fl.frames.len(), 4);
    assert_eq!(fl.frames[0].parent_frame, -1);
    assert_eq!(fl.frames[2].parent_frame, 1);
}

#[test]
fn frame_parent_pointing_at_itself_is_an_invalid_index() {
    let buf = frame_list_dff(&[-1, 1]);
    let mut parser = DffParser::new(&buf);
    assert_eq!(parser.parse().unwrap_err(), DecodeError::InvalidIndex);
}

#[test]
fn frame_parent_pointing_forward_is_an_invalid_index() {
    let buf = frame_list_dff(&[2, -1, -1]);
    let mut parser = DffParser::new(&buf);
    assert_eq!(parser.parse().unwrap_err(), DecodeError::InvalidIndex);
}

#[test]
fn frame_parent_below_the_root_marker_is_an_invalid_index() {
    let buf = frame_list_dff(&[-2]);
    let mut parser = DffParser::new(&buf);
    assert_eq!(parser.parse().unwrap_err(), DecodeError::InvalidIndex);
}
