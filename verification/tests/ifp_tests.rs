use rw_parser::{DecodeError, IfpParser, IfpVersion};

fn push_u32(buf: &mut Vec<u8>, v: u32) {
    buf.extend_from_slice(&v.to_le_bytes());
}

fn push_i32(buf: &mut Vec<u8>, v: i32) {
    buf.extend_from_slice(&v.to_le_bytes());
}

fn push_i16(buf: &mut Vec<u8>, v: i16) {
    buf.extend_from_slice(&v.to_le_bytes());
}

fn push_f32(buf: &mut Vec<u8>, v: f32) {
    buf.extend_from_slice(&v.to_bits().to_le_bytes());
}

fn push_name(buf: &mut Vec<u8>, name: &str, width: usize) {
    let bytes = name.as_bytes();
    buf.extend_from_slice(bytes);
    for _ in bytes.len()..width {
        buf.push(0);
    }
}

#[test]
fn unknown_signature_is_unsupported() {
    let buf = b"XXXXmore bytes".to_vec();
    let mut parser = IfpParser::new(&buf);
    assert_eq!(parser.parse().unwrap_err(), DecodeError::UnsupportedFormat);
}

#[test]
fn short_buffer_is_truncated_input() {
    let buf = b"AN".to_vec();
    let mut parser = IfpParser::new(&buf);
    assert_eq!(parser.parse().unwrap_err(), DecodeError::Truncated);
}

#[test]
fn empty_legacy_package_decodes() {
    let mut buf = Vec::new();
    buf.extend_from_slice(b"ANP3");
    push_u32(&mut buf, 0); // total size, unused
    push_name(&mut buf, "walk_pack", 24);
    push_u32(&mut buf, 0); // animation count
    let ifp = IfpParser::new(&buf).parse().unwrap();
    assert_eq!(ifp.version, IfpVersion::ANP3);
    assert_eq!(ifp.name, "walk_pack");
    assert!(ifp.animations.is_empty());
}

#[test]
fn empty_modern_package_decodes() {
    let mut buf = Vec::new();
    buf.extend_from_slice(b"ANPK");
    push_u32(&mut buf, 0); // total size, unused
    buf.extend_from_slice(b"INFO");
    push_u32(&mut buf, 8); // info length: count field + 4 name bytes
    push_u32(&mut buf, 0); // animation count
    push_name(&mut buf, "pak", 4);
    let ifp = IfpParser::new(&buf).parse().unwrap();
    assert_eq!(ifp.version, IfpVersion::ANPK);
    assert_eq!(ifp.name, "pak");
    assert!(ifp.animations.is_empty());
}

fn legacy_package_one_bone(channel_kind: u32, keyframes: &[[i16; 5]], positions: &[[i16; 3]]) -> Vec<u8> {
    let mut buf = Vec::new();
    buf.extend_from_slice(b"ANP3");
    push_u32(&mut buf, 0);
    push_name(&mut buf, "pack", 24);
    push_u32(&mut buf, 1); // one animation
    push_name(&mut buf, "anim0", 24);
    push_u32(&mut buf, 1); // one bone
    push_u32(&mut buf, 0); // keyframe data size, skipped
    push_u32(&mut buf, 0); // reserved, skipped
    push_name(&mut buf, "Root", 24);
    push_u32(&mut buf, channel_kind);
    push_u32(&mut buf, keyframes.len() as u32);
    push_i32(&mut buf, 42); // bone id
    for (i, kf) in keyframes.iter().enumerate() {
        for &v in kf {
            push_i16(&mut buf, v);
        }
        if channel_kind == 4 {
            for &v in &positions[i] {
                push_i16(&mut buf, v);
            }
        }
    }
    buf
}

#[test]
fn legacy_rotation_track_decodes_fixed_point_quaternions() {
    // Channel tag "KR00": rotation and time only.
    let buf = legacy_package_one_bone(
        0,
        &[[4096, 0, 0, 4096, 0], [0, 4096, 0, 4096, 100]],
        &[],
    );
    let ifp = IfpParser::new(&buf).parse().unwrap();
    assert_eq!(ifp.animations.len(), 1);
    let bone = &ifp.animations[0].bones[0];
    assert_eq!(bone.name, "Root");
    assert_eq!(bone.keyframe_type, "KR00");
    assert!(bone.use_bone_id);
    assert_eq!(bone.bone_id, 42);
    assert_eq!(bone.keyframes.len(), 2);

    let k0 = &bone.keyframes[0];
    assert_eq!(f32::from_bits(k0.rotation.x), 1.0);
    assert_eq!(f32::from_bits(k0.rotation.y), 0.0);
    assert_eq!(f32::from_bits(k0.rotation.z), 0.0);
    assert_eq!(f32::from_bits(k0.rotation.w), 1.0);
    assert_eq!(f32::from_bits(k0.time), 0.0);
    for c in [k0.position.x, k0.position.y, k0.position.z] {
        assert_eq!(f32::from_bits(c), 0.0);
    }
    for c in [k0.scale.x, k0.scale.y, k0.scale.z] {
        assert_eq!(f32::from_bits(c), 1.0);
    }

    let k1 = &bone.keyframes[1];
    assert_eq!(f32::from_bits(k1.rotation.x), 0.0);
    assert_eq!(f32::from_bits(k1.rotation.y), 1.0);
    assert_eq!(f32::from_bits(k1.rotation.w), 1.0);
    assert_eq!(f32::from_bits(k1.time), 100.0);
}

#[test]
fn legacy_translation_track_scales_positions_by_1024() {
    // Channel selector 4 means the tag "KRT0": positions are present.
    let buf = legacy_package_one_bone(4, &[[0, 0, 0, 4096, 7]], &[[1024, 2048, -512]]);
    let ifp = IfpParser::new(&buf).parse().unwrap();
    let bone = &ifp.animations[0].bones[0];
    assert_eq!(bone.keyframe_type, "KRT0");
    let k = &bone.keyframes[0];
    assert_eq!(f32::from_bits(k.position.x), 1.0);
    assert_eq!(f32::from_bits(k.position.y), 2.0);
    assert_eq!(f32::from_bits(k.position.z), -0.5);
    assert_eq!(f32::from_bits(k.time), 7.0);
}

#[test]
fn modern_track_reads_floats_and_honors_channel_tag() {
    let mut buf = Vec::new();
    buf.extend_from_slice(b"ANPK");
    push_u32(&mut buf, 0);
    buf.extend_from_slice(b"INFO");
    push_u32(&mut buf, 8);
    push_u32(&mut buf, 1); // one animation
    push_name(&mut buf, "pak", 4);
    // animation
    buf.extend_from_slice(b"NAME");
    push_u32(&mut buf, 4);
    push_name(&mut buf, "runs", 4);
    buf.extend_from_slice(b"DGAN");
    push_u32(&mut buf, 0);
    buf.extend_from_slice(b"INFO");
    push_u32(&mut buf, 0);
    push_u32(&mut buf, 1); // bone count
    push_u32(&mut buf, 0); // reserved
    // bone
    buf.extend_from_slice(b"CPAN");
    push_u32(&mut buf, 0);
    buf.extend_from_slice(b"ANIM");
    push_u32(&mut buf, 44); // track length 44: a bone id is present
    push_name(&mut buf, "Pelvis", 28);
    push_u32(&mut buf, 1); // one keyframe
    push_u32(&mut buf, 0);
    push_u32(&mut buf, 0);
    push_i32(&mut buf, 3); // bone id
    buf.extend_from_slice(b"KRTS");
    push_u32(&mut buf, 0); // keyframe block length, skipped
    for v in [0.0f32, 0.0, 0.0, 1.0] {
        push_f32(&mut buf, v); // rotation
    }
    for v in [5.0f32, 6.0, 7.0] {
        push_f32(&mut buf, v); // position ('T' in the tag)
    }
    for v in [2.0f32, 2.0, 2.0] {
        push_f32(&mut buf, v); // scale ('S' in the tag)
    }
    push_f32(&mut buf, 0.25); // time
    let ifp = IfpParser::new(&buf).parse().unwrap();
    assert_eq!(ifp.version, IfpVersion::ANPK);
    assert_eq!(ifp.animations[0].name, "runs");
    let bone = &ifp.animations[0].bones[0];
    assert_eq!(bone.name, "Pelvis");
    assert_eq!(bone.keyframe_type, "KRTS");
    assert!(bone.use_bone_id);
    assert_eq!(bone.bone_id, 3);
    let k = &bone.keyframes[0];
    assert_eq!(f32::from_bits(k.rotation.w), 1.0);
    assert_eq!(f32::from_bits(k.position.y), 6.0);
    assert_eq!(f32::from_bits(k.scale.z), 2.0);
    assert_eq!(f32::from_bits(k.time), 0.25);
}

#[test]
fn modern_bone_without_keyframes_gets_the_sentinel_tag() {
    let mut buf = Vec::new();
    buf.extend_from_slice(b"ANPK");
    push_u32(&mut buf, 0);
    buf.extend_from_slice(b"INFO");
    push_u32(&mut buf, 8);
    push_u32(&mut buf, 1);
    push_name(&mut buf, "pak", 4);
    buf.extend_from_slice(b"NAME");
    push_u32(&mut buf, 4);
    push_name(&mut buf, "idle", 4);
    buf.extend_from_slice(&[0u8; 16]);
    push_u32(&mut buf, 1); // bone count
    push_u32(&mut buf, 0);
    buf.extend_from_slice(b"CPAN");
    push_u32(&mut buf, 0);
    buf.extend_from_slice(b"ANIM");
    push_u32(&mut buf, 36); // not 44: no bone id, 8 extra bytes skipped
    push_name(&mut buf, "Jaw", 28);
    push_u32(&mut buf, 0); // no keyframes
    push_u32(&mut buf, 0);
    push_u32(&mut buf, 0);
    buf.extend_from_slice(&[0u8; 8]); // skipped in place of the bone id
    let ifp = IfpParser::new(&buf).parse().unwrap();
    let bone = &ifp.animations[0].bones[0];
    assert_eq!(bone.keyframe_type, "K000");
    assert!(!bone.use_bone_id);
    assert_eq!(bone.bone_id, 0);
    assert!(bone.keyframes.is_empty());
}

#[test]
fn decoding_the_same_animation_bytes_twice_gives_identical_results() {
    let buf = legacy_package_one_bone(0, &[[4096, 0, 0, 4096, 0]], &[]);
    let first = IfpParser::new(&buf).parse().unwrap();
    let second = IfpParser::new(&buf).parse().unwrap();
    assert_eq!(first, second);
}
