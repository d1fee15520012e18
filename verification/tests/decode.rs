use pmx::header::Encoding;
use pmx::header::Header;
use pmx::cursor::DataCursor;
use pmx::reader::Error;
use pmx::reader::Reader;
use pmx::morph;
use pmx::rigid;
use pmx::ConnectTo;
use pmx::DisplayElement;
use pmx::F32Bits;
use pmx::SphereMode;
use pmx::Toon;
use pmx::Weight;

fn push_u32(v: &mut Vec<u8>, x: u32) {
    v.extend_from_slice(&x.to_le_bytes());
}

fn push_u16(v: &mut Vec<u8>, x: u16) {
    v.extend_from_slice(&x.to_le_bytes());
}

fn push_f32(v: &mut Vec<u8>, x: f32) {
    v.extend_from_slice(&x.to_le_bytes());
}

fn push_vec3(v: &mut Vec<u8>, x: f32, y: f32, z: f32) {
    push_f32(v, x);
    push_f32(v, y);
    push_f32(v, z);
}

fn push_vec4(v: &mut Vec<u8>, x: f32, y: f32, z: f32, w: f32) {
    push_f32(v, x);
    push_f32(v, y);
    push_f32(v, z);
    push_f32(v, w);
}

fn push_text(v: &mut Vec<u8>, s: &str) {
    push_u32(v, s.len() as u32);
    v.extend_from_slice(s.as_bytes());
}

fn header_bytes(encoding: u8, extended_uv: u8, sizes: [u8; 6]) -> Vec<u8> {
    let mut v = vec![b'P', b'M', b'X', b' '];
    push_f32(&mut v, 2.0);
    v.push(8);
    v.push(encoding);
    v.push(extended_uv);
    v.extend_from_slice(&sizes);
    v
}

/// A structurally minimal file: UTF-8, no extended UV, all widths 1, four
/// empty strings, and every section empty.
fn empty_model() -> Vec<u8> {
    let mut v = header_bytes(1, 0, [1, 1, 1, 1, 1, 1]);
    for _ in 0..4 {
        push_u32(&mut v, 0);
    }
    for _ in 0..9 {
        push_u32(&mut v, 0);
    }
    v
}

fn bits(x: f32) -> F32Bits {
    F32Bits(x.to_bits())
}

#[test]
fn empty_model_decodes() {
    let r = Reader::new(empty_model()).unwrap();
    assert_eq!(r.name(), "");
    assert_eq!(r.name_en(), "");
    assert_eq!(r.comment(), "");
    assert_eq!(r.comment_en(), "");
    assert_eq!(r.vertices().len(), 0);
    assert_eq!(r.faces().len(), 0);
    assert_eq!(r.textures().len(), 0);
    assert_eq!(r.materials().len(), 0);
    assert_eq!(r.bones().len(), 0);
    assert_eq!(r.morphs().len(), 0);
    assert_eq!(r.display_groups().len(), 0);
    assert_eq!(r.rigids().len(), 0);
    assert_eq!(r.joints().len(), 0);
}

#[test]
fn utf8_name_decodes() {
    let mut v = header_bytes(1, 0, [1, 1, 1, 1, 1, 1]);
    push_text(&mut v, "model A");
    push_text(&mut v, "en");
    push_text(&mut v, "comment");
    push_text(&mut v, "");
    for _ in 0..9 {
        push_u32(&mut v, 0);
    }
    let r = Reader::new(v).unwrap();
    assert_eq!(r.name(), "model A");
    assert_eq!(r.name_en(), "en");
    assert_eq!(r.comment(), "comment");
    assert_eq!(r.comment_en(), "");
}

#[test]
fn utf16_name_decodes() {
    let mut v = header_bytes(0, 0, [1, 1, 1, 1, 1, 1]);
    let name: Vec<u16> = "モデル".encode_utf16().collect();
    push_u32(&mut v, (name.len() * 2) as u32);
    for u in &name {
        push_u16(&mut v, *u);
    }
    for _ in 0..3 {
        push_u32(&mut v, 0);
    }
    for _ in 0..9 {
        push_u32(&mut v, 0);
    }
    let r = Reader::new(v).unwrap();
    assert_eq!(r.name(), "モデル");
}

#[test]
fn malformed_utf8_is_replaced_not_rejected() {
    let mut v = header_bytes(1, 0, [1, 1, 1, 1, 1, 1]);
    push_u32(&mut v, 2);
    v.push(0xff);
    v.push(0x41);
    for _ in 0..3 {
        push_u32(&mut v, 0);
    }
    for _ in 0..9 {
        push_u32(&mut v, 0);
    }
    let r = Reader::new(v).unwrap();
    assert_eq!(r.name(), "\u{fffd}A");
}

#[test]
fn odd_utf16_payload_drops_trailing_byte() {
    let mut v = header_bytes(0, 0, [1, 1, 1, 1, 1, 1]);
    push_u32(&mut v, 3);
    push_u16(&mut v, 0x0041);
    v.push(0x42);
    for _ in 0..3 {
        push_u32(&mut v, 0);
    }
    for _ in 0..9 {
        push_u32(&mut v, 0);
    }
    let r = Reader::new(v).unwrap();
    assert_eq!(r.name(), "A");
}

#[test]
fn wrong_magic_is_rejected() {
    let mut v = empty_model();
    v[0] = b'Q';
    assert!(matches!(Reader::new(v), Err(Error::InvalidHeader(_))));
}

#[test]
fn wrong_version_is_rejected() {
    let mut v = header_bytes(1, 0, [1, 1, 1, 1, 1, 1]);
    let bytes = 1.0f32.to_le_bytes();
    v[4..8].copy_from_slice(&bytes);
    assert!(matches!(Reader::new(v), Err(Error::UnsupportedVersion)));
}

#[test]
fn wrong_header_length_is_rejected() {
    let mut v = empty_model();
    v[8] = 9;
    assert!(matches!(Reader::new(v), Err(Error::InvalidHeader(_))));
}

#[test]
fn bad_encoding_byte_is_rejected() {
    let mut v = empty_model();
    v[9] = 2;
    assert!(matches!(Reader::new(v), Err(Error::InvalidHeader(_))));
}

#[test]
fn oversized_extended_uv_is_rejected() {
    let mut v = empty_model();
    v[10] = 5;
    assert!(matches!(Reader::new(v), Err(Error::InvalidHeader(_))));
}

#[test]
fn bad_index_width_is_rejected() {
    let mut v = empty_model();
    v[13] = 3;
    assert!(matches!(Reader::new(v), Err(Error::InvalidHeader(_))));
}

#[test]
fn face_count_not_multiple_of_three_is_rejected() {
    let mut v = header_bytes(1, 0, [1, 1, 1, 1, 1, 1]);
    for _ in 0..4 {
        push_u32(&mut v, 0);
    }
    push_u32(&mut v, 0); // vertices
    push_u32(&mut v, 4); // faces: 4 is not a multiple of 3
    v.extend_from_slice(&[0, 0, 0, 0]);
    for _ in 0..7 {
        push_u32(&mut v, 0);
    }
    assert!(matches!(Reader::new(v), Err(Error::InvalidData(_))));
}

#[test]
fn bad_vertex_weight_kind_is_rejected() {
    let mut v = header_bytes(1, 0, [1, 1, 1, 1, 1, 1]);
    for _ in 0..4 {
        push_u32(&mut v, 0);
    }
    push_u32(&mut v, 1); // one vertex
    push_vec3(&mut v, 0.0, 0.0, 0.0);
    push_vec3(&mut v, 0.0, 0.0, 0.0);
    push_f32(&mut v, 0.0);
    push_f32(&mut v, 0.0);
    v.push(4); // weight kind out of range
    assert!(matches!(Reader::new(v), Err(Error::InvalidData(_))));
}

#[test]
fn truncated_file_is_io_error() {
    let mut v = empty_model();
    v.truncate(v.len() - 2);
    assert!(matches!(Reader::new(v), Err(Error::Io)));
}

#[test]
fn magic_checked_before_sections() {
    // A buffer with a bad magic and also a bad face count fails on the
    // header, not on the section.
    let mut v = header_bytes(1, 0, [1, 1, 1, 1, 1, 1]);
    v[0] = b'A';
    for _ in 0..4 {
        push_u32(&mut v, 0);
    }
    push_u32(&mut v, 0);
    push_u32(&mut v, 1);
    v.push(0);
    for _ in 0..7 {
        push_u32(&mut v, 0);
    }
    assert!(matches!(Reader::new(v), Err(Error::InvalidHeader(_))));
}

fn signed_index_cursor_data() -> Vec<u8> {
    vec![
        0x05, 0xff, // width 1: 5, then -1
        0x02, 0x01, 0xff, 0xff, // width 2: 0x0102, then -1
        0x04, 0x03, 0x02, 0x01, 0xff, 0xff, 0xff, 0xff, // width 4: 0x01020304, then -1
    ]
}

fn plain_header() -> Header {
    Header {
        encoding: Encoding::Utf8,
        extended_uv: 0,
        vertex_index_size: 1,
        texture_index_size: 1,
        material_index_size: 1,
        bone_index_size: 1,
        morph_index_size: 1,
        rigid_index_size: 1,
    }
}

#[test]
fn signed_index_round_trip() {
    let data = signed_index_cursor_data();
    let header = plain_header();
    let mut cur = DataCursor::with_position(&data, &header, 0);
    assert_eq!(cur.read_signed_index(1), Some(5));
    assert_eq!(cur.read_signed_index(1), None);
    assert_eq!(cur.read_signed_index(2), Some(0x0102));
    assert_eq!(cur.read_signed_index(2), None);
    assert_eq!(cur.read_signed_index(4), Some(0x01020304));
    assert_eq!(cur.read_signed_index(4), None);
}

#[test]
fn vertex_index_unsigned_convention() {
    // Width 1: a byte with the top bit set is a plain unsigned index.
    let data = vec![0xfe];
    let header = plain_header();
    let mut cur = DataCursor::with_position(&data, &header, 0);
    assert_eq!(cur.read_vertex_index(), 0xfe);

    // Width 2: likewise unsigned.
    let data = vec![0xff, 0xff];
    let mut header = plain_header();
    header.vertex_index_size = 2;
    let mut cur = DataCursor::with_position(&data, &header, 0);
    assert_eq!(cur.read_vertex_index(), 0xffff);

    // Width 4: read as signed and sign-extended into usize.
    let data = vec![0xff, 0xff, 0xff, 0xff];
    let mut header = plain_header();
    header.vertex_index_size = 4;
    let mut cur = DataCursor::with_position(&data, &header, 0);
    assert_eq!(cur.read_vertex_index(), (-1i32) as usize);

    let data = vec![0x07, 0x00, 0x00, 0x00];
    let mut cur = DataCursor::with_position(&data, &header, 0);
    assert_eq!(cur.read_vertex_index(), 7);
}

#[test]
fn signed_reads() {
    let data = vec![0xff, 0xfe, 0xff, 0xfc, 0xff, 0xff, 0xff];
    let header = plain_header();
    let mut cur = DataCursor::with_position(&data, &header, 0);
    assert_eq!(cur.read_i8(), -1);
    assert_eq!(cur.read_i16(), -2);
    assert_eq!(cur.read_i32(), -4);
}

/// A model with one record in every section, exercising the flag-driven
/// optional blocks: UTF-8, one extended UV channel, all index widths 1.
fn one_of_each_model() -> Vec<u8> {
    let mut v = header_bytes(1, 1, [1, 1, 1, 1, 1, 1]);
    push_text(&mut v, "scene");
    push_text(&mut v, "scene-en");
    push_text(&mut v, "");
    push_text(&mut v, "");
    // vertices: one BDEF2 vertex
    push_u32(&mut v, 1);
    push_vec3(&mut v, 1.0, 2.0, 3.0);
    push_vec3(&mut v, 0.0, 0.0, 1.0);
    push_f32(&mut v, 0.25);
    push_f32(&mut v, 0.75);
    push_vec4(&mut v, 0.1, 0.2, 0.3, 0.4); // the single extended UV channel
    v.push(1); // BDEF2
    v.push(0); // bone 0
    v.push(0xff); // bone none
    push_f32(&mut v, 0.5);
    push_f32(&mut v, 1.0); // edge ratio
    // faces
    push_u32(&mut v, 3);
    v.extend_from_slice(&[0, 0, 0]);
    // textures
    push_u32(&mut v, 1);
    push_text(&mut v, "tex.png");
    // materials
    push_u32(&mut v, 1);
    push_text(&mut v, "mat");
    push_text(&mut v, "mat-en");
    push_vec4(&mut v, 1.0, 0.5, 0.25, 1.0);
    push_vec3(&mut v, 0.9, 0.8, 0.7);
    push_f32(&mut v, 5.0);
    push_vec3(&mut v, 0.1, 0.1, 0.1);
    v.push(0x1f); // all five draw flags
    push_vec4(&mut v, 0.0, 0.0, 0.0, 1.0);
    push_f32(&mut v, 1.5);
    v.push(0); // texture index 0
    v.push(0xff); // no sphere texture
    v.push(2); // sphere mode: multiply
    v.push(1); // toon: shared palette
    v.push(3); // shared toon entry 3
    push_text(&mut v, "memo");
    push_u32(&mut v, 3);
    // bones: a root, then a bone with every optional block but the local pole
    push_u32(&mut v, 2);
    push_text(&mut v, "root");
    push_text(&mut v, "");
    push_vec3(&mut v, 0.0, 0.0, 0.0);
    v.push(0xff); // no parent
    push_u32(&mut v, 0); // deform hierarchy
    push_u16(&mut v, 0x0000); // no flags: connection is an offset
    push_vec3(&mut v, 0.0, 1.0, 0.0);
    push_text(&mut v, "arm");
    push_text(&mut v, "");
    push_vec3(&mut v, 0.0, 1.0, 0.0);
    v.push(0); // parent: root
    push_u32(&mut v, 1);
    // connection to bone | rotatable | IK | rotation grant | fixed pole | external parent
    push_u16(&mut v, 0x0001 | 0x0002 | 0x0020 | 0x0100 | 0x0400 | 0x2000);
    v.push(0); // connect to bone 0
    v.push(0); // grant source bone 0
    push_f32(&mut v, 0.5); // grant ratio
    push_vec3(&mut v, 1.0, 0.0, 0.0); // fixed pole
    push_u32(&mut v, 7); // external parent key
    v.push(0); // IK target bone
    push_u32(&mut v, 40); // IK loop count
    push_f32(&mut v, 0.1); // IK angle
    push_u32(&mut v, 1); // one IK link
    v.push(0); // link bone
    v.push(1); // link has an angle limit
    push_vec3(&mut v, -1.0, -1.0, -1.0);
    push_vec3(&mut v, 1.0, 1.0, 1.0);
    // morphs: a vertex morph and a group morph
    push_u32(&mut v, 2);
    push_text(&mut v, "smile");
    push_text(&mut v, "");
    v.push(4); // panel: other
    v.push(1); // vertex morph
    push_u32(&mut v, 1);
    v.push(0); // vertex 0
    push_vec3(&mut v, 0.0, 0.1, 0.0);
    push_text(&mut v, "combo");
    push_text(&mut v, "");
    v.push(0); // panel: reserved
    v.push(0); // group morph
    push_u32(&mut v, 1);
    v.push(0); // morph 0
    push_f32(&mut v, 0.5);
    // display groups
    push_u32(&mut v, 1);
    push_text(&mut v, "main");
    push_text(&mut v, "");
    v.push(1); // special
    push_u32(&mut v, 2);
    v.push(0); // bone element
    v.push(0);
    v.push(1); // morph element
    v.push(0);
    // rigids
    push_u32(&mut v, 1);
    push_text(&mut v, "body");
    push_text(&mut v, "");
    v.push(0); // bone 0
    v.push(2); // group
    push_u16(&mut v, 0xfffe);
    v.push(1); // box
    push_vec3(&mut v, 1.0, 1.0, 1.0);
    push_vec3(&mut v, 0.0, 0.0, 0.0);
    push_vec3(&mut v, 0.0, 0.0, 0.0);
    push_f32(&mut v, 1.0);
    push_f32(&mut v, 0.5);
    push_f32(&mut v, 0.5);
    push_f32(&mut v, 0.0);
    push_f32(&mut v, 0.5);
    v.push(2); // dynamic with bone
    // joints
    push_u32(&mut v, 1);
    push_text(&mut v, "hinge");
    push_text(&mut v, "");
    v.push(0); // joint type: spring 6-DOF
    v.push(0); // rigid 0
    v.push(0xff); // no second rigid
    push_vec3(&mut v, 0.0, 0.0, 0.0);
    push_vec3(&mut v, 0.0, 0.0, 0.0);
    push_vec3(&mut v, -0.5, -0.5, -0.5);
    push_vec3(&mut v, 0.5, 0.5, 0.5);
    push_vec3(&mut v, -5.0f32.to_radians(), 0.0, 0.0);
    push_vec3(&mut v, 20.0f32.to_radians(), 0.0, 0.0);
    push_vec3(&mut v, 1.0, 1.0, 1.0);
    push_vec3(&mut v, 2.0, 2.0, 2.0);
    v
}

#[test]
fn one_of_each_decodes() {
    let r = Reader::new(one_of_each_model()).unwrap();
    assert_eq!(r.name(), "scene");
    assert_eq!(r.name_en(), "scene-en");

    let vertices = r.vertices();
    assert_eq!(vertices.len(), 1);
    let vx = &vertices[0];
    assert_eq!(vx.position.x, bits(1.0));
    assert_eq!(vx.position.z, bits(3.0));
    assert_eq!(vx.uv.y, bits(0.75));
    assert_eq!(vx.extended_uv.len(), 1);
    assert_eq!(vx.extended_uv[0].w, bits(0.4));
    match vx.weight {
        Weight::Bdef2(b) => {
            assert_eq!(b.bones, (Some(0), None));
            assert_eq!(b.weight, bits(0.5));
        },
        _ => panic!("wrong weight kind"),
    }
    assert_eq!(vx.edge_ratio, bits(1.0));

    assert_eq!(r.faces(), vec![0, 0, 0]);
    assert_eq!(r.textures(), vec!["tex.png".to_string()]);

    let materials = r.materials();
    assert_eq!(materials.len(), 1);
    let m = &materials[0];
    assert_eq!(m.name, "mat");
    assert_eq!(m.diffuse.y, bits(0.5));
    assert!(m.both && m.ground_shadow && m.self_shadow_map && m.self_shadow && m.edge);
    assert_eq!(m.texture, Some(0));
    assert_eq!(m.sphere, None);
    assert_eq!(m.sphere_mode, SphereMode::Mul);
    assert!(matches!(m.toon, Toon::Shared(3)));
    assert_eq!(m.memo, "memo");
    assert_eq!(m.index_count, 3);

    let bones = r.bones();
    assert_eq!(bones.len(), 2);
    assert_eq!(bones[0].name, "root");
    assert_eq!(bones[0].parent, None);
    assert!(matches!(bones[0].connected_to, ConnectTo::Offset(_)));
    assert!(bones[0].ik.is_none());
    let arm = &bones[1];
    assert_eq!(arm.name, "arm");
    assert_eq!(arm.parent, Some(0));
    assert!(matches!(arm.connected_to, ConnectTo::Bone(Some(0))));
    assert!(arm.rotatable && !arm.translatable);
    let grant = arm.addition.unwrap();
    assert!(grant.rotation && !grant.translation && !grant.local);
    assert_eq!(grant.bone, Some(0));
    assert_eq!(grant.ratio, bits(0.5));
    assert_eq!(arm.fixed_pole.unwrap().x, bits(1.0));
    assert!(arm.local_pole.is_none());
    assert_eq!(arm.external_parent, Some(7));
    let ik = arm.ik.as_ref().unwrap();
    assert_eq!(ik.target_bone, Some(0));
    assert_eq!(ik.loop_count, 40);
    assert_eq!(ik.links.len(), 1);
    assert_eq!(ik.links[0].bone, Some(0));
    let limit = ik.links[0].limit.unwrap();
    assert_eq!(limit.lower.x, bits(-1.0));
    assert_eq!(limit.upper.z, bits(1.0));

    let morphs = r.morphs();
    assert_eq!(morphs.len(), 2);
    assert_eq!(morphs[0].name, "smile");
    assert_eq!(morphs[0].panel, pmx::Panel::Other);
    match &morphs[0].kind {
        morph::Kind::Vertex(items) => {
            assert_eq!(items.len(), 1);
            assert_eq!(items[0].vertex, 0);
            assert_eq!(items[0].offset.y, bits(0.1));
        },
        _ => panic!("wrong morph kind"),
    }
    match &morphs[1].kind {
        morph::Kind::Group(items) => {
            assert_eq!(items[0].morph, Some(0));
            assert_eq!(items[0].ratio, bits(0.5));
        },
        _ => panic!("wrong morph kind"),
    }

    let groups = r.display_groups();
    assert_eq!(groups.len(), 1);
    assert!(groups[0].special);
    assert_eq!(
        groups[0].elements,
        vec![DisplayElement::Bone(Some(0)), DisplayElement::Morph(Some(0))]
    );

    let rigids = r.rigids();
    assert_eq!(rigids.len(), 1);
    assert_eq!(rigids[0].name, "body");
    assert_eq!(rigids[0].group, 2);
    assert_eq!(rigids[0].non_collision_groups, 0xfffe);
    assert_eq!(rigids[0].shape, rigid::Shape::Box);
    assert_eq!(rigids[0].method, rigid::Method::DynamicWithBone);

    let joints = r.joints();
    assert_eq!(joints.len(), 1);
    let j = &joints[0];
    assert_eq!(j.name, "hinge");
    assert_eq!(j.rigids.0, Some(0));
    assert_eq!(j.rigids.1, None);
    let lower = f32::from_bits(j.limit_rotation.lower.x.0);
    let upper = f32::from_bits(j.limit_rotation.upper.x.0);
    assert!((lower - (-5.0f32.to_radians())).abs() <= f32::EPSILON);
    assert!((upper - 20.0f32.to_radians()).abs() <= f32::EPSILON);
    assert_eq!(j.spring_rotation.x, bits(2.0));
}

#[test]
fn sections_decode_identically_on_repeated_calls() {
    let r = Reader::new(one_of_each_model()).unwrap();
    assert_eq!(r.vertices(), r.vertices());
    assert_eq!(r.faces(), r.faces());
    assert_eq!(r.textures(), r.textures());
    assert_eq!(r.materials(), r.materials());
    assert_eq!(r.bones(), r.bones());
    assert_eq!(r.morphs(), r.morphs());
    assert_eq!(r.display_groups(), r.display_groups());
    assert_eq!(r.rigids(), r.rigids());
    assert_eq!(r.joints(), r.joints());
    assert_eq!(r.name(), r.name());
}

#[test]
fn section_length_matches_stored_count() {
    let r = Reader::new(one_of_each_model()).unwrap();
    assert_eq!(r.vertices().len(), 1);
    assert_eq!(r.faces().len(), 3);
    assert_eq!(r.textures().len(), 1);
    assert_eq!(r.materials().len(), 1);
    assert_eq!(r.bones().len(), 2);
    assert_eq!(r.morphs().len(), 2);
    assert_eq!(r.display_groups().len(), 1);
    assert_eq!(r.rigids().len(), 1);
    assert_eq!(r.joints().len(), 1);
}

#[test]
fn bad_morph_kind_is_rejected() {
    let mut v = header_bytes(1, 0, [1, 1, 1, 1, 1, 1]);
    for _ in 0..4 {
        push_u32(&mut v, 0);
    }
    for _ in 0..5 {
        push_u32(&mut v, 0); // vertices..bones empty
    }
    push_u32(&mut v, 1); // one morph
    push_u32(&mut v, 0); // empty name
    push_u32(&mut v, 0); // empty name-en
    v.push(0); // panel
    v.push(9); // kind out of range
    push_u32(&mut v, 0);
    for _ in 0..3 {
        push_u32(&mut v, 0);
    }
    assert!(matches!(Reader::new(v), Err(Error::InvalidData(_))));
}

#[test]
fn bad_joint_type_is_rejected() {
    let mut v = header_bytes(1, 0, [1, 1, 1, 1, 1, 1]);
    for _ in 0..4 {
        push_u32(&mut v, 0);
    }
    for _ in 0..8 {
        push_u32(&mut v, 0);
    }
    push_u32(&mut v, 1); // one joint
    push_u32(&mut v, 0);
    push_u32(&mut v, 0);
    v.push(1); // joint type must be 0
    assert!(matches!(Reader::new(v), Err(Error::InvalidData(_))));
}

#[test]
fn error_helpers_carry_their_message() {
    assert!(matches!(Error::invalid_header("magic number"), Error::InvalidHeader(m) if m == "magic number"));
    assert!(matches!(Error::invalid_data("faces"), Error::InvalidData(m) if m == "faces"));
}

/// A model whose morph section holds an extended-UV morph and a material
/// morph, and whose vertices use the four-bone and spherical weight kinds.
fn weights_and_morphs_model() -> Vec<u8> {
    let mut v = header_bytes(1, 2, [1, 1, 1, 1, 1, 1]);
    for _ in 0..4 {
        push_u32(&mut v, 0);
    }
    // vertices: BDEF4 then SDEF, each with two extended UV channels
    push_u32(&mut v, 2);
    push_vec3(&mut v, 0.0, 0.0, 0.0);
    push_vec3(&mut v, 0.0, 1.0, 0.0);
    push_f32(&mut v, 0.0);
    push_f32(&mut v, 0.0);
    push_vec4(&mut v, 1.0, 2.0, 3.0, 4.0);
    push_vec4(&mut v, 5.0, 6.0, 7.0, 8.0);
    v.push(2); // BDEF4
    v.extend_from_slice(&[1, 2, 3, 0xff]);
    push_f32(&mut v, 0.4);
    push_f32(&mut v, 0.3);
    push_f32(&mut v, 0.3);
    push_f32(&mut v, 0.0);
    push_f32(&mut v, 0.0); // edge ratio
    push_vec3(&mut v, 0.0, 0.0, 0.0);
    push_vec3(&mut v, 0.0, 1.0, 0.0);
    push_f32(&mut v, 0.0);
    push_f32(&mut v, 0.0);
    push_vec4(&mut v, 0.0, 0.0, 0.0, 0.0);
    push_vec4(&mut v, 0.0, 0.0, 0.0, 0.0);
    v.push(3); // SDEF
    v.extend_from_slice(&[0, 1]);
    push_f32(&mut v, 0.5);
    push_vec3(&mut v, 0.1, 0.2, 0.3);
    push_vec3(&mut v, 0.4, 0.5, 0.6);
    push_vec3(&mut v, 0.7, 0.8, 0.9);
    push_f32(&mut v, 1.0); // edge ratio
    // faces, textures, materials, bones: empty
    for _ in 0..4 {
        push_u32(&mut v, 0);
    }
    // morphs: one extended-UV morph on channel 1, one material morph
    push_u32(&mut v, 2);
    push_text(&mut v, "uv1");
    push_text(&mut v, "");
    v.push(2); // panel: eye
    v.push(5); // extended UV channel 1
    push_u32(&mut v, 1);
    v.push(1); // vertex 1
    push_vec4(&mut v, 0.1, 0.2, 0.3, 0.4);
    push_text(&mut v, "tint");
    push_text(&mut v, "");
    v.push(4); // panel: other
    v.push(8); // material morph
    push_u32(&mut v, 1);
    v.push(0xff); // all materials
    v.push(1); // additive
    push_vec4(&mut v, 0.0, 0.0, 0.0, 0.0);
    push_vec3(&mut v, 0.0, 0.0, 0.0);
    push_f32(&mut v, 0.0);
    push_vec3(&mut v, 0.0, 0.0, 0.0);
    push_vec4(&mut v, 0.0, 0.0, 0.0, 0.0);
    push_f32(&mut v, 2.0);
    push_vec4(&mut v, 1.0, 1.0, 1.0, 1.0);
    push_vec4(&mut v, 1.0, 1.0, 1.0, 1.0);
    push_vec4(&mut v, 0.5, 0.5, 0.5, 0.5);
    // display groups, rigids, joints: empty
    for _ in 0..3 {
        push_u32(&mut v, 0);
    }
    v
}

#[test]
fn weight_kinds_decode() {
    let r = Reader::new(weights_and_morphs_model()).unwrap();
    let vertices = r.vertices();
    assert_eq!(vertices.len(), 2);
    assert_eq!(vertices[0].extended_uv.len(), 2);
    assert_eq!(vertices[0].extended_uv[1].x, bits(5.0));
    match vertices[0].weight {
        Weight::Bdef4(b) => {
            assert_eq!(b.bones, (Some(1), Some(2), Some(3), None));
            assert_eq!(b.weights.0, bits(0.4));
            assert_eq!(b.weights.3, bits(0.0));
        },
        _ => panic!("wrong weight kind"),
    }
    match vertices[1].weight {
        Weight::Sdef(s) => {
            assert_eq!(s.bones, (Some(0), Some(1)));
            assert_eq!(s.weight, bits(0.5));
            assert_eq!(s.c.x, bits(0.1));
            assert_eq!(s.r0.y, bits(0.5));
            assert_eq!(s.r1.z, bits(0.9));
        },
        _ => panic!("wrong weight kind"),
    }
}

#[test]
fn extended_uv_and_material_morphs_decode() {
    let r = Reader::new(weights_and_morphs_model()).unwrap();
    let morphs = r.morphs();
    assert_eq!(morphs.len(), 2);
    match &morphs[0].kind {
        morph::Kind::ExtendedUv(channel, items) => {
            assert_eq!(*channel, 1);
            assert_eq!(items[0].vertex, 1);
            assert_eq!(items[0].offset.w, bits(0.4));
        },
        _ => panic!("wrong morph kind"),
    }
    match &morphs[1].kind {
        morph::Kind::Material(items) => {
            assert_eq!(items[0].material, None);
            assert_eq!(items[0].op, morph::MaterialOp::Add);
            assert_eq!(items[0].edge_size, bits(2.0));
            assert_eq!(items[0].toon.x, bits(0.5));
        },
        _ => panic!("wrong morph kind"),
    }
}

#[test]
fn bad_material_morph_op_is_rejected() {
    let mut v = header_bytes(1, 0, [1, 1, 1, 1, 1, 1]);
    for _ in 0..4 {
        push_u32(&mut v, 0);
    }
    for _ in 0..5 {
        push_u32(&mut v, 0);
    }
    push_u32(&mut v, 1);
    push_u32(&mut v, 0);
    push_u32(&mut v, 0);
    v.push(0); // panel
    v.push(8); // material morph
    push_u32(&mut v, 1);
    v.push(0xff);
    v.push(2); // operation byte out of range
    assert!(matches!(Reader::new(v), Err(Error::InvalidData(_))));
}

#[test]
fn bad_display_element_is_rejected() {
    let mut v = header_bytes(1, 0, [1, 1, 1, 1, 1, 1]);
    for _ in 0..4 {
        push_u32(&mut v, 0);
    }
    for _ in 0..6 {
        push_u32(&mut v, 0);
    }
    push_u32(&mut v, 1);
    push_u32(&mut v, 0);
    push_u32(&mut v, 0);
    v.push(0); // not special
    push_u32(&mut v, 1);
    v.push(2); // element kind out of range
    assert!(matches!(Reader::new(v), Err(Error::InvalidData(_))));
}

#[test]
fn bad_rigid_shape_is_rejected() {
    let mut v = header_bytes(1, 0, [1, 1, 1, 1, 1, 1]);
    for _ in 0..4 {
        push_u32(&mut v, 0);
    }
    for _ in 0..7 {
        push_u32(&mut v, 0);
    }
    push_u32(&mut v, 1);
    push_u32(&mut v, 0);
    push_u32(&mut v, 0);
    v.push(0); // bone
    v.push(0); // group
    push_u16(&mut v, 0);
    v.push(3); // shape out of range
    push_u32(&mut v, 0);
    assert!(matches!(Reader::new(v), Err(Error::InvalidData(_))));
}
