//! The per-record decoders.
//!
//! Each function here reads one record through a [`DataCursor`], under the
//! precondition that the record parses — which the structural scan has
//! already established for every record it accepted. The decoders therefore
//! re-apply the scanner's tag dispatch without any error path, and each is
//! proved to return exactly the value of its record's parse function.

use crate::cursor::DataCursor;
use crate::model::parse_ik_link;
use crate::model::parse_vertex;
use crate::model::parse_material;
use crate::model::parse_bone;
use crate::model::parse_morph;
use crate::model::parse_morph_group;
use crate::model::parse_morph_vertex;
use crate::model::parse_morph_bone;
use crate::model::parse_morph_uv;
use crate::model::parse_morph_material;
use crate::model::parse_display_element;
use crate::model::parse_display_group;
use crate::model::parse_rigid;
use crate::model::parse_joint;
use crate::model::ik_link_fn;
use crate::model::morph_group_fn;
use crate::model::morph_vertex_fn;
use crate::model::morph_bone_fn;
use crate::model::morph_uv_fn;
use crate::model::morph_material_fn;
use crate::model::display_element_fn;
use crate::model::lemma_parse_list_mid;
use crate::model::lemma_parse_list_step;
use crate::model::parse_list;
use crate::model::Parsed;
use crate::morph;
use crate::rigid;
use crate::AngleLimit;
use crate::Addition;
use crate::Bdef1;
use crate::Bdef2;
use crate::Bdef4;
use crate::Bone;
use crate::ConnectTo;
use crate::DisplayElement;
use crate::DisplayGroup;
use crate::Ik;
use crate::IkLink;
use crate::Joint;
use crate::LocalPole;
use crate::Material;
use crate::Morph;
use crate::Panel;
use crate::Rigid;
use crate::RigidPair;
use crate::Sdef;
use crate::SphereMode;
use crate::Toon;
use crate::Vertex;
use crate::Weight;
use vstd::prelude::*;

verus! {

/// Decode one vertex record.
#[verifier::rlimit(100)]
pub fn read_vertex(cur: &mut DataCursor) -> (r: Vertex)
    requires
        old(cur).wf(),
        parse_vertex(old(cur).data@, *old(cur).header, old(cur).pos as int) is Val,
    ensures
        final(cur).data == old(cur).data,
        final(cur).header == old(cur).header,
        final(cur).wf(),
        parse_vertex(old(cur).data@, *old(cur).header, old(cur).pos as int) matches Parsed::Val(
            v,
            end,
        ) ==> (r@ == v && final(cur).pos == end),
{
    proof {
        reveal(parse_vertex);
    }
    let position = cur.read_float3();
    let normal = cur.read_float3();
    let uv = cur.read_float2();
    let mut extended_uv: Vec<crate::Float4> = Vec::new();
    let euv = cur.header.extended_uv;
    let ghost d = cur.data@;
    let ghost base = cur.pos as int;
    let mut i: u8 = 0;
    while i < euv
        invariant
            cur.wf(),
            cur.data == old(cur).data,
            cur.header == old(cur).header,
            i <= euv,
            euv == cur.header.extended_uv,
            d == cur.data@,
            base + 16 * euv <= d.len(),
            cur.pos == base + 16 * i,
            extended_uv@.len() == i,
            forall|j: int|
                0 <= j < i ==> extended_uv@[j] == crate::model::float4_at(d, base + 16 * j),
        decreases euv - i,
    {
        let v = cur.read_float4();
        extended_uv.push(v);
        i = i + 1;
    }
    let tag = cur.read_u8();
    let weight = if tag == 0 {
        Weight::Bdef1(Bdef1 { bone: cur.read_bone_index() })
    } else if tag == 1 {
        Weight::Bdef2(
            Bdef2 {
                bones: (cur.read_bone_index(), cur.read_bone_index()),
                weight: cur.read_f32_bits(),
            },
        )
    } else if tag == 2 {
        Weight::Bdef4(
            Bdef4 {
                bones: (
                    cur.read_bone_index(),
                    cur.read_bone_index(),
                    cur.read_bone_index(),
                    cur.read_bone_index(),
                ),
                weights: (
                    cur.read_f32_bits(),
                    cur.read_f32_bits(),
                    cur.read_f32_bits(),
                    cur.read_f32_bits(),
                ),
            },
        )
    } else {
        Weight::Sdef(
            Sdef {
                bones: (cur.read_bone_index(), cur.read_bone_index()),
                weight: cur.read_f32_bits(),
                c: cur.read_float3(),
                r0: cur.read_float3(),
                r1: cur.read_float3(),
            },
        )
    };
    let edge_ratio = cur.read_f32_bits();
    let r = Vertex { position, normal, uv, extended_uv, weight, edge_ratio };
    proof {
        assert(r@.extended_uv =~= Seq::new(
            euv as nat,
            |j: int| crate::model::float4_at(d, base + 16 * j),
        ));
    }
    r
}


/// Decode one link of an inverse-kinematics chain.
pub fn read_ik_link(cur: &mut DataCursor) -> (r: IkLink)
    requires
        old(cur).wf(),
        parse_ik_link(old(cur).data@, *old(cur).header, old(cur).pos as int) is Val,
    ensures
        final(cur).data == old(cur).data,
        final(cur).header == old(cur).header,
        final(cur).wf(),
        parse_ik_link(old(cur).data@, *old(cur).header, old(cur).pos as int) matches Parsed::Val(
            v,
            end,
        ) ==> (r == v && final(cur).pos == end),
{
    proof {
        reveal(parse_ik_link);
    }
    let bone = cur.read_bone_index();
    let flag = cur.read_u8();
    let limit = if flag == 1 {
        Some(AngleLimit { lower: cur.read_float3(), upper: cur.read_float3() })
    } else {
        None
    };
    IkLink { bone, limit }
}

/// Decode one group item of a morph payload.
pub fn read_morph_group(cur: &mut DataCursor) -> (r: morph::Group)
    requires
        old(cur).wf(),
        parse_morph_group(old(cur).data@, *old(cur).header, old(cur).pos as int) is Val,
    ensures
        final(cur).data == old(cur).data,
        final(cur).header == old(cur).header,
        final(cur).wf(),
        parse_morph_group(old(cur).data@, *old(cur).header, old(cur).pos as int)
            matches Parsed::Val(v, end) ==> (r == v && final(cur).pos == end),
{
    proof {
        reveal(parse_morph_group);
    }
    let morph = cur.read_morph_index();
    let ratio = cur.read_f32_bits();
    morph::Group { morph, ratio }
}

/// Decode one vertex item of a morph payload.
pub fn read_morph_vertex(cur: &mut DataCursor) -> (r: morph::Vertex)
    requires
        old(cur).wf(),
        parse_morph_vertex(old(cur).data@, *old(cur).header, old(cur).pos as int) is Val,
    ensures
        final(cur).data == old(cur).data,
        final(cur).header == old(cur).header,
        final(cur).wf(),
        parse_morph_vertex(old(cur).data@, *old(cur).header, old(cur).pos as int)
            matches Parsed::Val(v, end) ==> (r == v && final(cur).pos == end),
{
    proof {
        reveal(parse_morph_vertex);
    }
    let vertex = cur.read_vertex_index();
    let offset = cur.read_float3();
    morph::Vertex { vertex, offset }
}

/// Decode one bone item of a morph payload.
pub fn read_morph_bone(cur: &mut DataCursor) -> (r: morph::Bone)
    requires
        old(cur).wf(),
        parse_morph_bone(old(cur).data@, *old(cur).header, old(cur).pos as int) is Val,
    ensures
        final(cur).data == old(cur).data,
        final(cur).header == old(cur).header,
        final(cur).wf(),
        parse_morph_bone(old(cur).data@, *old(cur).header, old(cur).pos as int)
            matches Parsed::Val(v, end) ==> (r == v && final(cur).pos == end),
{
    proof {
        reveal(parse_morph_bone);
    }
    let bone = cur.read_bone_index();
    let offset = cur.read_float3();
    let rotation = cur.read_float4();
    morph::Bone { bone, offset, rotation }
}

/// Decode one UV item of a morph payload.
pub fn read_morph_uv(cur: &mut DataCursor) -> (r: morph::Uv)
    requires
        old(cur).wf(),
        parse_morph_uv(old(cur).data@, *old(cur).header, old(cur).pos as int) is Val,
    ensures
        final(cur).data == old(cur).data,
        final(cur).header == old(cur).header,
        final(cur).wf(),
        parse_morph_uv(old(cur).data@, *old(cur).header, old(cur).pos as int) matches Parsed::Val(
            v,
            end,
        ) ==> (r == v && final(cur).pos == end),
{
    proof {
        reveal(parse_morph_uv);
    }
    let vertex = cur.read_vertex_index();
    let offset = cur.read_float4();
    morph::Uv { vertex, offset }
}

/// Decode one material item of a morph payload.
pub fn read_morph_material(cur: &mut DataCursor) -> (r: morph::Material)
    requires
        old(cur).wf(),
        parse_morph_material(old(cur).data@, *old(cur).header, old(cur).pos as int) is Val,
    ensures
        final(cur).data == old(cur).data,
        final(cur).header == old(cur).header,
        final(cur).wf(),
        parse_morph_material(old(cur).data@, *old(cur).header, old(cur).pos as int)
            matches Parsed::Val(v, end) ==> (r == v && final(cur).pos == end),
{
    proof {
        reveal(parse_morph_material);
    }
    let material = cur.read_material_index();
    let opb = cur.read_u8();
    let op = if opb == 0 {
        morph::MaterialOp::Mul
    } else {
        morph::MaterialOp::Add
    };
    let diffuse = cur.read_float4();
    let specular = cur.read_float3();
    let specular_power = cur.read_f32_bits();
    let ambient = cur.read_float3();
    let edge_color = cur.read_float4();
    let edge_size = cur.read_f32_bits();
    let texture = cur.read_float4();
    let sphere = cur.read_float4();
    let toon = cur.read_float4();
    morph::Material {
        material,
        op,
        diffuse,
        specular,
        specular_power,
        ambient,
        edge_color,
        edge_size,
        texture,
        sphere,
        toon,
    }
}

/// Decode one element of a display group.
pub fn read_display_element(cur: &mut DataCursor) -> (r: DisplayElement)
    requires
        old(cur).wf(),
        parse_display_element(old(cur).data@, *old(cur).header, old(cur).pos as int) is Val,
    ensures
        final(cur).data == old(cur).data,
        final(cur).header == old(cur).header,
        final(cur).wf(),
        parse_display_element(old(cur).data@, *old(cur).header, old(cur).pos as int)
            matches Parsed::Val(v, end) ==> (r == v && final(cur).pos == end),
{
    proof {
        reveal(parse_display_element);
    }
    let tag = cur.read_u8();
    if tag == 0 {
        DisplayElement::Bone(cur.read_bone_index())
    } else {
        DisplayElement::Morph(cur.read_morph_index())
    }
}

/// Decode a run of `len` inverse-kinematics chain items.
#[verifier::rlimit(60)]
pub fn read_ik_link_list(cur: &mut DataCursor, len: u32) -> (r: Vec<IkLink>)
    requires
        old(cur).wf(),
        parse_list(old(cur).data@, old(cur).pos as int, len as nat, ik_link_fn(*old(cur).header)) is Val,
    ensures
        final(cur).data == old(cur).data,
        final(cur).header == old(cur).header,
        final(cur).wf(),
        parse_list(old(cur).data@, old(cur).pos as int, len as nat, ik_link_fn(*old(cur).header))
            matches Parsed::Val(s, end) ==> (r@ == s && final(cur).pos == end),
{
    let ghost d = cur.data@;
    let ghost start = cur.pos as int;
    let ghost lf = ik_link_fn(*cur.header);
    let mut out: Vec<IkLink> = Vec::new();
    let mut i: u32 = 0;
    while i < len
        invariant
            cur.wf(),
            cur.data == old(cur).data,
            cur.header == old(cur).header,
            d == cur.data@,
            i <= len,
            lf == ik_link_fn(*cur.header),
            parse_list(d, start, len as nat, lf) is Val,
            parse_list(d, start, i as nat, lf) == Parsed::Val(out@, cur.pos as int),
        decreases len - i,
    {
        let ghost prev = cur.pos as int;
        let ghost sofar = out@;
        proof {
            lemma_parse_list_mid(d, start, i as nat, len as nat, lf, sofar, prev);
            assert(lf(d, prev) == parse_ik_link(d, *cur.header, prev));
        }
        let item = read_ik_link(cur);
        out.push(item);
        proof {
            match lf(d, prev) {
                Parsed::Val(v, end) => {
                    lemma_parse_list_step(d, start, i as nat, lf, sofar, prev, v, end);
                },
                _ => {
                    assert(false);
                },
            }
        }
        i = i + 1;
    }
    out
}

/// Decode a run of `len` morph-group items.
#[verifier::rlimit(60)]
pub fn read_morph_group_list(cur: &mut DataCursor, len: u32) -> (r: Vec<morph::Group>)
    requires
        old(cur).wf(),
        parse_list(old(cur).data@, old(cur).pos as int, len as nat, morph_group_fn(*old(cur).header)) is Val,
    ensures
        final(cur).data == old(cur).data,
        final(cur).header == old(cur).header,
        final(cur).wf(),
        parse_list(old(cur).data@, old(cur).pos as int, len as nat, morph_group_fn(*old(cur).header))
            matches Parsed::Val(s, end) ==> (r@ == s && final(cur).pos == end),
{
    let ghost d = cur.data@;
    let ghost start = cur.pos as int;
    let ghost lf = morph_group_fn(*cur.header);
    let mut out: Vec<morph::Group> = Vec::new();
    let mut i: u32 = 0;
    while i < len
        invariant
            cur.wf(),
            cur.data == old(cur).data,
            cur.header == old(cur).header,
            d == cur.data@,
            i <= len,
            lf == morph_group_fn(*cur.header),
            parse_list(d, start, len as nat, lf) is Val,
            parse_list(d, start, i as nat, lf) == Parsed::Val(out@, cur.pos as int),
        decreases len - i,
    {
        let ghost prev = cur.pos as int;
        let ghost sofar = out@;
        proof {
            lemma_parse_list_mid(d, start, i as nat, len as nat, lf, sofar, prev);
            assert(lf(d, prev) == parse_morph_group(d, *cur.header, prev));
        }
        let item = read_morph_group(cur);
        out.push(item);
        proof {
            match lf(d, prev) {
                Parsed::Val(v, end) => {
                    lemma_parse_list_step(d, start, i as nat, lf, sofar, prev, v, end);
                },
                _ => {
                    assert(false);
                },
            }
        }
        i = i + 1;
    }
    out
}

/// Decode a run of `len` morph-vertex items.
#[verifier::rlimit(60)]
pub fn read_morph_vertex_list(cur: &mut DataCursor, len: u32) -> (r: Vec<morph::Vertex>)
    requires
        old(cur).wf(),
        parse_list(old(cur).data@, old(cur).pos as int, len as nat, morph_vertex_fn(*old(cur).header)) is Val,
    ensures
        final(cur).data == old(cur).data,
        final(cur).header == old(cur).header,
        final(cur).wf(),
        parse_list(old(cur).data@, old(cur).pos as int, len as nat, morph_vertex_fn(*old(cur).header))
            matches Parsed::Val(s, end) ==> (r@ == s && final(cur).pos == end),
{
    let ghost d = cur.data@;
    let ghost start = cur.pos as int;
    let ghost lf = morph_vertex_fn(*cur.header);
    let mut out: Vec<morph::Vertex> = Vec::new();
    let mut i: u32 = 0;
    while i < len
        invariant
            cur.wf(),
            cur.data == old(cur).data,
            cur.header == old(cur).header,
            d == cur.data@,
            i <= len,
            lf == morph_vertex_fn(*cur.header),
            parse_list(d, start, len as nat, lf) is Val,
            parse_list(d, start, i as nat, lf) == Parsed::Val(out@, cur.pos as int),
        decreases len - i,
    {
        let ghost prev = cur.pos as int;
        let ghost sofar = out@;
        proof {
            lemma_parse_list_mid(d, start, i as nat, len as nat, lf, sofar, prev);
            assert(lf(d, prev) == parse_morph_vertex(d, *cur.header, prev));
        }
        let item = read_morph_vertex(cur);
        out.push(item);
        proof {
            match lf(d, prev) {
                Parsed::Val(v, end) => {
                    lemma_parse_list_step(d, start, i as nat, lf, sofar, prev, v, end);
                },
                _ => {
                    assert(false);
                },
            }
        }
        i = i + 1;
    }
    out
}

/// Decode a run of `len` morph-bone items.
#[verifier::rlimit(60)]
pub fn read_morph_bone_list(cur: &mut DataCursor, len: u32) -> (r: Vec<morph::Bone>)
    requires
        old(cur).wf(),
        parse_list(old(cur).data@, old(cur).pos as int, len as nat, morph_bone_fn(*old(cur).header)) is Val,
    ensures
        final(cur).data == old(cur).data,
        final(cur).header == old(cur).header,
        final(cur).wf(),
        parse_list(old(cur).data@, old(cur).pos as int, len as nat, morph_bone_fn(*old(cur).header))
            matches Parsed::Val(s, end) ==> (r@ == s && final(cur).pos == end),
{
    let ghost d = cur.data@;
    let ghost start = cur.pos as int;
    let ghost lf = morph_bone_fn(*cur.header);
    let mut out: Vec<morph::Bone> = Vec::new();
    let mut i: u32 = 0;
    while i < len
        invariant
            cur.wf(),
            cur.data == old(cur).data,
            cur.header == old(cur).header,
            d == cur.data@,
            i <= len,
            lf == morph_bone_fn(*cur.header),
            parse_list(d, start, len as nat, lf) is Val,
            parse_list(d, start, i as nat, lf) == Parsed::Val(out@, cur.pos as int),
        decreases len - i,
    {
        let ghost prev = cur.pos as int;
        let ghost sofar = out@;
        proof {
            lemma_parse_list_mid(d, start, i as nat, len as nat, lf, sofar, prev);
            assert(lf(d, prev) == parse_morph_bone(d, *cur.header, prev));
        }
        let item = read_morph_bone(cur);
        out.push(item);
        proof {
            match lf(d, prev) {
                Parsed::Val(v, end) => {
                    lemma_parse_list_step(d, start, i as nat, lf, sofar, prev, v, end);
                },
                _ => {
                    assert(false);
                },
            }
        }
        i = i + 1;
    }
    out
}

/// Decode a run of `len` morph-UV items.
#[verifier::rlimit(60)]
pub fn read_morph_uv_list(cur: &mut DataCursor, len: u32) -> (r: Vec<morph::Uv>)
    requires
        old(cur).wf(),
        parse_list(old(cur).data@, old(cur).pos as int, len as nat, morph_uv_fn(*old(cur).header)) is Val,
    ensures
        final(cur).data == old(cur).data,
        final(cur).header == old(cur).header,
        final(cur).wf(),
        parse_list(old(cur).data@, old(cur).pos as int, len as nat, morph_uv_fn(*old(cur).header))
            matches Parsed::Val(s, end) ==> (r@ == s && final(cur).pos == end),
{
    let ghost d = cur.data@;
    let ghost start = cur.pos as int;
    let ghost lf = morph_uv_fn(*cur.header);
    let mut out: Vec<morph::Uv> = Vec::new();
    let mut i: u32 = 0;
    while i < len
        invariant
            cur.wf(),
            cur.data == old(cur).data,
            cur.header == old(cur).header,
            d == cur.data@,
            i <= len,
            lf == morph_uv_fn(*cur.header),
            parse_list(d, start, len as nat, lf) is Val,
            parse_list(d, start, i as nat, lf) == Parsed::Val(out@, cur.pos as int),
        decreases len - i,
    {
        let ghost prev = cur.pos as int;
        let ghost sofar = out@;
        proof {
            lemma_parse_list_mid(d, start, i as nat, len as nat, lf, sofar, prev);
            assert(lf(d, prev) == parse_morph_uv(d, *cur.header, prev));
        }
        let item = read_morph_uv(cur);
        out.push(item);
        proof {
            match lf(d, prev) {
                Parsed::Val(v, end) => {
                    lemma_parse_list_step(d, start, i as nat, lf, sofar, prev, v, end);
                },
                _ => {
                    assert(false);
                },
            }
        }
        i = i + 1;
    }
    out
}

/// Decode a run of `len` morph-material items.
#[verifier::rlimit(60)]
pub fn read_morph_material_list(cur: &mut DataCursor, len: u32) -> (r: Vec<morph::Material>)
    requires
        old(cur).wf(),
        parse_list(old(cur).data@, old(cur).pos as int, len as nat, morph_material_fn(*old(cur).header)) is Val,
    ensures
        final(cur).data == old(cur).data,
        final(cur).header == old(cur).header,
        final(cur).wf(),
        parse_list(old(cur).data@, old(cur).pos as int, len as nat, morph_material_fn(*old(cur).header))
            matches Parsed::Val(s, end) ==> (r@ == s && final(cur).pos == end),
{
    let ghost d = cur.data@;
    let ghost start = cur.pos as int;
    let ghost lf = morph_material_fn(*cur.header);
    let mut out: Vec<morph::Material> = Vec::new();
    let mut i: u32 = 0;
    while i < len
        invariant
            cur.wf(),
            cur.data == old(cur).data,
            cur.header == old(cur).header,
            d == cur.data@,
            i <= len,
            lf == morph_material_fn(*cur.header),
            parse_list(d, start, len as nat, lf) is Val,
            parse_list(d, start, i as nat, lf) == Parsed::Val(out@, cur.pos as int),
        decreases len - i,
    {
        let ghost prev = cur.pos as int;
        let ghost sofar = out@;
        proof {
            lemma_parse_list_mid(d, start, i as nat, len as nat, lf, sofar, prev);
            assert(lf(d, prev) == parse_morph_material(d, *cur.header, prev));
        }
        let item = read_morph_material(cur);
        out.push(item);
        proof {
            match lf(d, prev) {
                Parsed::Val(v, end) => {
                    lemma_parse_list_step(d, start, i as nat, lf, sofar, prev, v, end);
                },
                _ => {
                    assert(false);
                },
            }
        }
        i = i + 1;
    }
    out
}

/// Decode a run of `len` display-element items.
#[verifier::rlimit(60)]
pub fn read_display_element_list(cur: &mut DataCursor, len: u32) -> (r: Vec<DisplayElement>)
    requires
        old(cur).wf(),
        parse_list(old(cur).data@, old(cur).pos as int, len as nat, display_element_fn(*old(cur).header)) is Val,
    ensures
        final(cur).data == old(cur).data,
        final(cur).header == old(cur).header,
        final(cur).wf(),
        parse_list(old(cur).data@, old(cur).pos as int, len as nat, display_element_fn(*old(cur).header))
            matches Parsed::Val(s, end) ==> (r@ == s && final(cur).pos == end),
{
    let ghost d = cur.data@;
    let ghost start = cur.pos as int;
    let ghost lf = display_element_fn(*cur.header);
    let mut out: Vec<DisplayElement> = Vec::new();
    let mut i: u32 = 0;
    while i < len
        invariant
            cur.wf(),
            cur.data == old(cur).data,
            cur.header == old(cur).header,
            d == cur.data@,
            i <= len,
            lf == display_element_fn(*cur.header),
            parse_list(d, start, len as nat, lf) is Val,
            parse_list(d, start, i as nat, lf) == Parsed::Val(out@, cur.pos as int),
        decreases len - i,
    {
        let ghost prev = cur.pos as int;
        let ghost sofar = out@;
        proof {
            lemma_parse_list_mid(d, start, i as nat, len as nat, lf, sofar, prev);
            assert(lf(d, prev) == parse_display_element(d, *cur.header, prev));
        }
        let item = read_display_element(cur);
        out.push(item);
        proof {
            match lf(d, prev) {
                Parsed::Val(v, end) => {
                    lemma_parse_list_step(d, start, i as nat, lf, sofar, prev, v, end);
                },
                _ => {
                    assert(false);
                },
            }
        }
        i = i + 1;
    }
    out
}


/// Decode one material record.
#[verifier::rlimit(100)]
pub fn read_material(cur: &mut DataCursor) -> (r: Material)
    requires
        old(cur).wf(),
        parse_material(old(cur).data@, *old(cur).header, old(cur).pos as int) is Val,
    ensures
        final(cur).data == old(cur).data,
        final(cur).header == old(cur).header,
        final(cur).wf(),
        parse_material(old(cur).data@, *old(cur).header, old(cur).pos as int) matches Parsed::Val(
            v,
            end,
        ) ==> (r@ == v && final(cur).pos == end),
{
    proof {
        reveal(parse_material);
    }
    let name = cur.read_string();
    let name_en = cur.read_string();
    let diffuse = cur.read_float4();
    let specular = cur.read_float3();
    let specular_power = cur.read_f32_bits();
    let ambient = cur.read_float3();
    let flags = cur.read_u8();
    let both = flags & 0x01 != 0;
    let ground_shadow = flags & 0x02 != 0;
    let self_shadow_map = flags & 0x04 != 0;
    let self_shadow = flags & 0x08 != 0;
    let edge = flags & 0x10 != 0;
    let edge_color = cur.read_float4();
    let edge_size = cur.read_f32_bits();
    let texture = cur.read_texture_index();
    let sphere = cur.read_texture_index();
    let sm = cur.read_u8();
    let sphere_mode = if sm == 0 {
        SphereMode::Disabled
    } else if sm == 1 {
        SphereMode::Add
    } else if sm == 2 {
        SphereMode::Mul
    } else {
        SphereMode::SubTexture
    };
    let tk = cur.read_u8();
    let toon = if tk == 0 {
        Toon::Texture(cur.read_texture_index())
    } else {
        Toon::Shared(cur.read_u8())
    };
    let memo = cur.read_string();
    let index_count = cur.read_u32();
    Material {
        name,
        name_en,
        diffuse,
        specular,
        specular_power,
        ambient,
        both,
        ground_shadow,
        self_shadow_map,
        self_shadow,
        edge,
        edge_color,
        edge_size,
        texture,
        sphere,
        sphere_mode,
        toon,
        memo,
        index_count,
    }
}

/// Decode one bone record, reading its flag-gated blocks in the format's
/// fixed order.
#[verifier::rlimit(100)]
pub fn read_bone(cur: &mut DataCursor) -> (r: Bone)
    requires
        old(cur).wf(),
        parse_bone(old(cur).data@, *old(cur).header, old(cur).pos as int) is Val,
    ensures
        final(cur).data == old(cur).data,
        final(cur).header == old(cur).header,
        final(cur).wf(),
        parse_bone(old(cur).data@, *old(cur).header, old(cur).pos as int) matches Parsed::Val(
            v,
            end,
        ) ==> (r@ == v && final(cur).pos == end),
{
    proof {
        reveal(parse_bone);
    }
    let ghost d = cur.data@;
    let ghost h = *cur.header;
    let ghost bs = cur.header.bone_index_size as int;
    let name = cur.read_string();
    let ghost p1 = cur.pos as int;
    let name_en = cur.read_string();
    let ghost p2 = cur.pos as int;
    let position = cur.read_float3();
    let parent = cur.read_bone_index();
    let deform_hierarchy = cur.read_i32();
    let ghost p3 = cur.pos as int;
    proof {
        assert(p3 == p2 + 12 + bs + 4);
    }
    let flags = cur.read_u16();
    let ghost q0 = cur.pos as int;
    let connected_to = if flags & 0x0001 == 0 {
        ConnectTo::Offset(cur.read_float3())
    } else {
        ConnectTo::Bone(cur.read_bone_index())
    };
    let ghost q1 = cur.pos as int;
    let addition = if flags & 0x0100 != 0 || flags & 0x0200 != 0 {
        Some(
            Addition {
                rotation: flags & 0x0100 != 0,
                translation: flags & 0x0200 != 0,
                local: flags & 0x0080 != 0,
                bone: cur.read_bone_index(),
                ratio: cur.read_f32_bits(),
            },
        )
    } else {
        None
    };
    let ghost q2 = cur.pos as int;
    let fixed_pole = if flags & 0x0400 != 0 {
        Some(cur.read_float3())
    } else {
        None
    };
    let ghost q3 = cur.pos as int;
    let local_pole = if flags & 0x0800 != 0 {
        Some(LocalPole { x: cur.read_float3(), z: cur.read_float3() })
    } else {
        None
    };
    let ghost q4 = cur.pos as int;
    let external_parent = if flags & 0x2000 != 0 {
        let raw = cur.read_u32();
        Some(
            if raw >= 0x8000_0000 {
                usize::MAX - 0xffff_ffff + (raw as usize)
            } else {
                raw as usize
            },
        )
    } else {
        None
    };
    let ghost q5 = cur.pos as int;
    let ik = if flags & 0x0020 != 0 {
        let target_bone = cur.read_bone_index();
        let loop_count = cur.read_u32();
        let angle = cur.read_f32_bits();
        let link_len = cur.read_u32();
        let links = read_ik_link_list(cur, link_len);
        Some(Ik { target_bone, loop_count, angle, links })
    } else {
        None
    };
    Bone {
        name,
        name_en,
        position,
        parent,
        deform_hierarchy,
        connected_to,
        rotatable: flags & 0x0002 != 0,
        translatable: flags & 0x0004 != 0,
        visibility: flags & 0x0008 != 0,
        operable: flags & 0x0010 != 0,
        ik,
        addition,
        after_physics: flags & 0x1000 != 0,
        fixed_pole,
        local_pole,
        external_parent,
    }
}

/// Decode one morph record, dispatching on its kind byte.
#[verifier::rlimit(100)]
pub fn read_morph(cur: &mut DataCursor) -> (r: Morph)
    requires
        old(cur).wf(),
        parse_morph(old(cur).data@, *old(cur).header, old(cur).pos as int) is Val,
    ensures
        final(cur).data == old(cur).data,
        final(cur).header == old(cur).header,
        final(cur).wf(),
        parse_morph(old(cur).data@, *old(cur).header, old(cur).pos as int) matches Parsed::Val(
            v,
            end,
        ) ==> (r@ == v && final(cur).pos == end),
{
    proof {
        reveal(parse_morph);
    }
    let name = cur.read_string();
    let name_en = cur.read_string();
    let pb = cur.read_u8();
    let panel = if pb == 0 {
        Panel::Reserved
    } else if pb == 1 {
        Panel::Eyebrow
    } else if pb == 2 {
        Panel::Eye
    } else if pb == 3 {
        Panel::Mouth
    } else {
        Panel::Other
    };
    let ty = cur.read_u8();
    let len = cur.read_u32();
    let kind = if ty == 0 {
        morph::Kind::Group(read_morph_group_list(cur, len))
    } else if ty == 1 {
        morph::Kind::Vertex(read_morph_vertex_list(cur, len))
    } else if ty == 2 {
        morph::Kind::Bone(read_morph_bone_list(cur, len))
    } else if ty == 3 {
        morph::Kind::Uv(read_morph_uv_list(cur, len))
    } else if ty <= 7 {
        morph::Kind::ExtendedUv((ty - 4) as usize, read_morph_uv_list(cur, len))
    } else {
        morph::Kind::Material(read_morph_material_list(cur, len))
    };
    Morph { name, name_en, panel, kind }
}

/// Decode one display-group record.
#[verifier::rlimit(100)]
pub fn read_display_group(cur: &mut DataCursor) -> (r: DisplayGroup)
    requires
        old(cur).wf(),
        parse_display_group(old(cur).data@, *old(cur).header, old(cur).pos as int) is Val,
    ensures
        final(cur).data == old(cur).data,
        final(cur).header == old(cur).header,
        final(cur).wf(),
        parse_display_group(old(cur).data@, *old(cur).header, old(cur).pos as int)
            matches Parsed::Val(v, end) ==> (r@ == v && final(cur).pos == end),
{
    proof {
        reveal(parse_display_group);
    }
    let name = cur.read_string();
    let name_en = cur.read_string();
    let special = cur.read_u8() != 0;
    let len = cur.read_u32();
    let elements = read_display_element_list(cur, len);
    DisplayGroup { name, name_en, special, elements }
}

/// Decode one rigid-body record.
#[verifier::rlimit(100)]
pub fn read_rigid(cur: &mut DataCursor) -> (r: Rigid)
    requires
        old(cur).wf(),
        parse_rigid(old(cur).data@, *old(cur).header, old(cur).pos as int) is Val,
    ensures
        final(cur).data == old(cur).data,
        final(cur).header == old(cur).header,
        final(cur).wf(),
        parse_rigid(old(cur).data@, *old(cur).header, old(cur).pos as int) matches Parsed::Val(
            v,
            end,
        ) ==> (r@ == v && final(cur).pos == end),
{
    proof {
        reveal(parse_rigid);
    }
    let name = cur.read_string();
    let name_en = cur.read_string();
    let bone = cur.read_bone_index();
    let group = cur.read_u8();
    let non_collision_groups = cur.read_u16();
    let sb = cur.read_u8();
    let shape = if sb == 0 {
        rigid::Shape::Sphere
    } else if sb == 1 {
        rigid::Shape::Box
    } else {
        rigid::Shape::Capsule
    };
    let size = cur.read_float3();
    let position = cur.read_float3();
    let rotation = cur.read_float3();
    let mass = cur.read_f32_bits();
    let dump_translation = cur.read_f32_bits();
    let dump_rotation = cur.read_f32_bits();
    let repulsive = cur.read_f32_bits();
    let friction = cur.read_f32_bits();
    let mb = cur.read_u8();
    let method = if mb == 0 {
        rigid::Method::Static
    } else if mb == 1 {
        rigid::Method::Dynamic
    } else {
        rigid::Method::DynamicWithBone
    };
    Rigid {
        name,
        name_en,
        bone,
        group,
        non_collision_groups,
        shape,
        size,
        position,
        rotation,
        mass,
        dump_translation,
        dump_rotation,
        repulsive,
        friction,
        method,
    }
}

/// Decode one joint record.
#[verifier::rlimit(100)]
pub fn read_joint(cur: &mut DataCursor) -> (r: Joint)
    requires
        old(cur).wf(),
        parse_joint(old(cur).data@, *old(cur).header, old(cur).pos as int) is Val,
    ensures
        final(cur).data == old(cur).data,
        final(cur).header == old(cur).header,
        final(cur).wf(),
        parse_joint(old(cur).data@, *old(cur).header, old(cur).pos as int) matches Parsed::Val(
            v,
            end,
        ) ==> (r@ == v && final(cur).pos == end),
{
    proof {
        reveal(parse_joint);
    }
    let name = cur.read_string();
    let name_en = cur.read_string();
    let _ty = cur.read_u8();
    let rigids = RigidPair(cur.read_rigid_index(), cur.read_rigid_index());
    let position = cur.read_float3();
    let rotation = cur.read_float3();
    let limit_translation = AngleLimit { lower: cur.read_float3(), upper: cur.read_float3() };
    let limit_rotation = AngleLimit { lower: cur.read_float3(), upper: cur.read_float3() };
    let spring_translation = cur.read_float3();
    let spring_rotation = cur.read_float3();
    Joint {
        name,
        name_en,
        rigids,
        position,
        rotation,
        limit_translation,
        limit_rotation,
        spring_translation,
        spring_rotation,
    }
}

} // verus!
