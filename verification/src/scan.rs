//! The structural scanner: one forward pass over the whole buffer.
//!
//! The scanner never materializes record contents. It advances a [`Seeker`]
//! by the exact width of every fixed and flag-gated field, validating each
//! tag byte on the way, and records the offset at which each section begins.
//! Its single pass is the only place format-level consistency is enforced:
//! [`scan_spec`] says exactly which buffers it accepts and with which
//! offsets, and the section decoders rely on that acceptance.

use crate::cursor::Seeker;
use crate::header::Encoding;
use crate::header::Header;
use crate::header::index_size_ok;
use crate::model::le32;
use crate::model::parse_list;
use crate::model::parse_section;
use crate::model::parse_vertex;
use crate::model::parse_face;
use crate::model::parse_texture;
use crate::model::parse_material;
use crate::model::parse_bone;
use crate::model::parse_ik_link;
use crate::model::parse_morph;
use crate::model::parse_morph_material;
use crate::model::parse_display_element;
use crate::model::parse_display_group;
use crate::model::parse_rigid;
use crate::model::parse_joint;
use crate::model::skip_string;
use crate::model::vertex_fn;
use crate::model::face_fn;
use crate::model::texture_fn;
use crate::model::material_fn;
use crate::model::bone_fn;
use crate::model::ik_link_fn;
use crate::model::morph_fn;
use crate::model::morph_group_fn;
use crate::model::morph_vertex_fn;
use crate::model::morph_bone_fn;
use crate::model::morph_uv_fn;
use crate::model::morph_material_fn;
use crate::model::display_element_fn;
use crate::model::display_group_fn;
use crate::model::rigid_fn;
use crate::model::joint_fn;
use crate::model::lemma_parse_list_fail;
use crate::model::lemma_parse_list_step;
use crate::model::lemma_parse_list_fixed;
use crate::model::lemma_morph_group_fixed;
use crate::model::lemma_morph_vertex_fixed;
use crate::model::lemma_morph_bone_fixed;
use crate::model::lemma_morph_uv_fixed;
use crate::model::scan_list_obligation;
use crate::model::Parsed;
use crate::reader::Error;
use crate::reader::ErrorKind;
use crate::morph;
use crate::BoneV;
use crate::DisplayElement;
use crate::DisplayGroupV;
use crate::IkLink;
use crate::JointV;
use crate::MaterialV;
use crate::MorphV;
use crate::RigidV;
use crate::VertexV;
use vstd::prelude::*;

verus! {

/// The offset table: where each metadata string and each section begins.
#[derive(Clone, Copy, PartialEq, Eq, Structural, Debug)]
pub struct Indices {
    pub name: u64,
    pub name_en: u64,
    pub comment: u64,
    pub comment_en: u64,
    pub vertices: u64,
    pub faces: u64,
    pub textures: u64,
    pub materials: u64,
    pub bones: u64,
    pub morphs: u64,
    pub display_groups: u64,
    pub rigids: u64,
    pub joints: u64,
}

/// Outcome of interpreting the fixed preamble.
pub enum HeaderScan {
    Good(Header),
    Fail(ErrorKind),
}

/// The header the preamble bytes describe, assuming they passed every check.
pub open spec fn header_of(d: Seq<u8>) -> Header {
    Header {
        encoding: if d[9] == 0 {
            Encoding::Utf16
        } else {
            Encoding::Utf8
        },
        extended_uv: d[10],
        vertex_index_size: d[11] as u64,
        texture_index_size: d[12] as u64,
        material_index_size: d[13] as u64,
        bone_index_size: d[14] as u64,
        morph_index_size: d[15] as u64,
        rigid_index_size: d[16] as u64,
    }
}

/// Interpret the preamble: the 4-byte magic, the version float (exactly 2.0,
/// stored as its bit pattern), the declared header length (exactly 8), and
/// the 8 header bytes, each checked against its legal range.
pub open spec fn header_scan(d: Seq<u8>) -> HeaderScan {
    if d.len() < 4 {
        HeaderScan::Fail(ErrorKind::Io)
    } else if !(d[0] == 0x50 && d[1] == 0x4d && d[2] == 0x58 && d[3] == 0x20) {
        HeaderScan::Fail(ErrorKind::InvalidHeader)
    } else if d.len() < 8 {
        HeaderScan::Fail(ErrorKind::Io)
    } else if le32(d, 4) != 0x4000_0000 {
        HeaderScan::Fail(ErrorKind::UnsupportedVersion)
    } else if d.len() < 9 {
        HeaderScan::Fail(ErrorKind::Io)
    } else if d[8] != 8 {
        HeaderScan::Fail(ErrorKind::InvalidHeader)
    } else if d.len() < 17 {
        HeaderScan::Fail(ErrorKind::Io)
    } else if d[9] > 1 {
        HeaderScan::Fail(ErrorKind::InvalidHeader)
    } else if d[10] > 4 {
        HeaderScan::Fail(ErrorKind::InvalidHeader)
    } else if !(index_size_ok(d[11] as u64) && index_size_ok(d[12] as u64) && index_size_ok(
        d[13] as u64,
    ) && index_size_ok(d[14] as u64) && index_size_ok(d[15] as u64) && index_size_ok(
        d[16] as u64,
    )) {
        HeaderScan::Fail(ErrorKind::InvalidHeader)
    } else {
        HeaderScan::Good(header_of(d))
    }
}

/// Skip one vertex record, validating its weight-kind byte.
fn skip_vertex(s: &mut Seeker, h: &Header) -> (r: Result<(), Error>)
    requires
        old(s).wf(),
        h.wf(),
    ensures
        final(s).data == old(s).data,
        final(s).wf(),
        parse_vertex(old(s).data@, *h, old(s).pos as int) matches Parsed::Val(_, end) ==> (
        r is Ok && final(s).pos == end),
        parse_vertex(old(s).data@, *h, old(s).pos as int) is Invalid ==> (r matches Err(e)
            && e matches Error::InvalidData(_)),
        parse_vertex(old(s).data@, *h, old(s).pos as int) is Eof ==> (r matches Err(e) && e matches
            Error::Io),
{
    proof {
        reveal(parse_vertex);
    }
    s.seek_bin(12)?;
    s.seek_bin(12)?;
    s.seek_bin(8)?;
    s.seek_bin(16 * h.extended_uv as u64)?;
    let tag = s.read_u8()?;
    match tag {
        0 => {
            s.seek_bin(h.bone_index_size)?;
        },
        1 => {
            s.seek_bin(h.bone_index_size * 2 + 4)?;
        },
        2 => {
            s.seek_bin(h.bone_index_size * 4 + 4 * 4)?;
        },
        3 => {
            s.seek_bin(h.bone_index_size * 2 + 4 + 4 * 3 * 3)?;
        },
        _ => {
            return Err(Error::invalid_data("vertex weight type"));
        },
    }
    s.seek_bin(4)?;
    Ok(())
}

/// Skip the vertex section: its record count, then each record.
#[verifier::rlimit(60)]
fn scan_vertices(s: &mut Seeker, h: &Header) -> (r: Result<(), Error>)
    requires
        old(s).wf(),
        h.wf(),
    ensures
        final(s).data == old(s).data,
        final(s).wf(),
        parse_section(old(s).data@, old(s).pos as int, vertex_fn(*h)) matches Parsed::Val(_, end)
            ==> (r is Ok && final(s).pos == end),
        parse_section(old(s).data@, old(s).pos as int, vertex_fn(*h)) is Invalid ==> (
        r matches Err(e) && e matches Error::InvalidData(_)),
        parse_section(old(s).data@, old(s).pos as int, vertex_fn(*h)) is Eof ==> (r matches Err(e)
            && e matches Error::Io),
{
    let n = s.read_u32()?;
    let ghost d = s.data@;
    let ghost start = s.pos as int;
    let ghost f = vertex_fn(*h);
    let ghost mut gs: Seq<VertexV> = Seq::empty();
    let mut i: u32 = 0;
    while i < n
        invariant
            s.wf(),
            s.data == old(s).data,
            h.wf(),
            d == s.data@,
            d == old(s).data@,
            i <= n,
            f == vertex_fn(*h),
            start == old(s).pos + 4,
            old(s).pos + 4 <= d.len(),
            n == le32(d, old(s).pos as int),
            parse_list(d, start, i as nat, f) == Parsed::Val(gs, s.pos as int),
        decreases n - i,
    {
        let ghost prev = s.pos as int;
        proof {
            assert(f(d, prev) == parse_vertex(d, *h, prev));
        }
        match skip_vertex(s, h) {
            Ok(_) => {},
            Err(e) => {
                proof {
                    lemma_parse_list_fail(d, start, i as nat, n as nat, f, gs, prev);
                    match f(d, prev) {
                        Parsed::Val(_, _) => {
                            assert(false);
                        },
                        Parsed::Invalid => {
                            assert(parse_list(d, start, n as nat, f) is Invalid);
                            assert(parse_section(d, old(s).pos as int, f) is Invalid);
                        },
                        Parsed::Eof => {
                            assert(parse_list(d, start, n as nat, f) is Eof);
                            assert(parse_section(d, old(s).pos as int, f) is Eof);
                        },
                    }
                }
                return Err(e);
            },
        }
        proof {
            match f(d, prev) {
                Parsed::Val(v, end) => {
                    lemma_parse_list_step(d, start, i as nat, f, gs, prev, v, end);
                    gs = gs.push(v);
                },
                _ => {
                    assert(false);
                },
            }
        }
        i = i + 1;
    }
    Ok(())
}


/// Skip one texture path string.
fn skip_texture(s: &mut Seeker, h: &Header) -> (r: Result<(), Error>)
    requires
        old(s).wf(),
        h.wf(),
    ensures
        final(s).data == old(s).data,
        final(s).wf(),
        parse_texture(old(s).data@, *h, old(s).pos as int) matches Parsed::Val(_, end) ==> (
        r is Ok && final(s).pos == end),
        parse_texture(old(s).data@, *h, old(s).pos as int) is Invalid ==> (r matches Err(e)
            && e matches Error::InvalidData(_)),
        parse_texture(old(s).data@, *h, old(s).pos as int) is Eof ==> (r matches Err(e)
            && e matches Error::Io),
{
    s.seek_string()?;
    Ok(())
}

/// Skip one material record, validating its sphere-mode and toon-kind bytes.
#[verifier::rlimit(60)]
fn skip_material(s: &mut Seeker, h: &Header) -> (r: Result<(), Error>)
    requires
        old(s).wf(),
        h.wf(),
    ensures
        final(s).data == old(s).data,
        final(s).wf(),
        parse_material(old(s).data@, *h, old(s).pos as int) matches Parsed::Val(_, end) ==> (
        r is Ok && final(s).pos == end),
        parse_material(old(s).data@, *h, old(s).pos as int) is Invalid ==> (r matches Err(e)
            && e matches Error::InvalidData(_)),
        parse_material(old(s).data@, *h, old(s).pos as int) is Eof ==> (r matches Err(e)
            && e matches Error::Io),
{
    proof {
        reveal(parse_material);
    }
    s.seek_string()?;
    s.seek_string()?;
    s.seek_bin(16 + 12 + 4 + 12 + 1 + 16 + 4 + h.texture_index_size * 2)?;
    let sphere_mode = s.read_u8()?;
    if sphere_mode > 3 {
        return Err(Error::invalid_data("material sphere mode"));
    }
    match s.read_u8()? {
        0 => {
            s.seek_bin(h.texture_index_size)?;
        },
        1 => {
            s.seek_bin(1)?;
        },
        _ => {
            return Err(Error::invalid_data("material toon flag"));
        },
    }
    s.seek_string()?;
    s.seek_bin(4)?;
    Ok(())
}

/// Skip one bone record, walking its flag-gated optional blocks and its
/// inverse-kinematics chain.
#[verifier::rlimit(100)]
#[verifier::loop_isolation(false)]
fn skip_bone(s: &mut Seeker, h: &Header) -> (r: Result<(), Error>)
    requires
        old(s).wf(),
        h.wf(),
    ensures
        final(s).data == old(s).data,
        final(s).wf(),
        parse_bone(old(s).data@, *h, old(s).pos as int) matches Parsed::Val(_, end) ==> (
        r is Ok && final(s).pos == end),
        parse_bone(old(s).data@, *h, old(s).pos as int) is Invalid ==> (r matches Err(e)
            && e matches Error::InvalidData(_)),
        parse_bone(old(s).data@, *h, old(s).pos as int) is Eof ==> (r matches Err(e)
            && e matches Error::Io),
{
    proof {
        reveal(parse_bone);
    }
    let ghost d = s.data@;
    s.seek_string()?;
    s.seek_string()?;
    s.seek_bin(12 + h.bone_index_size + 4)?;
    let flags = s.read_u16()?;
    if flags & 0x0001 == 0 {
        s.seek_bin(12)?;
    } else {
        s.seek_bin(h.bone_index_size)?;
    }
    if flags & 0x0100 != 0 || flags & 0x0200 != 0 {
        s.seek_bin(h.bone_index_size + 4)?;
    }
    if flags & 0x0400 != 0 {
        s.seek_bin(12)?;
    }
    if flags & 0x0800 != 0 {
        s.seek_bin(12 + 12)?;
    }
    if flags & 0x2000 != 0 {
        s.seek_bin(4)?;
    }
    if flags & 0x0020 != 0 {
        s.seek_bin(h.bone_index_size + 4 + 4)?;
        let link = s.read_u32()?;
        let ghost lstart = s.pos as int;
        let ghost lf = ik_link_fn(*h);
        let ghost mut gls: Seq<IkLink> = Seq::empty();
        let mut i: u32 = 0;
        while i < link
            invariant
                s.wf(),
                s.data == old(s).data,
                i <= link,
                parse_list(d, lstart, i as nat, lf) == Parsed::Val(gls, s.pos as int),
            decreases link - i,
        {
            let ghost prev = s.pos as int;
            proof {
                assert(lf(d, prev) == parse_ik_link(d, *h, prev));
            }
            match skip_ik_link(s, h) {
                Ok(_) => {},
                Err(e) => {
                    proof {
                        lemma_parse_list_fail(d, lstart, i as nat, link as nat, lf, gls, prev);
                    }
                    return Err(e);
                },
            }
            proof {
                match lf(d, prev) {
                    Parsed::Val(v, end) => {
                        lemma_parse_list_step(d, lstart, i as nat, lf, gls, prev, v, end);
                        gls = gls.push(v);
                    },
                    _ => {
                        assert(false);
                    },
                }
            }
            i = i + 1;
        }
    }
    Ok(())
}

/// Skip one link of an inverse-kinematics chain.
fn skip_ik_link(s: &mut Seeker, h: &Header) -> (r: Result<(), Error>)
    requires
        old(s).wf(),
        h.wf(),
    ensures
        final(s).data == old(s).data,
        final(s).wf(),
        parse_ik_link(old(s).data@, *h, old(s).pos as int) matches Parsed::Val(_, end) ==> (
        r is Ok && final(s).pos == end),
        parse_ik_link(old(s).data@, *h, old(s).pos as int) is Invalid ==> (r matches Err(e)
            && e matches Error::InvalidData(_)),
        parse_ik_link(old(s).data@, *h, old(s).pos as int) is Eof ==> (r matches Err(e)
            && e matches Error::Io),
{
    proof {
        reveal(parse_ik_link);
    }
    s.seek_bin(h.bone_index_size)?;
    let angle_limit = s.read_u8()?;
    if angle_limit == 1 {
        s.seek_bin(12 + 12)?;
    }
    Ok(())
}

/// Skip one material item of a material morph, validating its operation byte.
fn skip_morph_material_item(s: &mut Seeker, h: &Header) -> (r: Result<(), Error>)
    requires
        old(s).wf(),
        h.wf(),
    ensures
        final(s).data == old(s).data,
        final(s).wf(),
        parse_morph_material(old(s).data@, *h, old(s).pos as int) matches Parsed::Val(_, end) ==> (
        r is Ok && final(s).pos == end),
        parse_morph_material(old(s).data@, *h, old(s).pos as int) is Invalid ==> (r matches Err(e)
            && e matches Error::InvalidData(_)),
        parse_morph_material(old(s).data@, *h, old(s).pos as int) is Eof ==> (r matches Err(e)
            && e matches Error::Io),
{
    proof {
        reveal(parse_morph_material);
    }
    s.seek_bin(h.material_index_size)?;
    let op = s.read_u8()?;
    if op > 1 {
        return Err(Error::invalid_data("morph material op"));
    }
    s.seek_bin(16 + 12 + 4 + 12 + 16 + 4 + 16 + 16 + 16)?;
    Ok(())
}

/// Skip the items of a material morph, validating each operation byte.
fn skip_morph_material_list(s: &mut Seeker, h: &Header, len: u32) -> (r: Result<(), Error>)
    requires
        old(s).wf(),
        h.wf(),
    ensures
        final(s).data == old(s).data,
        final(s).wf(),
        parse_list(old(s).data@, old(s).pos as int, len as nat, morph_material_fn(*h))
            matches Parsed::Val(_, end) ==> (r is Ok && final(s).pos == end),
        parse_list(old(s).data@, old(s).pos as int, len as nat, morph_material_fn(*h)) is Invalid
            ==> (r matches Err(e) && e matches Error::InvalidData(_)),
        parse_list(old(s).data@, old(s).pos as int, len as nat, morph_material_fn(*h)) is Eof ==> (
        r matches Err(e) && e matches Error::Io),
{
    let ghost d = s.data@;
    let ghost body = s.pos as int;
    let ghost lf = morph_material_fn(*h);
    let ghost mut gls: Seq<morph::Material> = Seq::empty();
    let mut i: u32 = 0;
    while i < len
        invariant
            s.wf(),
            s.data == old(s).data,
            h.wf(),
            d == s.data@,
            i <= len,
            lf == morph_material_fn(*h),
            body == old(s).pos,
            parse_list(d, body, i as nat, lf) == Parsed::Val(gls, s.pos as int),
        decreases len - i,
    {
        let ghost prev = s.pos as int;
        proof {
            assert(lf(d, prev) == parse_morph_material(d, *h, prev));
        }
        match skip_morph_material_item(s, h) {
            Ok(_) => {},
            Err(e) => {
                proof {
                    lemma_parse_list_fail(d, body, i as nat, len as nat, lf, gls, prev);
                }
                return Err(e);
            },
        }
        proof {
            match lf(d, prev) {
                Parsed::Val(v, end) => {
                    lemma_parse_list_step(d, body, i as nat, lf, gls, prev, v, end);
                    gls = gls.push(v);
                },
                _ => {
                    assert(false);
                },
            }
        }
        i = i + 1;
    }
    Ok(())
}

/// Skip the items of one morph, dispatching on its kind byte. The
/// fixed-width kinds are skipped in one stride; the material kind validates
/// each item's operation byte.
#[verifier::rlimit(60)]
fn skip_morph_items(s: &mut Seeker, h: &Header, ty: u8, len: u32) -> (r: Result<(), Error>)
    requires
        old(s).wf(),
        h.wf(),
        ty <= 8,
    ensures
        final(s).data == old(s).data,
        final(s).wf(),
        ty == 0 ==> scan_list_obligation(
            parse_list(old(s).data@, old(s).pos as int, len as nat, morph_group_fn(*h)),
            r,
            old(s).pos as int,
            final(s).pos as int,
        ),
        ty == 1 ==> scan_list_obligation(
            parse_list(old(s).data@, old(s).pos as int, len as nat, morph_vertex_fn(*h)),
            r,
            old(s).pos as int,
            final(s).pos as int,
        ),
        ty == 2 ==> scan_list_obligation(
            parse_list(old(s).data@, old(s).pos as int, len as nat, morph_bone_fn(*h)),
            r,
            old(s).pos as int,
            final(s).pos as int,
        ),
        3 <= ty <= 7 ==> scan_list_obligation(
            parse_list(old(s).data@, old(s).pos as int, len as nat, morph_uv_fn(*h)),
            r,
            old(s).pos as int,
            final(s).pos as int,
        ),
        ty == 8 ==> scan_list_obligation(
            parse_list(old(s).data@, old(s).pos as int, len as nat, morph_material_fn(*h)),
            r,
            old(s).pos as int,
            final(s).pos as int,
        ),
{
    let ghost d = s.data@;
    let ghost body = s.pos as int;
    match ty {
        0 => {
            let w = h.morph_index_size + 4;
            proof {
                lemma_morph_group_fixed(d, *h);
                assert(w * (len as u64) <= 0x8_0000_0000) by (nonlinear_arith)
                    requires
                        w <= 8 && len <= 0xffff_ffffu64,
                ;
                lemma_parse_list_fixed(d, body, len as nat, morph_group_fn(*h), w as int);
                assert((len as nat) * (w as int) == (w as int) * (len as int)) by (nonlinear_arith);
            }
            s.seek_bin(w * len as u64)?;
        },
        1 => {
            let w = h.vertex_index_size + 12;
            proof {
                lemma_morph_vertex_fixed(d, *h);
                assert(w * (len as u64) <= 0x10_0000_0000) by (nonlinear_arith)
                    requires
                        w <= 16 && len <= 0xffff_ffffu64,
                ;
                lemma_parse_list_fixed(d, body, len as nat, morph_vertex_fn(*h), w as int);
                assert((len as nat) * (w as int) == (w as int) * (len as int)) by (nonlinear_arith);
            }
            s.seek_bin(w * len as u64)?;
        },
        2 => {
            let w = h.bone_index_size + 12 + 16;
            proof {
                lemma_morph_bone_fixed(d, *h);
                assert(w * (len as u64) <= 0x20_0000_0000) by (nonlinear_arith)
                    requires
                        w <= 32 && len <= 0xffff_ffffu64,
                ;
                lemma_parse_list_fixed(d, body, len as nat, morph_bone_fn(*h), w as int);
                assert((len as nat) * (w as int) == (w as int) * (len as int)) by (nonlinear_arith);
            }
            s.seek_bin(w * len as u64)?;
        },
        3 | 4 | 5 | 6 | 7 => {
            let w = h.vertex_index_size + 16;
            proof {
                lemma_morph_uv_fixed(d, *h);
                assert(w * (len as u64) <= 0x20_0000_0000) by (nonlinear_arith)
                    requires
                        w <= 32 && len <= 0xffff_ffffu64,
                ;
                lemma_parse_list_fixed(d, body, len as nat, morph_uv_fn(*h), w as int);
                assert((len as nat) * (w as int) == (w as int) * (len as int)) by (nonlinear_arith);
            }
            s.seek_bin(w * len as u64)?;
        },
        _ => {
            skip_morph_material_list(s, h, len)?;
        },
    }
    Ok(())
}

/// Skip one morph record: panel and kind bytes, then the kind's items.
#[verifier::rlimit(100)]
fn skip_morph(s: &mut Seeker, h: &Header) -> (r: Result<(), Error>)
    requires
        old(s).wf(),
        h.wf(),
    ensures
        final(s).data == old(s).data,
        final(s).wf(),
        parse_morph(old(s).data@, *h, old(s).pos as int) matches Parsed::Val(_, end) ==> (
        r is Ok && final(s).pos == end),
        parse_morph(old(s).data@, *h, old(s).pos as int) is Invalid ==> (r matches Err(e)
            && e matches Error::InvalidData(_)),
        parse_morph(old(s).data@, *h, old(s).pos as int) is Eof ==> (r matches Err(e)
            && e matches Error::Io),
{
    proof {
        reveal(parse_morph);
    }
    s.seek_string()?;
    s.seek_string()?;
    let panel = s.read_u8()?;
    if panel > 4 {
        return Err(Error::invalid_data("morph panel"));
    }
    let ty = s.read_u8()?;
    let len = s.read_u32()?;
    if ty > 8 {
        return Err(Error::invalid_data("morph type"));
    }
    skip_morph_items(s, h, ty, len)?;
    Ok(())
}

/// Skip one display-group record, validating each element's kind byte.
#[verifier::rlimit(100)]
#[verifier::loop_isolation(false)]
fn skip_display_group(s: &mut Seeker, h: &Header) -> (r: Result<(), Error>)
    requires
        old(s).wf(),
        h.wf(),
    ensures
        final(s).data == old(s).data,
        final(s).wf(),
        parse_display_group(old(s).data@, *h, old(s).pos as int) matches Parsed::Val(_, end) ==> (
        r is Ok && final(s).pos == end),
        parse_display_group(old(s).data@, *h, old(s).pos as int) is Invalid ==> (r matches Err(e)
            && e matches Error::InvalidData(_)),
        parse_display_group(old(s).data@, *h, old(s).pos as int) is Eof ==> (r matches Err(e)
            && e matches Error::Io),
{
    proof {
        reveal(parse_display_group);
    }
    let ghost d = s.data@;
    s.seek_string()?;
    s.seek_string()?;
    s.seek_bin(1)?;
    let len = s.read_u32()?;
    let ghost body = s.pos as int;
    let ghost lf = display_element_fn(*h);
    let ghost mut gls: Seq<DisplayElement> = Seq::empty();
    let mut i: u32 = 0;
    while i < len
        invariant
            s.wf(),
            s.data == old(s).data,
            i <= len,
            parse_list(d, body, i as nat, lf) == Parsed::Val(gls, s.pos as int),
        decreases len - i,
    {
        let ghost prev = s.pos as int;
        proof {
            assert(lf(d, prev) == parse_display_element(d, *h, prev));
        }
        let step = skip_display_element(s, h);
        match step {
            Ok(_) => {},
            Err(e) => {
                proof {
                    lemma_parse_list_fail(d, body, i as nat, len as nat, lf, gls, prev);
                }
                return Err(e);
            },
        }
        proof {
            match lf(d, prev) {
                Parsed::Val(v, end) => {
                    lemma_parse_list_step(d, body, i as nat, lf, gls, prev, v, end);
                    gls = gls.push(v);
                },
                _ => {
                    assert(false);
                },
            }
        }
        i = i + 1;
    }
    Ok(())
}

/// Skip one element of a display group.
fn skip_display_element(s: &mut Seeker, h: &Header) -> (r: Result<(), Error>)
    requires
        old(s).wf(),
        h.wf(),
    ensures
        final(s).data == old(s).data,
        final(s).wf(),
        parse_display_element(old(s).data@, *h, old(s).pos as int) matches Parsed::Val(_, end)
            ==> (r is Ok && final(s).pos == end),
        parse_display_element(old(s).data@, *h, old(s).pos as int) is Invalid ==> (r matches Err(
            e,
        ) && e matches Error::InvalidData(_)),
        parse_display_element(old(s).data@, *h, old(s).pos as int) is Eof ==> (r matches Err(e)
            && e matches Error::Io),
{
    proof {
        reveal(parse_display_element);
    }
    let element = s.read_u8()?;
    match element {
        0 => {
            s.seek_bin(h.bone_index_size)?;
        },
        1 => {
            s.seek_bin(h.morph_index_size)?;
        },
        _ => {
            return Err(Error::invalid_data("display group element"));
        },
    }
    Ok(())
}

/// Skip one rigid-body record, validating its shape and method bytes.
#[verifier::rlimit(60)]
fn skip_rigid(s: &mut Seeker, h: &Header) -> (r: Result<(), Error>)
    requires
        old(s).wf(),
        h.wf(),
    ensures
        final(s).data == old(s).data,
        final(s).wf(),
        parse_rigid(old(s).data@, *h, old(s).pos as int) matches Parsed::Val(_, end) ==> (
        r is Ok && final(s).pos == end),
        parse_rigid(old(s).data@, *h, old(s).pos as int) is Invalid ==> (r matches Err(e)
            && e matches Error::InvalidData(_)),
        parse_rigid(old(s).data@, *h, old(s).pos as int) is Eof ==> (r matches Err(e)
            && e matches Error::Io),
{
    proof {
        reveal(parse_rigid);
    }
    s.seek_string()?;
    s.seek_string()?;
    s.seek_bin(h.bone_index_size + 1 + 2)?;
    let shape = s.read_u8()?;
    if shape > 2 {
        return Err(Error::invalid_data("rigid shape"));
    }
    s.seek_bin(12 + 12 + 12 + 4 + 4 + 4 + 4 + 4)?;
    let method = s.read_u8()?;
    if method > 2 {
        return Err(Error::invalid_data("rigid method"));
    }
    Ok(())
}

/// Skip one joint record; its type byte must be 0.
#[verifier::rlimit(60)]
fn skip_joint(s: &mut Seeker, h: &Header) -> (r: Result<(), Error>)
    requires
        old(s).wf(),
        h.wf(),
    ensures
        final(s).data == old(s).data,
        final(s).wf(),
        parse_joint(old(s).data@, *h, old(s).pos as int) matches Parsed::Val(_, end) ==> (
        r is Ok && final(s).pos == end),
        parse_joint(old(s).data@, *h, old(s).pos as int) is Invalid ==> (r matches Err(e)
            && e matches Error::InvalidData(_)),
        parse_joint(old(s).data@, *h, old(s).pos as int) is Eof ==> (r matches Err(e)
            && e matches Error::Io),
{
    proof {
        reveal(parse_joint);
    }
    s.seek_string()?;
    s.seek_string()?;
    let ty = s.read_u8()?;
    if ty != 0 {
        return Err(Error::invalid_data("joint type"));
    }
    s.seek_bin(h.rigid_index_size * 2 + 12 * 2 + 12 * 4 + 12 * 2)?;
    Ok(())
}

/// Skip the face section: its index count, which must be a multiple of 3,
/// then the flat run of vertex indices in one stride.
#[verifier::rlimit(60)]
fn scan_faces(s: &mut Seeker, h: &Header) -> (r: Result<(), Error>)
    requires
        old(s).wf(),
        h.wf(),
    ensures
        final(s).data == old(s).data,
        final(s).wf(),
        old(s).pos + 4 > old(s).data@.len() ==> (r matches Err(e) && e matches Error::Io),
        old(s).pos + 4 <= old(s).data@.len() && le32(old(s).data@, old(s).pos as int) % 3 != 0
            ==> (r matches Err(e) && e matches Error::InvalidData(_)),
        old(s).pos + 4 <= old(s).data@.len() && le32(old(s).data@, old(s).pos as int) % 3 == 0
            ==> {
            &&& parse_section(old(s).data@, old(s).pos as int, face_fn(*h)) matches Parsed::Val(
                _,
                end,
            ) ==> (r is Ok && final(s).pos == end)
            &&& parse_section(old(s).data@, old(s).pos as int, face_fn(*h)) is Eof ==> (
            r matches Err(e) && e matches Error::Io)
        },
        old(s).pos + 4 <= old(s).data@.len() ==> !(parse_section(
            old(s).data@,
            old(s).pos as int,
            face_fn(*h),
        ) is Invalid),
{
    let n = s.read_u32()?;
    let ghost d = s.data@;
    let ghost body = s.pos as int;
    let w = h.vertex_index_size;
    proof {
        let lf = face_fn(*h);
        assert forall|p: int| p + w <= d.len() implies (#[trigger] lf(d, p) matches Parsed::Val(
            _,
            end,
        ) && end == p + w) by {
            assert(lf(d, p) == parse_face(d, *h, p));
        }
        assert forall|p: int| p + w > d.len() implies #[trigger] lf(d, p) is Eof by {
            assert(lf(d, p) == parse_face(d, *h, p));
        }
        assert(w * (n as u64) <= 0x4_0000_0000) by (nonlinear_arith)
            requires
                w <= 4 && n <= 0xffff_ffffu64,
        ;
        lemma_parse_list_fixed(d, body, n as nat, lf, w as int);
        assert((n as nat) * (w as int) == (w as int) * (n as int)) by (nonlinear_arith);
    }
    if n % 3 != 0 {
        return Err(Error::invalid_data("faces"));
    }
    s.seek_bin(w * n as u64)?;
    Ok(())
}

/// Skip the textures section: its record count, then each record.
#[verifier::rlimit(60)]
fn scan_textures(s: &mut Seeker, h: &Header) -> (r: Result<(), Error>)
    requires
        old(s).wf(),
        h.wf(),
    ensures
        final(s).data == old(s).data,
        final(s).wf(),
        parse_section(old(s).data@, old(s).pos as int, texture_fn(*h)) matches Parsed::Val(_, end)
            ==> (r is Ok && final(s).pos == end),
        parse_section(old(s).data@, old(s).pos as int, texture_fn(*h)) is Invalid ==> (
        r matches Err(e) && e matches Error::InvalidData(_)),
        parse_section(old(s).data@, old(s).pos as int, texture_fn(*h)) is Eof ==> (r matches Err(e)
            && e matches Error::Io),
{
    let n = s.read_u32()?;
    let ghost d = s.data@;
    let ghost start = s.pos as int;
    let ghost f = texture_fn(*h);
    let ghost mut gs: Seq<Seq<char>> = Seq::empty();
    let mut i: u32 = 0;
    while i < n
        invariant
            s.wf(),
            s.data == old(s).data,
            h.wf(),
            d == s.data@,
            d == old(s).data@,
            i <= n,
            f == texture_fn(*h),
            start == old(s).pos + 4,
            old(s).pos + 4 <= d.len(),
            n == le32(d, old(s).pos as int),
            parse_list(d, start, i as nat, f) == Parsed::Val(gs, s.pos as int),
        decreases n - i,
    {
        let ghost prev = s.pos as int;
        proof {
            assert(f(d, prev) == parse_texture(d, *h, prev));
        }
        match skip_texture(s, h) {
            Ok(_) => {},
            Err(e) => {
                proof {
                    lemma_parse_list_fail(d, start, i as nat, n as nat, f, gs, prev);
                    match f(d, prev) {
                        Parsed::Val(_, _) => {
                            assert(false);
                        },
                        Parsed::Invalid => {
                            assert(parse_list(d, start, n as nat, f) is Invalid);
                            assert(parse_section(d, old(s).pos as int, f) is Invalid);
                        },
                        Parsed::Eof => {
                            assert(parse_list(d, start, n as nat, f) is Eof);
                            assert(parse_section(d, old(s).pos as int, f) is Eof);
                        },
                    }
                }
                return Err(e);
            },
        }
        proof {
            match f(d, prev) {
                Parsed::Val(v, end) => {
                    lemma_parse_list_step(d, start, i as nat, f, gs, prev, v, end);
                    gs = gs.push(v);
                },
                _ => {
                    assert(false);
                },
            }
        }
        i = i + 1;
    }
    Ok(())
}

/// Skip the materials section: its record count, then each record.
#[verifier::rlimit(60)]
fn scan_materials(s: &mut Seeker, h: &Header) -> (r: Result<(), Error>)
    requires
        old(s).wf(),
        h.wf(),
    ensures
        final(s).data == old(s).data,
        final(s).wf(),
        parse_section(old(s).data@, old(s).pos as int, material_fn(*h)) matches Parsed::Val(_, end)
            ==> (r is Ok && final(s).pos == end),
        parse_section(old(s).data@, old(s).pos as int, material_fn(*h)) is Invalid ==> (
        r matches Err(e) && e matches Error::InvalidData(_)),
        parse_section(old(s).data@, old(s).pos as int, material_fn(*h)) is Eof ==> (r matches Err(e)
            && e matches Error::Io),
{
    let n = s.read_u32()?;
    let ghost d = s.data@;
    let ghost start = s.pos as int;
    let ghost f = material_fn(*h);
    let ghost mut gs: Seq<MaterialV> = Seq::empty();
    let mut i: u32 = 0;
    while i < n
        invariant
            s.wf(),
            s.data == old(s).data,
            h.wf(),
            d == s.data@,
            d == old(s).data@,
            i <= n,
            f == material_fn(*h),
            start == old(s).pos + 4,
            old(s).pos + 4 <= d.len(),
            n == le32(d, old(s).pos as int),
            parse_list(d, start, i as nat, f) == Parsed::Val(gs, s.pos as int),
        decreases n - i,
    {
        let ghost prev = s.pos as int;
        proof {
            assert(f(d, prev) == parse_material(d, *h, prev));
        }
        match skip_material(s, h) {
            Ok(_) => {},
            Err(e) => {
                proof {
                    lemma_parse_list_fail(d, start, i as nat, n as nat, f, gs, prev);
                    match f(d, prev) {
                        Parsed::Val(_, _) => {
                            assert(false);
                        },
                        Parsed::Invalid => {
                            assert(parse_list(d, start, n as nat, f) is Invalid);
                            assert(parse_section(d, old(s).pos as int, f) is Invalid);
                        },
                        Parsed::Eof => {
                            assert(parse_list(d, start, n as nat, f) is Eof);
                            assert(parse_section(d, old(s).pos as int, f) is Eof);
                        },
                    }
                }
                return Err(e);
            },
        }
        proof {
            match f(d, prev) {
                Parsed::Val(v, end) => {
                    lemma_parse_list_step(d, start, i as nat, f, gs, prev, v, end);
                    gs = gs.push(v);
                },
                _ => {
                    assert(false);
                },
            }
        }
        i = i + 1;
    }
    Ok(())
}

/// Skip the bones section: its record count, then each record.
#[verifier::rlimit(60)]
fn scan_bones(s: &mut Seeker, h: &Header) -> (r: Result<(), Error>)
    requires
        old(s).wf(),
        h.wf(),
    ensures
        final(s).data == old(s).data,
        final(s).wf(),
        parse_section(old(s).data@, old(s).pos as int, bone_fn(*h)) matches Parsed::Val(_, end)
            ==> (r is Ok && final(s).pos == end),
        parse_section(old(s).data@, old(s).pos as int, bone_fn(*h)) is Invalid ==> (
        r matches Err(e) && e matches Error::InvalidData(_)),
        parse_section(old(s).data@, old(s).pos as int, bone_fn(*h)) is Eof ==> (r matches Err(e)
            && e matches Error::Io),
{
    let n = s.read_u32()?;
    let ghost d = s.data@;
    let ghost start = s.pos as int;
    let ghost f = bone_fn(*h);
    let ghost mut gs: Seq<BoneV> = Seq::empty();
    let mut i: u32 = 0;
    while i < n
        invariant
            s.wf(),
            s.data == old(s).data,
            h.wf(),
            d == s.data@,
            d == old(s).data@,
            i <= n,
            f == bone_fn(*h),
            start == old(s).pos + 4,
            old(s).pos + 4 <= d.len(),
            n == le32(d, old(s).pos as int),
            parse_list(d, start, i as nat, f) == Parsed::Val(gs, s.pos as int),
        decreases n - i,
    {
        let ghost prev = s.pos as int;
        proof {
            assert(f(d, prev) == parse_bone(d, *h, prev));
        }
        match skip_bone(s, h) {
            Ok(_) => {},
            Err(e) => {
                proof {
                    lemma_parse_list_fail(d, start, i as nat, n as nat, f, gs, prev);
                    match f(d, prev) {
                        Parsed::Val(_, _) => {
                            assert(false);
                        },
                        Parsed::Invalid => {
                            assert(parse_list(d, start, n as nat, f) is Invalid);
                            assert(parse_section(d, old(s).pos as int, f) is Invalid);
                        },
                        Parsed::Eof => {
                            assert(parse_list(d, start, n as nat, f) is Eof);
                            assert(parse_section(d, old(s).pos as int, f) is Eof);
                        },
                    }
                }
                return Err(e);
            },
        }
        proof {
            match f(d, prev) {
                Parsed::Val(v, end) => {
                    lemma_parse_list_step(d, start, i as nat, f, gs, prev, v, end);
                    gs = gs.push(v);
                },
                _ => {
                    assert(false);
                },
            }
        }
        i = i + 1;
    }
    Ok(())
}

/// Skip the morphs section: its record count, then each record.
#[verifier::rlimit(60)]
fn scan_morphs(s: &mut Seeker, h: &Header) -> (r: Result<(), Error>)
    requires
        old(s).wf(),
        h.wf(),
    ensures
        final(s).data == old(s).data,
        final(s).wf(),
        parse_section(old(s).data@, old(s).pos as int, morph_fn(*h)) matches Parsed::Val(_, end)
            ==> (r is Ok && final(s).pos == end),
        parse_section(old(s).data@, old(s).pos as int, morph_fn(*h)) is Invalid ==> (
        r matches Err(e) && e matches Error::InvalidData(_)),
        parse_section(old(s).data@, old(s).pos as int, morph_fn(*h)) is Eof ==> (r matches Err(e)
            && e matches Error::Io),
{
    let n = s.read_u32()?;
    let ghost d = s.data@;
    let ghost start = s.pos as int;
    let ghost f = morph_fn(*h);
    let ghost mut gs: Seq<MorphV> = Seq::empty();
    let mut i: u32 = 0;
    while i < n
        invariant
            s.wf(),
            s.data == old(s).data,
            h.wf(),
            d == s.data@,
            d == old(s).data@,
            i <= n,
            f == morph_fn(*h),
            start == old(s).pos + 4,
            old(s).pos + 4 <= d.len(),
            n == le32(d, old(s).pos as int),
            parse_list(d, start, i as nat, f) == Parsed::Val(gs, s.pos as int),
        decreases n - i,
    {
        let ghost prev = s.pos as int;
        proof {
            assert(f(d, prev) == parse_morph(d, *h, prev));
        }
        match skip_morph(s, h) {
            Ok(_) => {},
            Err(e) => {
                proof {
                    lemma_parse_list_fail(d, start, i as nat, n as nat, f, gs, prev);
                    match f(d, prev) {
                        Parsed::Val(_, _) => {
                            assert(false);
                        },
                        Parsed::Invalid => {
                            assert(parse_list(d, start, n as nat, f) is Invalid);
                            assert(parse_section(d, old(s).pos as int, f) is Invalid);
                        },
                        Parsed::Eof => {
                            assert(parse_list(d, start, n as nat, f) is Eof);
                            assert(parse_section(d, old(s).pos as int, f) is Eof);
                        },
                    }
                }
                return Err(e);
            },
        }
        proof {
            match f(d, prev) {
                Parsed::Val(v, end) => {
                    lemma_parse_list_step(d, start, i as nat, f, gs, prev, v, end);
                    gs = gs.push(v);
                },
                _ => {
                    assert(false);
                },
            }
        }
        i = i + 1;
    }
    Ok(())
}

/// Skip the display_groups section: its record count, then each record.
#[verifier::rlimit(60)]
fn scan_display_groups(s: &mut Seeker, h: &Header) -> (r: Result<(), Error>)
    requires
        old(s).wf(),
        h.wf(),
    ensures
        final(s).data == old(s).data,
        final(s).wf(),
        parse_section(old(s).data@, old(s).pos as int, display_group_fn(*h)) matches Parsed::Val(_, end)
            ==> (r is Ok && final(s).pos == end),
        parse_section(old(s).data@, old(s).pos as int, display_group_fn(*h)) is Invalid ==> (
        r matches Err(e) && e matches Error::InvalidData(_)),
        parse_section(old(s).data@, old(s).pos as int, display_group_fn(*h)) is Eof ==> (r matches Err(e)
            && e matches Error::Io),
{
    let n = s.read_u32()?;
    let ghost d = s.data@;
    let ghost start = s.pos as int;
    let ghost f = display_group_fn(*h);
    let ghost mut gs: Seq<DisplayGroupV> = Seq::empty();
    let mut i: u32 = 0;
    while i < n
        invariant
            s.wf(),
            s.data == old(s).data,
            h.wf(),
            d == s.data@,
            d == old(s).data@,
            i <= n,
            f == display_group_fn(*h),
            start == old(s).pos + 4,
            old(s).pos + 4 <= d.len(),
            n == le32(d, old(s).pos as int),
            parse_list(d, start, i as nat, f) == Parsed::Val(gs, s.pos as int),
        decreases n - i,
    {
        let ghost prev = s.pos as int;
        proof {
            assert(f(d, prev) == parse_display_group(d, *h, prev));
        }
        match skip_display_group(s, h) {
            Ok(_) => {},
            Err(e) => {
                proof {
                    lemma_parse_list_fail(d, start, i as nat, n as nat, f, gs, prev);
                    match f(d, prev) {
                        Parsed::Val(_, _) => {
                            assert(false);
                        },
                        Parsed::Invalid => {
                            assert(parse_list(d, start, n as nat, f) is Invalid);
                            assert(parse_section(d, old(s).pos as int, f) is Invalid);
                        },
                        Parsed::Eof => {
                            assert(parse_list(d, start, n as nat, f) is Eof);
                            assert(parse_section(d, old(s).pos as int, f) is Eof);
                        },
                    }
                }
                return Err(e);
            },
        }
        proof {
            match f(d, prev) {
                Parsed::Val(v, end) => {
                    lemma_parse_list_step(d, start, i as nat, f, gs, prev, v, end);
                    gs = gs.push(v);
                },
                _ => {
                    assert(false);
                },
            }
        }
        i = i + 1;
    }
    Ok(())
}

/// Skip the rigids section: its record count, then each record.
#[verifier::rlimit(60)]
fn scan_rigids(s: &mut Seeker, h: &Header) -> (r: Result<(), Error>)
    requires
        old(s).wf(),
        h.wf(),
    ensures
        final(s).data == old(s).data,
        final(s).wf(),
        parse_section(old(s).data@, old(s).pos as int, rigid_fn(*h)) matches Parsed::Val(_, end)
            ==> (r is Ok && final(s).pos == end),
        parse_section(old(s).data@, old(s).pos as int, rigid_fn(*h)) is Invalid ==> (
        r matches Err(e) && e matches Error::InvalidData(_)),
        parse_section(old(s).data@, old(s).pos as int, rigid_fn(*h)) is Eof ==> (r matches Err(e)
            && e matches Error::Io),
{
    let n = s.read_u32()?;
    let ghost d = s.data@;
    let ghost start = s.pos as int;
    let ghost f = rigid_fn(*h);
    let ghost mut gs: Seq<RigidV> = Seq::empty();
    let mut i: u32 = 0;
    while i < n
        invariant
            s.wf(),
            s.data == old(s).data,
            h.wf(),
            d == s.data@,
            d == old(s).data@,
            i <= n,
            f == rigid_fn(*h),
            start == old(s).pos + 4,
            old(s).pos + 4 <= d.len(),
            n == le32(d, old(s).pos as int),
            parse_list(d, start, i as nat, f) == Parsed::Val(gs, s.pos as int),
        decreases n - i,
    {
        let ghost prev = s.pos as int;
        proof {
            assert(f(d, prev) == parse_rigid(d, *h, prev));
        }
        match skip_rigid(s, h) {
            Ok(_) => {},
            Err(e) => {
                proof {
                    lemma_parse_list_fail(d, start, i as nat, n as nat, f, gs, prev);
                    match f(d, prev) {
                        Parsed::Val(_, _) => {
                            assert(false);
                        },
                        Parsed::Invalid => {
                            assert(parse_list(d, start, n as nat, f) is Invalid);
                            assert(parse_section(d, old(s).pos as int, f) is Invalid);
                        },
                        Parsed::Eof => {
                            assert(parse_list(d, start, n as nat, f) is Eof);
                            assert(parse_section(d, old(s).pos as int, f) is Eof);
                        },
                    }
                }
                return Err(e);
            },
        }
        proof {
            match f(d, prev) {
                Parsed::Val(v, end) => {
                    lemma_parse_list_step(d, start, i as nat, f, gs, prev, v, end);
                    gs = gs.push(v);
                },
                _ => {
                    assert(false);
                },
            }
        }
        i = i + 1;
    }
    Ok(())
}

/// Skip the joints section: its record count, then each record.
#[verifier::rlimit(60)]
fn scan_joints(s: &mut Seeker, h: &Header) -> (r: Result<(), Error>)
    requires
        old(s).wf(),
        h.wf(),
    ensures
        final(s).data == old(s).data,
        final(s).wf(),
        parse_section(old(s).data@, old(s).pos as int, joint_fn(*h)) matches Parsed::Val(_, end)
            ==> (r is Ok && final(s).pos == end),
        parse_section(old(s).data@, old(s).pos as int, joint_fn(*h)) is Invalid ==> (
        r matches Err(e) && e matches Error::InvalidData(_)),
        parse_section(old(s).data@, old(s).pos as int, joint_fn(*h)) is Eof ==> (r matches Err(e)
            && e matches Error::Io),
{
    let n = s.read_u32()?;
    let ghost d = s.data@;
    let ghost start = s.pos as int;
    let ghost f = joint_fn(*h);
    let ghost mut gs: Seq<JointV> = Seq::empty();
    let mut i: u32 = 0;
    while i < n
        invariant
            s.wf(),
            s.data == old(s).data,
            h.wf(),
            d == s.data@,
            d == old(s).data@,
            i <= n,
            f == joint_fn(*h),
            start == old(s).pos + 4,
            old(s).pos + 4 <= d.len(),
            n == le32(d, old(s).pos as int),
            parse_list(d, start, i as nat, f) == Parsed::Val(gs, s.pos as int),
        decreases n - i,
    {
        let ghost prev = s.pos as int;
        proof {
            assert(f(d, prev) == parse_joint(d, *h, prev));
        }
        match skip_joint(s, h) {
            Ok(_) => {},
            Err(e) => {
                proof {
                    lemma_parse_list_fail(d, start, i as nat, n as nat, f, gs, prev);
                    match f(d, prev) {
                        Parsed::Val(_, _) => {
                            assert(false);
                        },
                        Parsed::Invalid => {
                            assert(parse_list(d, start, n as nat, f) is Invalid);
                            assert(parse_section(d, old(s).pos as int, f) is Invalid);
                        },
                        Parsed::Eof => {
                            assert(parse_list(d, start, n as nat, f) is Eof);
                            assert(parse_section(d, old(s).pos as int, f) is Eof);
                        },
                    }
                }
                return Err(e);
            },
        }
        proof {
            match f(d, prev) {
                Parsed::Val(v, end) => {
                    lemma_parse_list_step(d, start, i as nat, f, gs, prev, v, end);
                    gs = gs.push(v);
                },
                _ => {
                    assert(false);
                },
            }
        }
        i = i + 1;
    }
    Ok(())
}


/// Outcome of the whole structural scan: the header and offset table of an
/// accepted buffer, or the class of the first error.
pub enum ScanOutcome {
    Good(Header, Indices),
    Fail(ErrorKind),
}

/// The scan from the vertices section on.
pub open spec fn scan_vertices_spec(d: Seq<u8>, h: Header, p1: int, p2: int, p3: int, v: int) -> ScanOutcome {
    match parse_section(d, v, vertex_fn(h)) {
        Parsed::Invalid => ScanOutcome::Fail(ErrorKind::InvalidData),
        Parsed::Eof => ScanOutcome::Fail(ErrorKind::Io),
        Parsed::Val(_, fo) => scan_faces_spec(d, h, p1, p2, p3, v, fo),
    }
}

/// The scan from the faces section on.
pub open spec fn scan_faces_spec(d: Seq<u8>, h: Header, p1: int, p2: int, p3: int, v: int, fo: int) -> ScanOutcome {
    if fo < 0 || fo + 4 > d.len() {
        ScanOutcome::Fail(ErrorKind::Io)
    } else if le32(d, fo) % 3 != 0 {
        ScanOutcome::Fail(ErrorKind::InvalidData)
    } else {
        match parse_section(d, fo, face_fn(h)) {
            Parsed::Invalid => ScanOutcome::Fail(ErrorKind::InvalidData),
            Parsed::Eof => ScanOutcome::Fail(ErrorKind::Io),
            Parsed::Val(_, to) => scan_textures_spec(d, h, p1, p2, p3, v, fo, to),
        }
    }
}

/// The scan from the textures section on.
pub open spec fn scan_textures_spec(d: Seq<u8>, h: Header, p1: int, p2: int, p3: int, v: int, fo: int, to: int) -> ScanOutcome {
    if to < 0 || to + 4 > d.len() {
        ScanOutcome::Fail(ErrorKind::Io)
    } else {
        match parse_section(d, to, texture_fn(h)) {
            Parsed::Invalid => ScanOutcome::Fail(ErrorKind::InvalidData),
            Parsed::Eof => ScanOutcome::Fail(ErrorKind::Io),
            Parsed::Val(_, mo) => scan_materials_spec(d, h, p1, p2, p3, v, fo, to, mo),
        }
    }
}

/// The scan from the materials section on.
pub open spec fn scan_materials_spec(d: Seq<u8>, h: Header, p1: int, p2: int, p3: int, v: int, fo: int, to: int, mo: int) -> ScanOutcome {
    if mo < 0 || mo + 4 > d.len() {
        ScanOutcome::Fail(ErrorKind::Io)
    } else {
        match parse_section(d, mo, material_fn(h)) {
            Parsed::Invalid => ScanOutcome::Fail(ErrorKind::InvalidData),
            Parsed::Eof => ScanOutcome::Fail(ErrorKind::Io),
            Parsed::Val(_, bo) => scan_bones_spec(d, h, p1, p2, p3, v, fo, to, mo, bo),
        }
    }
}

/// The scan from the bones section on.
pub open spec fn scan_bones_spec(d: Seq<u8>, h: Header, p1: int, p2: int, p3: int, v: int, fo: int, to: int, mo: int, bo: int) -> ScanOutcome {
    if bo < 0 || bo + 4 > d.len() {
        ScanOutcome::Fail(ErrorKind::Io)
    } else {
        match parse_section(d, bo, bone_fn(h)) {
            Parsed::Invalid => ScanOutcome::Fail(ErrorKind::InvalidData),
            Parsed::Eof => ScanOutcome::Fail(ErrorKind::Io),
            Parsed::Val(_, mso) => scan_morphs_spec(d, h, p1, p2, p3, v, fo, to, mo, bo, mso),
        }
    }
}

/// The scan from the morphs section on.
pub open spec fn scan_morphs_spec(d: Seq<u8>, h: Header, p1: int, p2: int, p3: int, v: int, fo: int, to: int, mo: int, bo: int, mso: int) -> ScanOutcome {
    if mso < 0 || mso + 4 > d.len() {
        ScanOutcome::Fail(ErrorKind::Io)
    } else {
        match parse_section(d, mso, morph_fn(h)) {
            Parsed::Invalid => ScanOutcome::Fail(ErrorKind::InvalidData),
            Parsed::Eof => ScanOutcome::Fail(ErrorKind::Io),
            Parsed::Val(_, dgo) => scan_display_groups_spec(d, h, p1, p2, p3, v, fo, to, mo, bo, mso, dgo),
        }
    }
}

/// The scan from the display groups section on.
pub open spec fn scan_display_groups_spec(d: Seq<u8>, h: Header, p1: int, p2: int, p3: int, v: int, fo: int, to: int, mo: int, bo: int, mso: int, dgo: int) -> ScanOutcome {
    if dgo < 0 || dgo + 4 > d.len() {
        ScanOutcome::Fail(ErrorKind::Io)
    } else {
        match parse_section(d, dgo, display_group_fn(h)) {
            Parsed::Invalid => ScanOutcome::Fail(ErrorKind::InvalidData),
            Parsed::Eof => ScanOutcome::Fail(ErrorKind::Io),
            Parsed::Val(_, ro) => scan_rigids_spec(d, h, p1, p2, p3, v, fo, to, mo, bo, mso, dgo, ro),
        }
    }
}

/// The scan from the rigids section on.
pub open spec fn scan_rigids_spec(d: Seq<u8>, h: Header, p1: int, p2: int, p3: int, v: int, fo: int, to: int, mo: int, bo: int, mso: int, dgo: int, ro: int) -> ScanOutcome {
    if ro < 0 || ro + 4 > d.len() {
        ScanOutcome::Fail(ErrorKind::Io)
    } else {
        match parse_section(d, ro, rigid_fn(h)) {
            Parsed::Invalid => ScanOutcome::Fail(ErrorKind::InvalidData),
            Parsed::Eof => ScanOutcome::Fail(ErrorKind::Io),
            Parsed::Val(_, jo) => scan_joints_spec(d, h, p1, p2, p3, v, fo, to, mo, bo, mso, dgo, ro, jo),
        }
    }
}

/// The scan from the joints section on.
pub open spec fn scan_joints_spec(d: Seq<u8>, h: Header, p1: int, p2: int, p3: int, v: int, fo: int, to: int, mo: int, bo: int, mso: int, dgo: int, ro: int, jo: int) -> ScanOutcome {
    if jo < 0 || jo + 4 > d.len() {
        ScanOutcome::Fail(ErrorKind::Io)
    } else {
        match parse_section(d, jo, joint_fn(h)) {
            Parsed::Invalid => ScanOutcome::Fail(ErrorKind::InvalidData),
            Parsed::Eof => ScanOutcome::Fail(ErrorKind::Io),
            Parsed::Val(_, _) => ScanOutcome::Good(
                h,
                Indices {
                    name: 17,
                    name_en: p1 as u64,
                    comment: p2 as u64,
                    comment_en: p3 as u64,
                    vertices: v as u64,
                    faces: fo as u64,
                    textures: to as u64,
                    materials: mo as u64,
                    bones: bo as u64,
                    morphs: mso as u64,
                    display_groups: dgo as u64,
                    rigids: ro as u64,
                    joints: jo as u64,
                },
            ),
        }
    }
}

/// The structural scan as one judgment over the raw bytes: interpret the
/// preamble, skip the four metadata strings, then walk the nine sections in
/// their fixed order. The first failing check decides the error class; an
/// accepted buffer yields the header and every recorded offset.
pub open spec fn scan_spec(d: Seq<u8>) -> ScanOutcome {
    match header_scan(d) {
        HeaderScan::Fail(k) => ScanOutcome::Fail(k),
        HeaderScan::Good(h) => match skip_string(d, 17) {
            None => ScanOutcome::Fail(ErrorKind::Io),
            Some(p1) => match skip_string(d, p1) {
                None => ScanOutcome::Fail(ErrorKind::Io),
                Some(p2) => match skip_string(d, p2) {
                    None => ScanOutcome::Fail(ErrorKind::Io),
                    Some(p3) => match skip_string(d, p3) {
                        None => ScanOutcome::Fail(ErrorKind::Io),
                        Some(v) => scan_vertices_spec(d, h, p1, p2, p3, v),
                    },
                },
            },
        },
    }
}

impl Indices {
    /// Scan the whole buffer once from the end of the preamble, validating
    /// every tag and count on the way, and record where each metadata string
    /// and each section begins. Succeeds exactly when [`scan_spec`] accepts
    /// the buffer, and fails with the error class it names.
    #[verifier::rlimit(100)]
    pub fn new(data: &Vec<u8>, header: &Header) -> (r: Result<Indices, Error>)
        requires
            header_scan(data@) == HeaderScan::Good(*header),
        ensures
            r matches Ok(idx) ==> scan_spec(data@) == ScanOutcome::Good(*header, idx),
            r matches Err(e) ==> (scan_spec(data@) matches ScanOutcome::Fail(k) && k == e.kind()),
    {
        let ghost d = data@;
        let ghost h = *header;
        proof {
            assert(header_scan(d) is Good);
            assert(d.len() >= 17);
            assert(header.wf());
        }
        let mut seeker = Seeker::new(data, 17);
        let name = match seeker.seek_string() {
            Ok(first) => first,
            Err(e) => {
                return Err(e);
            },
        };
        let name_en = match seeker.seek_string() {
            Ok(first) => first,
            Err(e) => {
                return Err(e);
            },
        };
        let comment = match seeker.seek_string() {
            Ok(first) => first,
            Err(e) => {
                return Err(e);
            },
        };
        let comment_en = match seeker.seek_string() {
            Ok(first) => first,
            Err(e) => {
                return Err(e);
            },
        };
        let vertices = seeker.position();
        let ghost p1 = name_en as int;
        let ghost p2 = comment as int;
        let ghost p3 = comment_en as int;
        let ghost v = vertices as int;
        proof {
            assert(scan_spec(d) == scan_vertices_spec(d, h, p1, p2, p3, v));
        }
        match scan_vertices(&mut seeker, header) {
            Ok(_) => {},
            Err(e) => {
                return Err(e);
            },
        }
        let faces = seeker.position();
        let ghost fo = faces as int;
        proof {
            assert(parse_section(d, v, vertex_fn(h)) is Val);
            assert(scan_spec(d) == scan_faces_spec(d, h, p1, p2, p3, v, fo));
        }
        match scan_faces(&mut seeker, header) {
            Ok(_) => {},
            Err(e) => {
                return Err(e);
            },
        }
        let textures = seeker.position();
        let ghost to = textures as int;
        proof {
            assert(parse_section(d, fo, face_fn(h)) is Val);
            assert(scan_spec(d) == scan_textures_spec(d, h, p1, p2, p3, v, fo, to));
        }
        match scan_textures(&mut seeker, header) {
            Ok(_) => {},
            Err(e) => {
                return Err(e);
            },
        }
        let materials = seeker.position();
        let ghost mo = materials as int;
        proof {
            assert(parse_section(d, to, texture_fn(h)) is Val);
            assert(scan_spec(d) == scan_materials_spec(d, h, p1, p2, p3, v, fo, to, mo));
        }
        match scan_materials(&mut seeker, header) {
            Ok(_) => {},
            Err(e) => {
                return Err(e);
            },
        }
        let bones = seeker.position();
        let ghost bo = bones as int;
        proof {
            assert(parse_section(d, mo, material_fn(h)) is Val);
            assert(scan_spec(d) == scan_bones_spec(d, h, p1, p2, p3, v, fo, to, mo, bo));
        }
        match scan_bones(&mut seeker, header) {
            Ok(_) => {},
            Err(e) => {
                return Err(e);
            },
        }
        let morphs = seeker.position();
        let ghost mso = morphs as int;
        proof {
            assert(parse_section(d, bo, bone_fn(h)) is Val);
            assert(scan_spec(d) == scan_morphs_spec(d, h, p1, p2, p3, v, fo, to, mo, bo, mso));
        }
        match scan_morphs(&mut seeker, header) {
            Ok(_) => {},
            Err(e) => {
                return Err(e);
            },
        }
        let display_groups = seeker.position();
        let ghost dgo = display_groups as int;
        proof {
            assert(parse_section(d, mso, morph_fn(h)) is Val);
            assert(scan_spec(d) == scan_display_groups_spec(
                d, h, p1, p2, p3, v, fo, to, mo, bo, mso, dgo,
            ));
        }
        match scan_display_groups(&mut seeker, header) {
            Ok(_) => {},
            Err(e) => {
                return Err(e);
            },
        }
        let rigids = seeker.position();
        let ghost ro = rigids as int;
        proof {
            assert(parse_section(d, dgo, display_group_fn(h)) is Val);
            assert(scan_spec(d) == scan_rigids_spec(
                d, h, p1, p2, p3, v, fo, to, mo, bo, mso, dgo, ro,
            ));
        }
        match scan_rigids(&mut seeker, header) {
            Ok(_) => {},
            Err(e) => {
                return Err(e);
            },
        }
        let joints = seeker.position();
        let ghost jo = joints as int;
        proof {
            assert(parse_section(d, ro, rigid_fn(h)) is Val);
            assert(scan_spec(d) == scan_joints_spec(
                d, h, p1, p2, p3, v, fo, to, mo, bo, mso, dgo, ro, jo,
            ));
        }
        match scan_joints(&mut seeker, header) {
            Ok(_) => {},
            Err(e) => {
                return Err(e);
            },
        }
        proof {
            assert(parse_section(d, jo, joint_fn(h)) is Val);
        }
        Ok(
            Indices {
                name,
                name_en,
                comment,
                comment_en,
                vertices,
                faces,
                textures,
                materials,
                bones,
                morphs,
                display_groups,
                rigids,
                joints,
            },
        )
    }
}


/// What an accepted scan guarantees: the preamble parses to the recorded
/// header, the four metadata strings chain from offset 17 through the vertex
/// section's offset, every section parses at its recorded offset and ends at
/// the next one, and the face count is a multiple of 3.
#[verifier::rlimit(100)]
pub proof fn lemma_scan_good(d: Seq<u8>, h: Header, idx: Indices)
    requires
        d.len() <= usize::MAX,
        scan_spec(d) == ScanOutcome::Good(h, idx),
    ensures
        header_scan(d) == HeaderScan::Good(h),
        h.wf(),
        d.len() >= 17,
        idx.name == 17,
        skip_string(d, 17) == Some(idx.name_en as int),
        skip_string(d, idx.name_en as int) == Some(idx.comment as int),
        skip_string(d, idx.comment as int) == Some(idx.comment_en as int),
        skip_string(d, idx.comment_en as int) == Some(idx.vertices as int),
        idx.vertices + 4 <= d.len(),
        parse_section(d, idx.vertices as int, vertex_fn(h)) matches Parsed::Val(_, end) && end
            == idx.faces,
        idx.faces + 4 <= d.len(),
        le32(d, idx.faces as int) % 3 == 0,
        parse_section(d, idx.faces as int, face_fn(h)) matches Parsed::Val(_, end) && end
            == idx.textures,
        idx.textures + 4 <= d.len(),
        parse_section(d, idx.textures as int, texture_fn(h)) matches Parsed::Val(_, end) && end
            == idx.materials,
        idx.materials + 4 <= d.len(),
        parse_section(d, idx.materials as int, material_fn(h)) matches Parsed::Val(_, end) && end
            == idx.bones,
        idx.bones + 4 <= d.len(),
        parse_section(d, idx.bones as int, bone_fn(h)) matches Parsed::Val(_, end) && end
            == idx.morphs,
        idx.morphs + 4 <= d.len(),
        parse_section(d, idx.morphs as int, morph_fn(h)) matches Parsed::Val(_, end) && end
            == idx.display_groups,
        idx.display_groups + 4 <= d.len(),
        parse_section(d, idx.display_groups as int, display_group_fn(h)) matches Parsed::Val(
            _,
            end,
        ) && end == idx.rigids,
        idx.rigids + 4 <= d.len(),
        parse_section(d, idx.rigids as int, rigid_fn(h)) matches Parsed::Val(_, end) && end
            == idx.joints,
        idx.joints + 4 <= d.len(),
        parse_section(d, idx.joints as int, joint_fn(h)) is Val,
{
    let p1 = skip_string(d, 17)->0;
    let p2 = skip_string(d, p1)->0;
    let p3 = skip_string(d, p2)->0;
    let v = skip_string(d, p3)->0;
    assert(scan_spec(d) == scan_vertices_spec(d, h, p1, p2, p3, v));
    let fo = parse_section(d, v, vertex_fn(h))->Val_1;
    assert(scan_vertices_spec(d, h, p1, p2, p3, v) == scan_faces_spec(d, h, p1, p2, p3, v, fo));
    let to = parse_section(d, fo, face_fn(h))->Val_1;
    assert(scan_faces_spec(d, h, p1, p2, p3, v, fo) == scan_textures_spec(
        d, h, p1, p2, p3, v, fo, to,
    ));
    let mo = parse_section(d, to, texture_fn(h))->Val_1;
    assert(scan_textures_spec(d, h, p1, p2, p3, v, fo, to) == scan_materials_spec(
        d, h, p1, p2, p3, v, fo, to, mo,
    ));
    let bo = parse_section(d, mo, material_fn(h))->Val_1;
    assert(scan_materials_spec(d, h, p1, p2, p3, v, fo, to, mo) == scan_bones_spec(
        d, h, p1, p2, p3, v, fo, to, mo, bo,
    ));
    let mso = parse_section(d, bo, bone_fn(h))->Val_1;
    assert(scan_bones_spec(d, h, p1, p2, p3, v, fo, to, mo, bo) == scan_morphs_spec(
        d, h, p1, p2, p3, v, fo, to, mo, bo, mso,
    ));
    let dgo = parse_section(d, mso, morph_fn(h))->Val_1;
    assert(scan_morphs_spec(d, h, p1, p2, p3, v, fo, to, mo, bo, mso)
        == scan_display_groups_spec(d, h, p1, p2, p3, v, fo, to, mo, bo, mso, dgo));
    let ro = parse_section(d, dgo, display_group_fn(h))->Val_1;
    assert(scan_display_groups_spec(d, h, p1, p2, p3, v, fo, to, mo, bo, mso, dgo)
        == scan_rigids_spec(d, h, p1, p2, p3, v, fo, to, mo, bo, mso, dgo, ro));
    let jo = parse_section(d, ro, rigid_fn(h))->Val_1;
    assert(scan_rigids_spec(d, h, p1, p2, p3, v, fo, to, mo, bo, mso, dgo, ro)
        == scan_joints_spec(d, h, p1, p2, p3, v, fo, to, mo, bo, mso, dgo, ro, jo));
    assert(scan_joints_spec(d, h, p1, p2, p3, v, fo, to, mo, bo, mso, dgo, ro, jo)
        == ScanOutcome::Good(h, idx));
    assert(17 <= p1 <= p2 <= p3 <= v <= d.len());
    assert(parse_section(d, v, vertex_fn(h)) is Val);
    assert(fo >= 0 && to >= 0 && mo >= 0 && bo >= 0 && mso >= 0 && dgo >= 0 && ro >= 0 && jo
        >= 0);
    assert(fo + 4 <= d.len() && to + 4 <= d.len() && mo + 4 <= d.len() && bo + 4 <= d.len()
        && mso + 4 <= d.len() && dgo + 4 <= d.len() && ro + 4 <= d.len() && jo + 4 <= d.len());
    assert(idx == Indices {
        name: 17,
        name_en: p1 as u64,
        comment: p2 as u64,
        comment_en: p3 as u64,
        vertices: v as u64,
        faces: fo as u64,
        textures: to as u64,
        materials: mo as u64,
        bones: bo as u64,
        morphs: mso as u64,
        display_groups: dgo as u64,
        rigids: ro as u64,
        joints: jo as u64,
    });
    assert(idx.vertices as int == v);
    assert(idx.faces as int == fo);
    assert(idx.textures as int == to);
    assert(idx.materials as int == mo);
    assert(idx.bones as int == bo);
    assert(idx.morphs as int == mso);
    assert(idx.display_groups as int == dgo);
    assert(idx.rigids as int == ro);
    assert(idx.joints as int == jo);
}

} // verus!
