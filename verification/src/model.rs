//! The byte-level model of the file format.
//!
//! Every spec function here reads a `Seq<u8>` at an absolute position and
//! yields a [`Parsed`] outcome: the decoded value together with the position
//! one past the record, or the reason the bytes are unacceptable. The
//! structural scanner and the section decoders are both verified against
//! these functions, which is what lets a decoder run without error checks
//! once the scanner has accepted the file.

use crate::header::Encoding;
use crate::header::Header;
use crate::morph;
use crate::rigid;
use crate::AngleLimit;
use crate::Bdef1;
use crate::Bdef2;
use crate::Bdef4;
use crate::BoneV;
use crate::ConnectTo;
use crate::DisplayElement;
use crate::DisplayGroupV;
use crate::IkLink;
use crate::IkV;
use crate::JointV;
use crate::LocalPole;
use crate::MaterialV;
use crate::MorphV;
use crate::RigidPair;
use crate::RigidV;
use crate::Sdef;
use crate::SphereMode;
use crate::Toon;
use crate::VertexV;
use crate::Weight;
use vstd::prelude::*;

verus! {

/// Outcome of parsing one item at a position.
///
/// `Val(v, end)` carries the decoded value and the position one past it;
/// `Invalid` means a tag byte was out of its legal range; `Eof` means the
/// buffer ended before the item did.
pub enum Parsed<T> {
    Val(T, int),
    Invalid,
    Eof,
}

/// The little-endian 16-bit value at `i`.
pub open spec fn le16(d: Seq<u8>, i: int) -> nat {
    (d[i] + d[i + 1] * 0x100) as nat
}

/// The little-endian 32-bit value at `i`.
pub open spec fn le32(d: Seq<u8>, i: int) -> nat {
    (d[i] + d[i + 1] * 0x100 + d[i + 2] * 0x10000 + d[i + 3] * 0x1000000) as nat
}

/// The little-endian unsigned value of width `w` at `i` (`w` is 1, 2 or 4).
pub open spec fn le_width(d: Seq<u8>, i: int, w: u64) -> nat {
    if w == 1 {
        d[i] as nat
    } else if w == 2 {
        le16(d, i)
    } else {
        le32(d, i)
    }
}

/// Half the range of a `w`-byte integer: the first value whose top bit is set.
pub open spec fn sign_threshold(w: u64) -> nat {
    if w == 1 {
        0x80
    } else if w == 2 {
        0x8000
    } else {
        0x8000_0000
    }
}

/// The signed index of width `w` stored at `i`: a value with the top bit set
/// is negative and denotes "no reference"; any other value is the referenced
/// record's index.
pub open spec fn signed_index_at(d: Seq<u8>, i: int, w: u64) -> Option<usize> {
    if le_width(d, i, w) >= sign_threshold(w) {
        None
    } else {
        Some(le_width(d, i, w) as usize)
    }
}

/// The vertex index of width `w` stored at `i`. Widths 1 and 2 are plain
/// unsigned; width 4 is read as a signed 32-bit value and sign-extended into
/// `usize`, mirroring the format's asymmetric vertex-index convention.
pub open spec fn vertex_index_at(d: Seq<u8>, i: int, w: u64) -> usize {
    if w == 4 && le32(d, i) >= 0x8000_0000 {
        (usize::MAX - 0xffff_ffff + le32(d, i)) as usize
    } else {
        le_width(d, i, w) as usize
    }
}

/// The signed 32-bit value stored at `i`.
pub open spec fn i32_at(d: Seq<u8>, i: int) -> int {
    if le32(d, i) >= 0x8000_0000 {
        le32(d, i) - 0x1_0000_0000
    } else {
        le32(d, i) as int
    }
}

/// The raw float pattern at `i`.
pub open spec fn f32_at(d: Seq<u8>, i: int) -> crate::F32Bits {
    crate::F32Bits(le32(d, i) as u32)
}

/// The 2-vector of float patterns at `i`.
pub open spec fn float2_at(d: Seq<u8>, i: int) -> crate::Float2 {
    crate::Float2 { x: f32_at(d, i), y: f32_at(d, i + 4) }
}

/// The 3-vector of float patterns at `i`.
pub open spec fn float3_at(d: Seq<u8>, i: int) -> crate::Float3 {
    crate::Float3 { x: f32_at(d, i), y: f32_at(d, i + 4), z: f32_at(d, i + 8) }
}

/// The 4-vector of float patterns at `i`.
pub open spec fn float4_at(d: Seq<u8>, i: int) -> crate::Float4 {
    crate::Float4 { x: f32_at(d, i), y: f32_at(d, i + 4), z: f32_at(d, i + 8), w: f32_at(d, i + 12) }
}

/// The 16-bit code units of a little-endian UTF-16 payload; a trailing odd
/// byte is dropped.
pub open spec fn utf16_units(b: Seq<u8>) -> Seq<u16> {
    Seq::new((b.len() / 2) as nat, |i: int| (b[2 * i] + b[2 * i + 1] * 0x100) as u16)
}

/// What `String::from_utf8_lossy` returns for these bytes.
pub uninterp spec fn utf8_lossy(b: Seq<u8>) -> Seq<char>;

/// What `String::from_utf16_lossy` returns for these code units.
pub uninterp spec fn utf16_lossy(units: Seq<u16>) -> Seq<char>;

/// The text that a string payload decodes to: an empty payload is the empty
/// string; otherwise the bytes go through the encoding's lossy decoder.
pub open spec fn decoded_text(enc: Encoding, b: Seq<u8>) -> Seq<char> {
    if b.len() == 0 {
        Seq::empty()
    } else {
        match enc {
            Encoding::Utf8 => utf8_lossy(b),
            Encoding::Utf16 => utf16_lossy(utf16_units(b)),
        }
    }
}

/// The position one past the string whose length prefix stands at `pos`.
pub open spec fn string_end(d: Seq<u8>, pos: int) -> int {
    pos + 4 + le32(d, pos)
}

/// The end of the string at `pos`, or `None` when the buffer ends inside its
/// length prefix or its payload.
pub open spec fn skip_string(d: Seq<u8>, pos: int) -> Option<int> {
    if pos + 4 <= d.len() && string_end(d, pos) <= d.len() {
        Some(string_end(d, pos))
    } else {
        None
    }
}

/// The text of the string at `pos`.
pub open spec fn string_text(d: Seq<u8>, enc: Encoding, pos: int) -> Seq<char> {
    decoded_text(enc, d.subrange(pos + 4, string_end(d, pos)))
}

/// Parse a length-prefixed string at `pos`: a 4-byte length, then that many
/// payload bytes. Never `Invalid`; `Eof` only when the buffer is short.
pub open spec fn parse_string(d: Seq<u8>, enc: Encoding, pos: int) -> Parsed<Seq<char>> {
    match skip_string(d, pos) {
        Some(end) => Parsed::Val(string_text(d, enc, pos), end),
        None => Parsed::Eof,
    }
}

/// Parse `n` consecutive items with `one`, threading the position through.
/// The first failing item decides the outcome.
pub open spec fn parse_list<T>(
    d: Seq<u8>,
    pos: int,
    n: nat,
    one: spec_fn(Seq<u8>, int) -> Parsed<T>,
) -> Parsed<Seq<T>>
    decreases n,
{
    if n == 0 {
        Parsed::Val(Seq::empty(), pos)
    } else {
        match one(d, pos) {
            Parsed::Val(v, p) => match parse_list(d, p, (n - 1) as nat, one) {
                Parsed::Val(s, q) => Parsed::Val(seq![v] + s, q),
                Parsed::Invalid => Parsed::Invalid,
                Parsed::Eof => Parsed::Eof,
            },
            Parsed::Invalid => Parsed::Invalid,
            Parsed::Eof => Parsed::Eof,
        }
    }
}


/// Parse a section: a 4-byte record count at `pos`, then that many records.
pub open spec fn parse_section<T>(
    d: Seq<u8>,
    pos: int,
    one: spec_fn(Seq<u8>, int) -> Parsed<T>,
) -> Parsed<Seq<T>> {
    if pos + 4 > d.len() {
        Parsed::Eof
    } else {
        parse_list(d, pos + 4, le32(d, pos), one)
    }
}

/// The records of a section, where it parses.
pub open spec fn section_records<T>(
    d: Seq<u8>,
    pos: int,
    one: spec_fn(Seq<u8>, int) -> Parsed<T>,
) -> Seq<T> {
    parse_section(d, pos, one)->Val_0
}

/// The record count stored at the head of a section.
pub open spec fn section_count(d: Seq<u8>, pos: int) -> nat {
    le32(d, pos)
}

/// A list of fixed-width items parses exactly when `n * w` bytes remain, and
/// ends `n * w` bytes further on.
pub proof fn lemma_parse_list_fixed<T>(
    d: Seq<u8>,
    pos: int,
    n: nat,
    one: spec_fn(Seq<u8>, int) -> Parsed<T>,
    w: int,
)
    requires
        w >= 1,
        pos <= d.len(),
        forall|p: int|
            p + w <= d.len() ==> (#[trigger] one(d, p) matches Parsed::Val(_, end) && end == p
                + w),
        forall|p: int| p + w > d.len() ==> #[trigger] one(d, p) is Eof,
    ensures
        pos + n * w <= d.len() ==> (parse_list(d, pos, n, one) matches Parsed::Val(_, end) && end
            == pos + n * w),
        pos + n * w > d.len() ==> parse_list(d, pos, n, one) is Eof,
    decreases n,
{
    if n == 0 {
        assert(n * w == 0) by (nonlinear_arith)
            requires
                n == 0,
        ;
    } else {
        assert((n - 1) * w + w == n * w) by (nonlinear_arith);
        assert(n * w >= w) by (nonlinear_arith)
            requires
                n >= 1 && w >= 1,
        ;
        if pos + w <= d.len() {
            lemma_parse_list_fixed(d, pos + w, (n - 1) as nat, one, w);
        } else {
            assert(pos + n * w > d.len());
        }
    }
}


/// What a scanner step owes for a parsed list outcome: success lands the
/// cursor at the list's end; a bad tag yields a data error; a short buffer
/// yields an I/O error.
pub open spec fn scan_list_obligation<T>(
    outcome: Parsed<Seq<T>>,
    r: Result<(), crate::reader::Error>,
    start: int,
    end_pos: int,
) -> bool {
    &&& (outcome matches Parsed::Val(_, end) ==> (r is Ok && end_pos == end))
    &&& (outcome is Invalid ==> (r matches Err(e)
        && e matches crate::reader::Error::InvalidData(_)))
    &&& (outcome is Eof ==> (r matches Err(e) && e matches crate::reader::Error::Io))
}


/// Inside a list that parses, every item at a parsed prefix's end parses.
pub proof fn lemma_parse_list_mid<T>(
    d: Seq<u8>,
    pos: int,
    k: nat,
    n: nat,
    one: spec_fn(Seq<u8>, int) -> Parsed<T>,
    s: Seq<T>,
    p: int,
)
    requires
        k < n,
        parse_list(d, pos, k, one) == Parsed::Val(s, p),
        parse_list(d, pos, n, one) is Val,
    ensures
        one(d, p) is Val,
{
    if !(one(d, p) matches Parsed::Val(_, _)) {
        lemma_parse_list_fail(d, pos, k, n, one, s, p);
    }
}

/// A parsed list has exactly `n` items.
pub proof fn lemma_parse_list_len<T>(
    d: Seq<u8>,
    pos: int,
    n: nat,
    one: spec_fn(Seq<u8>, int) -> Parsed<T>,
)
    ensures
        parse_list(d, pos, n, one) matches Parsed::Val(s, _) ==> s.len() == n,
    decreases n,
{
    if n > 0 {
        if let Parsed::Val(v, p) = one(d, pos) {
            lemma_parse_list_len(d, p, (n - 1) as nat, one);
        }
    }
}

/// Extending a successful prefix by one successful item extends the parsed
/// list by that item.
pub proof fn lemma_parse_list_step<T>(
    d: Seq<u8>,
    pos: int,
    n: nat,
    one: spec_fn(Seq<u8>, int) -> Parsed<T>,
    s: Seq<T>,
    p: int,
    v: T,
    q: int,
)
    requires
        parse_list(d, pos, n, one) == Parsed::Val(s, p),
        one(d, p) == Parsed::Val(v, q),
    ensures
        parse_list(d, pos, n + 1, one) == Parsed::<Seq<T>>::Val(s.push(v), q),
    decreases n,
{
    if n == 0 {
        assert(parse_list(d, q, 0, one) == Parsed::Val(Seq::<T>::empty(), q));
        assert(seq![v] + Seq::<T>::empty() =~= Seq::<T>::empty().push(v));
        assert(parse_list(d, pos, 1, one) == Parsed::Val(seq![v] + Seq::<T>::empty(), q));
    } else {
        match one(d, pos) {
            Parsed::Val(v0, p0) => {
                match parse_list(d, p0, (n - 1) as nat, one) {
                    Parsed::Val(s0, q0) => {
                        lemma_parse_list_step(d, p0, (n - 1) as nat, one, s0, q0, v, q);
                        assert(s =~= seq![v0] + s0);
                        assert(seq![v0] + s0.push(v) =~= (seq![v0] + s0).push(v));
                    },
                    _ => {},
                }
            },
            _ => {},
        }
    }
}

/// If a prefix parses but the next item fails, the whole list fails the same
/// way.
pub proof fn lemma_parse_list_fail<T>(
    d: Seq<u8>,
    pos: int,
    k: nat,
    n: nat,
    one: spec_fn(Seq<u8>, int) -> Parsed<T>,
    s: Seq<T>,
    p: int,
)
    requires
        k < n,
        parse_list(d, pos, k, one) == Parsed::Val(s, p),
        !(one(d, p) matches Parsed::Val(_, _)),
    ensures
        one(d, p) is Invalid ==> parse_list(d, pos, n, one) is Invalid,
        one(d, p) is Eof ==> parse_list(d, pos, n, one) is Eof,
    decreases k,
{
    if k == 0 {
        assert(p == pos);
    } else {
        match one(d, pos) {
            Parsed::Val(v0, p0) => {
                match parse_list(d, p0, (k - 1) as nat, one) {
                    Parsed::Val(s0, q0) => {
                        lemma_parse_list_fail(d, p0, (k - 1) as nat, (n - 1) as nat, one, s0, p);
                    },
                    _ => {},
                }
            },
            _ => {},
        }
    }
}

} // verus!

verus! {

/// Parse one record of the vertex section: placement, extended UV channels,
/// a tagged skinning-weight block, and the edge ratio.
#[verifier::opaque]
pub open spec fn parse_vertex(d: Seq<u8>, h: Header, pos: int) -> Parsed<VertexV> {
    let bs = h.bone_index_size as int;
    let wpos = pos + 32 + 16 * h.extended_uv;
    if wpos + 1 > d.len() {
        Parsed::Eof
    } else {
        let tag = d[wpos];
        if tag > 3 {
            Parsed::Invalid
        } else {
            let wsize: int = if tag == 0 {
                bs
            } else if tag == 1 {
                2 * bs + 4
            } else if tag == 2 {
                4 * bs + 16
            } else {
                2 * bs + 40
            };
            if wpos + 1 + wsize + 4 > d.len() {
                Parsed::Eof
            } else {
                let wb = wpos + 1;
                let weight = if tag == 0 {
                    Weight::Bdef1(Bdef1 { bone: signed_index_at(d, wb, h.bone_index_size) })
                } else if tag == 1 {
                    Weight::Bdef2(
                        Bdef2 {
                            bones: (
                                signed_index_at(d, wb, h.bone_index_size),
                                signed_index_at(d, wb + bs, h.bone_index_size),
                            ),
                            weight: f32_at(d, wb + 2 * bs),
                        },
                    )
                } else if tag == 2 {
                    Weight::Bdef4(
                        Bdef4 {
                            bones: (
                                signed_index_at(d, wb, h.bone_index_size),
                                signed_index_at(d, wb + bs, h.bone_index_size),
                                signed_index_at(d, wb + 2 * bs, h.bone_index_size),
                                signed_index_at(d, wb + 3 * bs, h.bone_index_size),
                            ),
                            weights: (
                                f32_at(d, wb + 4 * bs),
                                f32_at(d, wb + 4 * bs + 4),
                                f32_at(d, wb + 4 * bs + 8),
                                f32_at(d, wb + 4 * bs + 12),
                            ),
                        },
                    )
                } else {
                    Weight::Sdef(
                        Sdef {
                            bones: (
                                signed_index_at(d, wb, h.bone_index_size),
                                signed_index_at(d, wb + bs, h.bone_index_size),
                            ),
                            weight: f32_at(d, wb + 2 * bs),
                            c: float3_at(d, wb + 2 * bs + 4),
                            r0: float3_at(d, wb + 2 * bs + 16),
                            r1: float3_at(d, wb + 2 * bs + 28),
                        },
                    )
                };
                Parsed::Val(
                    VertexV {
                        position: float3_at(d, pos),
                        normal: float3_at(d, pos + 12),
                        uv: float2_at(d, pos + 24),
                        extended_uv: Seq::new(
                            h.extended_uv as nat,
                            |i: int| float4_at(d, pos + 32 + 16 * i),
                        ),
                        weight,
                        edge_ratio: f32_at(d, wb + wsize),
                    },
                    wb + wsize + 4,
                )
            }
        }
    }
}

/// Parse one face vertex-index.
pub open spec fn parse_face(d: Seq<u8>, h: Header, pos: int) -> Parsed<usize> {
    if pos + h.vertex_index_size > d.len() {
        Parsed::Eof
    } else {
        Parsed::Val(vertex_index_at(d, pos, h.vertex_index_size), pos + h.vertex_index_size)
    }
}

/// Parse one record of the material section.
#[verifier::opaque]
pub open spec fn parse_material(d: Seq<u8>, h: Header, pos: int) -> Parsed<MaterialV> {
    let ts = h.texture_index_size as int;
    match skip_string(d, pos) {
        None => Parsed::Eof,
        Some(p1) => match skip_string(d, p1) {
            None => Parsed::Eof,
            Some(p2) => {
                let p3 = p2 + 65 + 2 * ts;
                if p3 + 1 > d.len() {
                    Parsed::Eof
                } else if d[p3] > 3 {
                    Parsed::Invalid
                } else if p3 + 2 > d.len() {
                    Parsed::Eof
                } else if d[p3 + 1] > 1 {
                    Parsed::Invalid
                } else {
                    let tsz: int = if d[p3 + 1] == 0 {
                        ts
                    } else {
                        1
                    };
                    if p3 + 2 + tsz > d.len() {
                        Parsed::Eof
                    } else {
                        match skip_string(d, p3 + 2 + tsz) {
                            None => Parsed::Eof,
                            Some(p4) => {
                                if p4 + 4 > d.len() {
                                    Parsed::Eof
                                } else {
                                    let fb = d[p2 + 44];
                                    Parsed::Val(
                                        MaterialV {
                                            name: string_text(d, h.encoding, pos),
                                            name_en: string_text(d, h.encoding, p1),
                                            diffuse: float4_at(d, p2),
                                            specular: float3_at(d, p2 + 16),
                                            specular_power: f32_at(d, p2 + 28),
                                            ambient: float3_at(d, p2 + 32),
                                            both: fb & 0x01 != 0,
                                            ground_shadow: fb & 0x02 != 0,
                                            self_shadow_map: fb & 0x04 != 0,
                                            self_shadow: fb & 0x08 != 0,
                                            edge: fb & 0x10 != 0,
                                            edge_color: float4_at(d, p2 + 45),
                                            edge_size: f32_at(d, p2 + 61),
                                            texture: signed_index_at(
                                                d,
                                                p2 + 65,
                                                h.texture_index_size,
                                            ),
                                            sphere: signed_index_at(
                                                d,
                                                p2 + 65 + ts,
                                                h.texture_index_size,
                                            ),
                                            sphere_mode: if d[p3] == 0 {
                                                SphereMode::Disabled
                                            } else if d[p3] == 1 {
                                                SphereMode::Add
                                            } else if d[p3] == 2 {
                                                SphereMode::Mul
                                            } else {
                                                SphereMode::SubTexture
                                            },
                                            toon: if d[p3 + 1] == 0 {
                                                Toon::Texture(
                                                    signed_index_at(
                                                        d,
                                                        p3 + 2,
                                                        h.texture_index_size,
                                                    ),
                                                )
                                            } else {
                                                Toon::Shared(d[p3 + 2])
                                            },
                                            memo: string_text(d, h.encoding, p3 + 2 + tsz),
                                            index_count: le32(d, p4) as u32,
                                        },
                                        p4 + 4,
                                    )
                                }
                            },
                        }
                    }
                }
            },
        },
    }
}

/// Parse one link of an inverse-kinematics chain: a bone reference and an
/// optional angle limit, present exactly when the limit byte is 1.
#[verifier::opaque]
pub open spec fn parse_ik_link(d: Seq<u8>, h: Header, pos: int) -> Parsed<IkLink> {
    let bs = h.bone_index_size as int;
    if pos + bs + 1 > d.len() {
        Parsed::Eof
    } else if d[pos + bs] == 1 {
        if pos + bs + 25 > d.len() {
            Parsed::Eof
        } else {
            Parsed::Val(
                IkLink {
                    bone: signed_index_at(d, pos, h.bone_index_size),
                    limit: Some(
                        AngleLimit {
                            lower: float3_at(d, pos + bs + 1),
                            upper: float3_at(d, pos + bs + 13),
                        },
                    ),
                },
                pos + bs + 25,
            )
        }
    } else {
        Parsed::Val(
            IkLink { bone: signed_index_at(d, pos, h.bone_index_size), limit: None },
            pos + bs + 1,
        )
    }
}

/// The parser of one IK link, as a closure over the header.
pub open spec fn ik_link_fn(h: Header) -> spec_fn(Seq<u8>, int) -> Parsed<IkLink> {
    |d: Seq<u8>, pos: int| parse_ik_link(d, h, pos)
}

/// Parse one record of the bone section. The 13-bit flag word gates the
/// optional trailing blocks, read in the format's fixed order: connection,
/// additive transform, fixed pole, local pole, external parent, IK.
#[verifier::opaque]
pub open spec fn parse_bone(d: Seq<u8>, h: Header, pos: int) -> Parsed<BoneV> {
    let bs = h.bone_index_size as int;
    match skip_string(d, pos) {
        None => Parsed::Eof,
        Some(p1) => match skip_string(d, p1) {
            None => Parsed::Eof,
            Some(p2) => {
                let p3 = p2 + 12 + bs + 4;
                if p3 + 2 > d.len() {
                    Parsed::Eof
                } else {
                    let flags = le16(d, p3) as u16;
                    let q0 = p3 + 2;
                    let csize: int = if flags & 0x0001 == 0 {
                        12
                    } else {
                        bs
                    };
                    let asize: int = if flags & 0x0100 != 0 || flags & 0x0200 != 0 {
                        bs + 4
                    } else {
                        0
                    };
                    let fsize: int = if flags & 0x0400 != 0 {
                        12
                    } else {
                        0
                    };
                    let lsize: int = if flags & 0x0800 != 0 {
                        24
                    } else {
                        0
                    };
                    let esize: int = if flags & 0x2000 != 0 {
                        4
                    } else {
                        0
                    };
                    let q1 = q0 + csize;
                    let q2 = q1 + asize;
                    let q3 = q2 + fsize;
                    let q4 = q3 + lsize;
                    let q5 = q4 + esize;
                    if q5 > d.len() {
                        Parsed::Eof
                    } else if flags & 0x0020 != 0 {
                        if q5 + bs + 12 > d.len() {
                            Parsed::Eof
                        } else {
                            match parse_list(
                                d,
                                q5 + bs + 12,
                                le32(d, q5 + bs + 8),
                                ik_link_fn(h),
                            ) {
                                Parsed::Val(links, q6) => Parsed::Val(
                                    bone_value(
                                        d,
                                        h,
                                        pos,
                                        p1,
                                        p2,
                                        flags,
                                        q0,
                                        q1,
                                        q2,
                                        q3,
                                        q4,
                                        Some(
                                            IkV {
                                                target_bone: signed_index_at(
                                                    d,
                                                    q5,
                                                    h.bone_index_size,
                                                ),
                                                loop_count: le32(d, q5 + bs) as u32,
                                                angle: f32_at(d, q5 + bs + 4),
                                                links,
                                            },
                                        ),
                                    ),
                                    q6,
                                ),
                                Parsed::Invalid => Parsed::Invalid,
                                Parsed::Eof => Parsed::Eof,
                            }
                        }
                    } else {
                        Parsed::Val(
                            bone_value(d, h, pos, p1, p2, flags, q0, q1, q2, q3, q4, None),
                            q5,
                        )
                    }
                }
            },
        },
    }
}

/// The decoded bone record, given the positions of its blocks.
pub open spec fn bone_value(
    d: Seq<u8>,
    h: Header,
    pos: int,
    p1: int,
    p2: int,
    flags: u16,
    q0: int,
    q1: int,
    q2: int,
    q3: int,
    q4: int,
    ik: Option<IkV>,
) -> BoneV {
    let bs = h.bone_index_size as int;
    BoneV {
        name: string_text(d, h.encoding, pos),
        name_en: string_text(d, h.encoding, p1),
        position: float3_at(d, p2),
        parent: signed_index_at(d, p2 + 12, h.bone_index_size),
        deform_hierarchy: i32_at(d, p2 + 12 + bs) as i32,
        connected_to: if flags & 0x0001 == 0 {
            ConnectTo::Offset(float3_at(d, q0))
        } else {
            ConnectTo::Bone(signed_index_at(d, q0, h.bone_index_size))
        },
        rotatable: flags & 0x0002 != 0,
        translatable: flags & 0x0004 != 0,
        visibility: flags & 0x0008 != 0,
        operable: flags & 0x0010 != 0,
        ik,
        addition: if flags & 0x0100 != 0 || flags & 0x0200 != 0 {
            Some(
                crate::Addition {
                    rotation: flags & 0x0100 != 0,
                    translation: flags & 0x0200 != 0,
                    local: flags & 0x0080 != 0,
                    bone: signed_index_at(d, q1, h.bone_index_size),
                    ratio: f32_at(d, q1 + bs),
                },
            )
        } else {
            None
        },
        after_physics: flags & 0x1000 != 0,
        fixed_pole: if flags & 0x0400 != 0 {
            Some(float3_at(d, q2))
        } else {
            None
        },
        local_pole: if flags & 0x0800 != 0 {
            Some(LocalPole { x: float3_at(d, q3), z: float3_at(d, q3 + 12) })
        } else {
            None
        },
        external_parent: if flags & 0x2000 != 0 {
            Some(vertex_index_at(d, q4, 4))
        } else {
            None
        },
    }
}

/// Parse one group item of a morph payload.
#[verifier::opaque]
pub open spec fn parse_morph_group(d: Seq<u8>, h: Header, pos: int) -> Parsed<morph::Group> {
    let ms = h.morph_index_size as int;
    if pos + ms + 4 > d.len() {
        Parsed::Eof
    } else {
        Parsed::Val(
            morph::Group {
                morph: signed_index_at(d, pos, h.morph_index_size),
                ratio: f32_at(d, pos + ms),
            },
            pos + ms + 4,
        )
    }
}

/// Parse one vertex item of a morph payload.
#[verifier::opaque]
pub open spec fn parse_morph_vertex(d: Seq<u8>, h: Header, pos: int) -> Parsed<morph::Vertex> {
    let vs = h.vertex_index_size as int;
    if pos + vs + 12 > d.len() {
        Parsed::Eof
    } else {
        Parsed::Val(
            morph::Vertex {
                vertex: vertex_index_at(d, pos, h.vertex_index_size),
                offset: float3_at(d, pos + vs),
            },
            pos + vs + 12,
        )
    }
}

/// Parse one bone item of a morph payload.
#[verifier::opaque]
pub open spec fn parse_morph_bone(d: Seq<u8>, h: Header, pos: int) -> Parsed<morph::Bone> {
    let bs = h.bone_index_size as int;
    if pos + bs + 28 > d.len() {
        Parsed::Eof
    } else {
        Parsed::Val(
            morph::Bone {
                bone: signed_index_at(d, pos, h.bone_index_size),
                offset: float3_at(d, pos + bs),
                rotation: float4_at(d, pos + bs + 12),
            },
            pos + bs + 28,
        )
    }
}

/// Parse one UV item of a morph payload.
#[verifier::opaque]
pub open spec fn parse_morph_uv(d: Seq<u8>, h: Header, pos: int) -> Parsed<morph::Uv> {
    let vs = h.vertex_index_size as int;
    if pos + vs + 16 > d.len() {
        Parsed::Eof
    } else {
        Parsed::Val(
            morph::Uv {
                vertex: vertex_index_at(d, pos, h.vertex_index_size),
                offset: float4_at(d, pos + vs),
            },
            pos + vs + 16,
        )
    }
}

/// Parse one material item of a morph payload.
#[verifier::opaque]
pub open spec fn parse_morph_material(d: Seq<u8>, h: Header, pos: int) -> Parsed<morph::Material> {
    let msz = h.material_index_size as int;
    if pos + msz + 1 > d.len() {
        Parsed::Eof
    } else if d[pos + msz] > 1 {
        Parsed::Invalid
    } else if pos + msz + 113 > d.len() {
        Parsed::Eof
    } else {
        let b = pos + msz + 1;
        Parsed::Val(
            morph::Material {
                material: signed_index_at(d, pos, h.material_index_size),
                op: if d[pos + msz] == 0 {
                    morph::MaterialOp::Mul
                } else {
                    morph::MaterialOp::Add
                },
                diffuse: float4_at(d, b),
                specular: float3_at(d, b + 16),
                specular_power: f32_at(d, b + 28),
                ambient: float3_at(d, b + 32),
                edge_color: float4_at(d, b + 44),
                edge_size: f32_at(d, b + 60),
                texture: float4_at(d, b + 64),
                sphere: float4_at(d, b + 80),
                toon: float4_at(d, b + 96),
            },
            pos + msz + 113,
        )
    }
}

/// The morph item parsers, as closures over the header.
pub open spec fn morph_group_fn(h: Header) -> spec_fn(Seq<u8>, int) -> Parsed<morph::Group> {
    |d: Seq<u8>, pos: int| parse_morph_group(d, h, pos)
}

pub open spec fn morph_vertex_fn(h: Header) -> spec_fn(Seq<u8>, int) -> Parsed<morph::Vertex> {
    |d: Seq<u8>, pos: int| parse_morph_vertex(d, h, pos)
}

pub open spec fn morph_bone_fn(h: Header) -> spec_fn(Seq<u8>, int) -> Parsed<morph::Bone> {
    |d: Seq<u8>, pos: int| parse_morph_bone(d, h, pos)
}

pub open spec fn morph_uv_fn(h: Header) -> spec_fn(Seq<u8>, int) -> Parsed<morph::Uv> {
    |d: Seq<u8>, pos: int| parse_morph_uv(d, h, pos)
}

pub open spec fn morph_material_fn(h: Header) -> spec_fn(Seq<u8>, int) -> Parsed<morph::Material> {
    |d: Seq<u8>, pos: int| parse_morph_material(d, h, pos)
}

/// Parse one record of the morph section: panel, kind byte, item count and
/// the kind's item list.
#[verifier::opaque]
pub open spec fn parse_morph(d: Seq<u8>, h: Header, pos: int) -> Parsed<MorphV> {
    match skip_string(d, pos) {
        None => Parsed::Eof,
        Some(p1) => match skip_string(d, p1) {
            None => Parsed::Eof,
            Some(p2) => {
                if p2 + 1 > d.len() {
                    Parsed::Eof
                } else if d[p2] > 4 {
                    Parsed::Invalid
                } else if p2 + 6 > d.len() {
                    Parsed::Eof
                } else {
                    let ty = d[p2 + 1];
                    let n = le32(d, p2 + 2);
                    let body = p2 + 6;
                    let panel = if d[p2] == 0 {
                        crate::Panel::Reserved
                    } else if d[p2] == 1 {
                        crate::Panel::Eyebrow
                    } else if d[p2] == 2 {
                        crate::Panel::Eye
                    } else if d[p2] == 3 {
                        crate::Panel::Mouth
                    } else {
                        crate::Panel::Other
                    };
                    if ty == 0 {
                        match parse_list(d, body, n, morph_group_fn(h)) {
                            Parsed::Val(items, end) => Parsed::Val(
                                morph_value(d, h, pos, p1, panel, morph::KindV::Group(items)),
                                end,
                            ),
                            Parsed::Invalid => Parsed::Invalid,
                            Parsed::Eof => Parsed::Eof,
                        }
                    } else if ty == 1 {
                        match parse_list(d, body, n, morph_vertex_fn(h)) {
                            Parsed::Val(items, end) => Parsed::Val(
                                morph_value(d, h, pos, p1, panel, morph::KindV::Vertex(items)),
                                end,
                            ),
                            Parsed::Invalid => Parsed::Invalid,
                            Parsed::Eof => Parsed::Eof,
                        }
                    } else if ty == 2 {
                        match parse_list(d, body, n, morph_bone_fn(h)) {
                            Parsed::Val(items, end) => Parsed::Val(
                                morph_value(d, h, pos, p1, panel, morph::KindV::Bone(items)),
                                end,
                            ),
                            Parsed::Invalid => Parsed::Invalid,
                            Parsed::Eof => Parsed::Eof,
                        }
                    } else if ty == 3 {
                        match parse_list(d, body, n, morph_uv_fn(h)) {
                            Parsed::Val(items, end) => Parsed::Val(
                                morph_value(d, h, pos, p1, panel, morph::KindV::Uv(items)),
                                end,
                            ),
                            Parsed::Invalid => Parsed::Invalid,
                            Parsed::Eof => Parsed::Eof,
                        }
                    } else if ty <= 7 {
                        match parse_list(d, body, n, morph_uv_fn(h)) {
                            Parsed::Val(items, end) => Parsed::Val(
                                morph_value(
                                    d,
                                    h,
                                    pos,
                                    p1,
                                    panel,
                                    morph::KindV::ExtendedUv((ty - 4) as usize, items),
                                ),
                                end,
                            ),
                            Parsed::Invalid => Parsed::Invalid,
                            Parsed::Eof => Parsed::Eof,
                        }
                    } else if ty == 8 {
                        match parse_list(d, body, n, morph_material_fn(h)) {
                            Parsed::Val(items, end) => Parsed::Val(
                                morph_value(d, h, pos, p1, panel, morph::KindV::Material(items)),
                                end,
                            ),
                            Parsed::Invalid => Parsed::Invalid,
                            Parsed::Eof => Parsed::Eof,
                        }
                    } else {
                        Parsed::Invalid
                    }
                }
            },
        },
    }
}

/// The decoded morph record.
pub open spec fn morph_value(
    d: Seq<u8>,
    h: Header,
    pos: int,
    p1: int,
    panel: crate::Panel,
    kind: morph::KindV,
) -> MorphV {
    MorphV {
        name: string_text(d, h.encoding, pos),
        name_en: string_text(d, h.encoding, p1),
        panel,
        kind,
    }
}

/// Parse one element of a display group.
#[verifier::opaque]
pub open spec fn parse_display_element(d: Seq<u8>, h: Header, pos: int) -> Parsed<DisplayElement> {
    let bs = h.bone_index_size as int;
    let ms = h.morph_index_size as int;
    if pos + 1 > d.len() {
        Parsed::Eof
    } else if d[pos] == 0 {
        if pos + 1 + bs > d.len() {
            Parsed::Eof
        } else {
            Parsed::Val(
                DisplayElement::Bone(signed_index_at(d, pos + 1, h.bone_index_size)),
                pos + 1 + bs,
            )
        }
    } else if d[pos] == 1 {
        if pos + 1 + ms > d.len() {
            Parsed::Eof
        } else {
            Parsed::Val(
                DisplayElement::Morph(signed_index_at(d, pos + 1, h.morph_index_size)),
                pos + 1 + ms,
            )
        }
    } else {
        Parsed::Invalid
    }
}

/// The display-element parser, as a closure over the header.
pub open spec fn display_element_fn(h: Header) -> spec_fn(Seq<u8>, int) -> Parsed<DisplayElement> {
    |d: Seq<u8>, pos: int| parse_display_element(d, h, pos)
}

/// Parse one record of the display-group section.
#[verifier::opaque]
pub open spec fn parse_display_group(d: Seq<u8>, h: Header, pos: int) -> Parsed<DisplayGroupV> {
    match skip_string(d, pos) {
        None => Parsed::Eof,
        Some(p1) => match skip_string(d, p1) {
            None => Parsed::Eof,
            Some(p2) => {
                if p2 + 5 > d.len() {
                    Parsed::Eof
                } else {
                    match parse_list(d, p2 + 5, le32(d, p2 + 1), display_element_fn(h)) {
                        Parsed::Val(elements, end) => Parsed::Val(
                            DisplayGroupV {
                                name: string_text(d, h.encoding, pos),
                                name_en: string_text(d, h.encoding, p1),
                                special: d[p2] != 0,
                                elements,
                            },
                            end,
                        ),
                        Parsed::Invalid => Parsed::Invalid,
                        Parsed::Eof => Parsed::Eof,
                    }
                }
            },
        },
    }
}

/// Parse one record of the rigid-body section.
#[verifier::opaque]
pub open spec fn parse_rigid(d: Seq<u8>, h: Header, pos: int) -> Parsed<RigidV> {
    let bs = h.bone_index_size as int;
    match skip_string(d, pos) {
        None => Parsed::Eof,
        Some(p1) => match skip_string(d, p1) {
            None => Parsed::Eof,
            Some(p2) => {
                let q = p2 + bs + 3;
                if q + 1 > d.len() {
                    Parsed::Eof
                } else if d[q] > 2 {
                    Parsed::Invalid
                } else if q + 58 > d.len() {
                    Parsed::Eof
                } else if d[q + 57] > 2 {
                    Parsed::Invalid
                } else {
                    Parsed::Val(
                        RigidV {
                            name: string_text(d, h.encoding, pos),
                            name_en: string_text(d, h.encoding, p1),
                            bone: signed_index_at(d, p2, h.bone_index_size),
                            group: d[p2 + bs],
                            non_collision_groups: le16(d, p2 + bs + 1) as u16,
                            shape: if d[q] == 0 {
                                rigid::Shape::Sphere
                            } else if d[q] == 1 {
                                rigid::Shape::Box
                            } else {
                                rigid::Shape::Capsule
                            },
                            size: float3_at(d, q + 1),
                            position: float3_at(d, q + 13),
                            rotation: float3_at(d, q + 25),
                            mass: f32_at(d, q + 37),
                            dump_translation: f32_at(d, q + 41),
                            dump_rotation: f32_at(d, q + 45),
                            repulsive: f32_at(d, q + 49),
                            friction: f32_at(d, q + 53),
                            method: if d[q + 57] == 0 {
                                rigid::Method::Static
                            } else if d[q + 57] == 1 {
                                rigid::Method::Dynamic
                            } else {
                                rigid::Method::DynamicWithBone
                            },
                        },
                        q + 58,
                    )
                }
            },
        },
    }
}

/// Parse one record of the joint section; its type byte must be 0.
#[verifier::opaque]
pub open spec fn parse_joint(d: Seq<u8>, h: Header, pos: int) -> Parsed<JointV> {
    let rs = h.rigid_index_size as int;
    match skip_string(d, pos) {
        None => Parsed::Eof,
        Some(p1) => match skip_string(d, p1) {
            None => Parsed::Eof,
            Some(p2) => {
                if p2 + 1 > d.len() {
                    Parsed::Eof
                } else if d[p2] != 0 {
                    Parsed::Invalid
                } else if p2 + 1 + 2 * rs + 96 > d.len() {
                    Parsed::Eof
                } else {
                    let b = p2 + 1 + 2 * rs;
                    Parsed::Val(
                        JointV {
                            name: string_text(d, h.encoding, pos),
                            name_en: string_text(d, h.encoding, p1),
                            rigids: RigidPair(
                                signed_index_at(d, p2 + 1, h.rigid_index_size),
                                signed_index_at(d, p2 + 1 + rs, h.rigid_index_size),
                            ),
                            position: float3_at(d, b),
                            rotation: float3_at(d, b + 12),
                            limit_translation: AngleLimit {
                                lower: float3_at(d, b + 24),
                                upper: float3_at(d, b + 36),
                            },
                            limit_rotation: AngleLimit {
                                lower: float3_at(d, b + 48),
                                upper: float3_at(d, b + 60),
                            },
                            spring_translation: float3_at(d, b + 72),
                            spring_rotation: float3_at(d, b + 84),
                        },
                        p2 + 1 + 2 * rs + 96,
                    )
                }
            },
        },
    }
}

/// Parse one texture path string.
pub open spec fn parse_texture(d: Seq<u8>, h: Header, pos: int) -> Parsed<Seq<char>> {
    parse_string(d, h.encoding, pos)
}

/// The record parsers, as closures over the header.
pub open spec fn vertex_fn(h: Header) -> spec_fn(Seq<u8>, int) -> Parsed<VertexV> {
    |d: Seq<u8>, pos: int| parse_vertex(d, h, pos)
}

pub open spec fn face_fn(h: Header) -> spec_fn(Seq<u8>, int) -> Parsed<usize> {
    |d: Seq<u8>, pos: int| parse_face(d, h, pos)
}

pub open spec fn texture_fn(h: Header) -> spec_fn(Seq<u8>, int) -> Parsed<Seq<char>> {
    |d: Seq<u8>, pos: int| parse_texture(d, h, pos)
}

pub open spec fn material_fn(h: Header) -> spec_fn(Seq<u8>, int) -> Parsed<MaterialV> {
    |d: Seq<u8>, pos: int| parse_material(d, h, pos)
}

pub open spec fn bone_fn(h: Header) -> spec_fn(Seq<u8>, int) -> Parsed<BoneV> {
    |d: Seq<u8>, pos: int| parse_bone(d, h, pos)
}

pub open spec fn morph_fn(h: Header) -> spec_fn(Seq<u8>, int) -> Parsed<MorphV> {
    |d: Seq<u8>, pos: int| parse_morph(d, h, pos)
}

pub open spec fn display_group_fn(h: Header) -> spec_fn(Seq<u8>, int) -> Parsed<DisplayGroupV> {
    |d: Seq<u8>, pos: int| parse_display_group(d, h, pos)
}

pub open spec fn rigid_fn(h: Header) -> spec_fn(Seq<u8>, int) -> Parsed<RigidV> {
    |d: Seq<u8>, pos: int| parse_rigid(d, h, pos)
}

pub open spec fn joint_fn(h: Header) -> spec_fn(Seq<u8>, int) -> Parsed<JointV> {
    |d: Seq<u8>, pos: int| parse_joint(d, h, pos)
}


/// Each morph-group item occupies exactly its index width plus 4 bytes.
pub proof fn lemma_morph_group_fixed(d: Seq<u8>, h: Header)
    ensures
        forall|p: int|
            p + h.morph_index_size + 4 <= d.len() ==> (#[trigger] morph_group_fn(h)(d, p)
                matches Parsed::Val(_, end) && end == p + h.morph_index_size + 4),
        forall|p: int|
            p + h.morph_index_size + 4 > d.len() ==> #[trigger] morph_group_fn(h)(d, p) is Eof,
{
    reveal(parse_morph_group);
    assert forall|p: int| true implies #[trigger] morph_group_fn(h)(d, p) == parse_morph_group(
        d,
        h,
        p,
    ) by {}
}

/// Each morph-vertex item occupies exactly its index width plus 12 bytes.
pub proof fn lemma_morph_vertex_fixed(d: Seq<u8>, h: Header)
    ensures
        forall|p: int|
            p + h.vertex_index_size + 12 <= d.len() ==> (#[trigger] morph_vertex_fn(h)(d, p)
                matches Parsed::Val(_, end) && end == p + h.vertex_index_size + 12),
        forall|p: int|
            p + h.vertex_index_size + 12 > d.len() ==> #[trigger] morph_vertex_fn(h)(d, p) is Eof,
{
    reveal(parse_morph_vertex);
    assert forall|p: int| true implies #[trigger] morph_vertex_fn(h)(d, p) == parse_morph_vertex(
        d,
        h,
        p,
    ) by {}
}

/// Each morph-bone item occupies exactly its index width plus 28 bytes.
pub proof fn lemma_morph_bone_fixed(d: Seq<u8>, h: Header)
    ensures
        forall|p: int|
            p + h.bone_index_size + 28 <= d.len() ==> (#[trigger] morph_bone_fn(h)(d, p)
                matches Parsed::Val(_, end) && end == p + h.bone_index_size + 28),
        forall|p: int|
            p + h.bone_index_size + 28 > d.len() ==> #[trigger] morph_bone_fn(h)(d, p) is Eof,
{
    reveal(parse_morph_bone);
    assert forall|p: int| true implies #[trigger] morph_bone_fn(h)(d, p) == parse_morph_bone(
        d,
        h,
        p,
    ) by {}
}

/// Each morph-UV item occupies exactly its index width plus 16 bytes.
pub proof fn lemma_morph_uv_fixed(d: Seq<u8>, h: Header)
    ensures
        forall|p: int|
            p + h.vertex_index_size + 16 <= d.len() ==> (#[trigger] morph_uv_fn(h)(d, p)
                matches Parsed::Val(_, end) && end == p + h.vertex_index_size + 16),
        forall|p: int|
            p + h.vertex_index_size + 16 > d.len() ==> #[trigger] morph_uv_fn(h)(d, p) is Eof,
{
    reveal(parse_morph_uv);
    assert forall|p: int| true implies #[trigger] morph_uv_fn(h)(d, p) == parse_morph_uv(
        d,
        h,
        p,
    ) by {}
}


/// The unsigned cell value that a signed index `v` is stored as in width
/// `w`: two's complement, so a negative value has the top bit set.
pub open spec fn stored_signed(v: int, w: u64) -> nat {
    if v < 0 {
        (v + 2 * sign_threshold(w)) as nat
    } else {
        v as nat
    }
}

/// Round trip of signed index decoding, for each width 1, 2 or 4: a stored
/// negative value decodes to "absent"; a stored non-negative value decodes
/// to a present reference holding that value.
pub proof fn lemma_signed_index_roundtrip(d: Seq<u8>, i: int, w: u64, v: int)
    requires
        crate::header::index_size_ok(w),
        -(sign_threshold(w) as int) <= v < sign_threshold(w) as int,
        le_width(d, i, w) == stored_signed(v, w),
    ensures
        v < 0 ==> signed_index_at(d, i, w) is None,
        v >= 0 ==> signed_index_at(d, i, w) == Some(v as usize),
{
}

/// Round trip of vertex index decoding: widths 1 and 2 are plain unsigned;
/// width 4 stores a signed value whose non-negative range decodes unchanged
/// and whose negative range is sign-extended into `usize`.
pub proof fn lemma_vertex_index_roundtrip(d: Seq<u8>, i: int, w: u64, v: int)
    requires
        crate::header::index_size_ok(w),
        0 <= v < (if w == 4 { sign_threshold(w) } else { 2 * sign_threshold(w) }),
        le_width(d, i, w) == v,
    ensures
        vertex_index_at(d, i, w) == v as usize,
{
}

/// A zero-length prefix decodes to the empty string under either encoding.
pub proof fn lemma_empty_string(enc: Encoding)
    ensures
        decoded_text(enc, Seq::empty()) == Seq::<char>::empty(),
{
}

/// A string whose length prefix is zero parses to the empty string, and the
/// cursor lands just past the prefix.
pub proof fn lemma_zero_length_string(d: Seq<u8>, enc: Encoding, pos: int)
    requires
        0 <= pos,
        pos + 4 <= d.len(),
        le32(d, pos) == 0,
    ensures
        parse_string(d, enc, pos) == Parsed::<Seq<char>>::Val(Seq::empty(), pos + 4),
{
    assert(d.subrange(pos + 4, pos + 4) =~= Seq::<u8>::empty());
}

/// String parsing never rejects a payload: whatever the bytes hold, the
/// lossy decoders produce a string, so the only failure is a short buffer.
pub proof fn lemma_string_never_invalid(d: Seq<u8>, enc: Encoding, pos: int)
    ensures
        !(parse_string(d, enc, pos) is Invalid),
{
}

} // verus!
