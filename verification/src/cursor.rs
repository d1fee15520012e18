//! Positioned readers over the raw byte buffer.
//!
//! [`Seeker`] is the structural scanner's cursor: it only advances, by known
//! lengths, and reports where it is. [`DataCursor`] is the section decoders'
//! cursor: it materializes integers, index references, float patterns and
//! strings. Both are verified against the byte-level model in [`crate::model`].

use crate::header::Encoding;
use crate::header::Header;
use crate::model::f32_at;
use crate::model::float2_at;
use crate::model::float3_at;
use crate::model::float4_at;
use crate::model::i32_at;
use crate::model::le16;
use crate::model::le32;
use crate::model::signed_index_at;
use crate::model::skip_string;
use crate::model::string_end;
use crate::model::string_text;
use crate::model::utf16_lossy;
use crate::model::utf16_units;
use crate::model::utf8_lossy;
use crate::model::vertex_index_at;
use crate::reader::Error;
use crate::F32Bits;
use crate::Float2;
use crate::Float3;
use crate::Float4;
use vstd::prelude::*;
use vstd::slice::slice_subrange;

verus! {

/// Relies on `String::from_utf8_lossy`: the result is a function of the bytes
/// alone, and an empty input gives an empty string.
#[verifier::external_body]
fn decode_utf8_lossy(b: &[u8]) -> (r: String)
    ensures
        r@ == utf8_lossy(b@),
        b@.len() == 0 ==> r@.len() == 0,
{
    String::from_utf8_lossy(b).into_owned()
}

/// Relies on `String::from_utf16_lossy`: the result is a function of the code
/// units alone, and an empty input gives an empty string.
#[verifier::external_body]
fn decode_utf16_lossy(units: &Vec<u16>) -> (r: String)
    ensures
        r@ == utf16_lossy(units@),
        units@.len() == 0 ==> r@.len() == 0,
{
    String::from_utf16_lossy(units)
}

/// The scanner's cursor: a position in the buffer that only moves forward.
pub struct Seeker<'a> {
    pub data: &'a Vec<u8>,
    pub pos: usize,
}

impl<'a> Seeker<'a> {
    /// The position never passes the end of the buffer.
    pub open spec fn wf(self) -> bool {
        self.pos <= self.data.len()
    }

    /// A cursor standing at `pos`.
    pub fn new(data: &'a Vec<u8>, pos: usize) -> (r: Self)
        requires
            pos <= data.len(),
        ensures
            r.data == data,
            r.pos == pos,
    {
        Seeker { data, pos }
    }

    /// Where the cursor stands.
    pub fn position(&self) -> (r: u64)
        requires
            self.wf(),
        ensures
            r == self.pos,
    {
        self.pos as u64
    }

    /// Skip `len` bytes, returning the pre-skip offset; fails when fewer than
    /// `len` bytes remain.
    pub fn seek_bin(&mut self, len: u64) -> (r: Result<u64, Error>)
        requires
            old(self).wf(),
        ensures
            final(self).data == old(self).data,
            final(self).wf(),
            old(self).pos + len <= old(self).data.len() ==> (r matches Ok(first) && first == old(
                self,
            ).pos && final(self).pos == old(self).pos + len),
            old(self).pos + len > old(self).data.len() ==> (r matches Err(e) && e matches Error::Io
                && *final(self) == *old(self)),
    {
        let first = self.pos;
        if len <= (self.data.len() - self.pos) as u64 {
            self.pos = self.pos + len as usize;
            Ok(first as u64)
        } else {
            Err(Error::Io)
        }
    }

    /// Skip one length-prefixed string, returning the offset of its length
    /// field; fails when the buffer ends inside the prefix or the payload.
    pub fn seek_string(&mut self) -> (r: Result<u64, Error>)
        requires
            old(self).wf(),
        ensures
            final(self).data == old(self).data,
            final(self).wf(),
            skip_string(old(self).data@, old(self).pos as int) matches Some(end) ==> (r matches Ok(
                first,
            ) && first == old(self).pos && final(self).pos == end),
            skip_string(old(self).data@, old(self).pos as int) is None ==> (r matches Err(e)
                && e matches Error::Io && *final(self) == *old(self)),
    {
        let first = self.pos;
        if self.data.len() - self.pos < 4 {
            return Err(Error::Io);
        }
        let n = le_u32_at(self.data, self.pos);
        if (n as usize) <= self.data.len() - (self.pos + 4) {
            self.pos = self.pos + 4 + n as usize;
            Ok(first as u64)
        } else {
            Err(Error::Io)
        }
    }

    /// Read one byte and advance past it.
    pub fn read_u8(&mut self) -> (r: Result<u8, Error>)
        requires
            old(self).wf(),
        ensures
            final(self).data == old(self).data,
            final(self).wf(),
            old(self).pos + 1 <= old(self).data.len() ==> (r matches Ok(v) && v == old(
                self,
            ).data@[old(self).pos as int] && final(self).pos == old(self).pos + 1),
            old(self).pos + 1 > old(self).data.len() ==> (r matches Err(e) && e matches Error::Io
                && *final(self) == *old(self)),
    {
        if self.pos < self.data.len() {
            let v = self.data[self.pos];
            self.pos = self.pos + 1;
            Ok(v)
        } else {
            Err(Error::Io)
        }
    }

    /// Read a little-endian 16-bit value and advance past it.
    pub fn read_u16(&mut self) -> (r: Result<u16, Error>)
        requires
            old(self).wf(),
        ensures
            final(self).data == old(self).data,
            final(self).wf(),
            old(self).pos + 2 <= old(self).data.len() ==> (r matches Ok(v) && v == le16(
                old(self).data@,
                old(self).pos as int,
            ) && final(self).pos == old(self).pos + 2),
            old(self).pos + 2 > old(self).data.len() ==> (r matches Err(e) && e matches Error::Io
                && *final(self) == *old(self)),
    {
        if 2 <= self.data.len() - self.pos {
            let b0 = self.data[self.pos] as u16;
            let b1 = self.data[self.pos + 1] as u16;
            self.pos = self.pos + 2;
            Ok(b0 + b1 * 0x100)
        } else {
            Err(Error::Io)
        }
    }

    /// Read a little-endian 32-bit value and advance past it.
    pub fn read_u32(&mut self) -> (r: Result<u32, Error>)
        requires
            old(self).wf(),
        ensures
            final(self).data == old(self).data,
            final(self).wf(),
            old(self).pos + 4 <= old(self).data.len() ==> (r matches Ok(v) && v == le32(
                old(self).data@,
                old(self).pos as int,
            ) && final(self).pos == old(self).pos + 4),
            old(self).pos + 4 > old(self).data.len() ==> (r matches Err(e) && e matches Error::Io
                && *final(self) == *old(self)),
    {
        if 4 <= self.data.len() - self.pos {
            let v = le_u32_at(self.data, self.pos);
            self.pos = self.pos + 4;
            Ok(v)
        } else {
            Err(Error::Io)
        }
    }
}

/// The little-endian 32-bit value stored at `pos`.
fn le_u32_at(data: &Vec<u8>, pos: usize) -> (r: u32)
    requires
        pos + 4 <= data.len(),
    ensures
        r == le32(data@, pos as int),
{
    let b0 = data[pos] as u32;
    let b1 = data[pos + 1] as u32;
    let b2 = data[pos + 2] as u32;
    let b3 = data[pos + 3] as u32;
    b0 + b1 * 0x100 + b2 * 0x1_0000 + b3 * 0x100_0000
}

/// The section decoders' cursor: reads typed values at a position.
pub struct DataCursor<'a> {
    pub data: &'a Vec<u8>,
    pub header: &'a Header,
    pub pos: usize,
}

impl<'a> DataCursor<'a> {
    /// The position never passes the end of the buffer, and the header's
    /// widths are legal.
    pub open spec fn wf(self) -> bool {
        self.pos <= self.data.len() && self.header.wf()
    }

    /// A cursor standing at `pos`.
    pub fn with_position(data: &'a Vec<u8>, header: &'a Header, pos: u64) -> (r: Self)
        requires
            pos <= data.len(),
            header.wf(),
        ensures
            r.data == data,
            r.header == header,
            r.pos == pos,
            r.wf(),
    {
        DataCursor { data, header, pos: pos as usize }
    }

    /// Reposition the cursor; fails when `pos` lies past the end.
    pub fn seek(&mut self, pos: u64) -> (r: Result<u64, Error>)
        requires
            old(self).wf(),
        ensures
            final(self).data == old(self).data,
            final(self).header == old(self).header,
            final(self).wf(),
            pos <= old(self).data.len() ==> (r matches Ok(p) && p == pos && final(self).pos == pos),
            pos > old(self).data.len() ==> (r matches Err(e) && e matches Error::Io
                && *final(self) == *old(self)),
    {
        if pos <= self.data.len() as u64 {
            self.pos = pos as usize;
            Ok(pos)
        } else {
            Err(Error::Io)
        }
    }

    /// Read one byte.
    pub fn read_u8(&mut self) -> (r: u8)
        requires
            old(self).wf(),
            old(self).pos + 1 <= old(self).data.len(),
        ensures
            final(self).data == old(self).data,
            final(self).header == old(self).header,
            final(self).pos == old(self).pos + 1,
            r == old(self).data@[old(self).pos as int],
    {
        let v = self.data[self.pos];
        self.pos = self.pos + 1;
        v
    }

    /// Read a little-endian 16-bit value.
    pub fn read_u16(&mut self) -> (r: u16)
        requires
            old(self).wf(),
            old(self).pos + 2 <= old(self).data.len(),
        ensures
            final(self).data == old(self).data,
            final(self).header == old(self).header,
            final(self).pos == old(self).pos + 2,
            r == le16(old(self).data@, old(self).pos as int),
    {
        let b0 = self.data[self.pos] as u16;
        let b1 = self.data[self.pos + 1] as u16;
        self.pos = self.pos + 2;
        b0 + b1 * 0x100
    }

    /// Read a little-endian 32-bit value.
    pub fn read_u32(&mut self) -> (r: u32)
        requires
            old(self).wf(),
            old(self).pos + 4 <= old(self).data.len(),
        ensures
            final(self).data == old(self).data,
            final(self).header == old(self).header,
            final(self).pos == old(self).pos + 4,
            r == le32(old(self).data@, old(self).pos as int),
    {
        let v = le_u32_at(self.data, self.pos);
        self.pos = self.pos + 4;
        v
    }

    /// Read one byte as a signed value.
    pub fn read_i8(&mut self) -> (r: i8)
        requires
            old(self).wf(),
            old(self).pos + 1 <= old(self).data.len(),
        ensures
            final(self).data == old(self).data,
            final(self).header == old(self).header,
            final(self).pos == old(self).pos + 1,
            r as int == if old(self).data@[old(self).pos as int] >= 0x80 {
                old(self).data@[old(self).pos as int] - 0x100
            } else {
                old(self).data@[old(self).pos as int] as int
            },
    {
        let v = self.read_u8();
        if v >= 0x80 {
            (v as i32 - 0x100) as i8
        } else {
            v as i8
        }
    }

    /// Read a little-endian signed 16-bit value.
    pub fn read_i16(&mut self) -> (r: i16)
        requires
            old(self).wf(),
            old(self).pos + 2 <= old(self).data.len(),
        ensures
            final(self).data == old(self).data,
            final(self).header == old(self).header,
            final(self).pos == old(self).pos + 2,
            r as int == if le16(old(self).data@, old(self).pos as int) >= 0x8000 {
                le16(old(self).data@, old(self).pos as int) - 0x1_0000
            } else {
                le16(old(self).data@, old(self).pos as int) as int
            },
    {
        let v = self.read_u16();
        if v >= 0x8000 {
            (v as i32 - 0x1_0000) as i16
        } else {
            v as i16
        }
    }

    /// Read a little-endian signed 32-bit value.
    pub fn read_i32(&mut self) -> (r: i32)
        requires
            old(self).wf(),
            old(self).pos + 4 <= old(self).data.len(),
        ensures
            final(self).data == old(self).data,
            final(self).header == old(self).header,
            final(self).pos == old(self).pos + 4,
            r as int == i32_at(old(self).data@, old(self).pos as int),
    {
        let v = self.read_u32();
        if v >= 0x8000_0000 {
            (v as i64 - 0x1_0000_0000) as i32
        } else {
            v as i32
        }
    }

    /// Read a raw float pattern.
    pub fn read_f32_bits(&mut self) -> (r: F32Bits)
        requires
            old(self).wf(),
            old(self).pos + 4 <= old(self).data.len(),
        ensures
            final(self).data == old(self).data,
            final(self).header == old(self).header,
            final(self).pos == old(self).pos + 4,
            r == f32_at(old(self).data@, old(self).pos as int),
    {
        F32Bits(self.read_u32())
    }

    /// Read a 2-vector of float patterns.
    pub fn read_float2(&mut self) -> (r: Float2)
        requires
            old(self).wf(),
            old(self).pos + 8 <= old(self).data.len(),
        ensures
            final(self).data == old(self).data,
            final(self).header == old(self).header,
            final(self).pos == old(self).pos + 8,
            r == float2_at(old(self).data@, old(self).pos as int),
    {
        let x = self.read_f32_bits();
        let y = self.read_f32_bits();
        Float2 { x, y }
    }

    /// Read a 3-vector of float patterns.
    pub fn read_float3(&mut self) -> (r: Float3)
        requires
            old(self).wf(),
            old(self).pos + 12 <= old(self).data.len(),
        ensures
            final(self).data == old(self).data,
            final(self).header == old(self).header,
            final(self).pos == old(self).pos + 12,
            r == float3_at(old(self).data@, old(self).pos as int),
    {
        let x = self.read_f32_bits();
        let y = self.read_f32_bits();
        let z = self.read_f32_bits();
        Float3 { x, y, z }
    }

    /// Read a 4-vector of float patterns.
    pub fn read_float4(&mut self) -> (r: Float4)
        requires
            old(self).wf(),
            old(self).pos + 16 <= old(self).data.len(),
        ensures
            final(self).data == old(self).data,
            final(self).header == old(self).header,
            final(self).pos == old(self).pos + 16,
            r == float4_at(old(self).data@, old(self).pos as int),
    {
        let x = self.read_f32_bits();
        let y = self.read_f32_bits();
        let z = self.read_f32_bits();
        let w = self.read_f32_bits();
        Float4 { x, y, z, w }
    }

    /// Read a signed index of width `size`: a negative stored value decodes
    /// to `None`, any other to `Some` of its magnitude.
    pub fn read_signed_index(&mut self, size: u64) -> (r: Option<usize>)
        requires
            old(self).wf(),
            size == 1 || size == 2 || size == 4,
            old(self).pos + size <= old(self).data.len(),
        ensures
            final(self).data == old(self).data,
            final(self).header == old(self).header,
            final(self).pos == old(self).pos + size,
            r == signed_index_at(old(self).data@, old(self).pos as int, size),
    {
        if size == 1 {
            let v = self.read_u8();
            if v >= 0x80 {
                None
            } else {
                Some(v as usize)
            }
        } else if size == 2 {
            let v = self.read_u16();
            if v >= 0x8000 {
                None
            } else {
                Some(v as usize)
            }
        } else {
            let v = self.read_u32();
            if v >= 0x8000_0000 {
                None
            } else {
                Some(v as usize)
            }
        }
    }

    /// Read a vertex index, whose width-dependent unsigned convention differs
    /// from the signed scheme of the other index categories.
    pub fn read_vertex_index(&mut self) -> (r: usize)
        requires
            old(self).wf(),
            old(self).pos + old(self).header.vertex_index_size <= old(self).data.len(),
        ensures
            final(self).data == old(self).data,
            final(self).header == old(self).header,
            final(self).pos == old(self).pos + old(self).header.vertex_index_size,
            r == vertex_index_at(
                old(self).data@,
                old(self).pos as int,
                old(self).header.vertex_index_size,
            ),
    {
        if self.header.vertex_index_size == 1 {
            self.read_u8() as usize
        } else if self.header.vertex_index_size == 2 {
            self.read_u16() as usize
        } else {
            let v = self.read_u32();
            if v >= 0x8000_0000 {
                usize::MAX - 0xffff_ffff + (v as usize)
            } else {
                v as usize
            }
        }
    }

    /// Read a texture index.
    pub fn read_texture_index(&mut self) -> (r: Option<usize>)
        requires
            old(self).wf(),
            old(self).pos + old(self).header.texture_index_size <= old(self).data.len(),
        ensures
            final(self).data == old(self).data,
            final(self).header == old(self).header,
            final(self).pos == old(self).pos + old(self).header.texture_index_size,
            r == signed_index_at(
                old(self).data@,
                old(self).pos as int,
                old(self).header.texture_index_size,
            ),
    {
        let size = self.header.texture_index_size;
        self.read_signed_index(size)
    }

    /// Read a material index.
    pub fn read_material_index(&mut self) -> (r: Option<usize>)
        requires
            old(self).wf(),
            old(self).pos + old(self).header.material_index_size <= old(self).data.len(),
        ensures
            final(self).data == old(self).data,
            final(self).header == old(self).header,
            final(self).pos == old(self).pos + old(self).header.material_index_size,
            r == signed_index_at(
                old(self).data@,
                old(self).pos as int,
                old(self).header.material_index_size,
            ),
    {
        let size = self.header.material_index_size;
        self.read_signed_index(size)
    }

    /// Read a bone index.
    pub fn read_bone_index(&mut self) -> (r: Option<usize>)
        requires
            old(self).wf(),
            old(self).pos + old(self).header.bone_index_size <= old(self).data.len(),
        ensures
            final(self).data == old(self).data,
            final(self).header == old(self).header,
            final(self).pos == old(self).pos + old(self).header.bone_index_size,
            r == signed_index_at(
                old(self).data@,
                old(self).pos as int,
                old(self).header.bone_index_size,
            ),
    {
        let size = self.header.bone_index_size;
        self.read_signed_index(size)
    }

    /// Read a morph index.
    pub fn read_morph_index(&mut self) -> (r: Option<usize>)
        requires
            old(self).wf(),
            old(self).pos + old(self).header.morph_index_size <= old(self).data.len(),
        ensures
            final(self).data == old(self).data,
            final(self).header == old(self).header,
            final(self).pos == old(self).pos + old(self).header.morph_index_size,
            r == signed_index_at(
                old(self).data@,
                old(self).pos as int,
                old(self).header.morph_index_size,
            ),
    {
        let size = self.header.morph_index_size;
        self.read_signed_index(size)
    }

    /// Read a rigid-body index.
    pub fn read_rigid_index(&mut self) -> (r: Option<usize>)
        requires
            old(self).wf(),
            old(self).pos + old(self).header.rigid_index_size <= old(self).data.len(),
        ensures
            final(self).data == old(self).data,
            final(self).header == old(self).header,
            final(self).pos == old(self).pos + old(self).header.rigid_index_size,
            r == signed_index_at(
                old(self).data@,
                old(self).pos as int,
                old(self).header.rigid_index_size,
            ),
    {
        let size = self.header.rigid_index_size;
        self.read_signed_index(size)
    }

    /// Read a length-prefixed string and decode it per the header's encoding.
    pub fn read_string(&mut self) -> (r: String)
        requires
            old(self).wf(),
            skip_string(old(self).data@, old(self).pos as int) is Some,
        ensures
            final(self).data == old(self).data,
            final(self).header == old(self).header,
            final(self).pos == string_end(old(self).data@, old(self).pos as int),
            r@ == string_text(old(self).data@, old(self).header.encoding, old(self).pos as int),
    {
        let n = self.read_u32() as usize;
        if n == 0 {
            proof {
                assert(self.data@.subrange(self.pos as int, self.pos as int) =~= Seq::<
                    u8,
                >::empty());
            }
            return String::new();
        }
        let payload = slice_subrange(self.data.as_slice(), self.pos, self.pos + n);
        let r = match self.header.encoding {
            Encoding::Utf8 => decode_utf8_lossy(payload),
            Encoding::Utf16 => {
                let mut units: Vec<u16> = Vec::new();
                let count = n / 2;
                let mut i: usize = 0;
                while i < count
                    invariant
                        self.wf(),
                        self.pos + n <= self.data.len(),
                        count == n / 2,
                        i <= count,
                        units@.len() == i,
                        forall|j: int|
                            0 <= j < i ==> units@[j] == utf16_units(
                                self.data@.subrange(self.pos as int, self.pos + n),
                            )[j],
                    decreases count - i,
                {
                    let b0 = self.data[self.pos + 2 * i] as u16;
                    let b1 = self.data[self.pos + 2 * i + 1] as u16;
                    units.push(b0 + b1 * 0x100);
                    i = i + 1;
                }
                proof {
                    assert(units@ =~= utf16_units(
                        self.data@.subrange(self.pos as int, self.pos + n),
                    ));
                }
                decode_utf16_lossy(&units)
            },
        };
        self.pos = self.pos + n;
        r
    }
}

} // verus!
