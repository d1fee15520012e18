//! The fixed preamble of a model file: text encoding and index byte-widths.

use vstd::prelude::*;

verus! {

/// Text encoding used by every length-prefixed string in the file.
#[derive(Clone, Copy, PartialEq, Eq, Structural, Debug)]
pub enum Encoding {
    Utf16,
    Utf8,
}

/// The decoded preamble: encoding, extended-UV channel count, and the byte
/// width of each index category. Immutable once parsed; every downstream
/// reader is driven by these widths.
#[derive(Clone, Copy, PartialEq, Eq, Structural, Debug)]
pub struct Header {
    pub encoding: Encoding,
    pub extended_uv: u8,
    pub vertex_index_size: u64,
    pub texture_index_size: u64,
    pub material_index_size: u64,
    pub bone_index_size: u64,
    pub morph_index_size: u64,
    pub rigid_index_size: u64,
}

impl Header {
    /// Every index width is 1, 2 or 4, and at most 4 extended UV channels.
    pub open spec fn wf(self) -> bool {
        &&& self.extended_uv <= 4
        &&& index_size_ok(self.vertex_index_size)
        &&& index_size_ok(self.texture_index_size)
        &&& index_size_ok(self.material_index_size)
        &&& index_size_ok(self.bone_index_size)
        &&& index_size_ok(self.morph_index_size)
        &&& index_size_ok(self.rigid_index_size)
    }
}

/// A legal index byte-width.
pub open spec fn index_size_ok(w: u64) -> bool {
    w == 1 || w == 2 || w == 4
}

} // verus!
