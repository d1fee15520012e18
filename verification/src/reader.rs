//! Construction of a model from a byte buffer, and the section decoders.

use crate::cursor::DataCursor;
use crate::decode::read_bone;
use crate::decode::read_display_group;
use crate::decode::read_joint;
use crate::decode::read_material;
use crate::decode::read_morph;
use crate::decode::read_rigid;
use crate::decode::read_vertex;
use crate::header::Encoding;
use crate::header::Header;
use crate::model::bone_fn;
use crate::model::display_group_fn;
use crate::model::face_fn;
use crate::model::joint_fn;
use crate::model::lemma_parse_list_len;
use crate::model::lemma_parse_list_mid;
use crate::model::lemma_parse_list_step;
use crate::model::material_fn;
use crate::model::morph_fn;
use crate::model::parse_bone;
use crate::model::parse_display_group;
use crate::model::parse_face;
use crate::model::parse_joint;
use crate::model::parse_list;
use crate::model::parse_material;
use crate::model::parse_morph;
use crate::model::parse_rigid;
use crate::model::parse_texture;
use crate::model::parse_vertex;
use crate::model::rigid_fn;
use crate::model::section_count;
use crate::model::section_records;
use crate::model::string_text;
use crate::model::texture_fn;
use crate::model::vertex_fn;
use crate::model::Parsed;
use crate::scan::header_scan;
use crate::scan::lemma_scan_good;
use crate::scan::scan_spec;
use crate::scan::HeaderScan;
use crate::scan::Indices;
use crate::scan::ScanOutcome;
use crate::Bone;
use crate::DisplayGroup;
use crate::Joint;
use crate::Material;
use crate::Morph;
use crate::Rigid;
use crate::Vertex;
use vstd::prelude::*;
use vstd::string::StringExecFns;

verus! {

/// Why a byte buffer was rejected.
#[derive(Debug)]
pub enum Error {
    /// The version float is not exactly 2.0.
    UnsupportedVersion,
    /// The preamble is malformed; the payload names the offending field.
    InvalidHeader(String),
    /// A structurally-scanned tag byte is out of its legal range, or the
    /// face count is not a multiple of 3; the payload names the field.
    InvalidData(String),
    /// The buffer ended before a read or skip did.
    Io,
}

/// The class of an error, with the human-readable payload dropped.
#[derive(Clone, Copy, PartialEq, Eq, Structural, Debug)]
pub enum ErrorKind {
    UnsupportedVersion,
    InvalidHeader,
    InvalidData,
    Io,
}

impl Error {
    /// The class of this error.
    pub open spec fn kind(&self) -> ErrorKind {
        match self {
            Error::UnsupportedVersion => ErrorKind::UnsupportedVersion,
            Error::InvalidHeader(_) => ErrorKind::InvalidHeader,
            Error::InvalidData(_) => ErrorKind::InvalidData,
            Error::Io => ErrorKind::Io,
        }
    }

    /// A header-class error naming the offending field.
    pub fn invalid_header(msg: &str) -> (r: Self)
        ensures
            r matches Error::InvalidHeader(m) && m@ == msg@,
    {
        Error::InvalidHeader(String::from_str(msg))
    }

    /// A data-class error naming the offending field.
    pub fn invalid_data(msg: &str) -> (r: Self)
        ensures
            r matches Error::InvalidData(m) && m@ == msg@,
    {
        Error::InvalidData(String::from_str(msg))
    }
}



/// A vector's view never exceeds `usize::MAX` elements.
proof fn lemma_data_len_bound(v: &Vec<u8>)
    ensures
        v@.len() <= usize::MAX,
{
    broadcast use vstd::std_specs::vec::axiom_spec_len;

    assert(vstd::std_specs::vec::spec_vec_len(v) == v@.len());
}

/// A decoded model: the raw buffer, its header, and the offset table that
/// the structural scan recorded. Construction validates the whole buffer;
/// every accessor thereafter re-reads its own section and cannot fail.
pub struct Reader {
    data: Vec<u8>,
    header: Header,
    indices: Indices,
}

impl Reader {
    /// The raw bytes the model was built from.
    pub closed spec fn bytes(&self) -> Seq<u8> {
        self.data@
    }

    /// The decoded header.
    pub closed spec fn header_spec(&self) -> Header {
        self.header
    }

    /// The recorded offset table.
    pub closed spec fn indices_spec(&self) -> Indices {
        self.indices
    }

    /// The buffer was accepted by the structural scan, with exactly this
    /// header and offset table.
    #[verifier::type_invariant]
    pub closed spec fn wf(self) -> bool {
        scan_spec(self.data@) == ScanOutcome::Good(self.header, self.indices)
    }

    /// Decode a model from a byte buffer: interpret the preamble, then scan
    /// every section structurally. Succeeds exactly when [`scan_spec`]
    /// accepts the bytes; otherwise returns the error class of the first
    /// failing check.
    #[verifier::rlimit(60)]
    pub fn new(data: Vec<u8>) -> (r: Result<Reader, Error>)
        ensures
            scan_spec(data@) matches ScanOutcome::Good(h, idx) ==> (r matches Ok(m) && m.bytes()
                == data@ && m.header_spec() == h && m.indices_spec() == idx),
            scan_spec(data@) matches ScanOutcome::Fail(k) ==> (r matches Err(e) && e.kind() == k),
    {
        if data.len() < 4 {
            return Err(Error::Io);
        }
        if !(data[0] == 0x50 && data[1] == 0x4d && data[2] == 0x58 && data[3] == 0x20) {
            return Err(Error::invalid_header("magic number"));
        }
        if data.len() < 8 {
            return Err(Error::Io);
        }
        let b0 = data[4] as u32;
        let b1 = data[5] as u32;
        let b2 = data[6] as u32;
        let b3 = data[7] as u32;
        let version = b0 + b1 * 0x100 + b2 * 0x1_0000 + b3 * 0x100_0000;
        if version != 0x4000_0000 {
            return Err(Error::UnsupportedVersion);
        }
        if data.len() < 9 {
            return Err(Error::Io);
        }
        if data[8] != 8 {
            return Err(Error::invalid_header("data length"));
        }
        if data.len() < 17 {
            return Err(Error::Io);
        }
        let encoding = if data[9] == 0 {
            Encoding::Utf16
        } else if data[9] == 1 {
            Encoding::Utf8
        } else {
            return Err(Error::invalid_header("encoding"));
        };
        let extended_uv = data[10];
        if extended_uv > 4 {
            return Err(Error::invalid_header("extended uv"));
        }
        let ok1 = data[11] == 1 || data[11] == 2 || data[11] == 4;
        let ok2 = data[12] == 1 || data[12] == 2 || data[12] == 4;
        let ok3 = data[13] == 1 || data[13] == 2 || data[13] == 4;
        let ok4 = data[14] == 1 || data[14] == 2 || data[14] == 4;
        let ok5 = data[15] == 1 || data[15] == 2 || data[15] == 4;
        let ok6 = data[16] == 1 || data[16] == 2 || data[16] == 4;
        if !(ok1 && ok2 && ok3 && ok4 && ok5 && ok6) {
            return Err(Error::invalid_header("index size"));
        }
        let header = Header {
            encoding,
            extended_uv,
            vertex_index_size: data[11] as u64,
            texture_index_size: data[12] as u64,
            material_index_size: data[13] as u64,
            bone_index_size: data[14] as u64,
            morph_index_size: data[15] as u64,
            rigid_index_size: data[16] as u64,
        };
        proof {
            assert(header_scan(data@) == HeaderScan::Good(header));
        }
        let indices = match Indices::new(&data, &header) {
            Ok(idx) => idx,
            Err(e) => {
                return Err(e);
            },
        };
        Ok(Reader { data, header, indices })
    }

    /// The model's name.
    pub fn name(&self) -> (r: String)
        ensures
            r@ == string_text(
                self.bytes(),
                self.header_spec().encoding,
                self.indices_spec().name as int,
            ),
    {
        proof {
            use_type_invariant(self);
            lemma_data_len_bound(&self.data);
            lemma_scan_good(self.data@, self.header, self.indices);
        }
        let mut cur = DataCursor::with_position(&self.data, &self.header, self.indices.name);
        cur.read_string()
    }

    /// The model's name in English.
    pub fn name_en(&self) -> (r: String)
        ensures
            r@ == string_text(
                self.bytes(),
                self.header_spec().encoding,
                self.indices_spec().name_en as int,
            ),
    {
        proof {
            use_type_invariant(self);
            lemma_data_len_bound(&self.data);
            lemma_scan_good(self.data@, self.header, self.indices);
        }
        let mut cur = DataCursor::with_position(&self.data, &self.header, self.indices.name_en);
        cur.read_string()
    }

    /// The model's comment.
    pub fn comment(&self) -> (r: String)
        ensures
            r@ == string_text(
                self.bytes(),
                self.header_spec().encoding,
                self.indices_spec().comment as int,
            ),
    {
        proof {
            use_type_invariant(self);
            lemma_data_len_bound(&self.data);
            lemma_scan_good(self.data@, self.header, self.indices);
        }
        let mut cur = DataCursor::with_position(&self.data, &self.header, self.indices.comment);
        cur.read_string()
    }

    /// The model's comment in English.
    pub fn comment_en(&self) -> (r: String)
        ensures
            r@ == string_text(
                self.bytes(),
                self.header_spec().encoding,
                self.indices_spec().comment_en as int,
            ),
    {
        proof {
            use_type_invariant(self);
            lemma_data_len_bound(&self.data);
            lemma_scan_good(self.data@, self.header, self.indices);
        }
        let mut cur = DataCursor::with_position(&self.data, &self.header, self.indices.comment_en);
        cur.read_string()
    }

    /// The records of the vertices section, decoded afresh from the stored
    /// offset. The sequence has exactly the record count stored at that
    /// offset, and is a function of the buffer alone.
    #[verifier::rlimit(100)]
    pub fn vertices(&self) -> (r: Vec<Vertex>)
        ensures
            r@.map_values(|x: Vertex| x@) == section_records(
                self.bytes(),
                self.indices_spec().vertices as int,
                vertex_fn(self.header_spec()),
            ),
            r@.len() == section_count(self.bytes(), self.indices_spec().vertices as int),
    {
        proof {
            use_type_invariant(self);
            lemma_data_len_bound(&self.data);
            lemma_scan_good(self.data@, self.header, self.indices);
        }
        let mut cur = DataCursor::with_position(&self.data, &self.header, self.indices.vertices);
        let n = cur.read_u32();
        let ghost d = self.data@;
        let ghost h = self.header;
        let ghost start = cur.pos as int;
        let ghost f = vertex_fn(h);
        let mut out: Vec<Vertex> = Vec::new();
        proof {
            assert(out@.map_values(|x: Vertex| x@) =~= Seq::empty());
        }
        let mut i: u32 = 0;
        while i < n
            invariant
                cur.wf(),
                cur.data@ == d,
                *cur.header == h,
                i <= n,
                f == vertex_fn(h),
                parse_list(d, start, n as nat, f) is Val,
                parse_list(d, start, i as nat, f) == Parsed::Val(
                    out@.map_values(|x: Vertex| x@),
                    cur.pos as int,
                ),
            decreases n - i,
        {
            let ghost prev = cur.pos as int;
            let ghost sofar = out@.map_values(|x: Vertex| x@);
            proof {
                lemma_parse_list_mid(d, start, i as nat, n as nat, f, sofar, prev);
                assert(f(d, prev) == parse_vertex(d, h, prev));
            }
            let item = read_vertex(&mut cur);
            out.push(item);
            proof {
                match f(d, prev) {
                    Parsed::Val(v, end) => {
                        lemma_parse_list_step(d, start, i as nat, f, sofar, prev, v, end);
                        assert(out@.map_values(|x: Vertex| x@) =~= sofar.push(v));
                    },
                    _ => {
                        assert(false);
                    },
                }
            }
            i = i + 1;
        }
        proof {
            lemma_parse_list_len(d, start, n as nat, f);
        }
        out
    }

    /// The records of the faces section, decoded afresh from the stored
    /// offset. The sequence has exactly the record count stored at that
    /// offset, and is a function of the buffer alone.
    #[verifier::rlimit(100)]
    pub fn faces(&self) -> (r: Vec<usize>)
        ensures
            r@.map_values(|x: usize| x) == section_records(
                self.bytes(),
                self.indices_spec().faces as int,
                face_fn(self.header_spec()),
            ),
            r@.len() == section_count(self.bytes(), self.indices_spec().faces as int),
    {
        proof {
            use_type_invariant(self);
            lemma_data_len_bound(&self.data);
            lemma_scan_good(self.data@, self.header, self.indices);
        }
        let mut cur = DataCursor::with_position(&self.data, &self.header, self.indices.faces);
        let n = cur.read_u32();
        let ghost d = self.data@;
        let ghost h = self.header;
        let ghost start = cur.pos as int;
        let ghost f = face_fn(h);
        let mut out: Vec<usize> = Vec::new();
        proof {
            assert(out@.map_values(|x: usize| x) =~= Seq::empty());
        }
        let mut i: u32 = 0;
        while i < n
            invariant
                cur.wf(),
                cur.data@ == d,
                *cur.header == h,
                i <= n,
                f == face_fn(h),
                parse_list(d, start, n as nat, f) is Val,
                parse_list(d, start, i as nat, f) == Parsed::Val(
                    out@.map_values(|x: usize| x),
                    cur.pos as int,
                ),
            decreases n - i,
        {
            let ghost prev = cur.pos as int;
            let ghost sofar = out@.map_values(|x: usize| x);
            proof {
                lemma_parse_list_mid(d, start, i as nat, n as nat, f, sofar, prev);
                assert(f(d, prev) == parse_face(d, h, prev));
            }
            let item = cur.read_vertex_index();
            out.push(item);
            proof {
                match f(d, prev) {
                    Parsed::Val(v, end) => {
                        lemma_parse_list_step(d, start, i as nat, f, sofar, prev, v, end);
                        assert(out@.map_values(|x: usize| x) =~= sofar.push(v));
                    },
                    _ => {
                        assert(false);
                    },
                }
            }
            i = i + 1;
        }
        proof {
            lemma_parse_list_len(d, start, n as nat, f);
        }
        out
    }

    /// The records of the textures section, decoded afresh from the stored
    /// offset. The sequence has exactly the record count stored at that
    /// offset, and is a function of the buffer alone.
    #[verifier::rlimit(100)]
    pub fn textures(&self) -> (r: Vec<String>)
        ensures
            r@.map_values(|x: String| x@) == section_records(
                self.bytes(),
                self.indices_spec().textures as int,
                texture_fn(self.header_spec()),
            ),
            r@.len() == section_count(self.bytes(), self.indices_spec().textures as int),
    {
        proof {
            use_type_invariant(self);
            lemma_data_len_bound(&self.data);
            lemma_scan_good(self.data@, self.header, self.indices);
        }
        let mut cur = DataCursor::with_position(&self.data, &self.header, self.indices.textures);
        let n = cur.read_u32();
        let ghost d = self.data@;
        let ghost h = self.header;
        let ghost start = cur.pos as int;
        let ghost f = texture_fn(h);
        let mut out: Vec<String> = Vec::new();
        proof {
            assert(out@.map_values(|x: String| x@) =~= Seq::empty());
        }
        let mut i: u32 = 0;
        while i < n
            invariant
                cur.wf(),
                cur.data@ == d,
                *cur.header == h,
                i <= n,
                f == texture_fn(h),
                parse_list(d, start, n as nat, f) is Val,
                parse_list(d, start, i as nat, f) == Parsed::Val(
                    out@.map_values(|x: String| x@),
                    cur.pos as int,
                ),
            decreases n - i,
        {
            let ghost prev = cur.pos as int;
            let ghost sofar = out@.map_values(|x: String| x@);
            proof {
                lemma_parse_list_mid(d, start, i as nat, n as nat, f, sofar, prev);
                assert(f(d, prev) == parse_texture(d, h, prev));
            }
            let item = cur.read_string();
            out.push(item);
            proof {
                match f(d, prev) {
                    Parsed::Val(v, end) => {
                        lemma_parse_list_step(d, start, i as nat, f, sofar, prev, v, end);
                        assert(out@.map_values(|x: String| x@) =~= sofar.push(v));
                    },
                    _ => {
                        assert(false);
                    },
                }
            }
            i = i + 1;
        }
        proof {
            lemma_parse_list_len(d, start, n as nat, f);
        }
        out
    }

    /// The records of the materials section, decoded afresh from the stored
    /// offset. The sequence has exactly the record count stored at that
    /// offset, and is a function of the buffer alone.
    #[verifier::rlimit(100)]
    pub fn materials(&self) -> (r: Vec<Material>)
        ensures
            r@.map_values(|x: Material| x@) == section_records(
                self.bytes(),
                self.indices_spec().materials as int,
                material_fn(self.header_spec()),
            ),
            r@.len() == section_count(self.bytes(), self.indices_spec().materials as int),
    {
        proof {
            use_type_invariant(self);
            lemma_data_len_bound(&self.data);
            lemma_scan_good(self.data@, self.header, self.indices);
        }
        let mut cur = DataCursor::with_position(&self.data, &self.header, self.indices.materials);
        let n = cur.read_u32();
        let ghost d = self.data@;
        let ghost h = self.header;
        let ghost start = cur.pos as int;
        let ghost f = material_fn(h);
        let mut out: Vec<Material> = Vec::new();
        proof {
            assert(out@.map_values(|x: Material| x@) =~= Seq::empty());
        }
        let mut i: u32 = 0;
        while i < n
            invariant
                cur.wf(),
                cur.data@ == d,
                *cur.header == h,
                i <= n,
                f == material_fn(h),
                parse_list(d, start, n as nat, f) is Val,
                parse_list(d, start, i as nat, f) == Parsed::Val(
                    out@.map_values(|x: Material| x@),
                    cur.pos as int,
                ),
            decreases n - i,
        {
            let ghost prev = cur.pos as int;
            let ghost sofar = out@.map_values(|x: Material| x@);
            proof {
                lemma_parse_list_mid(d, start, i as nat, n as nat, f, sofar, prev);
                assert(f(d, prev) == parse_material(d, h, prev));
            }
            let item = read_material(&mut cur);
            out.push(item);
            proof {
                match f(d, prev) {
                    Parsed::Val(v, end) => {
                        lemma_parse_list_step(d, start, i as nat, f, sofar, prev, v, end);
                        assert(out@.map_values(|x: Material| x@) =~= sofar.push(v));
                    },
                    _ => {
                        assert(false);
                    },
                }
            }
            i = i + 1;
        }
        proof {
            lemma_parse_list_len(d, start, n as nat, f);
        }
        out
    }

    /// The records of the bones section, decoded afresh from the stored
    /// offset. The sequence has exactly the record count stored at that
    /// offset, and is a function of the buffer alone.
    #[verifier::rlimit(100)]
    pub fn bones(&self) -> (r: Vec<Bone>)
        ensures
            r@.map_values(|x: Bone| x@) == section_records(
                self.bytes(),
                self.indices_spec().bones as int,
                bone_fn(self.header_spec()),
            ),
            r@.len() == section_count(self.bytes(), self.indices_spec().bones as int),
    {
        proof {
            use_type_invariant(self);
            lemma_data_len_bound(&self.data);
            lemma_scan_good(self.data@, self.header, self.indices);
        }
        let mut cur = DataCursor::with_position(&self.data, &self.header, self.indices.bones);
        let n = cur.read_u32();
        let ghost d = self.data@;
        let ghost h = self.header;
        let ghost start = cur.pos as int;
        let ghost f = bone_fn(h);
        let mut out: Vec<Bone> = Vec::new();
        proof {
            assert(out@.map_values(|x: Bone| x@) =~= Seq::empty());
        }
        let mut i: u32 = 0;
        while i < n
            invariant
                cur.wf(),
                cur.data@ == d,
                *cur.header == h,
                i <= n,
                f == bone_fn(h),
                parse_list(d, start, n as nat, f) is Val,
                parse_list(d, start, i as nat, f) == Parsed::Val(
                    out@.map_values(|x: Bone| x@),
                    cur.pos as int,
                ),
            decreases n - i,
        {
            let ghost prev = cur.pos as int;
            let ghost sofar = out@.map_values(|x: Bone| x@);
            proof {
                lemma_parse_list_mid(d, start, i as nat, n as nat, f, sofar, prev);
                assert(f(d, prev) == parse_bone(d, h, prev));
            }
            let item = read_bone(&mut cur);
            out.push(item);
            proof {
                match f(d, prev) {
                    Parsed::Val(v, end) => {
                        lemma_parse_list_step(d, start, i as nat, f, sofar, prev, v, end);
                        assert(out@.map_values(|x: Bone| x@) =~= sofar.push(v));
                    },
                    _ => {
                        assert(false);
                    },
                }
            }
            i = i + 1;
        }
        proof {
            lemma_parse_list_len(d, start, n as nat, f);
        }
        out
    }

    /// The records of the morphs section, decoded afresh from the stored
    /// offset. The sequence has exactly the record count stored at that
    /// offset, and is a function of the buffer alone.
    #[verifier::rlimit(100)]
    pub fn morphs(&self) -> (r: Vec<Morph>)
        ensures
            r@.map_values(|x: Morph| x@) == section_records(
                self.bytes(),
                self.indices_spec().morphs as int,
                morph_fn(self.header_spec()),
            ),
            r@.len() == section_count(self.bytes(), self.indices_spec().morphs as int),
    {
        proof {
            use_type_invariant(self);
            lemma_data_len_bound(&self.data);
            lemma_scan_good(self.data@, self.header, self.indices);
        }
        let mut cur = DataCursor::with_position(&self.data, &self.header, self.indices.morphs);
        let n = cur.read_u32();
        let ghost d = self.data@;
        let ghost h = self.header;
        let ghost start = cur.pos as int;
        let ghost f = morph_fn(h);
        let mut out: Vec<Morph> = Vec::new();
        proof {
            assert(out@.map_values(|x: Morph| x@) =~= Seq::empty());
        }
        let mut i: u32 = 0;
        while i < n
            invariant
                cur.wf(),
                cur.data@ == d,
                *cur.header == h,
                i <= n,
                f == morph_fn(h),
                parse_list(d, start, n as nat, f) is Val,
                parse_list(d, start, i as nat, f) == Parsed::Val(
                    out@.map_values(|x: Morph| x@),
                    cur.pos as int,
                ),
            decreases n - i,
        {
            let ghost prev = cur.pos as int;
            let ghost sofar = out@.map_values(|x: Morph| x@);
            proof {
                lemma_parse_list_mid(d, start, i as nat, n as nat, f, sofar, prev);
                assert(f(d, prev) == parse_morph(d, h, prev));
            }
            let item = read_morph(&mut cur);
            out.push(item);
            proof {
                match f(d, prev) {
                    Parsed::Val(v, end) => {
                        lemma_parse_list_step(d, start, i as nat, f, sofar, prev, v, end);
                        assert(out@.map_values(|x: Morph| x@) =~= sofar.push(v));
                    },
                    _ => {
                        assert(false);
                    },
                }
            }
            i = i + 1;
        }
        proof {
            lemma_parse_list_len(d, start, n as nat, f);
        }
        out
    }

    /// The records of the display_groups section, decoded afresh from the stored
    /// offset. The sequence has exactly the record count stored at that
    /// offset, and is a function of the buffer alone.
    #[verifier::rlimit(100)]
    pub fn display_groups(&self) -> (r: Vec<DisplayGroup>)
        ensures
            r@.map_values(|x: DisplayGroup| x@) == section_records(
                self.bytes(),
                self.indices_spec().display_groups as int,
                display_group_fn(self.header_spec()),
            ),
            r@.len() == section_count(self.bytes(), self.indices_spec().display_groups as int),
    {
        proof {
            use_type_invariant(self);
            lemma_data_len_bound(&self.data);
            lemma_scan_good(self.data@, self.header, self.indices);
        }
        let mut cur = DataCursor::with_position(&self.data, &self.header, self.indices.display_groups);
        let n = cur.read_u32();
        let ghost d = self.data@;
        let ghost h = self.header;
        let ghost start = cur.pos as int;
        let ghost f = display_group_fn(h);
        let mut out: Vec<DisplayGroup> = Vec::new();
        proof {
            assert(out@.map_values(|x: DisplayGroup| x@) =~= Seq::empty());
        }
        let mut i: u32 = 0;
        while i < n
            invariant
                cur.wf(),
                cur.data@ == d,
                *cur.header == h,
                i <= n,
                f == display_group_fn(h),
                parse_list(d, start, n as nat, f) is Val,
                parse_list(d, start, i as nat, f) == Parsed::Val(
                    out@.map_values(|x: DisplayGroup| x@),
                    cur.pos as int,
                ),
            decreases n - i,
        {
            let ghost prev = cur.pos as int;
            let ghost sofar = out@.map_values(|x: DisplayGroup| x@);
            proof {
                lemma_parse_list_mid(d, start, i as nat, n as nat, f, sofar, prev);
                assert(f(d, prev) == parse_display_group(d, h, prev));
            }
            let item = read_display_group(&mut cur);
            out.push(item);
            proof {
                match f(d, prev) {
                    Parsed::Val(v, end) => {
                        lemma_parse_list_step(d, start, i as nat, f, sofar, prev, v, end);
                        assert(out@.map_values(|x: DisplayGroup| x@) =~= sofar.push(v));
                    },
                    _ => {
                        assert(false);
                    },
                }
            }
            i = i + 1;
        }
        proof {
            lemma_parse_list_len(d, start, n as nat, f);
        }
        out
    }

    /// The records of the rigids section, decoded afresh from the stored
    /// offset. The sequence has exactly the record count stored at that
    /// offset, and is a function of the buffer alone.
    #[verifier::rlimit(100)]
    pub fn rigids(&self) -> (r: Vec<Rigid>)
        ensures
            r@.map_values(|x: Rigid| x@) == section_records(
                self.bytes(),
                self.indices_spec().rigids as int,
                rigid_fn(self.header_spec()),
            ),
            r@.len() == section_count(self.bytes(), self.indices_spec().rigids as int),
    {
        proof {
            use_type_invariant(self);
            lemma_data_len_bound(&self.data);
            lemma_scan_good(self.data@, self.header, self.indices);
        }
        let mut cur = DataCursor::with_position(&self.data, &self.header, self.indices.rigids);
        let n = cur.read_u32();
        let ghost d = self.data@;
        let ghost h = self.header;
        let ghost start = cur.pos as int;
        let ghost f = rigid_fn(h);
        let mut out: Vec<Rigid> = Vec::new();
        proof {
            assert(out@.map_values(|x: Rigid| x@) =~= Seq::empty());
        }
        let mut i: u32 = 0;
        while i < n
            invariant
                cur.wf(),
                cur.data@ == d,
                *cur.header == h,
                i <= n,
                f == rigid_fn(h),
                parse_list(d, start, n as nat, f) is Val,
                parse_list(d, start, i as nat, f) == Parsed::Val(
                    out@.map_values(|x: Rigid| x@),
                    cur.pos as int,
                ),
            decreases n - i,
        {
            let ghost prev = cur.pos as int;
            let ghost sofar = out@.map_values(|x: Rigid| x@);
            proof {
                lemma_parse_list_mid(d, start, i as nat, n as nat, f, sofar, prev);
                assert(f(d, prev) == parse_rigid(d, h, prev));
            }
            let item = read_rigid(&mut cur);
            out.push(item);
            proof {
                match f(d, prev) {
                    Parsed::Val(v, end) => {
                        lemma_parse_list_step(d, start, i as nat, f, sofar, prev, v, end);
                        assert(out@.map_values(|x: Rigid| x@) =~= sofar.push(v));
                    },
                    _ => {
                        assert(false);
                    },
                }
            }
            i = i + 1;
        }
        proof {
            lemma_parse_list_len(d, start, n as nat, f);
        }
        out
    }

    /// The records of the joints section, decoded afresh from the stored
    /// offset. The sequence has exactly the record count stored at that
    /// offset, and is a function of the buffer alone.
    #[verifier::rlimit(100)]
    pub fn joints(&self) -> (r: Vec<Joint>)
        ensures
            r@.map_values(|x: Joint| x@) == section_records(
                self.bytes(),
                self.indices_spec().joints as int,
                joint_fn(self.header_spec()),
            ),
            r@.len() == section_count(self.bytes(), self.indices_spec().joints as int),
    {
        proof {
            use_type_invariant(self);
            lemma_data_len_bound(&self.data);
            lemma_scan_good(self.data@, self.header, self.indices);
        }
        let mut cur = DataCursor::with_position(&self.data, &self.header, self.indices.joints);
        let n = cur.read_u32();
        let ghost d = self.data@;
        let ghost h = self.header;
        let ghost start = cur.pos as int;
        let ghost f = joint_fn(h);
        let mut out: Vec<Joint> = Vec::new();
        proof {
            assert(out@.map_values(|x: Joint| x@) =~= Seq::empty());
        }
        let mut i: u32 = 0;
        while i < n
            invariant
                cur.wf(),
                cur.data@ == d,
                *cur.header == h,
                i <= n,
                f == joint_fn(h),
                parse_list(d, start, n as nat, f) is Val,
                parse_list(d, start, i as nat, f) == Parsed::Val(
                    out@.map_values(|x: Joint| x@),
                    cur.pos as int,
                ),
            decreases n - i,
        {
            let ghost prev = cur.pos as int;
            let ghost sofar = out@.map_values(|x: Joint| x@);
            proof {
                lemma_parse_list_mid(d, start, i as nat, n as nat, f, sofar, prev);
                assert(f(d, prev) == parse_joint(d, h, prev));
            }
            let item = read_joint(&mut cur);
            out.push(item);
            proof {
                match f(d, prev) {
                    Parsed::Val(v, end) => {
                        lemma_parse_list_step(d, start, i as nat, f, sofar, prev, v, end);
                        assert(out@.map_values(|x: Joint| x@) =~= sofar.push(v));
                    },
                    _ => {
                        assert(false);
                    },
                }
            }
            i = i + 1;
        }
        proof {
            lemma_parse_list_len(d, start, n as nat, f);
        }
        out
    }
}

} // verus!
