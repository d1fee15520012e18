//! Morph-target payload records: one of six payload kinds per morph.

use crate::F32Bits;
use crate::Float3;
use crate::Float4;
use vstd::prelude::*;

verus! {

/// A per-vertex position offset.
#[derive(Clone, Copy, PartialEq, Eq, Structural, Debug)]
pub struct Vertex {
    pub vertex: usize,
    pub offset: Float3,
}

/// A per-vertex UV offset (base channel or one of the extended channels).
#[derive(Clone, Copy, PartialEq, Eq, Structural, Debug)]
pub struct Uv {
    pub vertex: usize,
    pub offset: Float4,
}

/// A per-bone offset and rotation.
#[derive(Clone, Copy, PartialEq, Eq, Structural, Debug)]
pub struct Bone {
    pub bone: Option<usize>,
    pub offset: Float3,
    pub rotation: Float4,
}

/// Whether a material morph multiplies or adds its parameter deltas.
#[derive(Clone, Copy, PartialEq, Eq, Structural, Debug)]
pub enum MaterialOp {
    Mul,
    Add,
}

/// A per-material parameter delta.
#[derive(Clone, Copy, PartialEq, Eq, Structural, Debug)]
pub struct Material {
    pub material: Option<usize>,
    pub op: MaterialOp,
    pub diffuse: Float4,
    pub specular: Float3,
    pub specular_power: F32Bits,
    pub ambient: Float3,
    pub edge_color: Float4,
    pub edge_size: F32Bits,
    pub texture: Float4,
    pub sphere: Float4,
    pub toon: Float4,
}

/// A weighted reference to another morph (morph composition).
#[derive(Clone, Copy, PartialEq, Eq, Structural, Debug)]
pub struct Group {
    pub morph: Option<usize>,
    pub ratio: F32Bits,
}

/// The payload of a morph, selected by its kind byte.
#[derive(Clone, PartialEq, Eq, Debug)]
pub enum Kind {
    Vertex(Vec<Vertex>),
    Uv(Vec<Uv>),
    Bone(Vec<Bone>),
    Material(Vec<Material>),
    Group(Vec<Group>),
    ExtendedUv(usize, Vec<Uv>),
}

/// Spec-level payload of a morph, with sequences in place of vectors.
pub enum KindV {
    Vertex(Seq<Vertex>),
    Uv(Seq<Uv>),
    Bone(Seq<Bone>),
    Material(Seq<Material>),
    Group(Seq<Group>),
    ExtendedUv(usize, Seq<Uv>),
}

impl View for Kind {
    type V = KindV;

    open spec fn view(&self) -> KindV {
        match self {
            Kind::Vertex(v) => KindV::Vertex(v@),
            Kind::Uv(v) => KindV::Uv(v@),
            Kind::Bone(v) => KindV::Bone(v@),
            Kind::Material(v) => KindV::Material(v@),
            Kind::Group(v) => KindV::Group(v@),
            Kind::ExtendedUv(ch, v) => KindV::ExtendedUv(*ch, v@),
        }
    }
}

} // verus!
