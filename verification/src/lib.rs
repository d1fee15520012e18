//! Decoder for the PMX binary 3D-model container format (version 2.0).
//!
//! A model file is decoded in two phases. A single structural scan walks the
//! whole byte buffer once, validating every tag byte and recording the offset
//! at which each section begins. After a successful scan, per-section decoders
//! re-read their section from the recorded offset and materialize typed
//! records; the scan guarantees that these decoders cannot fail.
//!
//! Floating-point fields of the format are kept as their raw little-endian
//! 32-bit patterns ([`F32Bits`]); interpreting them as numbers is left to the
//! caller.

use vstd::prelude::*;

pub mod header;
pub mod model;
pub mod morph;
pub mod cursor;
pub mod decode;
pub mod reader;
pub mod rigid;
pub mod scan;

verus! {

/// The raw little-endian bit pattern of an IEEE-754 single-precision value.
#[derive(Clone, Copy, PartialEq, Eq, Structural, Debug)]
pub struct F32Bits(pub u32);

/// A 2-component vector of raw 32-bit float patterns.
#[derive(Clone, Copy, PartialEq, Eq, Structural, Debug)]
pub struct Float2 {
    pub x: F32Bits,
    pub y: F32Bits,
}

/// A 3-component vector of raw 32-bit float patterns.
#[derive(Clone, Copy, PartialEq, Eq, Structural, Debug)]
pub struct Float3 {
    pub x: F32Bits,
    pub y: F32Bits,
    pub z: F32Bits,
}

/// A 4-component vector of raw 32-bit float patterns.
#[derive(Clone, Copy, PartialEq, Eq, Structural, Debug)]
pub struct Float4 {
    pub x: F32Bits,
    pub y: F32Bits,
    pub z: F32Bits,
    pub w: F32Bits,
}

/// Single-bone skinning: all deformation follows one bone.
#[derive(Clone, Copy, PartialEq, Eq, Structural, Debug)]
pub struct Bdef1 {
    pub bone: Option<usize>,
}

/// Two-bone skinning with one blend weight (second weight is implied).
#[derive(Clone, Copy, PartialEq, Eq, Debug)]
pub struct Bdef2 {
    pub bones: (Option<usize>, Option<usize>),
    pub weight: F32Bits,
}

/// Four-bone skinning with four explicit weights.
#[derive(Clone, Copy, PartialEq, Eq, Debug)]
pub struct Bdef4 {
    pub bones: (Option<usize>, Option<usize>, Option<usize>, Option<usize>),
    pub weights: (F32Bits, F32Bits, F32Bits, F32Bits),
}

/// Spherical deformation: two bones, a blend weight and three shape vectors.
#[derive(Clone, Copy, PartialEq, Eq, Debug)]
pub struct Sdef {
    pub bones: (Option<usize>, Option<usize>),
    pub weight: F32Bits,
    pub c: Float3,
    pub r0: Float3,
    pub r1: Float3,
}

/// The skinning-weight variant of a vertex, selected by its weight-kind byte.
#[derive(Clone, Copy, PartialEq, Eq, Debug)]
pub enum Weight {
    Bdef1(Bdef1),
    Bdef2(Bdef2),
    Bdef4(Bdef4),
    Sdef(Sdef),
}

/// One vertex: placement, up to 4 extended UV channels, and skinning.
#[derive(Clone, PartialEq, Eq, Debug)]
pub struct Vertex {
    pub position: Float3,
    pub normal: Float3,
    pub uv: Float2,
    pub extended_uv: Vec<Float4>,
    pub weight: Weight,
    pub edge_ratio: F32Bits,
}

/// Spec-level vertex, with a sequence in place of the channel vector.
pub struct VertexV {
    pub position: Float3,
    pub normal: Float3,
    pub uv: Float2,
    pub extended_uv: Seq<Float4>,
    pub weight: Weight,
    pub edge_ratio: F32Bits,
}

impl View for Vertex {
    type V = VertexV;

    open spec fn view(&self) -> VertexV {
        VertexV {
            position: self.position,
            normal: self.normal,
            uv: self.uv,
            extended_uv: self.extended_uv@,
            weight: self.weight,
            edge_ratio: self.edge_ratio,
        }
    }
}

/// How a material's sphere map is applied.
#[derive(Clone, Copy, PartialEq, Eq, Structural, Debug)]
pub enum SphereMode {
    Disabled,
    Mul,
    Add,
    SubTexture,
}

/// A material's toon shading source: an external texture reference, or one
/// of the small fixed shared-toon palette.
#[derive(Clone, Copy, PartialEq, Eq, Structural, Debug)]
pub enum Toon {
    Texture(Option<usize>),
    Shared(u8),
}

/// One material: colors, draw flags, texture references and face-index span.
#[derive(Clone, PartialEq, Eq, Debug)]
pub struct Material {
    pub name: String,
    pub name_en: String,
    pub diffuse: Float4,
    pub specular: Float3,
    pub specular_power: F32Bits,
    pub ambient: Float3,
    pub both: bool,
    pub ground_shadow: bool,
    pub self_shadow_map: bool,
    pub self_shadow: bool,
    pub edge: bool,
    pub edge_color: Float4,
    pub edge_size: F32Bits,
    pub texture: Option<usize>,
    pub sphere: Option<usize>,
    pub sphere_mode: SphereMode,
    pub toon: Toon,
    pub memo: String,
    pub index_count: u32,
}

/// Spec-level material, with character sequences in place of strings.
pub struct MaterialV {
    pub name: Seq<char>,
    pub name_en: Seq<char>,
    pub diffuse: Float4,
    pub specular: Float3,
    pub specular_power: F32Bits,
    pub ambient: Float3,
    pub both: bool,
    pub ground_shadow: bool,
    pub self_shadow_map: bool,
    pub self_shadow: bool,
    pub edge: bool,
    pub edge_color: Float4,
    pub edge_size: F32Bits,
    pub texture: Option<usize>,
    pub sphere: Option<usize>,
    pub sphere_mode: SphereMode,
    pub toon: Toon,
    pub memo: Seq<char>,
    pub index_count: u32,
}

impl View for Material {
    type V = MaterialV;

    open spec fn view(&self) -> MaterialV {
        MaterialV {
            name: self.name@,
            name_en: self.name_en@,
            diffuse: self.diffuse,
            specular: self.specular,
            specular_power: self.specular_power,
            ambient: self.ambient,
            both: self.both,
            ground_shadow: self.ground_shadow,
            self_shadow_map: self.self_shadow_map,
            self_shadow: self.self_shadow,
            edge: self.edge,
            edge_color: self.edge_color,
            edge_size: self.edge_size,
            texture: self.texture,
            sphere: self.sphere,
            sphere_mode: self.sphere_mode,
            toon: self.toon,
            memo: self.memo@,
            index_count: self.index_count,
        }
    }
}

/// What a bone's tail connects to: a fixed offset or another bone.
#[derive(Clone, Copy, PartialEq, Eq, Structural, Debug)]
pub enum ConnectTo {
    Offset(Float3),
    Bone(Option<usize>),
}

/// A lower and upper rotation bound, each a 3-vector of radians.
#[derive(Clone, Copy, PartialEq, Eq, Structural, Debug)]
pub struct AngleLimit {
    pub lower: Float3,
    pub upper: Float3,
}

/// One link of an inverse-kinematics chain.
#[derive(Clone, Copy, PartialEq, Eq, Structural, Debug)]
pub struct IkLink {
    pub bone: Option<usize>,
    pub limit: Option<AngleLimit>,
}

/// An inverse-kinematics block: target, iteration budget and chain links.
#[derive(Clone, PartialEq, Eq, Debug)]
pub struct Ik {
    pub target_bone: Option<usize>,
    pub loop_count: u32,
    pub angle: F32Bits,
    pub links: Vec<IkLink>,
}

/// Spec-level inverse-kinematics block.
pub struct IkV {
    pub target_bone: Option<usize>,
    pub loop_count: u32,
    pub angle: F32Bits,
    pub links: Seq<IkLink>,
}

impl View for Ik {
    type V = IkV;

    open spec fn view(&self) -> IkV {
        IkV {
            target_bone: self.target_bone,
            loop_count: self.loop_count,
            angle: self.angle,
            links: self.links@,
        }
    }
}

/// An additive transform: this bone follows another's rotation and/or
/// translation by a ratio.
#[derive(Clone, Copy, PartialEq, Eq, Structural, Debug)]
pub struct Addition {
    pub rotation: bool,
    pub translation: bool,
    pub local: bool,
    pub bone: Option<usize>,
    pub ratio: F32Bits,
}

/// The two axes of a local rotation pole.
#[derive(Clone, Copy, PartialEq, Eq, Structural, Debug)]
pub struct LocalPole {
    pub x: Float3,
    pub z: Float3,
}

/// One bone of the skeleton, with its flag-gated optional substructures.
#[derive(Clone, PartialEq, Eq, Debug)]
pub struct Bone {
    pub name: String,
    pub name_en: String,
    pub position: Float3,
    pub parent: Option<usize>,
    pub deform_hierarchy: i32,
    pub connected_to: ConnectTo,
    pub rotatable: bool,
    pub translatable: bool,
    pub visibility: bool,
    pub operable: bool,
    pub ik: Option<Ik>,
    pub addition: Option<Addition>,
    pub after_physics: bool,
    pub fixed_pole: Option<Float3>,
    pub local_pole: Option<LocalPole>,
    pub external_parent: Option<usize>,
}

/// Spec-level bone.
pub struct BoneV {
    pub name: Seq<char>,
    pub name_en: Seq<char>,
    pub position: Float3,
    pub parent: Option<usize>,
    pub deform_hierarchy: i32,
    pub connected_to: ConnectTo,
    pub rotatable: bool,
    pub translatable: bool,
    pub visibility: bool,
    pub operable: bool,
    pub ik: Option<IkV>,
    pub addition: Option<Addition>,
    pub after_physics: bool,
    pub fixed_pole: Option<Float3>,
    pub local_pole: Option<LocalPole>,
    pub external_parent: Option<usize>,
}

impl View for Bone {
    type V = BoneV;

    open spec fn view(&self) -> BoneV {
        BoneV {
            name: self.name@,
            name_en: self.name_en@,
            position: self.position,
            parent: self.parent,
            deform_hierarchy: self.deform_hierarchy,
            connected_to: self.connected_to,
            rotatable: self.rotatable,
            translatable: self.translatable,
            visibility: self.visibility,
            operable: self.operable,
            ik: match &self.ik {
                Some(ik) => Some(ik@),
                None => None,
            },
            addition: self.addition,
            after_physics: self.after_physics,
            fixed_pole: self.fixed_pole,
            local_pole: self.local_pole,
            external_parent: self.external_parent,
        }
    }
}

/// The control panel a morph is listed under.
#[derive(Clone, Copy, PartialEq, Eq, Structural, Debug)]
pub enum Panel {
    Reserved,
    Eyebrow,
    Eye,
    Mouth,
    Other,
}

/// One morph target: its panel and its tagged payload.
#[derive(Clone, PartialEq, Eq, Debug)]
pub struct Morph {
    pub name: String,
    pub name_en: String,
    pub panel: Panel,
    pub kind: morph::Kind,
}

/// Spec-level morph.
pub struct MorphV {
    pub name: Seq<char>,
    pub name_en: Seq<char>,
    pub panel: Panel,
    pub kind: morph::KindV,
}

impl View for Morph {
    type V = MorphV;

    open spec fn view(&self) -> MorphV {
        MorphV { name: self.name@, name_en: self.name_en@, panel: self.panel, kind: self.kind@ }
    }
}

/// One entry of a display group: a bone or a morph reference.
#[derive(Clone, Copy, PartialEq, Eq, Structural, Debug)]
pub enum DisplayElement {
    Bone(Option<usize>),
    Morph(Option<usize>),
}

/// A named, ordered grouping of bones and morphs for display.
#[derive(Clone, PartialEq, Eq, Debug)]
pub struct DisplayGroup {
    pub name: String,
    pub name_en: String,
    pub special: bool,
    pub elements: Vec<DisplayElement>,
}

/// Spec-level display group.
pub struct DisplayGroupV {
    pub name: Seq<char>,
    pub name_en: Seq<char>,
    pub special: bool,
    pub elements: Seq<DisplayElement>,
}

impl View for DisplayGroup {
    type V = DisplayGroupV;

    open spec fn view(&self) -> DisplayGroupV {
        DisplayGroupV {
            name: self.name@,
            name_en: self.name_en@,
            special: self.special,
            elements: self.elements@,
        }
    }
}

/// One physics rigid body: shape, placement and simulation parameters.
#[derive(Clone, PartialEq, Eq, Debug)]
pub struct Rigid {
    pub name: String,
    pub name_en: String,
    pub bone: Option<usize>,
    pub group: u8,
    pub non_collision_groups: u16,
    pub shape: rigid::Shape,
    pub size: Float3,
    pub position: Float3,
    pub rotation: Float3,
    pub mass: F32Bits,
    pub dump_translation: F32Bits,
    pub dump_rotation: F32Bits,
    pub repulsive: F32Bits,
    pub friction: F32Bits,
    pub method: rigid::Method,
}

/// Spec-level rigid body.
pub struct RigidV {
    pub name: Seq<char>,
    pub name_en: Seq<char>,
    pub bone: Option<usize>,
    pub group: u8,
    pub non_collision_groups: u16,
    pub shape: rigid::Shape,
    pub size: Float3,
    pub position: Float3,
    pub rotation: Float3,
    pub mass: F32Bits,
    pub dump_translation: F32Bits,
    pub dump_rotation: F32Bits,
    pub repulsive: F32Bits,
    pub friction: F32Bits,
    pub method: rigid::Method,
}

impl View for Rigid {
    type V = RigidV;

    open spec fn view(&self) -> RigidV {
        RigidV {
            name: self.name@,
            name_en: self.name_en@,
            bone: self.bone,
            group: self.group,
            non_collision_groups: self.non_collision_groups,
            shape: self.shape,
            size: self.size,
            position: self.position,
            rotation: self.rotation,
            mass: self.mass,
            dump_translation: self.dump_translation,
            dump_rotation: self.dump_rotation,
            repulsive: self.repulsive,
            friction: self.friction,
            method: self.method,
        }
    }
}

/// The two rigid bodies a joint links.
#[derive(Clone, Copy, PartialEq, Eq, Debug)]
pub struct RigidPair(pub Option<usize>, pub Option<usize>);

/// One spring-constrained 6-DOF joint between two rigid bodies.
#[derive(Clone, PartialEq, Eq, Debug)]
pub struct Joint {
    pub name: String,
    pub name_en: String,
    pub rigids: RigidPair,
    pub position: Float3,
    pub rotation: Float3,
    pub limit_translation: AngleLimit,
    pub limit_rotation: AngleLimit,
    pub spring_translation: Float3,
    pub spring_rotation: Float3,
}

/// Spec-level joint.
pub struct JointV {
    pub name: Seq<char>,
    pub name_en: Seq<char>,
    pub rigids: RigidPair,
    pub position: Float3,
    pub rotation: Float3,
    pub limit_translation: AngleLimit,
    pub limit_rotation: AngleLimit,
    pub spring_translation: Float3,
    pub spring_rotation: Float3,
}

impl View for Joint {
    type V = JointV;

    open spec fn view(&self) -> JointV {
        JointV {
            name: self.name@,
            name_en: self.name_en@,
            rigids: self.rigids,
            position: self.position,
            rotation: self.rotation,
            limit_translation: self.limit_translation,
            limit_rotation: self.limit_rotation,
            spring_translation: self.spring_translation,
            spring_rotation: self.spring_rotation,
        }
    }
}

} // verus!
