//! Tag enums of the physics rigid-body section.

use vstd::prelude::*;

verus! {

/// Collision shape of a rigid body.
#[derive(Clone, Copy, PartialEq, Eq, Structural, Debug)]
pub enum Shape {
    Sphere,
    Box,
    Capsule,
}

/// Simulation method of a rigid body.
#[derive(Clone, Copy, PartialEq, Eq, Structural, Debug)]
pub enum Method {
    Static,
    Dynamic,
    DynamicWithBone,
}

} // verus!
