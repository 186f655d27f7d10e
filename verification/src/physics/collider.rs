use crate::handle::Handle;
use crate::math::{Quaternion, Scalar, Vector3};
use vstd::prelude::*;

verus! {

#[derive(Clone, Copy, Debug, PartialEq, Eq, Structural)]
pub struct Ball {
    pub radius: Scalar,
}

#[derive(Clone, Copy, Debug, PartialEq, Eq, Structural)]
pub struct Cylinder {
    pub half_height: Scalar,
    pub radius: Scalar,
}

#[derive(Clone, Copy, Debug, PartialEq, Eq, Structural)]
pub struct RoundCylinder {
    pub half_height: Scalar,
    pub radius: Scalar,
    pub border_radius: Scalar,
}

#[derive(Clone, Copy, Debug, PartialEq, Eq, Structural)]
pub struct Cone {
    pub half_height: Scalar,
    pub radius: Scalar,
}

#[derive(Clone, Copy, Debug, PartialEq, Eq, Structural)]
pub struct Cuboid {
    pub half_extents: Vector3,
}

#[derive(Clone, Copy, Debug, PartialEq, Eq, Structural)]
pub struct Capsule {
    pub begin: Vector3,
    pub end: Vector3,
    pub radius: Scalar,
}

#[derive(Clone, Copy, Debug, PartialEq, Eq, Structural)]
pub struct Segment {
    pub begin: Vector3,
    pub end: Vector3,
}

#[derive(Clone, Copy, Debug, PartialEq, Eq, Structural)]
pub struct Triangle {
    pub a: Vector3,
    pub b: Vector3,
    pub c: Vector3,
}

/// The shape of a collider. A triangle mesh and a height field take their
/// geometry from the scene, so they carry no parameters here.
#[derive(Clone, Copy, Debug, PartialEq, Eq, Structural)]
pub enum ColliderShape {
    Ball(Ball),
    Cylinder(Cylinder),
    RoundCylinder(RoundCylinder),
    Cone(Cone),
    Cuboid(Cuboid),
    Capsule(Capsule),
    Segment(Segment),
    Triangle(Triangle),
    Trimesh,
    Heightfield,
}

/// The groups a collider belongs to and the groups it interacts with, one bit each.
#[derive(Clone, Copy, Debug, PartialEq, Eq, Structural)]
pub struct InteractionGroups {
    pub memberships: u32,
    pub filter: u32,
}

/// A collider. `parent` names the body it is attached to, or nothing.
#[derive(Clone, Copy, Debug, PartialEq, Eq, Structural)]
pub struct Collider {
    pub shape: ColliderShape,
    pub parent: Handle,
    pub friction: Scalar,
    pub density: Option<Scalar>,
    pub restitution: Scalar,
    pub is_sensor: bool,
    pub translation: Vector3,
    pub rotation: Quaternion,
    pub collision_groups: InteractionGroups,
    pub solver_groups: InteractionGroups,
}

} // verus!
