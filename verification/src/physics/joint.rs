use crate::handle::Handle;
use crate::math::{Quaternion, Vector3};
use vstd::prelude::*;

verus! {

/// Two bodies that share one point and turn freely about it.
#[derive(Clone, Copy, Debug, PartialEq, Eq, Structural)]
pub struct BallJoint {
    pub local_anchor1: Vector3,
    pub local_anchor2: Vector3,
}

/// Two bodies held in a fixed relative pose.
#[derive(Clone, Copy, Debug, PartialEq, Eq, Structural)]
pub struct FixedJoint {
    pub local_anchor1_translation: Vector3,
    pub local_anchor1_rotation: Quaternion,
    pub local_anchor2_translation: Vector3,
    pub local_anchor2_rotation: Quaternion,
}

/// Two bodies that slide along one axis.
#[derive(Clone, Copy, Debug, PartialEq, Eq, Structural)]
pub struct PrismaticJoint {
    pub local_anchor1: Vector3,
    pub local_axis1: Vector3,
    pub local_anchor2: Vector3,
    pub local_axis2: Vector3,
}

/// Two bodies that turn about one axis.
#[derive(Clone, Copy, Debug, PartialEq, Eq, Structural)]
pub struct RevoluteJoint {
    pub local_anchor1: Vector3,
    pub local_axis1: Vector3,
    pub local_anchor2: Vector3,
    pub local_axis2: Vector3,
}

/// The kind of a joint, with the parameters of that kind.
#[derive(Clone, Copy, Debug, PartialEq, Eq, Structural)]
pub enum JointParams {
    BallJoint(BallJoint),
    FixedJoint(FixedJoint),
    PrismaticJoint(PrismaticJoint),
    RevoluteJoint(RevoluteJoint),
}

/// A joint between two bodies, each named by its handle in the body pool.
#[derive(Clone, Copy, Debug, PartialEq, Eq, Structural)]
pub struct Joint {
    pub body1: Handle,
    pub body2: Handle,
    pub params: JointParams,
}

} // verus!
