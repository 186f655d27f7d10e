use crate::handle::Handle;
use crate::math::{Quaternion, Scalar, Vector3};
use vstd::prelude::*;

verus! {

/// How the simulation moves a body.
#[derive(Clone, Copy, Debug, PartialEq, Eq, Structural)]
pub enum RigidBodyType {
    Dynamic,
    Static,
    KinematicPositionBased,
    KinematicVelocityBased,
}

/// A rigid body. `colliders` lists the handles of the colliders attached to
/// it, in the order in which they were attached.
#[derive(Debug, PartialEq, Eq)]
pub struct RigidBody {
    pub position: Vector3,
    pub rotation: Quaternion,
    pub lin_vel: Vector3,
    pub ang_vel: Vector3,
    pub sleeping: bool,
    pub status: RigidBodyType,
    pub colliders: Vec<Handle>,
    pub mass: Scalar,
    pub x_rotation_locked: bool,
    pub y_rotation_locked: bool,
    pub z_rotation_locked: bool,
    pub translation_locked: bool,
}

/// Where a handle stands first in a list that holds it.
pub open spec fn first_index_of(handles: Seq<Handle>, handle: Handle) -> int {
    choose|i: int|
        0 <= i < handles.len() && handles[i] == handle && forall|j: int|
            0 <= j < i ==> handles[j] != handle
}

/// The list without the first occurrence of a handle that it holds.
pub open spec fn without_first(handles: Seq<Handle>, handle: Handle) -> Seq<Handle> {
    handles.remove(first_index_of(handles, handle))
}

/// In a list that holds a handle, the handle stands first at a place of the
/// list, with no occurrence before it, and the list without it is shorter by
/// one and keeps all the others in order.
pub proof fn lemma_without_first(handles: Seq<Handle>, handle: Handle)
    requires
        handles.contains(handle),
    ensures
        0 <= first_index_of(handles, handle) < handles.len(),
        handles[first_index_of(handles, handle)] == handle,
        forall|j: int| 0 <= j < first_index_of(handles, handle) ==> handles[j] != handle,
        without_first(handles, handle).len() == handles.len() - 1,
        forall|j: int|
            0 <= j < first_index_of(handles, handle) ==> without_first(handles, handle)[j]
                == handles[j],
        forall|j: int|
            first_index_of(handles, handle) <= j < handles.len() - 1 ==> without_first(
                handles,
                handle,
            )[j] == handles[j + 1],
{
    let some = choose|i: int| 0 <= i < handles.len() && handles[i] == handle;
    lemma_first_occurrence(handles, handle, some);
    handles.remove_ensures(first_index_of(handles, handle));
}

/// Before any occurrence of a handle in a list there is a first one.
proof fn lemma_first_occurrence(handles: Seq<Handle>, handle: Handle, at: int)
    requires
        0 <= at < handles.len(),
        handles[at] == handle,
    ensures
        exists|i: int|
            0 <= i <= at && handles[i] == handle && forall|j: int|
                0 <= j < i ==> handles[j] != handle,
    decreases at,
{
    if exists|k: int| 0 <= k < at && handles[k] == handle {
        let k = choose|k: int| 0 <= k < at && handles[k] == handle;
        lemma_first_occurrence(handles, handle, k);
    }
}

impl RigidBody {
    /// The two bodies agree in everything but the colliders attached.
    pub open spec fn same_but_colliders(self, other: RigidBody) -> bool {
        &&& self.position == other.position
        &&& self.rotation == other.rotation
        &&& self.lin_vel == other.lin_vel
        &&& self.ang_vel == other.ang_vel
        &&& self.sleeping == other.sleeping
        &&& self.status == other.status
        &&& self.mass == other.mass
        &&& self.x_rotation_locked == other.x_rotation_locked
        &&& self.y_rotation_locked == other.y_rotation_locked
        &&& self.z_rotation_locked == other.z_rotation_locked
        &&& self.translation_locked == other.translation_locked
    }

    /// Attaches a collider: its handle goes to the end of the list.
    pub fn attach(&mut self, collider: Handle)
        ensures
            final(self).colliders@ == old(self).colliders@.push(collider),
            final(self).same_but_colliders(*old(self)),
    {
        self.colliders.push(collider);
    }

    /// Where the handle of a collider stands first in the list, if it is
    /// there at all.
    pub fn position_of(&self, collider: Handle) -> (position: Option<usize>)
        ensures
            match position {
                Some(i) => {
                    &&& i < self.colliders@.len()
                    &&& self.colliders@.contains(collider)
                    &&& i == first_index_of(self.colliders@, collider)
                },
                None => !self.colliders@.contains(collider),
            },
    {
        let mut i: usize = 0;
        while i < self.colliders.len()
            invariant
                i <= self.colliders.len(),
                forall|j: int| 0 <= j < i ==> self.colliders@[j] != collider,
            decreases self.colliders.len() - i,
        {
            if self.colliders[i] == collider {
                return Some(i);
            }
            i += 1;
        }
        None
    }

    /// Detaches a collider: the first occurrence of its handle leaves the
    /// list, and the handles behind it move up.
    pub fn detach(&mut self, collider: Handle)
        requires
            old(self).colliders@.contains(collider),
        ensures
            final(self).colliders@ == without_first(old(self).colliders@, collider),
            final(self).colliders@.len() == old(self).colliders@.len() - 1,
            final(self).same_but_colliders(*old(self)),
    {
        proof {
            lemma_without_first(self.colliders@, collider);
        }
        let position = self.position_of(collider);
        self.colliders.remove(position.unwrap());
    }
}

} // verus!
