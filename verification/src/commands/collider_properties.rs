use crate::commands::PropertyView;
use crate::handle::Handle;
use crate::math::{Quaternion, Scalar, Vector3};
use crate::physics::collider::{
    Ball, Capsule, Collider, ColliderShape, Cone, Cuboid, Cylinder, InteractionGroups,
};
use crate::physics::Physics;
use crate::pool::colliders::{collider_mut, collider_ref};
use crate::pool::model::lemma_set;
use vstd::prelude::*;

verus! {

/// Sets the friction of a collider.
#[derive(Debug)]
pub struct SetColliderFrictionCommand {
    handle: Handle,
    value: Scalar,
}

impl View for SetColliderFrictionCommand {
    type V = PropertyView<Scalar>;

    closed spec fn view(&self) -> PropertyView<Scalar> {
        PropertyView { handle: self.handle, value: self.value }
    }
}

impl SetColliderFrictionCommand {
    /// The property of a collider that the command sets.
    pub open spec fn property(collider: Collider) -> Scalar {
        collider.friction
    }

    /// The collider with the property set to a value.
    pub open spec fn with_property(collider: Collider, value: Scalar) -> Collider {
        Collider { friction: value, ..collider }
    }

    /// The command can run: its handle names a collider.
    pub open spec fn ready(&self, physics: &Physics) -> bool {
        physics.colliders_view().is_live(self@.handle)
    }

    /// The command has run: the value of the command and the property of the
    /// collider have changed places, and nothing else is changed.
    pub open spec fn swapped(
        &self,
        physics: &Physics,
        after: &Self,
        physics_after: &Physics,
    ) -> bool {
        &&& after@ == (PropertyView {
            handle: self@.handle,
            value: Self::property(physics.colliders_view().get(self@.handle)),
        })
        &&& physics_after.colliders_view() == physics.colliders_view().set(
            self@.handle,
            Self::with_property(physics.colliders_view().get(self@.handle), self@.value),
        )
        &&& physics_after.same_but_colliders(physics)
    }

    pub fn new(handle: Handle, value: Scalar) -> (command: Self)
        ensures
            command@ == (PropertyView { handle, value }),
    {
        Self { handle, value }
    }

    pub fn name(&self) -> (name: String)
        ensures
            name@ == "Set Collider Friction"@,
    {
        "Set Collider Friction".to_owned()
    }

    /// Says whether the command can run.
    pub fn is_ready(&self, physics: &Physics) -> (ready: bool)
        ensures
            ready == self.ready(physics),
    {
        collider_ref(&physics.colliders, self.handle).is_some()
    }

    fn swap(&mut self, physics: &mut Physics)
        requires
            old(self).ready(old(physics)),
        ensures
            old(self).swapped(old(physics), final(self), final(physics)),
            old(physics).wf() ==> final(physics).wf(),
    {
        proof {
            if physics.wf() {
                lemma_set(
                    physics.colliders_view(),
                    self@.handle,
                    Self::with_property(physics.colliders_view().get(self@.handle), self@.value),
                );
            }
        }
        let collider = collider_mut(&mut physics.colliders, self.handle);
        std::mem::swap(&mut collider.friction, &mut self.value);
    }

    /// Gives the property the value of the command, which keeps the value that
    /// the property had.
    pub fn execute(&mut self, physics: &mut Physics)
        requires
            old(self).ready(old(physics)),
        ensures
            old(self).swapped(old(physics), final(self), final(physics)),
            old(physics).wf() ==> final(physics).wf(),
    {
        self.swap(physics);
    }

    /// Gives the property back the value that it had, which the command
    /// keeps; the command takes the value that it had given.
    pub fn revert(&mut self, physics: &mut Physics)
        requires
            old(self).ready(old(physics)),
        ensures
            old(self).swapped(old(physics), final(self), final(physics)),
            old(physics).wf() ==> final(physics).wf(),
    {
        self.swap(physics);
    }
}

/// Sets the restitution of a collider.
#[derive(Debug)]
pub struct SetColliderRestitutionCommand {
    handle: Handle,
    value: Scalar,
}

impl View for SetColliderRestitutionCommand {
    type V = PropertyView<Scalar>;

    closed spec fn view(&self) -> PropertyView<Scalar> {
        PropertyView { handle: self.handle, value: self.value }
    }
}

impl SetColliderRestitutionCommand {
    /// The property of a collider that the command sets.
    pub open spec fn property(collider: Collider) -> Scalar {
        collider.restitution
    }

    /// The collider with the property set to a value.
    pub open spec fn with_property(collider: Collider, value: Scalar) -> Collider {
        Collider { restitution: value, ..collider }
    }

    /// The command can run: its handle names a collider.
    pub open spec fn ready(&self, physics: &Physics) -> bool {
        physics.colliders_view().is_live(self@.handle)
    }

    /// The command has run: the value of the command and the property of the
    /// collider have changed places, and nothing else is changed.
    pub open spec fn swapped(
        &self,
        physics: &Physics,
        after: &Self,
        physics_after: &Physics,
    ) -> bool {
        &&& after@ == (PropertyView {
            handle: self@.handle,
            value: Self::property(physics.colliders_view().get(self@.handle)),
        })
        &&& physics_after.colliders_view() == physics.colliders_view().set(
            self@.handle,
            Self::with_property(physics.colliders_view().get(self@.handle), self@.value),
        )
        &&& physics_after.same_but_colliders(physics)
    }

    pub fn new(handle: Handle, value: Scalar) -> (command: Self)
        ensures
            command@ == (PropertyView { handle, value }),
    {
        Self { handle, value }
    }

    pub fn name(&self) -> (name: String)
        ensures
            name@ == "Set Collider Restitution"@,
    {
        "Set Collider Restitution".to_owned()
    }

    /// Says whether the command can run.
    pub fn is_ready(&self, physics: &Physics) -> (ready: bool)
        ensures
            ready == self.ready(physics),
    {
        collider_ref(&physics.colliders, self.handle).is_some()
    }

    fn swap(&mut self, physics: &mut Physics)
        requires
            old(self).ready(old(physics)),
        ensures
            old(self).swapped(old(physics), final(self), final(physics)),
            old(physics).wf() ==> final(physics).wf(),
    {
        proof {
            if physics.wf() {
                lemma_set(
                    physics.colliders_view(),
                    self@.handle,
                    Self::with_property(physics.colliders_view().get(self@.handle), self@.value),
                );
            }
        }
        let collider = collider_mut(&mut physics.colliders, self.handle);
        std::mem::swap(&mut collider.restitution, &mut self.value);
    }

    /// Gives the property the value of the command, which keeps the value that
    /// the property had.
    pub fn execute(&mut self, physics: &mut Physics)
        requires
            old(self).ready(old(physics)),
        ensures
            old(self).swapped(old(physics), final(self), final(physics)),
            old(physics).wf() ==> final(physics).wf(),
    {
        self.swap(physics);
    }

    /// Gives the property back the value that it had, which the command
    /// keeps; the command takes the value that it had given.
    pub fn revert(&mut self, physics: &mut Physics)
        requires
            old(self).ready(old(physics)),
        ensures
            old(self).swapped(old(physics), final(self), final(physics)),
            old(physics).wf() ==> final(physics).wf(),
    {
        self.swap(physics);
    }
}

/// Sets the position of a collider relative to its body.
#[derive(Debug)]
pub struct SetColliderPositionCommand {
    handle: Handle,
    value: Vector3,
}

impl View for SetColliderPositionCommand {
    type V = PropertyView<Vector3>;

    closed spec fn view(&self) -> PropertyView<Vector3> {
        PropertyView { handle: self.handle, value: self.value }
    }
}

impl SetColliderPositionCommand {
    /// The property of a collider that the command sets.
    pub open spec fn property(collider: Collider) -> Vector3 {
        collider.translation
    }

    /// The collider with the property set to a value.
    pub open spec fn with_property(collider: Collider, value: Vector3) -> Collider {
        Collider { translation: value, ..collider }
    }

    /// The command can run: its handle names a collider.
    pub open spec fn ready(&self, physics: &Physics) -> bool {
        physics.colliders_view().is_live(self@.handle)
    }

    /// The command has run: the value of the command and the property of the
    /// collider have changed places, and nothing else is changed.
    pub open spec fn swapped(
        &self,
        physics: &Physics,
        after: &Self,
        physics_after: &Physics,
    ) -> bool {
        &&& after@ == (PropertyView {
            handle: self@.handle,
            value: Self::property(physics.colliders_view().get(self@.handle)),
        })
        &&& physics_after.colliders_view() == physics.colliders_view().set(
            self@.handle,
            Self::with_property(physics.colliders_view().get(self@.handle), self@.value),
        )
        &&& physics_after.same_but_colliders(physics)
    }

    pub fn new(handle: Handle, value: Vector3) -> (command: Self)
        ensures
            command@ == (PropertyView { handle, value }),
    {
        Self { handle, value }
    }

    pub fn name(&self) -> (name: String)
        ensures
            name@ == "Set Collider Position"@,
    {
        "Set Collider Position".to_owned()
    }

    /// Says whether the command can run.
    pub fn is_ready(&self, physics: &Physics) -> (ready: bool)
        ensures
            ready == self.ready(physics),
    {
        collider_ref(&physics.colliders, self.handle).is_some()
    }

    fn swap(&mut self, physics: &mut Physics)
        requires
            old(self).ready(old(physics)),
        ensures
            old(self).swapped(old(physics), final(self), final(physics)),
            old(physics).wf() ==> final(physics).wf(),
    {
        proof {
            if physics.wf() {
                lemma_set(
                    physics.colliders_view(),
                    self@.handle,
                    Self::with_property(physics.colliders_view().get(self@.handle), self@.value),
                );
            }
        }
        let collider = collider_mut(&mut physics.colliders, self.handle);
        std::mem::swap(&mut collider.translation, &mut self.value);
    }

    /// Gives the property the value of the command, which keeps the value that
    /// the property had.
    pub fn execute(&mut self, physics: &mut Physics)
        requires
            old(self).ready(old(physics)),
        ensures
            old(self).swapped(old(physics), final(self), final(physics)),
            old(physics).wf() ==> final(physics).wf(),
    {
        self.swap(physics);
    }

    /// Gives the property back the value that it had, which the command
    /// keeps; the command takes the value that it had given.
    pub fn revert(&mut self, physics: &mut Physics)
        requires
            old(self).ready(old(physics)),
        ensures
            old(self).swapped(old(physics), final(self), final(physics)),
            old(physics).wf() ==> final(physics).wf(),
    {
        self.swap(physics);
    }
}

/// Sets the rotation of a collider relative to its body.
#[derive(Debug)]
pub struct SetColliderRotationCommand {
    handle: Handle,
    value: Quaternion,
}

impl View for SetColliderRotationCommand {
    type V = PropertyView<Quaternion>;

    closed spec fn view(&self) -> PropertyView<Quaternion> {
        PropertyView { handle: self.handle, value: self.value }
    }
}

impl SetColliderRotationCommand {
    /// The property of a collider that the command sets.
    pub open spec fn property(collider: Collider) -> Quaternion {
        collider.rotation
    }

    /// The collider with the property set to a value.
    pub open spec fn with_property(collider: Collider, value: Quaternion) -> Collider {
        Collider { rotation: value, ..collider }
    }

    /// The command can run: its handle names a collider.
    pub open spec fn ready(&self, physics: &Physics) -> bool {
        physics.colliders_view().is_live(self@.handle)
    }

    /// The command has run: the value of the command and the property of the
    /// collider have changed places, and nothing else is changed.
    pub open spec fn swapped(
        &self,
        physics: &Physics,
        after: &Self,
        physics_after: &Physics,
    ) -> bool {
        &&& after@ == (PropertyView {
            handle: self@.handle,
            value: Self::property(physics.colliders_view().get(self@.handle)),
        })
        &&& physics_after.colliders_view() == physics.colliders_view().set(
            self@.handle,
            Self::with_property(physics.colliders_view().get(self@.handle), self@.value),
        )
        &&& physics_after.same_but_colliders(physics)
    }

    pub fn new(handle: Handle, value: Quaternion) -> (command: Self)
        ensures
            command@ == (PropertyView { handle, value }),
    {
        Self { handle, value }
    }

    pub fn name(&self) -> (name: String)
        ensures
            name@ == "Set Collider Rotation"@,
    {
        "Set Collider Rotation".to_owned()
    }

    /// Says whether the command can run.
    pub fn is_ready(&self, physics: &Physics) -> (ready: bool)
        ensures
            ready == self.ready(physics),
    {
        collider_ref(&physics.colliders, self.handle).is_some()
    }

    fn swap(&mut self, physics: &mut Physics)
        requires
            old(self).ready(old(physics)),
        ensures
            old(self).swapped(old(physics), final(self), final(physics)),
            old(physics).wf() ==> final(physics).wf(),
    {
        proof {
            if physics.wf() {
                lemma_set(
                    physics.colliders_view(),
                    self@.handle,
                    Self::with_property(physics.colliders_view().get(self@.handle), self@.value),
                );
            }
        }
        let collider = collider_mut(&mut physics.colliders, self.handle);
        std::mem::swap(&mut collider.rotation, &mut self.value);
    }

    /// Gives the property the value of the command, which keeps the value that
    /// the property had.
    pub fn execute(&mut self, physics: &mut Physics)
        requires
            old(self).ready(old(physics)),
        ensures
            old(self).swapped(old(physics), final(self), final(physics)),
            old(physics).wf() ==> final(physics).wf(),
    {
        self.swap(physics);
    }

    /// Gives the property back the value that it had, which the command
    /// keeps; the command takes the value that it had given.
    pub fn revert(&mut self, physics: &mut Physics)
        requires
            old(self).ready(old(physics)),
        ensures
            old(self).swapped(old(physics), final(self), final(physics)),
            old(physics).wf() ==> final(physics).wf(),
    {
        self.swap(physics);
    }
}

/// Makes a collider a sensor, or an ordinary collider.
#[derive(Debug)]
pub struct SetColliderIsSensorCommand {
    handle: Handle,
    value: bool,
}

impl View for SetColliderIsSensorCommand {
    type V = PropertyView<bool>;

    closed spec fn view(&self) -> PropertyView<bool> {
        PropertyView { handle: self.handle, value: self.value }
    }
}

impl SetColliderIsSensorCommand {
    /// The property of a collider that the command sets.
    pub open spec fn property(collider: Collider) -> bool {
        collider.is_sensor
    }

    /// The collider with the property set to a value.
    pub open spec fn with_property(collider: Collider, value: bool) -> Collider {
        Collider { is_sensor: value, ..collider }
    }

    /// The command can run: its handle names a collider.
    pub open spec fn ready(&self, physics: &Physics) -> bool {
        physics.colliders_view().is_live(self@.handle)
    }

    /// The command has run: the value of the command and the property of the
    /// collider have changed places, and nothing else is changed.
    pub open spec fn swapped(
        &self,
        physics: &Physics,
        after: &Self,
        physics_after: &Physics,
    ) -> bool {
        &&& after@ == (PropertyView {
            handle: self@.handle,
            value: Self::property(physics.colliders_view().get(self@.handle)),
        })
        &&& physics_after.colliders_view() == physics.colliders_view().set(
            self@.handle,
            Self::with_property(physics.colliders_view().get(self@.handle), self@.value),
        )
        &&& physics_after.same_but_colliders(physics)
    }

    pub fn new(handle: Handle, value: bool) -> (command: Self)
        ensures
            command@ == (PropertyView { handle, value }),
    {
        Self { handle, value }
    }

    pub fn name(&self) -> (name: String)
        ensures
            name@ == "Set Collider Is Sensor"@,
    {
        "Set Collider Is Sensor".to_owned()
    }

    /// Says whether the command can run.
    pub fn is_ready(&self, physics: &Physics) -> (ready: bool)
        ensures
            ready == self.ready(physics),
    {
        collider_ref(&physics.colliders, self.handle).is_some()
    }

    fn swap(&mut self, physics: &mut Physics)
        requires
            old(self).ready(old(physics)),
        ensures
            old(self).swapped(old(physics), final(self), final(physics)),
            old(physics).wf() ==> final(physics).wf(),
    {
        proof {
            if physics.wf() {
                lemma_set(
                    physics.colliders_view(),
                    self@.handle,
                    Self::with_property(physics.colliders_view().get(self@.handle), self@.value),
                );
            }
        }
        let collider = collider_mut(&mut physics.colliders, self.handle);
        std::mem::swap(&mut collider.is_sensor, &mut self.value);
    }

    /// Gives the property the value of the command, which keeps the value that
    /// the property had.
    pub fn execute(&mut self, physics: &mut Physics)
        requires
            old(self).ready(old(physics)),
        ensures
            old(self).swapped(old(physics), final(self), final(physics)),
            old(physics).wf() ==> final(physics).wf(),
    {
        self.swap(physics);
    }

    /// Gives the property back the value that it had, which the command
    /// keeps; the command takes the value that it had given.
    pub fn revert(&mut self, physics: &mut Physics)
        requires
            old(self).ready(old(physics)),
        ensures
            old(self).swapped(old(physics), final(self), final(physics)),
            old(physics).wf() ==> final(physics).wf(),
    {
        self.swap(physics);
    }
}

/// Sets the collision groups that a collider belongs to.
#[derive(Debug)]
pub struct SetColliderCollisionGroupsMembershipsCommand {
    handle: Handle,
    value: u32,
}

impl View for SetColliderCollisionGroupsMembershipsCommand {
    type V = PropertyView<u32>;

    closed spec fn view(&self) -> PropertyView<u32> {
        PropertyView { handle: self.handle, value: self.value }
    }
}

impl SetColliderCollisionGroupsMembershipsCommand {
    /// The property of a collider that the command sets.
    pub open spec fn property(collider: Collider) -> u32 {
        collider.collision_groups.memberships
    }

    /// The collider with the property set to a value.
    pub open spec fn with_property(collider: Collider, value: u32) -> Collider {
        Collider {
            collision_groups: InteractionGroups { memberships: value, ..collider.collision_groups },
            ..collider
        }
    }

    /// The command can run: its handle names a collider.
    pub open spec fn ready(&self, physics: &Physics) -> bool {
        physics.colliders_view().is_live(self@.handle)
    }

    /// The command has run: the value of the command and the property of the
    /// collider have changed places, and nothing else is changed.
    pub open spec fn swapped(
        &self,
        physics: &Physics,
        after: &Self,
        physics_after: &Physics,
    ) -> bool {
        &&& after@ == (PropertyView {
            handle: self@.handle,
            value: Self::property(physics.colliders_view().get(self@.handle)),
        })
        &&& physics_after.colliders_view() == physics.colliders_view().set(
            self@.handle,
            Self::with_property(physics.colliders_view().get(self@.handle), self@.value),
        )
        &&& physics_after.same_but_colliders(physics)
    }

    pub fn new(handle: Handle, value: u32) -> (command: Self)
        ensures
            command@ == (PropertyView { handle, value }),
    {
        Self { handle, value }
    }

    pub fn name(&self) -> (name: String)
        ensures
            name@ == "Set Collider Collision Groups Memberships"@,
    {
        "Set Collider Collision Groups Memberships".to_owned()
    }

    /// Says whether the command can run.
    pub fn is_ready(&self, physics: &Physics) -> (ready: bool)
        ensures
            ready == self.ready(physics),
    {
        collider_ref(&physics.colliders, self.handle).is_some()
    }

    fn swap(&mut self, physics: &mut Physics)
        requires
            old(self).ready(old(physics)),
        ensures
            old(self).swapped(old(physics), final(self), final(physics)),
            old(physics).wf() ==> final(physics).wf(),
    {
        proof {
            if physics.wf() {
                lemma_set(
                    physics.colliders_view(),
                    self@.handle,
                    Self::with_property(physics.colliders_view().get(self@.handle), self@.value),
                );
            }
        }
        let collider = collider_mut(&mut physics.colliders, self.handle);
        std::mem::swap(&mut collider.collision_groups.memberships, &mut self.value);
    }

    /// Gives the property the value of the command, which keeps the value that
    /// the property had.
    pub fn execute(&mut self, physics: &mut Physics)
        requires
            old(self).ready(old(physics)),
        ensures
            old(self).swapped(old(physics), final(self), final(physics)),
            old(physics).wf() ==> final(physics).wf(),
    {
        self.swap(physics);
    }

    /// Gives the property back the value that it had, which the command
    /// keeps; the command takes the value that it had given.
    pub fn revert(&mut self, physics: &mut Physics)
        requires
            old(self).ready(old(physics)),
        ensures
            old(self).swapped(old(physics), final(self), final(physics)),
            old(physics).wf() ==> final(physics).wf(),
    {
        self.swap(physics);
    }
}

/// Sets the collision groups that a collider collides with.
#[derive(Debug)]
pub struct SetColliderCollisionGroupsFilterCommand {
    handle: Handle,
    value: u32,
}

impl View for SetColliderCollisionGroupsFilterCommand {
    type V = PropertyView<u32>;

    closed spec fn view(&self) -> PropertyView<u32> {
        PropertyView { handle: self.handle, value: self.value }
    }
}

impl SetColliderCollisionGroupsFilterCommand {
    /// The property of a collider that the command sets.
    pub open spec fn property(collider: Collider) -> u32 {
        collider.collision_groups.filter
    }

    /// The collider with the property set to a value.
    pub open spec fn with_property(collider: Collider, value: u32) -> Collider {
        Collider {
            collision_groups: InteractionGroups { filter: value, ..collider.collision_groups },
            ..collider
        }
    }

    /// The command can run: its handle names a collider.
    pub open spec fn ready(&self, physics: &Physics) -> bool {
        physics.colliders_view().is_live(self@.handle)
    }

    /// The command has run: the value of the command and the property of the
    /// collider have changed places, and nothing else is changed.
    pub open spec fn swapped(
        &self,
        physics: &Physics,
        after: &Self,
        physics_after: &Physics,
    ) -> bool {
        &&& after@ == (PropertyView {
            handle: self@.handle,
            value: Self::property(physics.colliders_view().get(self@.handle)),
        })
        &&& physics_after.colliders_view() == physics.colliders_view().set(
            self@.handle,
            Self::with_property(physics.colliders_view().get(self@.handle), self@.value),
        )
        &&& physics_after.same_but_colliders(physics)
    }

    pub fn new(handle: Handle, value: u32) -> (command: Self)
        ensures
            command@ == (PropertyView { handle, value }),
    {
        Self { handle, value }
    }

    pub fn name(&self) -> (name: String)
        ensures
            name@ == "Set Collider Collision Groups Filter"@,
    {
        "Set Collider Collision Groups Filter".to_owned()
    }

    /// Says whether the command can run.
    pub fn is_ready(&self, physics: &Physics) -> (ready: bool)
        ensures
            ready == self.ready(physics),
    {
        collider_ref(&physics.colliders, self.handle).is_some()
    }

    fn swap(&mut self, physics: &mut Physics)
        requires
            old(self).ready(old(physics)),
        ensures
            old(self).swapped(old(physics), final(self), final(physics)),
            old(physics).wf() ==> final(physics).wf(),
    {
        proof {
            if physics.wf() {
                lemma_set(
                    physics.colliders_view(),
                    self@.handle,
                    Self::with_property(physics.colliders_view().get(self@.handle), self@.value),
                );
            }
        }
        let collider = collider_mut(&mut physics.colliders, self.handle);
        std::mem::swap(&mut collider.collision_groups.filter, &mut self.value);
    }

    /// Gives the property the value of the command, which keeps the value that
    /// the property had.
    pub fn execute(&mut self, physics: &mut Physics)
        requires
            old(self).ready(old(physics)),
        ensures
            old(self).swapped(old(physics), final(self), final(physics)),
            old(physics).wf() ==> final(physics).wf(),
    {
        self.swap(physics);
    }

    /// Gives the property back the value that it had, which the command
    /// keeps; the command takes the value that it had given.
    pub fn revert(&mut self, physics: &mut Physics)
        requires
            old(self).ready(old(physics)),
        ensures
            old(self).swapped(old(physics), final(self), final(physics)),
            old(physics).wf() ==> final(physics).wf(),
    {
        self.swap(physics);
    }
}

/// Sets the half height of a cylinder.
#[derive(Debug)]
pub struct SetCylinderHalfHeightCommand {
    handle: Handle,
    value: Scalar,
}

impl View for SetCylinderHalfHeightCommand {
    type V = PropertyView<Scalar>;

    closed spec fn view(&self) -> PropertyView<Scalar> {
        PropertyView { handle: self.handle, value: self.value }
    }
}

impl SetCylinderHalfHeightCommand {
    /// The collider is of the kind that has the property.
    pub open spec fn applies_to(collider: Collider) -> bool {
        collider.shape is Cylinder
    }

    /// The property of a collider that the command sets.
    pub open spec fn property(collider: Collider) -> Scalar {
        collider.shape->Cylinder_0.half_height
    }

    /// The collider with the property set to a value.
    pub open spec fn with_property(collider: Collider, value: Scalar) -> Collider {
        Collider {
            shape: ColliderShape::Cylinder(
                Cylinder { half_height: value, ..collider.shape->Cylinder_0 },
            ),
            ..collider
        }
    }

    /// The command can run: its handle names a collider, of the kind that has
    /// the property.
    pub open spec fn ready(&self, physics: &Physics) -> bool {
        &&& physics.colliders_view().is_live(self@.handle)
        &&& Self::applies_to(physics.colliders_view().get(self@.handle))
    }

    /// The command has run: the value of the command and the property of the
    /// collider have changed places, and nothing else is changed.
    pub open spec fn swapped(
        &self,
        physics: &Physics,
        after: &Self,
        physics_after: &Physics,
    ) -> bool {
        &&& after@ == (PropertyView {
            handle: self@.handle,
            value: Self::property(physics.colliders_view().get(self@.handle)),
        })
        &&& physics_after.colliders_view() == physics.colliders_view().set(
            self@.handle,
            Self::with_property(physics.colliders_view().get(self@.handle), self@.value),
        )
        &&& physics_after.same_but_colliders(physics)
    }

    pub fn new(handle: Handle, value: Scalar) -> (command: Self)
        ensures
            command@ == (PropertyView { handle, value }),
    {
        Self { handle, value }
    }

    pub fn name(&self) -> (name: String)
        ensures
            name@ == "Set Cylinder Half Height"@,
    {
        "Set Cylinder Half Height".to_owned()
    }

    /// Says whether the command can run.
    pub fn is_ready(&self, physics: &Physics) -> (ready: bool)
        ensures
            ready == self.ready(physics),
    {
        match collider_ref(&physics.colliders, self.handle) {
            Some(collider) => match collider.shape {
                ColliderShape::Cylinder(_) => true,
                _ => false,
            },
            None => false,
        }
    }

    fn swap(&mut self, physics: &mut Physics)
        requires
            old(self).ready(old(physics)),
        ensures
            old(self).swapped(old(physics), final(self), final(physics)),
            old(physics).wf() ==> final(physics).wf(),
    {
        proof {
            if physics.wf() {
                lemma_set(
                    physics.colliders_view(),
                    self@.handle,
                    Self::with_property(physics.colliders_view().get(self@.handle), self@.value),
                );
            }
        }
        let collider = collider_mut(&mut physics.colliders, self.handle);
        if let ColliderShape::Cylinder(cylinder) = &mut collider.shape {
            std::mem::swap(&mut cylinder.half_height, &mut self.value);
        }
    }

    /// Gives the property the value of the command, which keeps the value that
    /// the property had.
    pub fn execute(&mut self, physics: &mut Physics)
        requires
            old(self).ready(old(physics)),
        ensures
            old(self).swapped(old(physics), final(self), final(physics)),
            old(physics).wf() ==> final(physics).wf(),
    {
        self.swap(physics);
    }

    /// Gives the property back the value that it had, which the command
    /// keeps; the command takes the value that it had given.
    pub fn revert(&mut self, physics: &mut Physics)
        requires
            old(self).ready(old(physics)),
        ensures
            old(self).swapped(old(physics), final(self), final(physics)),
            old(physics).wf() ==> final(physics).wf(),
    {
        self.swap(physics);
    }
}

/// Sets the radius of a cylinder.
#[derive(Debug)]
pub struct SetCylinderRadiusCommand {
    handle: Handle,
    value: Scalar,
}

impl View for SetCylinderRadiusCommand {
    type V = PropertyView<Scalar>;

    closed spec fn view(&self) -> PropertyView<Scalar> {
        PropertyView { handle: self.handle, value: self.value }
    }
}

impl SetCylinderRadiusCommand {
    /// The collider is of the kind that has the property.
    pub open spec fn applies_to(collider: Collider) -> bool {
        collider.shape is Cylinder
    }

    /// The property of a collider that the command sets.
    pub open spec fn property(collider: Collider) -> Scalar {
        collider.shape->Cylinder_0.radius
    }

    /// The collider with the property set to a value.
    pub open spec fn with_property(collider: Collider, value: Scalar) -> Collider {
        Collider {
            shape: ColliderShape::Cylinder(
                Cylinder { radius: value, ..collider.shape->Cylinder_0 },
            ),
            ..collider
        }
    }

    /// The command can run: its handle names a collider, of the kind that has
    /// the property.
    pub open spec fn ready(&self, physics: &Physics) -> bool {
        &&& physics.colliders_view().is_live(self@.handle)
        &&& Self::applies_to(physics.colliders_view().get(self@.handle))
    }

    /// The command has run: the value of the command and the property of the
    /// collider have changed places, and nothing else is changed.
    pub open spec fn swapped(
        &self,
        physics: &Physics,
        after: &Self,
        physics_after: &Physics,
    ) -> bool {
        &&& after@ == (PropertyView {
            handle: self@.handle,
            value: Self::property(physics.colliders_view().get(self@.handle)),
        })
        &&& physics_after.colliders_view() == physics.colliders_view().set(
            self@.handle,
            Self::with_property(physics.colliders_view().get(self@.handle), self@.value),
        )
        &&& physics_after.same_but_colliders(physics)
    }

    pub fn new(handle: Handle, value: Scalar) -> (command: Self)
        ensures
            command@ == (PropertyView { handle, value }),
    {
        Self { handle, value }
    }

    pub fn name(&self) -> (name: String)
        ensures
            name@ == "Set Cylinder Radius"@,
    {
        "Set Cylinder Radius".to_owned()
    }

    /// Says whether the command can run.
    pub fn is_ready(&self, physics: &Physics) -> (ready: bool)
        ensures
            ready == self.ready(physics),
    {
        match collider_ref(&physics.colliders, self.handle) {
            Some(collider) => match collider.shape {
                ColliderShape::Cylinder(_) => true,
                _ => false,
            },
            None => false,
        }
    }

    fn swap(&mut self, physics: &mut Physics)
        requires
            old(self).ready(old(physics)),
        ensures
            old(self).swapped(old(physics), final(self), final(physics)),
            old(physics).wf() ==> final(physics).wf(),
    {
        proof {
            if physics.wf() {
                lemma_set(
                    physics.colliders_view(),
                    self@.handle,
                    Self::with_property(physics.colliders_view().get(self@.handle), self@.value),
                );
            }
        }
        let collider = collider_mut(&mut physics.colliders, self.handle);
        if let ColliderShape::Cylinder(cylinder) = &mut collider.shape {
            std::mem::swap(&mut cylinder.radius, &mut self.value);
        }
    }

    /// Gives the property the value of the command, which keeps the value that
    /// the property had.
    pub fn execute(&mut self, physics: &mut Physics)
        requires
            old(self).ready(old(physics)),
        ensures
            old(self).swapped(old(physics), final(self), final(physics)),
            old(physics).wf() ==> final(physics).wf(),
    {
        self.swap(physics);
    }

    /// Gives the property back the value that it had, which the command
    /// keeps; the command takes the value that it had given.
    pub fn revert(&mut self, physics: &mut Physics)
        requires
            old(self).ready(old(physics)),
        ensures
            old(self).swapped(old(physics), final(self), final(physics)),
            old(physics).wf() ==> final(physics).wf(),
    {
        self.swap(physics);
    }
}

/// Sets the half height of a cone.
#[derive(Debug)]
pub struct SetConeHalfHeightCommand {
    handle: Handle,
    value: Scalar,
}

impl View for SetConeHalfHeightCommand {
    type V = PropertyView<Scalar>;

    closed spec fn view(&self) -> PropertyView<Scalar> {
        PropertyView { handle: self.handle, value: self.value }
    }
}

impl SetConeHalfHeightCommand {
    /// The collider is of the kind that has the property.
    pub open spec fn applies_to(collider: Collider) -> bool {
        collider.shape is Cone
    }

    /// The property of a collider that the command sets.
    pub open spec fn property(collider: Collider) -> Scalar {
        collider.shape->Cone_0.half_height
    }

    /// The collider with the property set to a value.
    pub open spec fn with_property(collider: Collider, value: Scalar) -> Collider {
        Collider {
            shape: ColliderShape::Cone(
                Cone { half_height: value, ..collider.shape->Cone_0 },
            ),
            ..collider
        }
    }

    /// The command can run: its handle names a collider, of the kind that has
    /// the property.
    pub open spec fn ready(&self, physics: &Physics) -> bool {
        &&& physics.colliders_view().is_live(self@.handle)
        &&& Self::applies_to(physics.colliders_view().get(self@.handle))
    }

    /// The command has run: the value of the command and the property of the
    /// collider have changed places, and nothing else is changed.
    pub open spec fn swapped(
        &self,
        physics: &Physics,
        after: &Self,
        physics_after: &Physics,
    ) -> bool {
        &&& after@ == (PropertyView {
            handle: self@.handle,
            value: Self::property(physics.colliders_view().get(self@.handle)),
        })
        &&& physics_after.colliders_view() == physics.colliders_view().set(
            self@.handle,
            Self::with_property(physics.colliders_view().get(self@.handle), self@.value),
        )
        &&& physics_after.same_but_colliders(physics)
    }

    pub fn new(handle: Handle, value: Scalar) -> (command: Self)
        ensures
            command@ == (PropertyView { handle, value }),
    {
        Self { handle, value }
    }

    pub fn name(&self) -> (name: String)
        ensures
            name@ == "Set Cone Half Height"@,
    {
        "Set Cone Half Height".to_owned()
    }

    /// Says whether the command can run.
    pub fn is_ready(&self, physics: &Physics) -> (ready: bool)
        ensures
            ready == self.ready(physics),
    {
        match collider_ref(&physics.colliders, self.handle) {
            Some(collider) => match collider.shape {
                ColliderShape::Cone(_) => true,
                _ => false,
            },
            None => false,
        }
    }

    fn swap(&mut self, physics: &mut Physics)
        requires
            old(self).ready(old(physics)),
        ensures
            old(self).swapped(old(physics), final(self), final(physics)),
            old(physics).wf() ==> final(physics).wf(),
    {
        proof {
            if physics.wf() {
                lemma_set(
                    physics.colliders_view(),
                    self@.handle,
                    Self::with_property(physics.colliders_view().get(self@.handle), self@.value),
                );
            }
        }
        let collider = collider_mut(&mut physics.colliders, self.handle);
        if let ColliderShape::Cone(cone) = &mut collider.shape {
            std::mem::swap(&mut cone.half_height, &mut self.value);
        }
    }

    /// Gives the property the value of the command, which keeps the value that
    /// the property had.
    pub fn execute(&mut self, physics: &mut Physics)
        requires
            old(self).ready(old(physics)),
        ensures
            old(self).swapped(old(physics), final(self), final(physics)),
            old(physics).wf() ==> final(physics).wf(),
    {
        self.swap(physics);
    }

    /// Gives the property back the value that it had, which the command
    /// keeps; the command takes the value that it had given.
    pub fn revert(&mut self, physics: &mut Physics)
        requires
            old(self).ready(old(physics)),
        ensures
            old(self).swapped(old(physics), final(self), final(physics)),
            old(physics).wf() ==> final(physics).wf(),
    {
        self.swap(physics);
    }
}

/// Sets the radius of a cone.
#[derive(Debug)]
pub struct SetConeRadiusCommand {
    handle: Handle,
    value: Scalar,
}

impl View for SetConeRadiusCommand {
    type V = PropertyView<Scalar>;

    closed spec fn view(&self) -> PropertyView<Scalar> {
        PropertyView { handle: self.handle, value: self.value }
    }
}

impl SetConeRadiusCommand {
    /// The collider is of the kind that has the property.
    pub open spec fn applies_to(collider: Collider) -> bool {
        collider.shape is Cone
    }

    /// The property of a collider that the command sets.
    pub open spec fn property(collider: Collider) -> Scalar {
        collider.shape->Cone_0.radius
    }

    /// The collider with the property set to a value.
    pub open spec fn with_property(collider: Collider, value: Scalar) -> Collider {
        Collider {
            shape: ColliderShape::Cone(
                Cone { radius: value, ..collider.shape->Cone_0 },
            ),
            ..collider
        }
    }

    /// The command can run: its handle names a collider, of the kind that has
    /// the property.
    pub open spec fn ready(&self, physics: &Physics) -> bool {
        &&& physics.colliders_view().is_live(self@.handle)
        &&& Self::applies_to(physics.colliders_view().get(self@.handle))
    }

    /// The command has run: the value of the command and the property of the
    /// collider have changed places, and nothing else is changed.
    pub open spec fn swapped(
        &self,
        physics: &Physics,
        after: &Self,
        physics_after: &Physics,
    ) -> bool {
        &&& after@ == (PropertyView {
            handle: self@.handle,
            value: Self::property(physics.colliders_view().get(self@.handle)),
        })
        &&& physics_after.colliders_view() == physics.colliders_view().set(
            self@.handle,
            Self::with_property(physics.colliders_view().get(self@.handle), self@.value),
        )
        &&& physics_after.same_but_colliders(physics)
    }

    pub fn new(handle: Handle, value: Scalar) -> (command: Self)
        ensures
            command@ == (PropertyView { handle, value }),
    {
        Self { handle, value }
    }

    pub fn name(&self) -> (name: String)
        ensures
            name@ == "Set Cone Radius"@,
    {
        "Set Cone Radius".to_owned()
    }

    /// Says whether the command can run.
    pub fn is_ready(&self, physics: &Physics) -> (ready: bool)
        ensures
            ready == self.ready(physics),
    {
        match collider_ref(&physics.colliders, self.handle) {
            Some(collider) => match collider.shape {
                ColliderShape::Cone(_) => true,
                _ => false,
            },
            None => false,
        }
    }

    fn swap(&mut self, physics: &mut Physics)
        requires
            old(self).ready(old(physics)),
        ensures
            old(self).swapped(old(physics), final(self), final(physics)),
            old(physics).wf() ==> final(physics).wf(),
    {
        proof {
            if physics.wf() {
                lemma_set(
                    physics.colliders_view(),
                    self@.handle,
                    Self::with_property(physics.colliders_view().get(self@.handle), self@.value),
                );
            }
        }
        let collider = collider_mut(&mut physics.colliders, self.handle);
        if let ColliderShape::Cone(cone) = &mut collider.shape {
            std::mem::swap(&mut cone.radius, &mut self.value);
        }
    }

    /// Gives the property the value of the command, which keeps the value that
    /// the property had.
    pub fn execute(&mut self, physics: &mut Physics)
        requires
            old(self).ready(old(physics)),
        ensures
            old(self).swapped(old(physics), final(self), final(physics)),
            old(physics).wf() ==> final(physics).wf(),
    {
        self.swap(physics);
    }

    /// Gives the property back the value that it had, which the command
    /// keeps; the command takes the value that it had given.
    pub fn revert(&mut self, physics: &mut Physics)
        requires
            old(self).ready(old(physics)),
        ensures
            old(self).swapped(old(physics), final(self), final(physics)),
            old(physics).wf() ==> final(physics).wf(),
    {
        self.swap(physics);
    }
}

/// Sets the half extents of a cuboid.
#[derive(Debug)]
pub struct SetCuboidHalfExtentsCommand {
    handle: Handle,
    value: Vector3,
}

impl View for SetCuboidHalfExtentsCommand {
    type V = PropertyView<Vector3>;

    closed spec fn view(&self) -> PropertyView<Vector3> {
        PropertyView { handle: self.handle, value: self.value }
    }
}

impl SetCuboidHalfExtentsCommand {
    /// The collider is of the kind that has the property.
    pub open spec fn applies_to(collider: Collider) -> bool {
        collider.shape is Cuboid
    }

    /// The property of a collider that the command sets.
    pub open spec fn property(collider: Collider) -> Vector3 {
        collider.shape->Cuboid_0.half_extents
    }

    /// The collider with the property set to a value.
    pub open spec fn with_property(collider: Collider, value: Vector3) -> Collider {
        Collider {
            shape: ColliderShape::Cuboid(
                Cuboid { half_extents: value, ..collider.shape->Cuboid_0 },
            ),
            ..collider
        }
    }

    /// The command can run: its handle names a collider, of the kind that has
    /// the property.
    pub open spec fn ready(&self, physics: &Physics) -> bool {
        &&& physics.colliders_view().is_live(self@.handle)
        &&& Self::applies_to(physics.colliders_view().get(self@.handle))
    }

    /// The command has run: the value of the command and the property of the
    /// collider have changed places, and nothing else is changed.
    pub open spec fn swapped(
        &self,
        physics: &Physics,
        after: &Self,
        physics_after: &Physics,
    ) -> bool {
        &&& after@ == (PropertyView {
            handle: self@.handle,
            value: Self::property(physics.colliders_view().get(self@.handle)),
        })
        &&& physics_after.colliders_view() == physics.colliders_view().set(
            self@.handle,
            Self::with_property(physics.colliders_view().get(self@.handle), self@.value),
        )
        &&& physics_after.same_but_colliders(physics)
    }

    pub fn new(handle: Handle, value: Vector3) -> (command: Self)
        ensures
            command@ == (PropertyView { handle, value }),
    {
        Self { handle, value }
    }

    pub fn name(&self) -> (name: String)
        ensures
            name@ == "Set Cuboid Half Extents"@,
    {
        "Set Cuboid Half Extents".to_owned()
    }

    /// Says whether the command can run.
    pub fn is_ready(&self, physics: &Physics) -> (ready: bool)
        ensures
            ready == self.ready(physics),
    {
        match collider_ref(&physics.colliders, self.handle) {
            Some(collider) => match collider.shape {
                ColliderShape::Cuboid(_) => true,
                _ => false,
            },
            None => false,
        }
    }

    fn swap(&mut self, physics: &mut Physics)
        requires
            old(self).ready(old(physics)),
        ensures
            old(self).swapped(old(physics), final(self), final(physics)),
            old(physics).wf() ==> final(physics).wf(),
    {
        proof {
            if physics.wf() {
                lemma_set(
                    physics.colliders_view(),
                    self@.handle,
                    Self::with_property(physics.colliders_view().get(self@.handle), self@.value),
                );
            }
        }
        let collider = collider_mut(&mut physics.colliders, self.handle);
        if let ColliderShape::Cuboid(cuboid) = &mut collider.shape {
            std::mem::swap(&mut cuboid.half_extents, &mut self.value);
        }
    }

    /// Gives the property the value of the command, which keeps the value that
    /// the property had.
    pub fn execute(&mut self, physics: &mut Physics)
        requires
            old(self).ready(old(physics)),
        ensures
            old(self).swapped(old(physics), final(self), final(physics)),
            old(physics).wf() ==> final(physics).wf(),
    {
        self.swap(physics);
    }

    /// Gives the property back the value that it had, which the command
    /// keeps; the command takes the value that it had given.
    pub fn revert(&mut self, physics: &mut Physics)
        requires
            old(self).ready(old(physics)),
        ensures
            old(self).swapped(old(physics), final(self), final(physics)),
            old(physics).wf() ==> final(physics).wf(),
    {
        self.swap(physics);
    }
}

/// Sets the radius of a capsule.
#[derive(Debug)]
pub struct SetCapsuleRadiusCommand {
    handle: Handle,
    value: Scalar,
}

impl View for SetCapsuleRadiusCommand {
    type V = PropertyView<Scalar>;

    closed spec fn view(&self) -> PropertyView<Scalar> {
        PropertyView { handle: self.handle, value: self.value }
    }
}

impl SetCapsuleRadiusCommand {
    /// The collider is of the kind that has the property.
    pub open spec fn applies_to(collider: Collider) -> bool {
        collider.shape is Capsule
    }

    /// The property of a collider that the command sets.
    pub open spec fn property(collider: Collider) -> Scalar {
        collider.shape->Capsule_0.radius
    }

    /// The collider with the property set to a value.
    pub open spec fn with_property(collider: Collider, value: Scalar) -> Collider {
        Collider {
            shape: ColliderShape::Capsule(
                Capsule { radius: value, ..collider.shape->Capsule_0 },
            ),
            ..collider
        }
    }

    /// The command can run: its handle names a collider, of the kind that has
    /// the property.
    pub open spec fn ready(&self, physics: &Physics) -> bool {
        &&& physics.colliders_view().is_live(self@.handle)
        &&& Self::applies_to(physics.colliders_view().get(self@.handle))
    }

    /// The command has run: the value of the command and the property of the
    /// collider have changed places, and nothing else is changed.
    pub open spec fn swapped(
        &self,
        physics: &Physics,
        after: &Self,
        physics_after: &Physics,
    ) -> bool {
        &&& after@ == (PropertyView {
            handle: self@.handle,
            value: Self::property(physics.colliders_view().get(self@.handle)),
        })
        &&& physics_after.colliders_view() == physics.colliders_view().set(
            self@.handle,
            Self::with_property(physics.colliders_view().get(self@.handle), self@.value),
        )
        &&& physics_after.same_but_colliders(physics)
    }

    pub fn new(handle: Handle, value: Scalar) -> (command: Self)
        ensures
            command@ == (PropertyView { handle, value }),
    {
        Self { handle, value }
    }

    pub fn name(&self) -> (name: String)
        ensures
            name@ == "Set Capsule Radius"@,
    {
        "Set Capsule Radius".to_owned()
    }

    /// Says whether the command can run.
    pub fn is_ready(&self, physics: &Physics) -> (ready: bool)
        ensures
            ready == self.ready(physics),
    {
        match collider_ref(&physics.colliders, self.handle) {
            Some(collider) => match collider.shape {
                ColliderShape::Capsule(_) => true,
                _ => false,
            },
            None => false,
        }
    }

    fn swap(&mut self, physics: &mut Physics)
        requires
            old(self).ready(old(physics)),
        ensures
            old(self).swapped(old(physics), final(self), final(physics)),
            old(physics).wf() ==> final(physics).wf(),
    {
        proof {
            if physics.wf() {
                lemma_set(
                    physics.colliders_view(),
                    self@.handle,
                    Self::with_property(physics.colliders_view().get(self@.handle), self@.value),
                );
            }
        }
        let collider = collider_mut(&mut physics.colliders, self.handle);
        if let ColliderShape::Capsule(capsule) = &mut collider.shape {
            std::mem::swap(&mut capsule.radius, &mut self.value);
        }
    }

    /// Gives the property the value of the command, which keeps the value that
    /// the property had.
    pub fn execute(&mut self, physics: &mut Physics)
        requires
            old(self).ready(old(physics)),
        ensures
            old(self).swapped(old(physics), final(self), final(physics)),
            old(physics).wf() ==> final(physics).wf(),
    {
        self.swap(physics);
    }

    /// Gives the property back the value that it had, which the command
    /// keeps; the command takes the value that it had given.
    pub fn revert(&mut self, physics: &mut Physics)
        requires
            old(self).ready(old(physics)),
        ensures
            old(self).swapped(old(physics), final(self), final(physics)),
            old(physics).wf() ==> final(physics).wf(),
    {
        self.swap(physics);
    }
}

/// Sets the point where a capsule begins.
#[derive(Debug)]
pub struct SetCapsuleBeginCommand {
    handle: Handle,
    value: Vector3,
}

impl View for SetCapsuleBeginCommand {
    type V = PropertyView<Vector3>;

    closed spec fn view(&self) -> PropertyView<Vector3> {
        PropertyView { handle: self.handle, value: self.value }
    }
}

impl SetCapsuleBeginCommand {
    /// The collider is of the kind that has the property.
    pub open spec fn applies_to(collider: Collider) -> bool {
        collider.shape is Capsule
    }

    /// The property of a collider that the command sets.
    pub open spec fn property(collider: Collider) -> Vector3 {
        collider.shape->Capsule_0.begin
    }

    /// The collider with the property set to a value.
    pub open spec fn with_property(collider: Collider, value: Vector3) -> Collider {
        Collider {
            shape: ColliderShape::Capsule(
                Capsule { begin: value, ..collider.shape->Capsule_0 },
            ),
            ..collider
        }
    }

    /// The command can run: its handle names a collider, of the kind that has
    /// the property.
    pub open spec fn ready(&self, physics: &Physics) -> bool {
        &&& physics.colliders_view().is_live(self@.handle)
        &&& Self::applies_to(physics.colliders_view().get(self@.handle))
    }

    /// The command has run: the value of the command and the property of the
    /// collider have changed places, and nothing else is changed.
    pub open spec fn swapped(
        &self,
        physics: &Physics,
        after: &Self,
        physics_after: &Physics,
    ) -> bool {
        &&& after@ == (PropertyView {
            handle: self@.handle,
            value: Self::property(physics.colliders_view().get(self@.handle)),
        })
        &&& physics_after.colliders_view() == physics.colliders_view().set(
            self@.handle,
            Self::with_property(physics.colliders_view().get(self@.handle), self@.value),
        )
        &&& physics_after.same_but_colliders(physics)
    }

    pub fn new(handle: Handle, value: Vector3) -> (command: Self)
        ensures
            command@ == (PropertyView { handle, value }),
    {
        Self { handle, value }
    }

    pub fn name(&self) -> (name: String)
        ensures
            name@ == "Set Capsule Begin"@,
    {
        "Set Capsule Begin".to_owned()
    }

    /// Says whether the command can run.
    pub fn is_ready(&self, physics: &Physics) -> (ready: bool)
        ensures
            ready == self.ready(physics),
    {
        match collider_ref(&physics.colliders, self.handle) {
            Some(collider) => match collider.shape {
                ColliderShape::Capsule(_) => true,
                _ => false,
            },
            None => false,
        }
    }

    fn swap(&mut self, physics: &mut Physics)
        requires
            old(self).ready(old(physics)),
        ensures
            old(self).swapped(old(physics), final(self), final(physics)),
            old(physics).wf() ==> final(physics).wf(),
    {
        proof {
            if physics.wf() {
                lemma_set(
                    physics.colliders_view(),
                    self@.handle,
                    Self::with_property(physics.colliders_view().get(self@.handle), self@.value),
                );
            }
        }
        let collider = collider_mut(&mut physics.colliders, self.handle);
        if let ColliderShape::Capsule(capsule) = &mut collider.shape {
            std::mem::swap(&mut capsule.begin, &mut self.value);
        }
    }

    /// Gives the property the value of the command, which keeps the value that
    /// the property had.
    pub fn execute(&mut self, physics: &mut Physics)
        requires
            old(self).ready(old(physics)),
        ensures
            old(self).swapped(old(physics), final(self), final(physics)),
            old(physics).wf() ==> final(physics).wf(),
    {
        self.swap(physics);
    }

    /// Gives the property back the value that it had, which the command
    /// keeps; the command takes the value that it had given.
    pub fn revert(&mut self, physics: &mut Physics)
        requires
            old(self).ready(old(physics)),
        ensures
            old(self).swapped(old(physics), final(self), final(physics)),
            old(physics).wf() ==> final(physics).wf(),
    {
        self.swap(physics);
    }
}

/// Sets the point where a capsule ends.
#[derive(Debug)]
pub struct SetCapsuleEndCommand {
    handle: Handle,
    value: Vector3,
}

impl View for SetCapsuleEndCommand {
    type V = PropertyView<Vector3>;

    closed spec fn view(&self) -> PropertyView<Vector3> {
        PropertyView { handle: self.handle, value: self.value }
    }
}

impl SetCapsuleEndCommand {
    /// The collider is of the kind that has the property.
    pub open spec fn applies_to(collider: Collider) -> bool {
        collider.shape is Capsule
    }

    /// The property of a collider that the command sets.
    pub open spec fn property(collider: Collider) -> Vector3 {
        collider.shape->Capsule_0.end
    }

    /// The collider with the property set to a value.
    pub open spec fn with_property(collider: Collider, value: Vector3) -> Collider {
        Collider {
            shape: ColliderShape::Capsule(
                Capsule { end: value, ..collider.shape->Capsule_0 },
            ),
            ..collider
        }
    }

    /// The command can run: its handle names a collider, of the kind that has
    /// the property.
    pub open spec fn ready(&self, physics: &Physics) -> bool {
        &&& physics.colliders_view().is_live(self@.handle)
        &&& Self::applies_to(physics.colliders_view().get(self@.handle))
    }

    /// The command has run: the value of the command and the property of the
    /// collider have changed places, and nothing else is changed.
    pub open spec fn swapped(
        &self,
        physics: &Physics,
        after: &Self,
        physics_after: &Physics,
    ) -> bool {
        &&& after@ == (PropertyView {
            handle: self@.handle,
            value: Self::property(physics.colliders_view().get(self@.handle)),
        })
        &&& physics_after.colliders_view() == physics.colliders_view().set(
            self@.handle,
            Self::with_property(physics.colliders_view().get(self@.handle), self@.value),
        )
        &&& physics_after.same_but_colliders(physics)
    }

    pub fn new(handle: Handle, value: Vector3) -> (command: Self)
        ensures
            command@ == (PropertyView { handle, value }),
    {
        Self { handle, value }
    }

    pub fn name(&self) -> (name: String)
        ensures
            name@ == "Set Capsule End"@,
    {
        "Set Capsule End".to_owned()
    }

    /// Says whether the command can run.
    pub fn is_ready(&self, physics: &Physics) -> (ready: bool)
        ensures
            ready == self.ready(physics),
    {
        match collider_ref(&physics.colliders, self.handle) {
            Some(collider) => match collider.shape {
                ColliderShape::Capsule(_) => true,
                _ => false,
            },
            None => false,
        }
    }

    fn swap(&mut self, physics: &mut Physics)
        requires
            old(self).ready(old(physics)),
        ensures
            old(self).swapped(old(physics), final(self), final(physics)),
            old(physics).wf() ==> final(physics).wf(),
    {
        proof {
            if physics.wf() {
                lemma_set(
                    physics.colliders_view(),
                    self@.handle,
                    Self::with_property(physics.colliders_view().get(self@.handle), self@.value),
                );
            }
        }
        let collider = collider_mut(&mut physics.colliders, self.handle);
        if let ColliderShape::Capsule(capsule) = &mut collider.shape {
            std::mem::swap(&mut capsule.end, &mut self.value);
        }
    }

    /// Gives the property the value of the command, which keeps the value that
    /// the property had.
    pub fn execute(&mut self, physics: &mut Physics)
        requires
            old(self).ready(old(physics)),
        ensures
            old(self).swapped(old(physics), final(self), final(physics)),
            old(physics).wf() ==> final(physics).wf(),
    {
        self.swap(physics);
    }

    /// Gives the property back the value that it had, which the command
    /// keeps; the command takes the value that it had given.
    pub fn revert(&mut self, physics: &mut Physics)
        requires
            old(self).ready(old(physics)),
        ensures
            old(self).swapped(old(physics), final(self), final(physics)),
            old(physics).wf() ==> final(physics).wf(),
    {
        self.swap(physics);
    }
}

/// Sets the radius of a ball.
#[derive(Debug)]
pub struct SetBallRadiusCommand {
    handle: Handle,
    value: Scalar,
}

impl View for SetBallRadiusCommand {
    type V = PropertyView<Scalar>;

    closed spec fn view(&self) -> PropertyView<Scalar> {
        PropertyView { handle: self.handle, value: self.value }
    }
}

impl SetBallRadiusCommand {
    /// The collider is of the kind that has the property.
    pub open spec fn applies_to(collider: Collider) -> bool {
        collider.shape is Ball
    }

    /// The property of a collider that the command sets.
    pub open spec fn property(collider: Collider) -> Scalar {
        collider.shape->Ball_0.radius
    }

    /// The collider with the property set to a value.
    pub open spec fn with_property(collider: Collider, value: Scalar) -> Collider {
        Collider {
            shape: ColliderShape::Ball(
                Ball { radius: value, ..collider.shape->Ball_0 },
            ),
            ..collider
        }
    }

    /// The command can run: its handle names a collider, of the kind that has
    /// the property.
    pub open spec fn ready(&self, physics: &Physics) -> bool {
        &&& physics.colliders_view().is_live(self@.handle)
        &&& Self::applies_to(physics.colliders_view().get(self@.handle))
    }

    /// The command has run: the value of the command and the property of the
    /// collider have changed places, and nothing else is changed.
    pub open spec fn swapped(
        &self,
        physics: &Physics,
        after: &Self,
        physics_after: &Physics,
    ) -> bool {
        &&& after@ == (PropertyView {
            handle: self@.handle,
            value: Self::property(physics.colliders_view().get(self@.handle)),
        })
        &&& physics_after.colliders_view() == physics.colliders_view().set(
            self@.handle,
            Self::with_property(physics.colliders_view().get(self@.handle), self@.value),
        )
        &&& physics_after.same_but_colliders(physics)
    }

    pub fn new(handle: Handle, value: Scalar) -> (command: Self)
        ensures
            command@ == (PropertyView { handle, value }),
    {
        Self { handle, value }
    }

    pub fn name(&self) -> (name: String)
        ensures
            name@ == "Set Ball Radius"@,
    {
        "Set Ball Radius".to_owned()
    }

    /// Says whether the command can run.
    pub fn is_ready(&self, physics: &Physics) -> (ready: bool)
        ensures
            ready == self.ready(physics),
    {
        match collider_ref(&physics.colliders, self.handle) {
            Some(collider) => match collider.shape {
                ColliderShape::Ball(_) => true,
                _ => false,
            },
            None => false,
        }
    }

    fn swap(&mut self, physics: &mut Physics)
        requires
            old(self).ready(old(physics)),
        ensures
            old(self).swapped(old(physics), final(self), final(physics)),
            old(physics).wf() ==> final(physics).wf(),
    {
        proof {
            if physics.wf() {
                lemma_set(
                    physics.colliders_view(),
                    self@.handle,
                    Self::with_property(physics.colliders_view().get(self@.handle), self@.value),
                );
            }
        }
        let collider = collider_mut(&mut physics.colliders, self.handle);
        if let ColliderShape::Ball(ball) = &mut collider.shape {
            std::mem::swap(&mut ball.radius, &mut self.value);
        }
    }

    /// Gives the property the value of the command, which keeps the value that
    /// the property had.
    pub fn execute(&mut self, physics: &mut Physics)
        requires
            old(self).ready(old(physics)),
        ensures
            old(self).swapped(old(physics), final(self), final(physics)),
            old(physics).wf() ==> final(physics).wf(),
    {
        self.swap(physics);
    }

    /// Gives the property back the value that it had, which the command
    /// keeps; the command takes the value that it had given.
    pub fn revert(&mut self, physics: &mut Physics)
        requires
            old(self).ready(old(physics)),
        ensures
            old(self).swapped(old(physics), final(self), final(physics)),
            old(physics).wf() ==> final(physics).wf(),
    {
        self.swap(physics);
    }
}

} // verus!
