use crate::commands::PropertyView;
use crate::handle::Handle;
use crate::math::Scalar;
use crate::physics::body::RigidBody;
use crate::physics::Physics;
use crate::pool::bodies::{body_mut, body_ref};
use crate::pool::model::lemma_set;
use vstd::prelude::*;

verus! {

/// Sets the mass of a rigid body.
#[derive(Debug)]
pub struct SetBodyMassCommand {
    handle: Handle,
    value: Scalar,
}

impl View for SetBodyMassCommand {
    type V = PropertyView<Scalar>;

    closed spec fn view(&self) -> PropertyView<Scalar> {
        PropertyView { handle: self.handle, value: self.value }
    }
}

impl SetBodyMassCommand {
    /// The property of a rigid body that the command sets.
    pub open spec fn property(body: RigidBody) -> Scalar {
        body.mass
    }

    /// The body with the property set to a value.
    pub open spec fn with_property(body: RigidBody, value: Scalar) -> RigidBody {
        RigidBody { mass: value, ..body }
    }

    /// The command can run: its handle names a rigid body.
    pub open spec fn ready(&self, physics: &Physics) -> bool {
        physics.bodies_view().is_live(self@.handle)
    }

    /// The command has run: the value of the command and the property of the
    /// body have changed places, and nothing else is changed.
    pub open spec fn swapped(
        &self,
        physics: &Physics,
        after: &Self,
        physics_after: &Physics,
    ) -> bool {
        &&& after@ == (PropertyView {
            handle: self@.handle,
            value: Self::property(physics.bodies_view().get(self@.handle)),
        })
        &&& physics_after.bodies_view() == physics.bodies_view().set(
            self@.handle,
            Self::with_property(physics.bodies_view().get(self@.handle), self@.value),
        )
        &&& physics_after.same_but_bodies(physics)
    }

    pub fn new(handle: Handle, value: Scalar) -> (command: Self)
        ensures
            command@ == (PropertyView { handle, value }),
    {
        Self { handle, value }
    }

    pub fn name(&self) -> (name: String)
        ensures
            name@ == "Set Body Mass"@,
    {
        "Set Body Mass".to_owned()
    }

    /// Says whether the command can run.
    pub fn is_ready(&self, physics: &Physics) -> (ready: bool)
        ensures
            ready == self.ready(physics),
    {
        body_ref(&physics.bodies, self.handle).is_some()
    }

    fn swap(&mut self, physics: &mut Physics)
        requires
            old(self).ready(old(physics)),
        ensures
            old(self).swapped(old(physics), final(self), final(physics)),
            old(physics).wf() ==> final(physics).wf(),
    {
        proof {
            if physics.wf() {
                lemma_set(
                    physics.bodies_view(),
                    self@.handle,
                    Self::with_property(physics.bodies_view().get(self@.handle), self@.value),
                );
            }
        }
        let body = body_mut(&mut physics.bodies, self.handle);
        std::mem::swap(&mut body.mass, &mut self.value);
    }

    /// Gives the property the value of the command, which keeps the value that
    /// the property had.
    pub fn execute(&mut self, physics: &mut Physics)
        requires
            old(self).ready(old(physics)),
        ensures
            old(self).swapped(old(physics), final(self), final(physics)),
            old(physics).wf() ==> final(physics).wf(),
    {
        self.swap(physics);
    }

    /// Gives the property back the value that it had, which the command
    /// keeps; the command takes the value that it had given.
    pub fn revert(&mut self, physics: &mut Physics)
        requires
            old(self).ready(old(physics)),
        ensures
            old(self).swapped(old(physics), final(self), final(physics)),
            old(physics).wf() ==> final(physics).wf(),
    {
        self.swap(physics);
    }
}

} // verus!
