use crate::commands::PropertyView;
use crate::handle::Handle;
use crate::math::{Quaternion, Vector3};
use crate::physics::joint::{
    BallJoint, FixedJoint, Joint, JointParams, PrismaticJoint, RevoluteJoint,
};
use crate::physics::Physics;
use crate::pool::joints::{joint_mut, joint_ref};
use crate::pool::model::lemma_set;
use vstd::prelude::*;

verus! {

/// Sets the anchor of a ball joint on its first body.
#[derive(Debug)]
pub struct SetBallJointAnchor1Command {
    handle: Handle,
    value: Vector3,
}

impl View for SetBallJointAnchor1Command {
    type V = PropertyView<Vector3>;

    closed spec fn view(&self) -> PropertyView<Vector3> {
        PropertyView { handle: self.handle, value: self.value }
    }
}

impl SetBallJointAnchor1Command {
    /// The joint is of the kind that has the property.
    pub open spec fn applies_to(joint: Joint) -> bool {
        joint.params is BallJoint
    }

    /// The property of a joint that the command sets.
    pub open spec fn property(joint: Joint) -> Vector3 {
        joint.params->BallJoint_0.local_anchor1
    }

    /// The joint with the property set to a value.
    pub open spec fn with_property(joint: Joint, value: Vector3) -> Joint {
        Joint {
            params: JointParams::BallJoint(
                BallJoint { local_anchor1: value, ..joint.params->BallJoint_0 },
            ),
            ..joint
        }
    }

    /// The command can run: its handle names a joint, of the kind that has
    /// the property.
    pub open spec fn ready(&self, physics: &Physics) -> bool {
        &&& physics.joints_view().is_live(self@.handle)
        &&& Self::applies_to(physics.joints_view().get(self@.handle))
    }

    /// The command has run: the value of the command and the property of the
    /// joint have changed places, and nothing else is changed.
    pub open spec fn swapped(
        &self,
        physics: &Physics,
        after: &Self,
        physics_after: &Physics,
    ) -> bool {
        &&& after@ == (PropertyView {
            handle: self@.handle,
            value: Self::property(physics.joints_view().get(self@.handle)),
        })
        &&& physics_after.joints_view() == physics.joints_view().set(
            self@.handle,
            Self::with_property(physics.joints_view().get(self@.handle), self@.value),
        )
        &&& physics_after.same_but_joints(physics)
    }

    pub fn new(handle: Handle, value: Vector3) -> (command: Self)
        ensures
            command@ == (PropertyView { handle, value }),
    {
        Self { handle, value }
    }

    pub fn name(&self) -> (name: String)
        ensures
            name@ == "Set Ball Joint Anchor 1"@,
    {
        "Set Ball Joint Anchor 1".to_owned()
    }

    /// Says whether the command can run.
    pub fn is_ready(&self, physics: &Physics) -> (ready: bool)
        ensures
            ready == self.ready(physics),
    {
        match joint_ref(&physics.joints, self.handle) {
            Some(joint) => match joint.params {
                JointParams::BallJoint(_) => true,
                _ => false,
            },
            None => false,
        }
    }

    fn swap(&mut self, physics: &mut Physics)
        requires
            old(self).ready(old(physics)),
        ensures
            old(self).swapped(old(physics), final(self), final(physics)),
            old(physics).wf() ==> final(physics).wf(),
    {
        proof {
            if physics.wf() {
                lemma_set(
                    physics.joints_view(),
                    self@.handle,
                    Self::with_property(physics.joints_view().get(self@.handle), self@.value),
                );
            }
        }
        let joint = joint_mut(&mut physics.joints, self.handle);
        if let JointParams::BallJoint(ball_joint) = &mut joint.params {
            std::mem::swap(&mut ball_joint.local_anchor1, &mut self.value);
        }
    }

    /// Gives the property the value of the command, which keeps the value that
    /// the property had.
    pub fn execute(&mut self, physics: &mut Physics)
        requires
            old(self).ready(old(physics)),
        ensures
            old(self).swapped(old(physics), final(self), final(physics)),
            old(physics).wf() ==> final(physics).wf(),
    {
        self.swap(physics);
    }

    /// Gives the property back the value that it had, which the command
    /// keeps; the command takes the value that it had given.
    pub fn revert(&mut self, physics: &mut Physics)
        requires
            old(self).ready(old(physics)),
        ensures
            old(self).swapped(old(physics), final(self), final(physics)),
            old(physics).wf() ==> final(physics).wf(),
    {
        self.swap(physics);
    }
}

/// Sets the anchor of a ball joint on its second body.
#[derive(Debug)]
pub struct SetBallJointAnchor2Command {
    handle: Handle,
    value: Vector3,
}

impl View for SetBallJointAnchor2Command {
    type V = PropertyView<Vector3>;

    closed spec fn view(&self) -> PropertyView<Vector3> {
        PropertyView { handle: self.handle, value: self.value }
    }
}

impl SetBallJointAnchor2Command {
    /// The joint is of the kind that has the property.
    pub open spec fn applies_to(joint: Joint) -> bool {
        joint.params is BallJoint
    }

    /// The property of a joint that the command sets.
    pub open spec fn property(joint: Joint) -> Vector3 {
        joint.params->BallJoint_0.local_anchor2
    }

    /// The joint with the property set to a value.
    pub open spec fn with_property(joint: Joint, value: Vector3) -> Joint {
        Joint {
            params: JointParams::BallJoint(
                BallJoint { local_anchor2: value, ..joint.params->BallJoint_0 },
            ),
            ..joint
        }
    }

    /// The command can run: its handle names a joint, of the kind that has
    /// the property.
    pub open spec fn ready(&self, physics: &Physics) -> bool {
        &&& physics.joints_view().is_live(self@.handle)
        &&& Self::applies_to(physics.joints_view().get(self@.handle))
    }

    /// The command has run: the value of the command and the property of the
    /// joint have changed places, and nothing else is changed.
    pub open spec fn swapped(
        &self,
        physics: &Physics,
        after: &Self,
        physics_after: &Physics,
    ) -> bool {
        &&& after@ == (PropertyView {
            handle: self@.handle,
            value: Self::property(physics.joints_view().get(self@.handle)),
        })
        &&& physics_after.joints_view() == physics.joints_view().set(
            self@.handle,
            Self::with_property(physics.joints_view().get(self@.handle), self@.value),
        )
        &&& physics_after.same_but_joints(physics)
    }

    pub fn new(handle: Handle, value: Vector3) -> (command: Self)
        ensures
            command@ == (PropertyView { handle, value }),
    {
        Self { handle, value }
    }

    pub fn name(&self) -> (name: String)
        ensures
            name@ == "Set Ball Joint Anchor 2"@,
    {
        "Set Ball Joint Anchor 2".to_owned()
    }

    /// Says whether the command can run.
    pub fn is_ready(&self, physics: &Physics) -> (ready: bool)
        ensures
            ready == self.ready(physics),
    {
        match joint_ref(&physics.joints, self.handle) {
            Some(joint) => match joint.params {
                JointParams::BallJoint(_) => true,
                _ => false,
            },
            None => false,
        }
    }

    fn swap(&mut self, physics: &mut Physics)
        requires
            old(self).ready(old(physics)),
        ensures
            old(self).swapped(old(physics), final(self), final(physics)),
            old(physics).wf() ==> final(physics).wf(),
    {
        proof {
            if physics.wf() {
                lemma_set(
                    physics.joints_view(),
                    self@.handle,
                    Self::with_property(physics.joints_view().get(self@.handle), self@.value),
                );
            }
        }
        let joint = joint_mut(&mut physics.joints, self.handle);
        if let JointParams::BallJoint(ball_joint) = &mut joint.params {
            std::mem::swap(&mut ball_joint.local_anchor2, &mut self.value);
        }
    }

    /// Gives the property the value of the command, which keeps the value that
    /// the property had.
    pub fn execute(&mut self, physics: &mut Physics)
        requires
            old(self).ready(old(physics)),
        ensures
            old(self).swapped(old(physics), final(self), final(physics)),
            old(physics).wf() ==> final(physics).wf(),
    {
        self.swap(physics);
    }

    /// Gives the property back the value that it had, which the command
    /// keeps; the command takes the value that it had given.
    pub fn revert(&mut self, physics: &mut Physics)
        requires
            old(self).ready(old(physics)),
        ensures
            old(self).swapped(old(physics), final(self), final(physics)),
            old(physics).wf() ==> final(physics).wf(),
    {
        self.swap(physics);
    }
}

/// Sets the position of the anchor of a fixed joint on its first body.
#[derive(Debug)]
pub struct SetFixedJointAnchor1TranslationCommand {
    handle: Handle,
    value: Vector3,
}

impl View for SetFixedJointAnchor1TranslationCommand {
    type V = PropertyView<Vector3>;

    closed spec fn view(&self) -> PropertyView<Vector3> {
        PropertyView { handle: self.handle, value: self.value }
    }
}

impl SetFixedJointAnchor1TranslationCommand {
    /// The joint is of the kind that has the property.
    pub open spec fn applies_to(joint: Joint) -> bool {
        joint.params is FixedJoint
    }

    /// The property of a joint that the command sets.
    pub open spec fn property(joint: Joint) -> Vector3 {
        joint.params->FixedJoint_0.local_anchor1_translation
    }

    /// The joint with the property set to a value.
    pub open spec fn with_property(joint: Joint, value: Vector3) -> Joint {
        Joint {
            params: JointParams::FixedJoint(
                FixedJoint { local_anchor1_translation: value, ..joint.params->FixedJoint_0 },
            ),
            ..joint
        }
    }

    /// The command can run: its handle names a joint, of the kind that has
    /// the property.
    pub open spec fn ready(&self, physics: &Physics) -> bool {
        &&& physics.joints_view().is_live(self@.handle)
        &&& Self::applies_to(physics.joints_view().get(self@.handle))
    }

    /// The command has run: the value of the command and the property of the
    /// joint have changed places, and nothing else is changed.
    pub open spec fn swapped(
        &self,
        physics: &Physics,
        after: &Self,
        physics_after: &Physics,
    ) -> bool {
        &&& after@ == (PropertyView {
            handle: self@.handle,
            value: Self::property(physics.joints_view().get(self@.handle)),
        })
        &&& physics_after.joints_view() == physics.joints_view().set(
            self@.handle,
            Self::with_property(physics.joints_view().get(self@.handle), self@.value),
        )
        &&& physics_after.same_but_joints(physics)
    }

    pub fn new(handle: Handle, value: Vector3) -> (command: Self)
        ensures
            command@ == (PropertyView { handle, value }),
    {
        Self { handle, value }
    }

    pub fn name(&self) -> (name: String)
        ensures
            name@ == "Set Fixed Joint Anchor 1 Translation"@,
    {
        "Set Fixed Joint Anchor 1 Translation".to_owned()
    }

    /// Says whether the command can run.
    pub fn is_ready(&self, physics: &Physics) -> (ready: bool)
        ensures
            ready == self.ready(physics),
    {
        match joint_ref(&physics.joints, self.handle) {
            Some(joint) => match joint.params {
                JointParams::FixedJoint(_) => true,
                _ => false,
            },
            None => false,
        }
    }

    fn swap(&mut self, physics: &mut Physics)
        requires
            old(self).ready(old(physics)),
        ensures
            old(self).swapped(old(physics), final(self), final(physics)),
            old(physics).wf() ==> final(physics).wf(),
    {
        proof {
            if physics.wf() {
                lemma_set(
                    physics.joints_view(),
                    self@.handle,
                    Self::with_property(physics.joints_view().get(self@.handle), self@.value),
                );
            }
        }
        let joint = joint_mut(&mut physics.joints, self.handle);
        if let JointParams::FixedJoint(fixed_joint) = &mut joint.params {
            std::mem::swap(&mut fixed_joint.local_anchor1_translation, &mut self.value);
        }
    }

    /// Gives the property the value of the command, which keeps the value that
    /// the property had.
    pub fn execute(&mut self, physics: &mut Physics)
        requires
            old(self).ready(old(physics)),
        ensures
            old(self).swapped(old(physics), final(self), final(physics)),
            old(physics).wf() ==> final(physics).wf(),
    {
        self.swap(physics);
    }

    /// Gives the property back the value that it had, which the command
    /// keeps; the command takes the value that it had given.
    pub fn revert(&mut self, physics: &mut Physics)
        requires
            old(self).ready(old(physics)),
        ensures
            old(self).swapped(old(physics), final(self), final(physics)),
            old(physics).wf() ==> final(physics).wf(),
    {
        self.swap(physics);
    }
}

/// Sets the position of the anchor of a fixed joint on its second body.
#[derive(Debug)]
pub struct SetFixedJointAnchor2TranslationCommand {
    handle: Handle,
    value: Vector3,
}

impl View for SetFixedJointAnchor2TranslationCommand {
    type V = PropertyView<Vector3>;

    closed spec fn view(&self) -> PropertyView<Vector3> {
        PropertyView { handle: self.handle, value: self.value }
    }
}

impl SetFixedJointAnchor2TranslationCommand {
    /// The joint is of the kind that has the property.
    pub open spec fn applies_to(joint: Joint) -> bool {
        joint.params is FixedJoint
    }

    /// The property of a joint that the command sets.
    pub open spec fn property(joint: Joint) -> Vector3 {
        joint.params->FixedJoint_0.local_anchor2_translation
    }

    /// The joint with the property set to a value.
    pub open spec fn with_property(joint: Joint, value: Vector3) -> Joint {
        Joint {
            params: JointParams::FixedJoint(
                FixedJoint { local_anchor2_translation: value, ..joint.params->FixedJoint_0 },
            ),
            ..joint
        }
    }

    /// The command can run: its handle names a joint, of the kind that has
    /// the property.
    pub open spec fn ready(&self, physics: &Physics) -> bool {
        &&& physics.joints_view().is_live(self@.handle)
        &&& Self::applies_to(physics.joints_view().get(self@.handle))
    }

    /// The command has run: the value of the command and the property of the
    /// joint have changed places, and nothing else is changed.
    pub open spec fn swapped(
        &self,
        physics: &Physics,
        after: &Self,
        physics_after: &Physics,
    ) -> bool {
        &&& after@ == (PropertyView {
            handle: self@.handle,
            value: Self::property(physics.joints_view().get(self@.handle)),
        })
        &&& physics_after.joints_view() == physics.joints_view().set(
            self@.handle,
            Self::with_property(physics.joints_view().get(self@.handle), self@.value),
        )
        &&& physics_after.same_but_joints(physics)
    }

    pub fn new(handle: Handle, value: Vector3) -> (command: Self)
        ensures
            command@ == (PropertyView { handle, value }),
    {
        Self { handle, value }
    }

    pub fn name(&self) -> (name: String)
        ensures
            name@ == "Set Fixed Joint Anchor 2 Translation"@,
    {
        "Set Fixed Joint Anchor 2 Translation".to_owned()
    }

    /// Says whether the command can run.
    pub fn is_ready(&self, physics: &Physics) -> (ready: bool)
        ensures
            ready == self.ready(physics),
    {
        match joint_ref(&physics.joints, self.handle) {
            Some(joint) => match joint.params {
                JointParams::FixedJoint(_) => true,
                _ => false,
            },
            None => false,
        }
    }

    fn swap(&mut self, physics: &mut Physics)
        requires
            old(self).ready(old(physics)),
        ensures
            old(self).swapped(old(physics), final(self), final(physics)),
            old(physics).wf() ==> final(physics).wf(),
    {
        proof {
            if physics.wf() {
                lemma_set(
                    physics.joints_view(),
                    self@.handle,
                    Self::with_property(physics.joints_view().get(self@.handle), self@.value),
                );
            }
        }
        let joint = joint_mut(&mut physics.joints, self.handle);
        if let JointParams::FixedJoint(fixed_joint) = &mut joint.params {
            std::mem::swap(&mut fixed_joint.local_anchor2_translation, &mut self.value);
        }
    }

    /// Gives the property the value of the command, which keeps the value that
    /// the property had.
    pub fn execute(&mut self, physics: &mut Physics)
        requires
            old(self).ready(old(physics)),
        ensures
            old(self).swapped(old(physics), final(self), final(physics)),
            old(physics).wf() ==> final(physics).wf(),
    {
        self.swap(physics);
    }

    /// Gives the property back the value that it had, which the command
    /// keeps; the command takes the value that it had given.
    pub fn revert(&mut self, physics: &mut Physics)
        requires
            old(self).ready(old(physics)),
        ensures
            old(self).swapped(old(physics), final(self), final(physics)),
            old(physics).wf() ==> final(physics).wf(),
    {
        self.swap(physics);
    }
}

/// Sets the rotation of the anchor of a fixed joint on its first body.
#[derive(Debug)]
pub struct SetFixedJointAnchor1RotationCommand {
    handle: Handle,
    value: Quaternion,
}

impl View for SetFixedJointAnchor1RotationCommand {
    type V = PropertyView<Quaternion>;

    closed spec fn view(&self) -> PropertyView<Quaternion> {
        PropertyView { handle: self.handle, value: self.value }
    }
}

impl SetFixedJointAnchor1RotationCommand {
    /// The joint is of the kind that has the property.
    pub open spec fn applies_to(joint: Joint) -> bool {
        joint.params is FixedJoint
    }

    /// The property of a joint that the command sets.
    pub open spec fn property(joint: Joint) -> Quaternion {
        joint.params->FixedJoint_0.local_anchor1_rotation
    }

    /// The joint with the property set to a value.
    pub open spec fn with_property(joint: Joint, value: Quaternion) -> Joint {
        Joint {
            params: JointParams::FixedJoint(
                FixedJoint { local_anchor1_rotation: value, ..joint.params->FixedJoint_0 },
            ),
            ..joint
        }
    }

    /// The command can run: its handle names a joint, of the kind that has
    /// the property.
    pub open spec fn ready(&self, physics: &Physics) -> bool {
        &&& physics.joints_view().is_live(self@.handle)
        &&& Self::applies_to(physics.joints_view().get(self@.handle))
    }

    /// The command has run: the value of the command and the property of the
    /// joint have changed places, and nothing else is changed.
    pub open spec fn swapped(
        &self,
        physics: &Physics,
        after: &Self,
        physics_after: &Physics,
    ) -> bool {
        &&& after@ == (PropertyView {
            handle: self@.handle,
            value: Self::property(physics.joints_view().get(self@.handle)),
        })
        &&& physics_after.joints_view() == physics.joints_view().set(
            self@.handle,
            Self::with_property(physics.joints_view().get(self@.handle), self@.value),
        )
        &&& physics_after.same_but_joints(physics)
    }

    pub fn new(handle: Handle, value: Quaternion) -> (command: Self)
        ensures
            command@ == (PropertyView { handle, value }),
    {
        Self { handle, value }
    }

    pub fn name(&self) -> (name: String)
        ensures
            name@ == "Set Fixed Joint Anchor 1 Rotation"@,
    {
        "Set Fixed Joint Anchor 1 Rotation".to_owned()
    }

    /// Says whether the command can run.
    pub fn is_ready(&self, physics: &Physics) -> (ready: bool)
        ensures
            ready == self.ready(physics),
    {
        match joint_ref(&physics.joints, self.handle) {
            Some(joint) => match joint.params {
                JointParams::FixedJoint(_) => true,
                _ => false,
            },
            None => false,
        }
    }

    fn swap(&mut self, physics: &mut Physics)
        requires
            old(self).ready(old(physics)),
        ensures
            old(self).swapped(old(physics), final(self), final(physics)),
            old(physics).wf() ==> final(physics).wf(),
    {
        proof {
            if physics.wf() {
                lemma_set(
                    physics.joints_view(),
                    self@.handle,
                    Self::with_property(physics.joints_view().get(self@.handle), self@.value),
                );
            }
        }
        let joint = joint_mut(&mut physics.joints, self.handle);
        if let JointParams::FixedJoint(fixed_joint) = &mut joint.params {
            std::mem::swap(&mut fixed_joint.local_anchor1_rotation, &mut self.value);
        }
    }

    /// Gives the property the value of the command, which keeps the value that
    /// the property had.
    pub fn execute(&mut self, physics: &mut Physics)
        requires
            old(self).ready(old(physics)),
        ensures
            old(self).swapped(old(physics), final(self), final(physics)),
            old(physics).wf() ==> final(physics).wf(),
    {
        self.swap(physics);
    }

    /// Gives the property back the value that it had, which the command
    /// keeps; the command takes the value that it had given.
    pub fn revert(&mut self, physics: &mut Physics)
        requires
            old(self).ready(old(physics)),
        ensures
            old(self).swapped(old(physics), final(self), final(physics)),
            old(physics).wf() ==> final(physics).wf(),
    {
        self.swap(physics);
    }
}

/// Sets the rotation of the anchor of a fixed joint on its second body.
#[derive(Debug)]
pub struct SetFixedJointAnchor2RotationCommand {
    handle: Handle,
    value: Quaternion,
}

impl View for SetFixedJointAnchor2RotationCommand {
    type V = PropertyView<Quaternion>;

    closed spec fn view(&self) -> PropertyView<Quaternion> {
        PropertyView { handle: self.handle, value: self.value }
    }
}

impl SetFixedJointAnchor2RotationCommand {
    /// The joint is of the kind that has the property.
    pub open spec fn applies_to(joint: Joint) -> bool {
        joint.params is FixedJoint
    }

    /// The property of a joint that the command sets.
    pub open spec fn property(joint: Joint) -> Quaternion {
        joint.params->FixedJoint_0.local_anchor2_rotation
    }

    /// The joint with the property set to a value.
    pub open spec fn with_property(joint: Joint, value: Quaternion) -> Joint {
        Joint {
            params: JointParams::FixedJoint(
                FixedJoint { local_anchor2_rotation: value, ..joint.params->FixedJoint_0 },
            ),
            ..joint
        }
    }

    /// The command can run: its handle names a joint, of the kind that has
    /// the property.
    pub open spec fn ready(&self, physics: &Physics) -> bool {
        &&& physics.joints_view().is_live(self@.handle)
        &&& Self::applies_to(physics.joints_view().get(self@.handle))
    }

    /// The command has run: the value of the command and the property of the
    /// joint have changed places, and nothing else is changed.
    pub open spec fn swapped(
        &self,
        physics: &Physics,
        after: &Self,
        physics_after: &Physics,
    ) -> bool {
        &&& after@ == (PropertyView {
            handle: self@.handle,
            value: Self::property(physics.joints_view().get(self@.handle)),
        })
        &&& physics_after.joints_view() == physics.joints_view().set(
            self@.handle,
            Self::with_property(physics.joints_view().get(self@.handle), self@.value),
        )
        &&& physics_after.same_but_joints(physics)
    }

    pub fn new(handle: Handle, value: Quaternion) -> (command: Self)
        ensures
            command@ == (PropertyView { handle, value }),
    {
        Self { handle, value }
    }

    pub fn name(&self) -> (name: String)
        ensures
            name@ == "Set Fixed Joint Anchor 2 Rotation"@,
    {
        "Set Fixed Joint Anchor 2 Rotation".to_owned()
    }

    /// Says whether the command can run.
    pub fn is_ready(&self, physics: &Physics) -> (ready: bool)
        ensures
            ready == self.ready(physics),
    {
        match joint_ref(&physics.joints, self.handle) {
            Some(joint) => match joint.params {
                JointParams::FixedJoint(_) => true,
                _ => false,
            },
            None => false,
        }
    }

    fn swap(&mut self, physics: &mut Physics)
        requires
            old(self).ready(old(physics)),
        ensures
            old(self).swapped(old(physics), final(self), final(physics)),
            old(physics).wf() ==> final(physics).wf(),
    {
        proof {
            if physics.wf() {
                lemma_set(
                    physics.joints_view(),
                    self@.handle,
                    Self::with_property(physics.joints_view().get(self@.handle), self@.value),
                );
            }
        }
        let joint = joint_mut(&mut physics.joints, self.handle);
        if let JointParams::FixedJoint(fixed_joint) = &mut joint.params {
            std::mem::swap(&mut fixed_joint.local_anchor2_rotation, &mut self.value);
        }
    }

    /// Gives the property the value of the command, which keeps the value that
    /// the property had.
    pub fn execute(&mut self, physics: &mut Physics)
        requires
            old(self).ready(old(physics)),
        ensures
            old(self).swapped(old(physics), final(self), final(physics)),
            old(physics).wf() ==> final(physics).wf(),
    {
        self.swap(physics);
    }

    /// Gives the property back the value that it had, which the command
    /// keeps; the command takes the value that it had given.
    pub fn revert(&mut self, physics: &mut Physics)
        requires
            old(self).ready(old(physics)),
        ensures
            old(self).swapped(old(physics), final(self), final(physics)),
            old(physics).wf() ==> final(physics).wf(),
    {
        self.swap(physics);
    }
}

/// Sets the anchor of a revolute joint on its first body.
#[derive(Debug)]
pub struct SetRevoluteJointAnchor1Command {
    handle: Handle,
    value: Vector3,
}

impl View for SetRevoluteJointAnchor1Command {
    type V = PropertyView<Vector3>;

    closed spec fn view(&self) -> PropertyView<Vector3> {
        PropertyView { handle: self.handle, value: self.value }
    }
}

impl SetRevoluteJointAnchor1Command {
    /// The joint is of the kind that has the property.
    pub open spec fn applies_to(joint: Joint) -> bool {
        joint.params is RevoluteJoint
    }

    /// The property of a joint that the command sets.
    pub open spec fn property(joint: Joint) -> Vector3 {
        joint.params->RevoluteJoint_0.local_anchor1
    }

    /// The joint with the property set to a value.
    pub open spec fn with_property(joint: Joint, value: Vector3) -> Joint {
        Joint {
            params: JointParams::RevoluteJoint(
                RevoluteJoint { local_anchor1: value, ..joint.params->RevoluteJoint_0 },
            ),
            ..joint
        }
    }

    /// The command can run: its handle names a joint, of the kind that has
    /// the property.
    pub open spec fn ready(&self, physics: &Physics) -> bool {
        &&& physics.joints_view().is_live(self@.handle)
        &&& Self::applies_to(physics.joints_view().get(self@.handle))
    }

    /// The command has run: the value of the command and the property of the
    /// joint have changed places, and nothing else is changed.
    pub open spec fn swapped(
        &self,
        physics: &Physics,
        after: &Self,
        physics_after: &Physics,
    ) -> bool {
        &&& after@ == (PropertyView {
            handle: self@.handle,
            value: Self::property(physics.joints_view().get(self@.handle)),
        })
        &&& physics_after.joints_view() == physics.joints_view().set(
            self@.handle,
            Self::with_property(physics.joints_view().get(self@.handle), self@.value),
        )
        &&& physics_after.same_but_joints(physics)
    }

    pub fn new(handle: Handle, value: Vector3) -> (command: Self)
        ensures
            command@ == (PropertyView { handle, value }),
    {
        Self { handle, value }
    }

    pub fn name(&self) -> (name: String)
        ensures
            name@ == "Set Revolute Joint Anchor 1"@,
    {
        "Set Revolute Joint Anchor 1".to_owned()
    }

    /// Says whether the command can run.
    pub fn is_ready(&self, physics: &Physics) -> (ready: bool)
        ensures
            ready == self.ready(physics),
    {
        match joint_ref(&physics.joints, self.handle) {
            Some(joint) => match joint.params {
                JointParams::RevoluteJoint(_) => true,
                _ => false,
            },
            None => false,
        }
    }

    fn swap(&mut self, physics: &mut Physics)
        requires
            old(self).ready(old(physics)),
        ensures
            old(self).swapped(old(physics), final(self), final(physics)),
            old(physics).wf() ==> final(physics).wf(),
    {
        proof {
            if physics.wf() {
                lemma_set(
                    physics.joints_view(),
                    self@.handle,
                    Self::with_property(physics.joints_view().get(self@.handle), self@.value),
                );
            }
        }
        let joint = joint_mut(&mut physics.joints, self.handle);
        if let JointParams::RevoluteJoint(revolute_joint) = &mut joint.params {
            std::mem::swap(&mut revolute_joint.local_anchor1, &mut self.value);
        }
    }

    /// Gives the property the value of the command, which keeps the value that
    /// the property had.
    pub fn execute(&mut self, physics: &mut Physics)
        requires
            old(self).ready(old(physics)),
        ensures
            old(self).swapped(old(physics), final(self), final(physics)),
            old(physics).wf() ==> final(physics).wf(),
    {
        self.swap(physics);
    }

    /// Gives the property back the value that it had, which the command
    /// keeps; the command takes the value that it had given.
    pub fn revert(&mut self, physics: &mut Physics)
        requires
            old(self).ready(old(physics)),
        ensures
            old(self).swapped(old(physics), final(self), final(physics)),
            old(physics).wf() ==> final(physics).wf(),
    {
        self.swap(physics);
    }
}

/// Sets the axis of a revolute joint on its first body.
#[derive(Debug)]
pub struct SetRevoluteJointAxis1Command {
    handle: Handle,
    value: Vector3,
}

impl View for SetRevoluteJointAxis1Command {
    type V = PropertyView<Vector3>;

    closed spec fn view(&self) -> PropertyView<Vector3> {
        PropertyView { handle: self.handle, value: self.value }
    }
}

impl SetRevoluteJointAxis1Command {
    /// The joint is of the kind that has the property.
    pub open spec fn applies_to(joint: Joint) -> bool {
        joint.params is RevoluteJoint
    }

    /// The property of a joint that the command sets.
    pub open spec fn property(joint: Joint) -> Vector3 {
        joint.params->RevoluteJoint_0.local_axis1
    }

    /// The joint with the property set to a value.
    pub open spec fn with_property(joint: Joint, value: Vector3) -> Joint {
        Joint {
            params: JointParams::RevoluteJoint(
                RevoluteJoint { local_axis1: value, ..joint.params->RevoluteJoint_0 },
            ),
            ..joint
        }
    }

    /// The command can run: its handle names a joint, of the kind that has
    /// the property.
    pub open spec fn ready(&self, physics: &Physics) -> bool {
        &&& physics.joints_view().is_live(self@.handle)
        &&& Self::applies_to(physics.joints_view().get(self@.handle))
    }

    /// The command has run: the value of the command and the property of the
    /// joint have changed places, and nothing else is changed.
    pub open spec fn swapped(
        &self,
        physics: &Physics,
        after: &Self,
        physics_after: &Physics,
    ) -> bool {
        &&& after@ == (PropertyView {
            handle: self@.handle,
            value: Self::property(physics.joints_view().get(self@.handle)),
        })
        &&& physics_after.joints_view() == physics.joints_view().set(
            self@.handle,
            Self::with_property(physics.joints_view().get(self@.handle), self@.value),
        )
        &&& physics_after.same_but_joints(physics)
    }

    pub fn new(handle: Handle, value: Vector3) -> (command: Self)
        ensures
            command@ == (PropertyView { handle, value }),
    {
        Self { handle, value }
    }

    pub fn name(&self) -> (name: String)
        ensures
            name@ == "Set Revolute Joint Axis 1"@,
    {
        "Set Revolute Joint Axis 1".to_owned()
    }

    /// Says whether the command can run.
    pub fn is_ready(&self, physics: &Physics) -> (ready: bool)
        ensures
            ready == self.ready(physics),
    {
        match joint_ref(&physics.joints, self.handle) {
            Some(joint) => match joint.params {
                JointParams::RevoluteJoint(_) => true,
                _ => false,
            },
            None => false,
        }
    }

    fn swap(&mut self, physics: &mut Physics)
        requires
            old(self).ready(old(physics)),
        ensures
            old(self).swapped(old(physics), final(self), final(physics)),
            old(physics).wf() ==> final(physics).wf(),
    {
        proof {
            if physics.wf() {
                lemma_set(
                    physics.joints_view(),
                    self@.handle,
                    Self::with_property(physics.joints_view().get(self@.handle), self@.value),
                );
            }
        }
        let joint = joint_mut(&mut physics.joints, self.handle);
        if let JointParams::RevoluteJoint(revolute_joint) = &mut joint.params {
            std::mem::swap(&mut revolute_joint.local_axis1, &mut self.value);
        }
    }

    /// Gives the property the value of the command, which keeps the value that
    /// the property had.
    pub fn execute(&mut self, physics: &mut Physics)
        requires
            old(self).ready(old(physics)),
        ensures
            old(self).swapped(old(physics), final(self), final(physics)),
            old(physics).wf() ==> final(physics).wf(),
    {
        self.swap(physics);
    }

    /// Gives the property back the value that it had, which the command
    /// keeps; the command takes the value that it had given.
    pub fn revert(&mut self, physics: &mut Physics)
        requires
            old(self).ready(old(physics)),
        ensures
            old(self).swapped(old(physics), final(self), final(physics)),
            old(physics).wf() ==> final(physics).wf(),
    {
        self.swap(physics);
    }
}

/// Sets the anchor of a revolute joint on its second body.
#[derive(Debug)]
pub struct SetRevoluteJointAnchor2Command {
    handle: Handle,
    value: Vector3,
}

impl View for SetRevoluteJointAnchor2Command {
    type V = PropertyView<Vector3>;

    closed spec fn view(&self) -> PropertyView<Vector3> {
        PropertyView { handle: self.handle, value: self.value }
    }
}

impl SetRevoluteJointAnchor2Command {
    /// The joint is of the kind that has the property.
    pub open spec fn applies_to(joint: Joint) -> bool {
        joint.params is RevoluteJoint
    }

    /// The property of a joint that the command sets.
    pub open spec fn property(joint: Joint) -> Vector3 {
        joint.params->RevoluteJoint_0.local_anchor2
    }

    /// The joint with the property set to a value.
    pub open spec fn with_property(joint: Joint, value: Vector3) -> Joint {
        Joint {
            params: JointParams::RevoluteJoint(
                RevoluteJoint { local_anchor2: value, ..joint.params->RevoluteJoint_0 },
            ),
            ..joint
        }
    }

    /// The command can run: its handle names a joint, of the kind that has
    /// the property.
    pub open spec fn ready(&self, physics: &Physics) -> bool {
        &&& physics.joints_view().is_live(self@.handle)
        &&& Self::applies_to(physics.joints_view().get(self@.handle))
    }

    /// The command has run: the value of the command and the property of the
    /// joint have changed places, and nothing else is changed.
    pub open spec fn swapped(
        &self,
        physics: &Physics,
        after: &Self,
        physics_after: &Physics,
    ) -> bool {
        &&& after@ == (PropertyView {
            handle: self@.handle,
            value: Self::property(physics.joints_view().get(self@.handle)),
        })
        &&& physics_after.joints_view() == physics.joints_view().set(
            self@.handle,
            Self::with_property(physics.joints_view().get(self@.handle), self@.value),
        )
        &&& physics_after.same_but_joints(physics)
    }

    pub fn new(handle: Handle, value: Vector3) -> (command: Self)
        ensures
            command@ == (PropertyView { handle, value }),
    {
        Self { handle, value }
    }

    pub fn name(&self) -> (name: String)
        ensures
            name@ == "Set Revolute Joint Anchor 2"@,
    {
        "Set Revolute Joint Anchor 2".to_owned()
    }

    /// Says whether the command can run.
    pub fn is_ready(&self, physics: &Physics) -> (ready: bool)
        ensures
            ready == self.ready(physics),
    {
        match joint_ref(&physics.joints, self.handle) {
            Some(joint) => match joint.params {
                JointParams::RevoluteJoint(_) => true,
                _ => false,
            },
            None => false,
        }
    }

    fn swap(&mut self, physics: &mut Physics)
        requires
            old(self).ready(old(physics)),
        ensures
            old(self).swapped(old(physics), final(self), final(physics)),
            old(physics).wf() ==> final(physics).wf(),
    {
        proof {
            if physics.wf() {
                lemma_set(
                    physics.joints_view(),
                    self@.handle,
                    Self::with_property(physics.joints_view().get(self@.handle), self@.value),
                );
            }
        }
        let joint = joint_mut(&mut physics.joints, self.handle);
        if let JointParams::RevoluteJoint(revolute_joint) = &mut joint.params {
            std::mem::swap(&mut revolute_joint.local_anchor2, &mut self.value);
        }
    }

    /// Gives the property the value of the command, which keeps the value that
    /// the property had.
    pub fn execute(&mut self, physics: &mut Physics)
        requires
            old(self).ready(old(physics)),
        ensures
            old(self).swapped(old(physics), final(self), final(physics)),
            old(physics).wf() ==> final(physics).wf(),
    {
        self.swap(physics);
    }

    /// Gives the property back the value that it had, which the command
    /// keeps; the command takes the value that it had given.
    pub fn revert(&mut self, physics: &mut Physics)
        requires
            old(self).ready(old(physics)),
        ensures
            old(self).swapped(old(physics), final(self), final(physics)),
            old(physics).wf() ==> final(physics).wf(),
    {
        self.swap(physics);
    }
}

/// Sets the axis of a revolute joint on its second body. It goes by the same name
/// as the command for the second axis of a prismatic joint.
#[derive(Debug)]
pub struct SetRevoluteJointAxis2Command {
    handle: Handle,
    value: Vector3,
}

impl View for SetRevoluteJointAxis2Command {
    type V = PropertyView<Vector3>;

    closed spec fn view(&self) -> PropertyView<Vector3> {
        PropertyView { handle: self.handle, value: self.value }
    }
}

impl SetRevoluteJointAxis2Command {
    /// The joint is of the kind that has the property.
    pub open spec fn applies_to(joint: Joint) -> bool {
        joint.params is RevoluteJoint
    }

    /// The property of a joint that the command sets.
    pub open spec fn property(joint: Joint) -> Vector3 {
        joint.params->RevoluteJoint_0.local_axis2
    }

    /// The joint with the property set to a value.
    pub open spec fn with_property(joint: Joint, value: Vector3) -> Joint {
        Joint {
            params: JointParams::RevoluteJoint(
                RevoluteJoint { local_axis2: value, ..joint.params->RevoluteJoint_0 },
            ),
            ..joint
        }
    }

    /// The command can run: its handle names a joint, of the kind that has
    /// the property.
    pub open spec fn ready(&self, physics: &Physics) -> bool {
        &&& physics.joints_view().is_live(self@.handle)
        &&& Self::applies_to(physics.joints_view().get(self@.handle))
    }

    /// The command has run: the value of the command and the property of the
    /// joint have changed places, and nothing else is changed.
    pub open spec fn swapped(
        &self,
        physics: &Physics,
        after: &Self,
        physics_after: &Physics,
    ) -> bool {
        &&& after@ == (PropertyView {
            handle: self@.handle,
            value: Self::property(physics.joints_view().get(self@.handle)),
        })
        &&& physics_after.joints_view() == physics.joints_view().set(
            self@.handle,
            Self::with_property(physics.joints_view().get(self@.handle), self@.value),
        )
        &&& physics_after.same_but_joints(physics)
    }

    pub fn new(handle: Handle, value: Vector3) -> (command: Self)
        ensures
            command@ == (PropertyView { handle, value }),
    {
        Self { handle, value }
    }

    pub fn name(&self) -> (name: String)
        ensures
            name@ == "Set Prismatic Joint Axis 2"@,
    {
        "Set Prismatic Joint Axis 2".to_owned()
    }

    /// Says whether the command can run.
    pub fn is_ready(&self, physics: &Physics) -> (ready: bool)
        ensures
            ready == self.ready(physics),
    {
        match joint_ref(&physics.joints, self.handle) {
            Some(joint) => match joint.params {
                JointParams::RevoluteJoint(_) => true,
                _ => false,
            },
            None => false,
        }
    }

    fn swap(&mut self, physics: &mut Physics)
        requires
            old(self).ready(old(physics)),
        ensures
            old(self).swapped(old(physics), final(self), final(physics)),
            old(physics).wf() ==> final(physics).wf(),
    {
        proof {
            if physics.wf() {
                lemma_set(
                    physics.joints_view(),
                    self@.handle,
                    Self::with_property(physics.joints_view().get(self@.handle), self@.value),
                );
            }
        }
        let joint = joint_mut(&mut physics.joints, self.handle);
        if let JointParams::RevoluteJoint(revolute_joint) = &mut joint.params {
            std::mem::swap(&mut revolute_joint.local_axis2, &mut self.value);
        }
    }

    /// Gives the property the value of the command, which keeps the value that
    /// the property had.
    pub fn execute(&mut self, physics: &mut Physics)
        requires
            old(self).ready(old(physics)),
        ensures
            old(self).swapped(old(physics), final(self), final(physics)),
            old(physics).wf() ==> final(physics).wf(),
    {
        self.swap(physics);
    }

    /// Gives the property back the value that it had, which the command
    /// keeps; the command takes the value that it had given.
    pub fn revert(&mut self, physics: &mut Physics)
        requires
            old(self).ready(old(physics)),
        ensures
            old(self).swapped(old(physics), final(self), final(physics)),
            old(physics).wf() ==> final(physics).wf(),
    {
        self.swap(physics);
    }
}

/// Sets the anchor of a prismatic joint on its first body.
#[derive(Debug)]
pub struct SetPrismaticJointAnchor1Command {
    handle: Handle,
    value: Vector3,
}

impl View for SetPrismaticJointAnchor1Command {
    type V = PropertyView<Vector3>;

    closed spec fn view(&self) -> PropertyView<Vector3> {
        PropertyView { handle: self.handle, value: self.value }
    }
}

impl SetPrismaticJointAnchor1Command {
    /// The joint is of the kind that has the property.
    pub open spec fn applies_to(joint: Joint) -> bool {
        joint.params is PrismaticJoint
    }

    /// The property of a joint that the command sets.
    pub open spec fn property(joint: Joint) -> Vector3 {
        joint.params->PrismaticJoint_0.local_anchor1
    }

    /// The joint with the property set to a value.
    pub open spec fn with_property(joint: Joint, value: Vector3) -> Joint {
        Joint {
            params: JointParams::PrismaticJoint(
                PrismaticJoint { local_anchor1: value, ..joint.params->PrismaticJoint_0 },
            ),
            ..joint
        }
    }

    /// The command can run: its handle names a joint, of the kind that has
    /// the property.
    pub open spec fn ready(&self, physics: &Physics) -> bool {
        &&& physics.joints_view().is_live(self@.handle)
        &&& Self::applies_to(physics.joints_view().get(self@.handle))
    }

    /// The command has run: the value of the command and the property of the
    /// joint have changed places, and nothing else is changed.
    pub open spec fn swapped(
        &self,
        physics: &Physics,
        after: &Self,
        physics_after: &Physics,
    ) -> bool {
        &&& after@ == (PropertyView {
            handle: self@.handle,
            value: Self::property(physics.joints_view().get(self@.handle)),
        })
        &&& physics_after.joints_view() == physics.joints_view().set(
            self@.handle,
            Self::with_property(physics.joints_view().get(self@.handle), self@.value),
        )
        &&& physics_after.same_but_joints(physics)
    }

    pub fn new(handle: Handle, value: Vector3) -> (command: Self)
        ensures
            command@ == (PropertyView { handle, value }),
    {
        Self { handle, value }
    }

    pub fn name(&self) -> (name: String)
        ensures
            name@ == "Set Prismatic Joint Anchor 1"@,
    {
        "Set Prismatic Joint Anchor 1".to_owned()
    }

    /// Says whether the command can run.
    pub fn is_ready(&self, physics: &Physics) -> (ready: bool)
        ensures
            ready == self.ready(physics),
    {
        match joint_ref(&physics.joints, self.handle) {
            Some(joint) => match joint.params {
                JointParams::PrismaticJoint(_) => true,
                _ => false,
            },
            None => false,
        }
    }

    fn swap(&mut self, physics: &mut Physics)
        requires
            old(self).ready(old(physics)),
        ensures
            old(self).swapped(old(physics), final(self), final(physics)),
            old(physics).wf() ==> final(physics).wf(),
    {
        proof {
            if physics.wf() {
                lemma_set(
                    physics.joints_view(),
                    self@.handle,
                    Self::with_property(physics.joints_view().get(self@.handle), self@.value),
                );
            }
        }
        let joint = joint_mut(&mut physics.joints, self.handle);
        if let JointParams::PrismaticJoint(prismatic_joint) = &mut joint.params {
            std::mem::swap(&mut prismatic_joint.local_anchor1, &mut self.value);
        }
    }

    /// Gives the property the value of the command, which keeps the value that
    /// the property had.
    pub fn execute(&mut self, physics: &mut Physics)
        requires
            old(self).ready(old(physics)),
        ensures
            old(self).swapped(old(physics), final(self), final(physics)),
            old(physics).wf() ==> final(physics).wf(),
    {
        self.swap(physics);
    }

    /// Gives the property back the value that it had, which the command
    /// keeps; the command takes the value that it had given.
    pub fn revert(&mut self, physics: &mut Physics)
        requires
            old(self).ready(old(physics)),
        ensures
            old(self).swapped(old(physics), final(self), final(physics)),
            old(physics).wf() ==> final(physics).wf(),
    {
        self.swap(physics);
    }
}

/// Sets the axis of a prismatic joint on its first body.
#[derive(Debug)]
pub struct SetPrismaticJointAxis1Command {
    handle: Handle,
    value: Vector3,
}

impl View for SetPrismaticJointAxis1Command {
    type V = PropertyView<Vector3>;

    closed spec fn view(&self) -> PropertyView<Vector3> {
        PropertyView { handle: self.handle, value: self.value }
    }
}

impl SetPrismaticJointAxis1Command {
    /// The joint is of the kind that has the property.
    pub open spec fn applies_to(joint: Joint) -> bool {
        joint.params is PrismaticJoint
    }

    /// The property of a joint that the command sets.
    pub open spec fn property(joint: Joint) -> Vector3 {
        joint.params->PrismaticJoint_0.local_axis1
    }

    /// The joint with the property set to a value.
    pub open spec fn with_property(joint: Joint, value: Vector3) -> Joint {
        Joint {
            params: JointParams::PrismaticJoint(
                PrismaticJoint { local_axis1: value, ..joint.params->PrismaticJoint_0 },
            ),
            ..joint
        }
    }

    /// The command can run: its handle names a joint, of the kind that has
    /// the property.
    pub open spec fn ready(&self, physics: &Physics) -> bool {
        &&& physics.joints_view().is_live(self@.handle)
        &&& Self::applies_to(physics.joints_view().get(self@.handle))
    }

    /// The command has run: the value of the command and the property of the
    /// joint have changed places, and nothing else is changed.
    pub open spec fn swapped(
        &self,
        physics: &Physics,
        after: &Self,
        physics_after: &Physics,
    ) -> bool {
        &&& after@ == (PropertyView {
            handle: self@.handle,
            value: Self::property(physics.joints_view().get(self@.handle)),
        })
        &&& physics_after.joints_view() == physics.joints_view().set(
            self@.handle,
            Self::with_property(physics.joints_view().get(self@.handle), self@.value),
        )
        &&& physics_after.same_but_joints(physics)
    }

    pub fn new(handle: Handle, value: Vector3) -> (command: Self)
        ensures
            command@ == (PropertyView { handle, value }),
    {
        Self { handle, value }
    }

    pub fn name(&self) -> (name: String)
        ensures
            name@ == "Set Prismatic Joint Axis 1"@,
    {
        "Set Prismatic Joint Axis 1".to_owned()
    }

    /// Says whether the command can run.
    pub fn is_ready(&self, physics: &Physics) -> (ready: bool)
        ensures
            ready == self.ready(physics),
    {
        match joint_ref(&physics.joints, self.handle) {
            Some(joint) => match joint.params {
                JointParams::PrismaticJoint(_) => true,
                _ => false,
            },
            None => false,
        }
    }

    fn swap(&mut self, physics: &mut Physics)
        requires
            old(self).ready(old(physics)),
        ensures
            old(self).swapped(old(physics), final(self), final(physics)),
            old(physics).wf() ==> final(physics).wf(),
    {
        proof {
            if physics.wf() {
                lemma_set(
                    physics.joints_view(),
                    self@.handle,
                    Self::with_property(physics.joints_view().get(self@.handle), self@.value),
                );
            }
        }
        let joint = joint_mut(&mut physics.joints, self.handle);
        if let JointParams::PrismaticJoint(prismatic_joint) = &mut joint.params {
            std::mem::swap(&mut prismatic_joint.local_axis1, &mut self.value);
        }
    }

    /// Gives the property the value of the command, which keeps the value that
    /// the property had.
    pub fn execute(&mut self, physics: &mut Physics)
        requires
            old(self).ready(old(physics)),
        ensures
            old(self).swapped(old(physics), final(self), final(physics)),
            old(physics).wf() ==> final(physics).wf(),
    {
        self.swap(physics);
    }

    /// Gives the property back the value that it had, which the command
    /// keeps; the command takes the value that it had given.
    pub fn revert(&mut self, physics: &mut Physics)
        requires
            old(self).ready(old(physics)),
        ensures
            old(self).swapped(old(physics), final(self), final(physics)),
            old(physics).wf() ==> final(physics).wf(),
    {
        self.swap(physics);
    }
}

/// Sets the anchor of a prismatic joint on its second body.
#[derive(Debug)]
pub struct SetPrismaticJointAnchor2Command {
    handle: Handle,
    value: Vector3,
}

impl View for SetPrismaticJointAnchor2Command {
    type V = PropertyView<Vector3>;

    closed spec fn view(&self) -> PropertyView<Vector3> {
        PropertyView { handle: self.handle, value: self.value }
    }
}

impl SetPrismaticJointAnchor2Command {
    /// The joint is of the kind that has the property.
    pub open spec fn applies_to(joint: Joint) -> bool {
        joint.params is PrismaticJoint
    }

    /// The property of a joint that the command sets.
    pub open spec fn property(joint: Joint) -> Vector3 {
        joint.params->PrismaticJoint_0.local_anchor2
    }

    /// The joint with the property set to a value.
    pub open spec fn with_property(joint: Joint, value: Vector3) -> Joint {
        Joint {
            params: JointParams::PrismaticJoint(
                PrismaticJoint { local_anchor2: value, ..joint.params->PrismaticJoint_0 },
            ),
            ..joint
        }
    }

    /// The command can run: its handle names a joint, of the kind that has
    /// the property.
    pub open spec fn ready(&self, physics: &Physics) -> bool {
        &&& physics.joints_view().is_live(self@.handle)
        &&& Self::applies_to(physics.joints_view().get(self@.handle))
    }

    /// The command has run: the value of the command and the property of the
    /// joint have changed places, and nothing else is changed.
    pub open spec fn swapped(
        &self,
        physics: &Physics,
        after: &Self,
        physics_after: &Physics,
    ) -> bool {
        &&& after@ == (PropertyView {
            handle: self@.handle,
            value: Self::property(physics.joints_view().get(self@.handle)),
        })
        &&& physics_after.joints_view() == physics.joints_view().set(
            self@.handle,
            Self::with_property(physics.joints_view().get(self@.handle), self@.value),
        )
        &&& physics_after.same_but_joints(physics)
    }

    pub fn new(handle: Handle, value: Vector3) -> (command: Self)
        ensures
            command@ == (PropertyView { handle, value }),
    {
        Self { handle, value }
    }

    pub fn name(&self) -> (name: String)
        ensures
            name@ == "Set Prismatic Joint Anchor 2"@,
    {
        "Set Prismatic Joint Anchor 2".to_owned()
    }

    /// Says whether the command can run.
    pub fn is_ready(&self, physics: &Physics) -> (ready: bool)
        ensures
            ready == self.ready(physics),
    {
        match joint_ref(&physics.joints, self.handle) {
            Some(joint) => match joint.params {
                JointParams::PrismaticJoint(_) => true,
                _ => false,
            },
            None => false,
        }
    }

    fn swap(&mut self, physics: &mut Physics)
        requires
            old(self).ready(old(physics)),
        ensures
            old(self).swapped(old(physics), final(self), final(physics)),
            old(physics).wf() ==> final(physics).wf(),
    {
        proof {
            if physics.wf() {
                lemma_set(
                    physics.joints_view(),
                    self@.handle,
                    Self::with_property(physics.joints_view().get(self@.handle), self@.value),
                );
            }
        }
        let joint = joint_mut(&mut physics.joints, self.handle);
        if let JointParams::PrismaticJoint(prismatic_joint) = &mut joint.params {
            std::mem::swap(&mut prismatic_joint.local_anchor2, &mut self.value);
        }
    }

    /// Gives the property the value of the command, which keeps the value that
    /// the property had.
    pub fn execute(&mut self, physics: &mut Physics)
        requires
            old(self).ready(old(physics)),
        ensures
            old(self).swapped(old(physics), final(self), final(physics)),
            old(physics).wf() ==> final(physics).wf(),
    {
        self.swap(physics);
    }

    /// Gives the property back the value that it had, which the command
    /// keeps; the command takes the value that it had given.
    pub fn revert(&mut self, physics: &mut Physics)
        requires
            old(self).ready(old(physics)),
        ensures
            old(self).swapped(old(physics), final(self), final(physics)),
            old(physics).wf() ==> final(physics).wf(),
    {
        self.swap(physics);
    }
}

/// Sets the axis of a prismatic joint on its second body.
#[derive(Debug)]
pub struct SetPrismaticJointAxis2Command {
    handle: Handle,
    value: Vector3,
}

impl View for SetPrismaticJointAxis2Command {
    type V = PropertyView<Vector3>;

    closed spec fn view(&self) -> PropertyView<Vector3> {
        PropertyView { handle: self.handle, value: self.value }
    }
}

impl SetPrismaticJointAxis2Command {
    /// The joint is of the kind that has the property.
    pub open spec fn applies_to(joint: Joint) -> bool {
        joint.params is PrismaticJoint
    }

    /// The property of a joint that the command sets.
    pub open spec fn property(joint: Joint) -> Vector3 {
        joint.params->PrismaticJoint_0.local_axis2
    }

    /// The joint with the property set to a value.
    pub open spec fn with_property(joint: Joint, value: Vector3) -> Joint {
        Joint {
            params: JointParams::PrismaticJoint(
                PrismaticJoint { local_axis2: value, ..joint.params->PrismaticJoint_0 },
            ),
            ..joint
        }
    }

    /// The command can run: its handle names a joint, of the kind that has
    /// the property.
    pub open spec fn ready(&self, physics: &Physics) -> bool {
        &&& physics.joints_view().is_live(self@.handle)
        &&& Self::applies_to(physics.joints_view().get(self@.handle))
    }

    /// The command has run: the value of the command and the property of the
    /// joint have changed places, and nothing else is changed.
    pub open spec fn swapped(
        &self,
        physics: &Physics,
        after: &Self,
        physics_after: &Physics,
    ) -> bool {
        &&& after@ == (PropertyView {
            handle: self@.handle,
            value: Self::property(physics.joints_view().get(self@.handle)),
        })
        &&& physics_after.joints_view() == physics.joints_view().set(
            self@.handle,
            Self::with_property(physics.joints_view().get(self@.handle), self@.value),
        )
        &&& physics_after.same_but_joints(physics)
    }

    pub fn new(handle: Handle, value: Vector3) -> (command: Self)
        ensures
            command@ == (PropertyView { handle, value }),
    {
        Self { handle, value }
    }

    pub fn name(&self) -> (name: String)
        ensures
            name@ == "Set Prismatic Joint Axis 2"@,
    {
        "Set Prismatic Joint Axis 2".to_owned()
    }

    /// Says whether the command can run.
    pub fn is_ready(&self, physics: &Physics) -> (ready: bool)
        ensures
            ready == self.ready(physics),
    {
        match joint_ref(&physics.joints, self.handle) {
            Some(joint) => match joint.params {
                JointParams::PrismaticJoint(_) => true,
                _ => false,
            },
            None => false,
        }
    }

    fn swap(&mut self, physics: &mut Physics)
        requires
            old(self).ready(old(physics)),
        ensures
            old(self).swapped(old(physics), final(self), final(physics)),
            old(physics).wf() ==> final(physics).wf(),
    {
        proof {
            if physics.wf() {
                lemma_set(
                    physics.joints_view(),
                    self@.handle,
                    Self::with_property(physics.joints_view().get(self@.handle), self@.value),
                );
            }
        }
        let joint = joint_mut(&mut physics.joints, self.handle);
        if let JointParams::PrismaticJoint(prismatic_joint) = &mut joint.params {
            std::mem::swap(&mut prismatic_joint.local_axis2, &mut self.value);
        }
    }

    /// Gives the property the value of the command, which keeps the value that
    /// the property had.
    pub fn execute(&mut self, physics: &mut Physics)
        requires
            old(self).ready(old(physics)),
        ensures
            old(self).swapped(old(physics), final(self), final(physics)),
            old(physics).wf() ==> final(physics).wf(),
    {
        self.swap(physics);
    }

    /// Gives the property back the value that it had, which the command
    /// keeps; the command takes the value that it had given.
    pub fn revert(&mut self, physics: &mut Physics)
        requires
            old(self).ready(old(physics)),
        ensures
            old(self).swapped(old(physics), final(self), final(physics)),
            old(physics).wf() ==> final(physics).wf(),
    {
        self.swap(physics);
    }
}

/// Sets the second body of a joint.
#[derive(Debug)]
pub struct SetJointConnectedBodyCommand {
    handle: Handle,
    value: Handle,
}

impl View for SetJointConnectedBodyCommand {
    type V = PropertyView<Handle>;

    closed spec fn view(&self) -> PropertyView<Handle> {
        PropertyView { handle: self.handle, value: self.value }
    }
}

impl SetJointConnectedBodyCommand {
    /// The property of a joint that the command sets.
    pub open spec fn property(joint: Joint) -> Handle {
        joint.body2
    }

    /// The joint with the property set to a value.
    pub open spec fn with_property(joint: Joint, value: Handle) -> Joint {
        Joint { body2: value, ..joint }
    }

    /// The command can run: its handle names a joint.
    pub open spec fn ready(&self, physics: &Physics) -> bool {
        physics.joints_view().is_live(self@.handle)
    }

    /// The command has run: the value of the command and the property of the
    /// joint have changed places, and nothing else is changed.
    pub open spec fn swapped(
        &self,
        physics: &Physics,
        after: &Self,
        physics_after: &Physics,
    ) -> bool {
        &&& after@ == (PropertyView {
            handle: self@.handle,
            value: Self::property(physics.joints_view().get(self@.handle)),
        })
        &&& physics_after.joints_view() == physics.joints_view().set(
            self@.handle,
            Self::with_property(physics.joints_view().get(self@.handle), self@.value),
        )
        &&& physics_after.same_but_joints(physics)
    }

    pub fn new(handle: Handle, value: Handle) -> (command: Self)
        ensures
            command@ == (PropertyView { handle, value }),
    {
        Self { handle, value }
    }

    pub fn name(&self) -> (name: String)
        ensures
            name@ == "Set Joint Connected Body"@,
    {
        "Set Joint Connected Body".to_owned()
    }

    /// Says whether the command can run.
    pub fn is_ready(&self, physics: &Physics) -> (ready: bool)
        ensures
            ready == self.ready(physics),
    {
        joint_ref(&physics.joints, self.handle).is_some()
    }

    fn swap(&mut self, physics: &mut Physics)
        requires
            old(self).ready(old(physics)),
        ensures
            old(self).swapped(old(physics), final(self), final(physics)),
            old(physics).wf() ==> final(physics).wf(),
    {
        proof {
            if physics.wf() {
                lemma_set(
                    physics.joints_view(),
                    self@.handle,
                    Self::with_property(physics.joints_view().get(self@.handle), self@.value),
                );
            }
        }
        let joint = joint_mut(&mut physics.joints, self.handle);
        std::mem::swap(&mut joint.body2, &mut self.value);
    }

    /// Gives the property the value of the command, which keeps the value that
    /// the property had.
    pub fn execute(&mut self, physics: &mut Physics)
        requires
            old(self).ready(old(physics)),
        ensures
            old(self).swapped(old(physics), final(self), final(physics)),
            old(physics).wf() ==> final(physics).wf(),
    {
        self.swap(physics);
    }

    /// Gives the property back the value that it had, which the command
    /// keeps; the command takes the value that it had given.
    pub fn revert(&mut self, physics: &mut Physics)
        requires
            old(self).ready(old(physics)),
        ensures
            old(self).swapped(old(physics), final(self), final(physics)),
            old(physics).wf() ==> final(physics).wf(),
    {
        self.swap(physics);
    }
}

} // verus!
