use crate::commands::{lemma_placed, CommandView};
use crate::handle::Handle;
use crate::physics::joint::Joint;
use crate::physics::Physics;
use crate::pool::joints::{
    forget_joint_ticket, joint_ticket_slot, put_back_joint, spawn_joint, take_reserve_joint,
};
use crate::pool::model::{lemma_forget, lemma_put_back, lemma_take};
use rg3d_core::pool::Ticket;
use vstd::prelude::*;

verus! {

/// Adds a joint to the scene.
#[derive(Debug)]
pub struct AddJointCommand {
    ticket: Option<Ticket<Joint>>,
    handle: Handle,
    joint: Option<Joint>,
}

impl View for AddJointCommand {
    type V = CommandView<Joint>;

    closed spec fn view(&self) -> CommandView<Joint> {
        CommandView {
            handle: self.handle,
            object: self.joint,
            slot: match self.ticket {
                Some(ticket) => Some(joint_ticket_slot(ticket)),
                None => None,
            },
        }
    }
}

impl AddJointCommand {
    pub fn new(node: Joint) -> (command: AddJointCommand)
        ensures
            command@.wf(),
            command@ == (CommandView { handle: Handle::none(), object: Some(node), slot: None }),
    {
        AddJointCommand { ticket: None, handle: Handle::none(), joint: Some(node) }
    }

    pub fn name(&self) -> (name: String)
        ensures
            name@ == "Add Joint"@,
    {
        "Add Joint".to_owned()
    }

    /// Puts the joint into the pool: as a new object the first time, which
    /// gives the command its handle, and into the reserved slot after a
    /// revert, where the joint must come back under the handle it had.
    pub fn execute(&mut self, physics: &mut Physics)
        requires
            old(self)@.can_place(old(physics).joints_view()),
            old(self)@.placed_handle(old(physics).joints_view()) == old(self)@.kept_handle(
                old(physics).joints_view(),
            ),
        ensures
            final(self)@.wf(),
            final(self)@ == (CommandView::<Joint> {
                handle: old(self)@.placed_handle(old(physics).joints_view()),
                object: None,
                slot: None,
            }),
            final(physics).joints_view() == old(self)@.placed(old(physics).joints_view()),
            final(physics).joints_view().is_live(final(self)@.handle),
            final(physics).joints_view().get(final(self)@.handle) == old(self)@.object->0,
            final(physics).bodies == old(physics).bodies,
            final(physics).colliders == old(physics).colliders,
            final(physics).binder == old(physics).binder,
            old(physics).wf() && old(self)@.fits(old(physics).joints_view())
                ==> final(physics).wf(),
    {
        proof {
            if physics.wf() && self@.fits(physics.joints_view()) {
                lemma_placed(self@, physics.joints_view());
            }
        }
        match self.ticket.take() {
            None => {
                self.handle = spawn_joint(&mut physics.joints, self.joint.take().unwrap());
            },
            Some(ticket) => {
                let handle = put_back_joint(
                    &mut physics.joints,
                    ticket,
                    self.joint.take().unwrap(),
                );
                assert(handle == self.handle);
            },
        }
    }

    /// Takes the joint out of the pool and keeps it, its slot reserved.
    pub fn revert(&mut self, physics: &mut Physics)
        requires
            old(physics).joints_view().is_live(old(self)@.handle),
        ensures
            final(self)@.wf(),
            final(self)@ == (CommandView {
                handle: old(self)@.handle,
                object: Some(old(physics).joints_view().get(old(self)@.handle)),
                slot: Some(old(self)@.handle.index),
            }),
            final(physics).joints_view() == old(physics).joints_view().take(old(self)@.handle),
            final(physics).bodies == old(physics).bodies,
            final(physics).colliders == old(physics).colliders,
            final(physics).binder == old(physics).binder,
            old(physics).wf() ==> final(physics).wf(),
            old(physics).wf() ==> final(physics).joints_view().is_reserved(
                old(self)@.handle.index,
            ),
    {
        proof {
            if physics.wf() {
                lemma_take(physics.joints_view(), self@.handle);
            }
        }
        let (ticket, node) = take_reserve_joint(&mut physics.joints, self.handle);
        self.ticket = Some(ticket);
        self.joint = Some(node);
    }

    /// Gives up the reserved slot, if the command holds one.
    pub fn finalize(&mut self, physics: &mut Physics)
        ensures
            final(self)@.wf(),
            final(self)@ == (CommandView { slot: None, ..old(self)@ }),
            match old(self)@.slot {
                Some(slot) => final(physics).joints_view()
                    == old(physics).joints_view().forget(slot),
                None => final(physics).joints == old(physics).joints,
            },
            final(physics).bodies == old(physics).bodies,
            final(physics).colliders == old(physics).colliders,
            final(physics).binder == old(physics).binder,
            old(physics).wf() && old(self)@.fits(old(physics).joints_view())
                ==> final(physics).wf(),
    {
        proof {
            if let Some(slot) = self@.slot {
                if physics.wf() && physics.joints_view().is_reserved(slot) {
                    lemma_forget(physics.joints_view(), slot);
                }
            }
        }
        if let Some(ticket) = self.ticket.take() {
            forget_joint_ticket(&mut physics.joints, ticket)
        }
    }
}

/// Removes a joint from the scene.
#[derive(Debug)]
pub struct DeleteJointCommand {
    handle: Handle,
    ticket: Option<Ticket<Joint>>,
    node: Option<Joint>,
}

impl View for DeleteJointCommand {
    type V = CommandView<Joint>;

    closed spec fn view(&self) -> CommandView<Joint> {
        CommandView {
            handle: self.handle,
            object: self.node,
            slot: match self.ticket {
                Some(ticket) => Some(joint_ticket_slot(ticket)),
                None => None,
            },
        }
    }
}

impl DeleteJointCommand {
    pub fn new(handle: Handle) -> (command: DeleteJointCommand)
        ensures
            command@.wf(),
            command@ == (CommandView::<Joint> { handle, object: None, slot: None }),
    {
        DeleteJointCommand { handle, ticket: None, node: None }
    }

    pub fn name(&self) -> (name: String)
        ensures
            name@ == "Delete Joint"@,
    {
        "Delete Joint".to_owned()
    }

    /// Takes the joint out of the pool and keeps it, its slot reserved.
    pub fn execute(&mut self, physics: &mut Physics)
        requires
            old(physics).joints_view().is_live(old(self)@.handle),
        ensures
            final(self)@.wf(),
            final(self)@ == (CommandView {
                handle: old(self)@.handle,
                object: Some(old(physics).joints_view().get(old(self)@.handle)),
                slot: Some(old(self)@.handle.index),
            }),
            final(physics).joints_view() == old(physics).joints_view().take(old(self)@.handle),
            final(physics).bodies == old(physics).bodies,
            final(physics).colliders == old(physics).colliders,
            final(physics).binder == old(physics).binder,
            old(physics).wf() ==> final(physics).wf(),
            old(physics).wf() ==> final(physics).joints_view().is_reserved(
                old(self)@.handle.index,
            ),
    {
        proof {
            if physics.wf() {
                lemma_take(physics.joints_view(), self@.handle);
            }
        }
        let (ticket, node) = take_reserve_joint(&mut physics.joints, self.handle);
        self.node = Some(node);
        self.ticket = Some(ticket);
    }

    /// Puts the joint back into its slot; the command's handle is the one
    /// that the pool returns.
    pub fn revert(&mut self, physics: &mut Physics)
        requires
            old(self)@.object is Some,
            old(self)@.slot is Some,
            old(physics).joints_view().is_vacant(old(self)@.slot->0),
        ensures
            final(self)@.wf(),
            final(self)@ == (CommandView::<Joint> {
                handle: old(physics).joints_view().handle_at(old(self)@.slot->0),
                object: None,
                slot: None,
            }),
            final(physics).joints_view() == old(physics).joints_view().put_back(
                old(self)@.slot->0,
                old(self)@.object->0,
            ),
            final(physics).joints_view().is_live(final(self)@.handle),
            final(physics).bodies == old(physics).bodies,
            final(physics).colliders == old(physics).colliders,
            final(physics).binder == old(physics).binder,
            old(physics).wf() && old(self)@.fits(old(physics).joints_view())
                ==> final(physics).wf(),
    {
        proof {
            if physics.wf() && physics.joints_view().is_reserved(self@.slot->0) {
                lemma_put_back(physics.joints_view(), self@.slot->0, self@.object->0);
            }
        }
        self.handle =
        put_back_joint(&mut physics.joints, self.ticket.take().unwrap(), self.node.take().unwrap());
    }

    /// Gives up the reserved slot, if the command holds one.
    pub fn finalize(&mut self, physics: &mut Physics)
        ensures
            final(self)@.wf(),
            final(self)@ == (CommandView { slot: None, ..old(self)@ }),
            match old(self)@.slot {
                Some(slot) => final(physics).joints_view()
                    == old(physics).joints_view().forget(slot),
                None => final(physics).joints == old(physics).joints,
            },
            final(physics).bodies == old(physics).bodies,
            final(physics).colliders == old(physics).colliders,
            final(physics).binder == old(physics).binder,
            old(physics).wf() && old(self)@.fits(old(physics).joints_view())
                ==> final(physics).wf(),
    {
        proof {
            if let Some(slot) = self@.slot {
                if physics.wf() && physics.joints_view().is_reserved(slot) {
                    lemma_forget(physics.joints_view(), slot);
                }
            }
        }
        if let Some(ticket) = self.ticket.take() {
            forget_joint_ticket(&mut physics.joints, ticket)
        }
    }
}

} // verus!
