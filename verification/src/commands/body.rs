use crate::commands::{lemma_placed, CommandView};
use crate::handle::Handle;
use crate::physics::body::RigidBody;
use crate::physics::Physics;
use crate::pool::binder::{binder_insert, binder_remove_by_key};
use crate::pool::bodies::{
    body_ticket_slot, forget_body_ticket, put_back_body, spawn_body, take_reserve_body,
};
use crate::pool::model::{lemma_forget, lemma_put_back, lemma_take};
use rg3d_core::pool::Ticket;
use vstd::prelude::*;

verus! {

/// Gives a scene node a rigid body: puts the body into the pool and binds
/// the node to it.
#[derive(Debug)]
pub struct SetBodyCommand {
    node: Handle,
    ticket: Option<Ticket<RigidBody>>,
    handle: Handle,
    body: Option<RigidBody>,
}

impl View for SetBodyCommand {
    type V = CommandView<RigidBody>;

    closed spec fn view(&self) -> CommandView<RigidBody> {
        CommandView {
            handle: self.handle,
            object: self.body,
            slot: match self.ticket {
                Some(ticket) => Some(body_ticket_slot(ticket)),
                None => None,
            },
        }
    }
}

impl SetBodyCommand {
    /// The node that gets the body.
    pub closed spec fn node(&self) -> Handle {
        self.node
    }

    pub fn new(node: Handle, body: RigidBody) -> (command: SetBodyCommand)
        ensures
            command@.wf(),
            command.node() == node,
            command@ == (CommandView { handle: Handle::none(), object: Some(body), slot: None }),
    {
        SetBodyCommand { node, ticket: None, handle: Handle::none(), body: Some(body) }
    }

    pub fn name(&self) -> (name: String)
        ensures
            name@ == "Set Node Body"@,
    {
        "Set Node Body".to_owned()
    }

    /// Puts the body into the pool, as a new object the first time and into
    /// the reserved slot after a revert, and binds the node to the
    /// command's handle.
    pub fn execute(&mut self, physics: &mut Physics)
        requires
            old(self)@.can_place(old(physics).bodies_view()),
        ensures
            final(self)@.wf(),
            final(self).node() == old(self).node(),
            final(self)@ == (CommandView::<RigidBody> {
                handle: old(self)@.kept_handle(old(physics).bodies_view()),
                object: None,
                slot: None,
            }),
            final(physics).bodies_view() == old(self)@.placed(old(physics).bodies_view()),
            final(physics).binder_view() == old(physics).binder_view().bind(
                old(self).node(),
                final(self)@.handle,
            ),
            final(physics).colliders == old(physics).colliders,
            final(physics).joints == old(physics).joints,
            old(physics).wf() && old(self)@.fits(old(physics).bodies_view())
                ==> final(physics).wf(),
    {
        proof {
            if physics.wf() && self@.fits(physics.bodies_view()) {
                lemma_placed(self@, physics.bodies_view());
            }
        }
        match self.ticket.take() {
            None => {
                self.handle = spawn_body(&mut physics.bodies, self.body.take().unwrap());
            },
            Some(ticket) => {
                put_back_body(&mut physics.bodies, ticket, self.body.take().unwrap());
            },
        }
        binder_insert(&mut physics.binder, self.node, self.handle);
    }

    /// Takes the body out of the pool, keeping its slot reserved, and
    /// removes the node's binding.
    pub fn revert(&mut self, physics: &mut Physics)
        requires
            old(physics).bodies_view().is_live(old(self)@.handle),
        ensures
            final(self)@.wf(),
            final(self).node() == old(self).node(),
            final(self)@ == (CommandView {
                handle: old(self)@.handle,
                object: Some(old(physics).bodies_view().get(old(self)@.handle)),
                slot: Some(old(self)@.handle.index),
            }),
            final(physics).bodies_view() == old(physics).bodies_view().take(old(self)@.handle),
            final(physics).binder_view() == old(physics).binder_view().unbind_node(
                old(self).node(),
            ),
            final(physics).colliders == old(physics).colliders,
            final(physics).joints == old(physics).joints,
            old(physics).wf() ==> final(physics).wf(),
            old(physics).wf() ==> final(physics).bodies_view().is_reserved(
                old(self)@.handle.index,
            ),
    {
        proof {
            if physics.wf() {
                lemma_take(physics.bodies_view(), self@.handle);
            }
        }
        let (ticket, node) = take_reserve_body(&mut physics.bodies, self.handle);
        self.ticket = Some(ticket);
        self.body = Some(node);
        binder_remove_by_key(&mut physics.binder, self.node);
    }

    /// Gives up the reserved slot, if the command holds one, and then removes
    /// the node's binding; a command that holds no ticket changes nothing.
    pub fn finalize(&mut self, physics: &mut Physics)
        ensures
            final(self)@.wf(),
            final(self).node() == old(self).node(),
            final(self)@ == (CommandView { slot: None, ..old(self)@ }),
            match old(self)@.slot {
                Some(slot) => {
                    &&& final(physics).bodies_view() == old(physics).bodies_view().forget(slot)
                    &&& final(physics).binder_view() == old(physics).binder_view().unbind_node(
                        old(self).node(),
                    )
                },
                None => {
                    &&& final(physics).bodies == old(physics).bodies
                    &&& final(physics).binder == old(physics).binder
                },
            },
            final(physics).colliders == old(physics).colliders,
            final(physics).joints == old(physics).joints,
            old(physics).wf() && old(self)@.fits(old(physics).bodies_view())
                ==> final(physics).wf(),
    {
        proof {
            if let Some(slot) = self@.slot {
                if physics.wf() && physics.bodies_view().is_reserved(slot) {
                    lemma_forget(physics.bodies_view(), slot);
                }
            }
        }
        if let Some(ticket) = self.ticket.take() {
            forget_body_ticket(&mut physics.bodies, ticket);
            binder_remove_by_key(&mut physics.binder, self.node);
        }
    }
}

/// Removes a rigid body: takes it out of the pool and removes its binding
/// to a scene node.
#[derive(Debug)]
pub struct DeleteBodyCommand {
    handle: Handle,
    ticket: Option<Ticket<RigidBody>>,
    body: Option<RigidBody>,
    node: Handle,
}

impl View for DeleteBodyCommand {
    type V = CommandView<RigidBody>;

    closed spec fn view(&self) -> CommandView<RigidBody> {
        CommandView {
            handle: self.handle,
            object: self.body,
            slot: match self.ticket {
                Some(ticket) => Some(body_ticket_slot(ticket)),
                None => None,
            },
        }
    }
}

impl DeleteBodyCommand {
    /// The node that the body was bound to when it was removed; the handle
    /// that names nothing before that, and where it was bound to none.
    pub closed spec fn node(&self) -> Handle {
        self.node
    }

    pub fn new(handle: Handle) -> (command: DeleteBodyCommand)
        ensures
            command@.wf(),
            command.node() == Handle::none(),
            command@ == (CommandView::<RigidBody> { handle, object: None, slot: None }),
    {
        DeleteBodyCommand { handle, ticket: None, body: None, node: Handle::none() }
    }

    pub fn name(&self) -> (name: String)
        ensures
            name@ == "Delete Body"@,
    {
        "Delete Body".to_owned()
    }

    /// Takes the body out of the pool, keeping its slot reserved, and removes
    /// its binding, remembering the node.
    pub fn execute(&mut self, physics: &mut Physics)
        requires
            old(physics).bodies_view().is_live(old(self)@.handle),
        ensures
            final(self)@.wf(),
            final(self)@ == (CommandView {
                handle: old(self)@.handle,
                object: Some(old(physics).bodies_view().get(old(self)@.handle)),
                slot: Some(old(self)@.handle.index),
            }),
            final(self).node() == match old(physics).binder_view().node_of(old(self)@.handle) {
                Some(node) => node,
                None => Handle::none(),
            },
            final(physics).bodies_view() == old(physics).bodies_view().take(old(self)@.handle),
            final(physics).binder_view() == old(physics).binder_view().unbind_body(
                old(self)@.handle,
            ),
            final(physics).colliders == old(physics).colliders,
            final(physics).joints == old(physics).joints,
            old(physics).wf() ==> final(physics).wf(),
            old(physics).wf() ==> final(physics).bodies_view().is_reserved(
                old(self)@.handle.index,
            ),
    {
        proof {
            if physics.wf() {
                lemma_take(physics.bodies_view(), self@.handle);
            }
        }
        let (ticket, node) = take_reserve_body(&mut physics.bodies, self.handle);
        self.body = Some(node);
        self.ticket = Some(ticket);
        self.node = physics.unbind_by_body(self.handle);
    }

    /// Puts the body back into its slot and binds the remembered node to the
    /// handle that the pool returns.
    pub fn revert(&mut self, physics: &mut Physics)
        requires
            old(self)@.object is Some,
            old(self)@.slot is Some,
            old(physics).bodies_view().is_vacant(old(self)@.slot->0),
        ensures
            final(self)@.wf(),
            final(self).node() == old(self).node(),
            final(self)@ == (CommandView::<RigidBody> {
                handle: old(physics).bodies_view().handle_at(old(self)@.slot->0),
                object: None,
                slot: None,
            }),
            final(physics).bodies_view() == old(physics).bodies_view().put_back(
                old(self)@.slot->0,
                old(self)@.object->0,
            ),
            final(physics).binder_view() == old(physics).binder_view().bind(
                old(self).node(),
                final(self)@.handle,
            ),
            final(physics).colliders == old(physics).colliders,
            final(physics).joints == old(physics).joints,
            old(physics).wf() && old(self)@.fits(old(physics).bodies_view())
                ==> final(physics).wf(),
    {
        proof {
            if physics.wf() && physics.bodies_view().is_reserved(self@.slot->0) {
                lemma_put_back(physics.bodies_view(), self@.slot->0, self@.object->0);
            }
        }
        self.handle =
        put_back_body(&mut physics.bodies, self.ticket.take().unwrap(), self.body.take().unwrap());
        binder_insert(&mut physics.binder, self.node, self.handle);
    }

    /// Gives up the reserved slot, if the command holds one.
    pub fn finalize(&mut self, physics: &mut Physics)
        ensures
            final(self)@.wf(),
            final(self).node() == old(self).node(),
            final(self)@ == (CommandView { slot: None, ..old(self)@ }),
            match old(self)@.slot {
                Some(slot) => final(physics).bodies_view()
                    == old(physics).bodies_view().forget(slot),
                None => final(physics).bodies == old(physics).bodies,
            },
            final(physics).binder == old(physics).binder,
            final(physics).colliders == old(physics).colliders,
            final(physics).joints == old(physics).joints,
            old(physics).wf() && old(self)@.fits(old(physics).bodies_view())
                ==> final(physics).wf(),
    {
        proof {
            if let Some(slot) = self@.slot {
                if physics.wf() && physics.bodies_view().is_reserved(slot) {
                    lemma_forget(physics.bodies_view(), slot);
                }
            }
        }
        if let Some(ticket) = self.ticket.take() {
            forget_body_ticket(&mut physics.bodies, ticket)
        }
    }
}

} // verus!
