use crate::commands::{lemma_placed, CommandView};
use crate::handle::Handle;
use crate::physics::body::without_first;
use crate::physics::collider::Collider;
use crate::physics::Physics;
use crate::pool::bodies::body_mut;
use crate::pool::colliders::{
    collider_mut, collider_ticket_slot, forget_collider_ticket, put_back_collider, spawn_collider,
    take_reserve_collider,
};
use crate::pool::model::{lemma_forget, lemma_put_back, lemma_set, lemma_take};
use rg3d_core::pool::Ticket;
use vstd::prelude::*;

verus! {

/// Gives a rigid body a collider: puts the collider into the pool and
/// attaches it to the body.
#[derive(Debug)]
pub struct SetColliderCommand {
    body: Handle,
    ticket: Option<Ticket<Collider>>,
    handle: Handle,
    collider: Option<Collider>,
}

impl View for SetColliderCommand {
    type V = CommandView<Collider>;

    closed spec fn view(&self) -> CommandView<Collider> {
        CommandView {
            handle: self.handle,
            object: self.collider,
            slot: match self.ticket {
                Some(ticket) => Some(collider_ticket_slot(ticket)),
                None => None,
            },
        }
    }
}

impl SetColliderCommand {
    /// The body that gets the collider.
    pub closed spec fn body(&self) -> Handle {
        self.body
    }

    pub fn new(body: Handle, collider: Collider) -> (command: SetColliderCommand)
        ensures
            command@.wf(),
            command.body() == body,
            command@ == (CommandView {
                handle: Handle::none(),
                object: Some(collider),
                slot: None,
            }),
    {
        SetColliderCommand { body, ticket: None, handle: Handle::none(), collider: Some(collider) }
    }

    pub fn name(&self) -> (name: String)
        ensures
            name@ == "Set Collider"@,
    {
        "Set Collider".to_owned()
    }

    /// Puts the collider into the pool, as a new object the first time and
    /// into the reserved slot after a revert, makes the body its parent, and
    /// attaches it to the body as the last of its colliders.
    pub fn execute(&mut self, physics: &mut Physics)
        requires
            old(self)@.can_place(old(physics).colliders_view()),
            old(self)@.placed(old(physics).colliders_view()).is_live(
                old(self)@.kept_handle(old(physics).colliders_view()),
            ),
            old(physics).bodies_view().is_live(old(self).body()),
        ensures
            final(self)@.wf(),
            final(self).body() == old(self).body(),
            final(self)@ == (CommandView::<Collider> {
                handle: old(self)@.kept_handle(old(physics).colliders_view()),
                object: None,
                slot: None,
            }),
            final(physics).colliders_view() == old(self)@.placed(
                old(physics).colliders_view(),
            ).set(
                final(self)@.handle,
                Collider {
                    parent: old(self).body(),
                    ..old(self)@.placed(old(physics).colliders_view()).get(final(self)@.handle)
                },
            ),
            final(physics).bodies_with_colliders(
                old(physics),
                old(self).body(),
                old(physics).colliders_of(old(self).body()).push(final(self)@.handle),
            ),
            final(physics).joints == old(physics).joints,
            final(physics).binder == old(physics).binder,
            old(physics).wf() && old(self)@.fits(old(physics).colliders_view())
                ==> final(physics).wf(),
    {
        let ghost placed = self@.placed(physics.colliders_view());
        let ghost handle = self@.kept_handle(physics.colliders_view());
        proof {
            if physics.wf() && self@.fits(physics.colliders_view()) {
                lemma_placed(self@, physics.colliders_view());
                lemma_set(
                    placed,
                    handle,
                    Collider { parent: self.body(), ..placed.get(handle) },
                );
            }
        }
        match self.ticket.take() {
            None => {
                self.handle = spawn_collider(&mut physics.colliders, self.collider.take().unwrap());
            },
            Some(ticket) => {
                put_back_collider(&mut physics.colliders, ticket, self.collider.take().unwrap());
            },
        }
        let collider = collider_mut(&mut physics.colliders, self.handle);
        collider.parent = self.body;
        let ghost bodies = physics.bodies_view();
        let body = body_mut(&mut physics.bodies, self.body);
        body.attach(self.handle);
        proof {
            if bodies.wf() {
                lemma_set(bodies, self.body, physics.bodies_view().get(self.body));
            }
        }
    }

    /// Takes the collider out of the pool, keeping its slot reserved, clears
    /// the parent of the copy that the command keeps, and detaches the
    /// collider from the body.
    pub fn revert(&mut self, physics: &mut Physics)
        requires
            old(physics).colliders_view().is_live(old(self)@.handle),
            old(physics).bodies_view().is_live(old(self).body()),
            old(physics).colliders_of(old(self).body()).contains(old(self)@.handle),
        ensures
            final(self)@.wf(),
            final(self).body() == old(self).body(),
            final(self)@ == (CommandView {
                handle: old(self)@.handle,
                object: Some(
                    Collider {
                        parent: Handle::none(),
                        ..old(physics).colliders_view().get(old(self)@.handle)
                    },
                ),
                slot: Some(old(self)@.handle.index),
            }),
            final(physics).colliders_view() == old(physics).colliders_view().take(
                old(self)@.handle,
            ),
            final(physics).bodies_with_colliders(
                old(physics),
                old(self).body(),
                without_first(old(physics).colliders_of(old(self).body()), old(self)@.handle),
            ),
            final(physics).joints == old(physics).joints,
            final(physics).binder == old(physics).binder,
            old(physics).wf() ==> final(physics).wf(),
            old(physics).wf() ==> final(physics).colliders_view().is_reserved(
                old(self)@.handle.index,
            ),
    {
        proof {
            if physics.wf() {
                lemma_take(physics.colliders_view(), self@.handle);
            }
        }
        let (ticket, mut collider) = take_reserve_collider(&mut physics.colliders, self.handle);
        collider.parent = Handle::none();
        self.ticket = Some(ticket);
        self.collider = Some(collider);

        let ghost bodies = physics.bodies_view();
        let body = body_mut(&mut physics.bodies, self.body);
        body.detach(self.handle);
        proof {
            if bodies.wf() {
                lemma_set(bodies, self.body, physics.bodies_view().get(self.body));
            }
        }
    }

    /// Gives up the reserved slot, if the command holds one.
    pub fn finalize(&mut self, physics: &mut Physics)
        ensures
            final(self)@.wf(),
            final(self).body() == old(self).body(),
            final(self)@ == (CommandView { slot: None, ..old(self)@ }),
            match old(self)@.slot {
                Some(slot) => final(physics).colliders_view()
                    == old(physics).colliders_view().forget(slot),
                None => final(physics).colliders == old(physics).colliders,
            },
            final(physics).bodies == old(physics).bodies,
            final(physics).joints == old(physics).joints,
            final(physics).binder == old(physics).binder,
            old(physics).wf() && old(self)@.fits(old(physics).colliders_view())
                ==> final(physics).wf(),
    {
        proof {
            if let Some(slot) = self@.slot {
                if physics.wf() && physics.colliders_view().is_reserved(slot) {
                    lemma_forget(physics.colliders_view(), slot);
                }
            }
        }
        if let Some(ticket) = self.ticket.take() {
            forget_collider_ticket(&mut physics.colliders, ticket);
        }
    }
}

/// Removes a collider: takes it out of the pool and detaches it from the
/// body that is its parent.
#[derive(Debug)]
pub struct DeleteColliderCommand {
    handle: Handle,
    ticket: Option<Ticket<Collider>>,
    collider: Option<Collider>,
    body: Handle,
}

impl View for DeleteColliderCommand {
    type V = CommandView<Collider>;

    closed spec fn view(&self) -> CommandView<Collider> {
        CommandView {
            handle: self.handle,
            object: self.collider,
            slot: match self.ticket {
                Some(ticket) => Some(collider_ticket_slot(ticket)),
                None => None,
            },
        }
    }
}

impl DeleteColliderCommand {
    /// The body that was the collider's parent when it was removed; the
    /// handle that names nothing before that.
    pub closed spec fn body(&self) -> Handle {
        self.body
    }

    pub fn new(handle: Handle) -> (command: DeleteColliderCommand)
        ensures
            command@.wf(),
            command.body() == Handle::none(),
            command@ == (CommandView::<Collider> { handle, object: None, slot: None }),
    {
        DeleteColliderCommand { handle, ticket: None, collider: None, body: Handle::none() }
    }

    pub fn name(&self) -> (name: String)
        ensures
            name@ == "Delete Collider"@,
    {
        "Delete Collider".to_owned()
    }

    /// Takes the collider out of the pool, keeping its slot reserved, and
    /// detaches it from its parent, which the command remembers.
    pub fn execute(&mut self, physics: &mut Physics)
        requires
            old(physics).colliders_view().is_live(old(self)@.handle),
            old(physics).bodies_view().is_live(
                old(physics).colliders_view().get(old(self)@.handle).parent,
            ),
            old(physics).colliders_of(
                old(physics).colliders_view().get(old(self)@.handle).parent,
            ).contains(old(self)@.handle),
        ensures
            final(self)@.wf(),
            final(self).body() == old(physics).colliders_view().get(old(self)@.handle).parent,
            final(self)@ == (CommandView {
                handle: old(self)@.handle,
                object: Some(old(physics).colliders_view().get(old(self)@.handle)),
                slot: Some(old(self)@.handle.index),
            }),
            final(physics).colliders_view() == old(physics).colliders_view().take(
                old(self)@.handle,
            ),
            final(physics).bodies_with_colliders(
                old(physics),
                final(self).body(),
                without_first(old(physics).colliders_of(final(self).body()), old(self)@.handle),
            ),
            final(physics).joints == old(physics).joints,
            final(physics).binder == old(physics).binder,
            old(physics).wf() ==> final(physics).wf(),
            old(physics).wf() ==> final(physics).colliders_view().is_reserved(
                old(self)@.handle.index,
            ),
    {
        proof {
            if physics.wf() {
                lemma_take(physics.colliders_view(), self@.handle);
            }
        }
        let (ticket, collider) = take_reserve_collider(&mut physics.colliders, self.handle);
        self.body = collider.parent;
        self.collider = Some(collider);
        self.ticket = Some(ticket);

        let ghost bodies = physics.bodies_view();
        let body = body_mut(&mut physics.bodies, self.body);
        body.detach(self.handle);
        proof {
            if bodies.wf() {
                lemma_set(bodies, self.body, physics.bodies_view().get(self.body));
            }
        }
    }

    /// Puts the collider back into its slot and attaches it to the
    /// remembered body, as the last of its colliders, under the handle that
    /// the pool returns.
    pub fn revert(&mut self, physics: &mut Physics)
        requires
            old(self)@.object is Some,
            old(self)@.slot is Some,
            old(physics).colliders_view().is_vacant(old(self)@.slot->0),
            old(physics).bodies_view().is_live(old(self).body()),
        ensures
            final(self)@.wf(),
            final(self).body() == old(self).body(),
            final(self)@ == (CommandView::<Collider> {
                handle: old(physics).colliders_view().handle_at(old(self)@.slot->0),
                object: None,
                slot: None,
            }),
            final(physics).colliders_view() == old(physics).colliders_view().put_back(
                old(self)@.slot->0,
                old(self)@.object->0,
            ),
            final(physics).bodies_with_colliders(
                old(physics),
                old(self).body(),
                old(physics).colliders_of(old(self).body()).push(final(self)@.handle),
            ),
            final(physics).joints == old(physics).joints,
            final(physics).binder == old(physics).binder,
            old(physics).wf() && old(self)@.fits(old(physics).colliders_view())
                ==> final(physics).wf(),
    {
        proof {
            if physics.wf() && physics.colliders_view().is_reserved(self@.slot->0) {
                lemma_put_back(physics.colliders_view(), self@.slot->0, self@.object->0);
            }
        }
        self.handle =
        put_back_collider(
            &mut physics.colliders,
            self.ticket.take().unwrap(),
            self.collider.take().unwrap(),
        );

        let ghost bodies = physics.bodies_view();
        let body = body_mut(&mut physics.bodies, self.body);
        body.attach(self.handle);
        proof {
            if bodies.wf() {
                lemma_set(bodies, self.body, physics.bodies_view().get(self.body));
            }
        }
    }

    /// Gives up the reserved slot, if the command holds one.
    pub fn finalize(&mut self, physics: &mut Physics)
        ensures
            final(self)@.wf(),
            final(self).body() == old(self).body(),
            final(self)@ == (CommandView { slot: None, ..old(self)@ }),
            match old(self)@.slot {
                Some(slot) => final(physics).colliders_view()
                    == old(physics).colliders_view().forget(slot),
                None => final(physics).colliders == old(physics).colliders,
            },
            final(physics).bodies == old(physics).bodies,
            final(physics).joints == old(physics).joints,
            final(physics).binder == old(physics).binder,
            old(physics).wf() && old(self)@.fits(old(physics).colliders_view())
                ==> final(physics).wf(),
    {
        proof {
            if let Some(slot) = self@.slot {
                if physics.wf() && physics.colliders_view().is_reserved(slot) {
                    lemma_forget(physics.colliders_view(), slot);
                }
            }
        }
        if let Some(ticket) = self.ticket.take() {
            forget_collider_ticket(&mut physics.colliders, ticket)
        }
    }
}

} // verus!
