use crate::handle::Handle;
use crate::physics::body::RigidBody;
use crate::pool::model::PoolView;
use rg3d_core::pool::{Pool, Ticket};
use vstd::prelude::*;

verus! {

/// The records of a pool of bodies: for each slot its generation and the
/// body in it, if any.
pub uninterp spec fn body_records(pool: Pool<RigidBody>) -> Seq<(u32, Option<RigidBody>)>;

/// The free stack of a pool of bodies: the slots that it fills next, the
/// last one first.
pub uninterp spec fn body_free(pool: Pool<RigidBody>) -> Seq<u32>;

/// The slot that a ticket reserves.
pub uninterp spec fn body_ticket_slot(ticket: Ticket<RigidBody>) -> u32;

/// The state of a pool of bodies.
pub open spec fn bodies(pool: Pool<RigidBody>) -> PoolView<RigidBody> {
    PoolView { records: body_records(pool), free: body_free(pool) }
}

/// `Pool::new`: a pool without records and with an empty free stack.
#[verifier::external_body]
pub(crate) fn new_body_pool() -> (pool: Pool<RigidBody>)
    ensures
        body_records(pool) == Seq::<(u32, Option<RigidBody>)>::empty(),
        body_free(pool) == Seq::<u32>::empty(),
{
    Pool::new()
}

/// `Pool::spawn`: the payload goes into the slot on top of the free stack,
/// whose generation goes up by one, or, where the stack is empty, into a new
/// last slot of generation one. The handle returned names that slot and
/// generation. The pool panics where the slot on top of the stack does not
/// exist or is filled; `requires` leaves that out, and a generation or a
/// slot number that would not fit.
#[verifier::external_body]
pub(crate) fn spawn_body(pool: &mut Pool<RigidBody>, body: RigidBody) -> (handle: Handle)
    requires
        bodies(*old(pool)).can_spawn(),
    ensures
        handle == bodies(*old(pool)).next_handle(),
        bodies(*final(pool)) == bodies(*old(pool)).spawn(body),
{
    let handle = pool.spawn(body);
    Handle { index: handle.index(), generation: handle.generation() }
}

/// `Pool::take_reserve`: the payload leaves its slot, which keeps its
/// generation and does not go on the free stack; the ticket carries the
/// slot's number. The pool panics unless the handle names an object.
#[verifier::external_body]
pub(crate) fn take_reserve_body(pool: &mut Pool<RigidBody>, handle: Handle) -> (taken: (
    Ticket<RigidBody>,
    RigidBody,
))
    requires
        bodies(*old(pool)).is_live(handle),
    ensures
        body_ticket_slot(taken.0) == handle.index,
        taken.1 == bodies(*old(pool)).get(handle),
        bodies(*final(pool)) == bodies(*old(pool)).take(handle),
{
    pool.take_reserve(rg3d_core::pool::Handle::new(handle.index, handle.generation))
}

/// `Pool::put_back`: the value goes into the ticket's slot, which keeps its
/// generation; the handle returned names that slot and generation. The pool
/// panics unless the slot exists and holds nothing.
#[verifier::external_body]
pub(crate) fn put_back_body(
    pool: &mut Pool<RigidBody>,
    ticket: Ticket<RigidBody>,
    body: RigidBody,
) -> (handle: Handle)
    requires
        bodies(*old(pool)).is_vacant(body_ticket_slot(ticket)),
    ensures
        handle == bodies(*old(pool)).handle_at(body_ticket_slot(ticket)),
        bodies(*final(pool)) == bodies(*old(pool)).put_back(
            body_ticket_slot(ticket),
            body,
        ),
{
    let handle = pool.put_back(ticket, body);
    Handle { index: handle.index(), generation: handle.generation() }
}

/// `Pool::forget_ticket`: the ticket's slot goes on top of the free stack;
/// the records stay as they are.
#[verifier::external_body]
pub(crate) fn forget_body_ticket(pool: &mut Pool<RigidBody>, ticket: Ticket<RigidBody>)
    ensures
        bodies(*final(pool)) == bodies(*old(pool)).forget(body_ticket_slot(ticket)),
{
    pool.forget_ticket(ticket)
}

/// `Pool::try_borrow`: the object that the handle names, or nothing where
/// it names none.
#[verifier::external_body]
pub(crate) fn body_ref(pool: &Pool<RigidBody>, handle: Handle) -> (body: Option<&RigidBody>)
    ensures
        body == if bodies(*pool).is_live(handle) {
            Some(&bodies(*pool).get(handle))
        } else {
            None
        },
{
    pool.try_borrow(rg3d_core::pool::Handle::new(handle.index, handle.generation))
}

/// `IndexMut::index_mut` of the pool, which is `Pool::borrow_mut`: a mutable
/// reference to the object that the handle names. What is written through it
/// is what the slot holds afterwards; nothing else changes. The pool panics
/// unless the handle names an object.
#[verifier::external_body]
pub(crate) fn body_mut(pool: &mut Pool<RigidBody>, handle: Handle) -> (body: &mut RigidBody)
    requires
        bodies(*old(pool)).is_live(handle),
    ensures
        *body == bodies(*old(pool)).get(handle),
        bodies(*final(pool)) == bodies(*old(pool)).set(handle, *final(body)),
{
    &mut pool[rg3d_core::pool::Handle::new(handle.index, handle.generation)]
}

} // verus!
