use crate::handle::Handle;
use crate::physics::collider::Collider;
use crate::pool::model::PoolView;
use rg3d_core::pool::{Pool, Ticket};
use vstd::prelude::*;

verus! {

/// The records of a pool of colliders: for each slot its generation and the
/// collider in it, if any.
pub uninterp spec fn collider_records(pool: Pool<Collider>) -> Seq<(u32, Option<Collider>)>;

/// The free stack of a pool of colliders: the slots that it fills next, the
/// last one first.
pub uninterp spec fn collider_free(pool: Pool<Collider>) -> Seq<u32>;

/// The slot that a ticket reserves.
pub uninterp spec fn collider_ticket_slot(ticket: Ticket<Collider>) -> u32;

/// The state of a pool of colliders.
pub open spec fn colliders(pool: Pool<Collider>) -> PoolView<Collider> {
    PoolView { records: collider_records(pool), free: collider_free(pool) }
}

/// `Pool::new`: a pool without records and with an empty free stack.
#[verifier::external_body]
pub(crate) fn new_collider_pool() -> (pool: Pool<Collider>)
    ensures
        collider_records(pool) == Seq::<(u32, Option<Collider>)>::empty(),
        collider_free(pool) == Seq::<u32>::empty(),
{
    Pool::new()
}

/// `Pool::spawn`: the payload goes into the slot on top of the free stack,
/// whose generation goes up by one, or, where the stack is empty, into a new
/// last slot of generation one. The handle returned names that slot and
/// generation. The pool panics where the slot on top of the stack does not
/// exist or is filled; `requires` leaves that out, and a generation or a
/// slot number that would not fit.
#[verifier::external_body]
pub(crate) fn spawn_collider(pool: &mut Pool<Collider>, collider: Collider) -> (handle: Handle)
    requires
        colliders(*old(pool)).can_spawn(),
    ensures
        handle == colliders(*old(pool)).next_handle(),
        colliders(*final(pool)) == colliders(*old(pool)).spawn(collider),
{
    let handle = pool.spawn(collider);
    Handle { index: handle.index(), generation: handle.generation() }
}

/// `Pool::take_reserve`: the payload leaves its slot, which keeps its
/// generation and does not go on the free stack; the ticket carries the
/// slot's number. The pool panics unless the handle names an object.
#[verifier::external_body]
pub(crate) fn take_reserve_collider(pool: &mut Pool<Collider>, handle: Handle) -> (taken: (
    Ticket<Collider>,
    Collider,
))
    requires
        colliders(*old(pool)).is_live(handle),
    ensures
        collider_ticket_slot(taken.0) == handle.index,
        taken.1 == colliders(*old(pool)).get(handle),
        colliders(*final(pool)) == colliders(*old(pool)).take(handle),
{
    pool.take_reserve(rg3d_core::pool::Handle::new(handle.index, handle.generation))
}

/// `Pool::put_back`: the value goes into the ticket's slot, which keeps its
/// generation; the handle returned names that slot and generation. The pool
/// panics unless the slot exists and holds nothing.
#[verifier::external_body]
pub(crate) fn put_back_collider(
    pool: &mut Pool<Collider>,
    ticket: Ticket<Collider>,
    collider: Collider,
) -> (handle: Handle)
    requires
        colliders(*old(pool)).is_vacant(collider_ticket_slot(ticket)),
    ensures
        handle == colliders(*old(pool)).handle_at(collider_ticket_slot(ticket)),
        colliders(*final(pool)) == colliders(*old(pool)).put_back(
            collider_ticket_slot(ticket),
            collider,
        ),
{
    let handle = pool.put_back(ticket, collider);
    Handle { index: handle.index(), generation: handle.generation() }
}

/// `Pool::forget_ticket`: the ticket's slot goes on top of the free stack;
/// the records stay as they are.
#[verifier::external_body]
pub(crate) fn forget_collider_ticket(pool: &mut Pool<Collider>, ticket: Ticket<Collider>)
    ensures
        colliders(*final(pool)) == colliders(*old(pool)).forget(collider_ticket_slot(ticket)),
{
    pool.forget_ticket(ticket)
}

/// `Pool::try_borrow`: the object that the handle names, or nothing where
/// it names none.
#[verifier::external_body]
pub(crate) fn collider_ref(pool: &Pool<Collider>, handle: Handle) -> (collider: Option<&Collider>)
    ensures
        collider == if colliders(*pool).is_live(handle) {
            Some(&colliders(*pool).get(handle))
        } else {
            None
        },
{
    pool.try_borrow(rg3d_core::pool::Handle::new(handle.index, handle.generation))
}

/// `IndexMut::index_mut` of the pool, which is `Pool::borrow_mut`: a mutable
/// reference to the object that the handle names. What is written through it
/// is what the slot holds afterwards; nothing else changes. The pool panics
/// unless the handle names an object.
#[verifier::external_body]
pub(crate) fn collider_mut(pool: &mut Pool<Collider>, handle: Handle) -> (collider: &mut Collider)
    requires
        colliders(*old(pool)).is_live(handle),
    ensures
        *collider == colliders(*old(pool)).get(handle),
        colliders(*final(pool)) == colliders(*old(pool)).set(handle, *final(collider)),
{
    &mut pool[rg3d_core::pool::Handle::new(handle.index, handle.generation)]
}

} // verus!
