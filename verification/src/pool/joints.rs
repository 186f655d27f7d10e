use crate::handle::Handle;
use crate::physics::joint::Joint;
use crate::pool::model::PoolView;
use rg3d_core::pool::{Pool, Ticket};
use vstd::prelude::*;

verus! {

/// The records of a pool of joints: for each slot its generation and the
/// joint in it, if any.
pub uninterp spec fn joint_records(pool: Pool<Joint>) -> Seq<(u32, Option<Joint>)>;

/// The free stack of a pool of joints: the slots that it fills next, the
/// last one first.
pub uninterp spec fn joint_free(pool: Pool<Joint>) -> Seq<u32>;

/// The slot that a ticket reserves.
pub uninterp spec fn joint_ticket_slot(ticket: Ticket<Joint>) -> u32;

/// The state of a pool of joints.
pub open spec fn joints(pool: Pool<Joint>) -> PoolView<Joint> {
    PoolView { records: joint_records(pool), free: joint_free(pool) }
}

/// `Pool::new`: a pool without records and with an empty free stack.
#[verifier::external_body]
pub(crate) fn new_joint_pool() -> (pool: Pool<Joint>)
    ensures
        joint_records(pool) == Seq::<(u32, Option<Joint>)>::empty(),
        joint_free(pool) == Seq::<u32>::empty(),
{
    Pool::new()
}

/// `Pool::spawn`: the payload goes into the slot on top of the free stack,
/// whose generation goes up by one, or, where the stack is empty, into a new
/// last slot of generation one. The handle returned names that slot and
/// generation. The pool panics where the slot on top of the stack does not
/// exist or is filled; `requires` leaves that out, and a generation or a
/// slot number that would not fit.
#[verifier::external_body]
pub(crate) fn spawn_joint(pool: &mut Pool<Joint>, joint: Joint) -> (handle: Handle)
    requires
        joints(*old(pool)).can_spawn(),
    ensures
        handle == joints(*old(pool)).next_handle(),
        joints(*final(pool)) == joints(*old(pool)).spawn(joint),
{
    let handle = pool.spawn(joint);
    Handle { index: handle.index(), generation: handle.generation() }
}

/// `Pool::take_reserve`: the payload leaves its slot, which keeps its
/// generation and does not go on the free stack; the ticket carries the
/// slot's number. The pool panics unless the handle names an object.
#[verifier::external_body]
pub(crate) fn take_reserve_joint(pool: &mut Pool<Joint>, handle: Handle) -> (taken: (
    Ticket<Joint>,
    Joint,
))
    requires
        joints(*old(pool)).is_live(handle),
    ensures
        joint_ticket_slot(taken.0) == handle.index,
        taken.1 == joints(*old(pool)).get(handle),
        joints(*final(pool)) == joints(*old(pool)).take(handle),
{
    pool.take_reserve(rg3d_core::pool::Handle::new(handle.index, handle.generation))
}

/// `Pool::put_back`: the value goes into the ticket's slot, which keeps its
/// generation; the handle returned names that slot and generation. The pool
/// panics unless the slot exists and holds nothing.
#[verifier::external_body]
pub(crate) fn put_back_joint(
    pool: &mut Pool<Joint>,
    ticket: Ticket<Joint>,
    joint: Joint,
) -> (handle: Handle)
    requires
        joints(*old(pool)).is_vacant(joint_ticket_slot(ticket)),
    ensures
        handle == joints(*old(pool)).handle_at(joint_ticket_slot(ticket)),
        joints(*final(pool)) == joints(*old(pool)).put_back(
            joint_ticket_slot(ticket),
            joint,
        ),
{
    let handle = pool.put_back(ticket, joint);
    Handle { index: handle.index(), generation: handle.generation() }
}

/// `Pool::forget_ticket`: the ticket's slot goes on top of the free stack;
/// the records stay as they are.
#[verifier::external_body]
pub(crate) fn forget_joint_ticket(pool: &mut Pool<Joint>, ticket: Ticket<Joint>)
    ensures
        joints(*final(pool)) == joints(*old(pool)).forget(joint_ticket_slot(ticket)),
{
    pool.forget_ticket(ticket)
}

/// `Pool::try_borrow`: the object that the handle names, or nothing where
/// it names none.
#[verifier::external_body]
pub(crate) fn joint_ref(pool: &Pool<Joint>, handle: Handle) -> (joint: Option<&Joint>)
    ensures
        joint == if joints(*pool).is_live(handle) {
            Some(&joints(*pool).get(handle))
        } else {
            None
        },
{
    pool.try_borrow(rg3d_core::pool::Handle::new(handle.index, handle.generation))
}

/// `IndexMut::index_mut` of the pool, which is `Pool::borrow_mut`: a mutable
/// reference to the object that the handle names. What is written through it
/// is what the slot holds afterwards; nothing else changes. The pool panics
/// unless the handle names an object.
#[verifier::external_body]
pub(crate) fn joint_mut(pool: &mut Pool<Joint>, handle: Handle) -> (joint: &mut Joint)
    requires
        joints(*old(pool)).is_live(handle),
    ensures
        *joint == joints(*old(pool)).get(handle),
        joints(*final(pool)) == joints(*old(pool)).set(handle, *final(joint)),
{
    &mut pool[rg3d_core::pool::Handle::new(handle.index, handle.generation)]
}

} // verus!
