pub mod body;
pub mod body_properties;
pub mod collider;
pub mod collider_properties;
pub mod joint;
pub mod joint_properties;

use crate::handle::Handle;
use crate::pool::model::{
    lemma_put_back, lemma_spawn, lemma_take, lemma_take_then_put_back, PoolView,
};
use vstd::prelude::*;

verus! {

/// What a command that puts an object into a pool, or takes one out, holds.
///
/// `handle` names the object while it is in the pool. While it is out, the
/// command keeps it in `object`, and `slot` is the slot that the pool
/// reserves for it, for as long as the command holds the ticket.
pub struct CommandView<T> {
    pub handle: Handle,
    pub object: Option<T>,
    pub slot: Option<u32>,
}

/// What a command that sets a property holds: the handle of the object and
/// the value that it gives the property next. Once the command has run, that
/// is the value that the property had before.
pub struct PropertyView<V> {
    pub handle: Handle,
    pub value: V,
}

impl<T> CommandView<T> {
    /// A command holds a ticket only together with the object that was taken
    /// out, and only for the slot that its handle names. This holds of every
    /// command from the start and after each of its steps.
    pub open spec fn wf(self) -> bool {
        self.slot is Some ==> self.object is Some && self.slot == Some(self.handle.index)
    }

    /// The command holds an object and the pool can take it: into the
    /// command's slot where it holds a ticket, as a new object where not.
    pub open spec fn can_place(self, pool: PoolView<T>) -> bool {
        &&& self.object is Some
        &&& match self.slot {
            Some(slot) => pool.is_vacant(slot),
            None => pool.can_spawn(),
        }
    }

    /// The pool after it took the command's object.
    pub open spec fn placed(self, pool: PoolView<T>) -> PoolView<T> {
        match self.slot {
            Some(slot) => pool.put_back(slot, self.object->0),
            None => pool.spawn(self.object->0),
        }
    }

    /// The handle under which the pool returns the command's object.
    pub open spec fn placed_handle(self, pool: PoolView<T>) -> Handle {
        match self.slot {
            Some(slot) => pool.handle_at(slot),
            None => pool.next_handle(),
        }
    }

    /// The handle of a command that keeps the one it has where it puts its
    /// object back, and takes the pool's where the object is new.
    pub open spec fn kept_handle(self, pool: PoolView<T>) -> Handle {
        match self.slot {
            Some(_) => self.handle,
            None => pool.next_handle(),
        }
    }

    /// The pool is well formed and keeps the command's slot reserved, where
    /// it has one.
    pub open spec fn fits(self, pool: PoolView<T>) -> bool {
        &&& pool.wf()
        &&& self.slot matches Some(slot) ==> pool.is_reserved(slot)
    }
}

/// A pool that takes the object of a command that fits it stays well formed,
/// and the object is then found under the handle that the pool returns, which
/// named nothing before.
pub proof fn lemma_placed<T>(command: CommandView<T>, pool: PoolView<T>)
    requires
        command.can_place(pool),
        command.fits(pool),
    ensures
        command.placed(pool).wf(),
        !pool.is_live(command.placed_handle(pool)),
        command.placed(pool).is_live(command.placed_handle(pool)),
        command.placed(pool).objects() == pool.objects().insert(
            command.placed_handle(pool),
            command.object->0,
        ),
{
    match command.slot {
        Some(slot) => lemma_put_back(pool, slot, command.object->0),
        None => lemma_spawn(pool, command.object->0),
    }
}

/// Undo and redo: where a pool took the object of a command that fits it,
/// taking the object out again leaves the objects of the pool as they were
/// and its slot reserved under the same handle, and putting it back there
/// gives the very pool that took it first.
pub proof fn lemma_round_trip<T>(command: CommandView<T>, pool: PoolView<T>)
    requires
        command.can_place(pool),
        command.fits(pool),
    ensures
        command.placed(pool).take(command.placed_handle(pool)).wf(),
        command.placed(pool).take(command.placed_handle(pool)).objects() == pool.objects(),
        command.placed(pool).take(command.placed_handle(pool)).is_reserved(
            command.placed_handle(pool).index,
        ),
        command.placed(pool).take(command.placed_handle(pool)).handle_at(
            command.placed_handle(pool).index,
        ) == command.placed_handle(pool),
        command.placed(pool).take(command.placed_handle(pool)).put_back(
            command.placed_handle(pool).index,
            command.object->0,
        ) == command.placed(pool),
{
    let done = command.placed(pool);
    let handle = command.placed_handle(pool);
    lemma_placed(command, pool);
    lemma_take(done, handle);
    lemma_take_then_put_back(done, handle);
    assert(pool.objects().insert(handle, command.object->0).remove(handle) =~= pool.objects());
}

} // verus!
