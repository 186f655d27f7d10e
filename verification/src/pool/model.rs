use crate::handle::Handle;
use vstd::prelude::*;

verus! {

/// The state of a generational pool, as mathematics.
///
/// `records` holds, slot by slot, the generation of the slot and the object in
/// it, if any. `free` is the stack of slots that the pool will fill next, the
/// last one first. A slot that holds nothing and is not on the free stack is
/// reserved: it waits for the object that was taken out of it.
#[verifier::ext_equal]
pub struct PoolView<T> {
    pub records: Seq<(u32, Option<T>)>,
    pub free: Seq<u32>,
}

impl<T> PoolView<T> {
    pub open spec fn empty() -> Self {
        PoolView { records: Seq::empty(), free: Seq::empty() }
    }

    /// The slot exists and holds nothing.
    pub open spec fn is_vacant(self, slot: u32) -> bool {
        slot < self.records.len() && self.records[slot as int].1 is None
    }

    /// The slot holds nothing and is kept for an object that was taken out.
    pub open spec fn is_reserved(self, slot: u32) -> bool {
        self.is_vacant(slot) && !self.free.contains(slot)
    }

    /// The handle names an object of the pool.
    pub open spec fn is_live(self, handle: Handle) -> bool {
        &&& handle.index < self.records.len()
        &&& self.records[handle.index as int].0 == handle.generation
        &&& self.records[handle.index as int].1 is Some
    }

    /// The object that a live handle names.
    pub open spec fn get(self, handle: Handle) -> T {
        self.records[handle.index as int].1->0
    }

    /// The objects of the pool, each under its handle.
    pub open spec fn objects(self) -> Map<Handle, T> {
        Map::new(|handle: Handle| self.is_live(handle), |handle: Handle| self.get(handle))
    }

    /// The handle under which a slot's object is, or would be, found.
    pub open spec fn handle_at(self, slot: u32) -> Handle {
        Handle { index: slot, generation: self.records[slot as int].0 }
    }

    /// Every slot on the free stack exists, holds nothing and stands there
    /// once, and a slot number fits the handle's index.
    pub open spec fn wf(self) -> bool {
        &&& self.records.len() <= u32::MAX
        &&& self.free.no_duplicates()
        &&& forall|i: int| 0 <= i < self.free.len() ==> self.is_vacant(#[trigger] self.free[i])
    }

    /// A new object can be put in: the slot it would get is there to be
    /// filled, and neither the slot number nor the generation runs out.
    pub open spec fn can_spawn(self) -> bool {
        if self.free.len() > 0 {
            self.is_vacant(self.free.last()) && self.records[self.free.last() as int].0 < u32::MAX
        } else {
            self.records.len() < u32::MAX
        }
    }

    /// The handle that the next new object gets.
    pub open spec fn next_handle(self) -> Handle {
        if self.free.len() > 0 {
            Handle {
                index: self.free.last(),
                generation: (self.records[self.free.last() as int].0 + 1) as u32,
            }
        } else {
            Handle { index: self.records.len() as u32, generation: 1 }
        }
    }

    /// The pool after a new object was put in.
    pub open spec fn spawn(self, value: T) -> Self {
        if self.free.len() > 0 {
            PoolView {
                records: self.records.update(
                    self.free.last() as int,
                    (self.next_handle().generation, Some(value)),
                ),
                free: self.free.drop_last(),
            }
        } else {
            PoolView { records: self.records.push((1u32, Some(value))), free: self.free }
        }
    }

    /// The pool after the object of a live handle was taken out and its slot
    /// reserved.
    pub open spec fn take(self, handle: Handle) -> Self {
        PoolView {
            records: self.records.update(handle.index as int, (handle.generation, None)),
            free: self.free,
        }
    }

    /// The pool after an object was put into a slot that held nothing.
    pub open spec fn put_back(self, slot: u32, value: T) -> Self {
        PoolView {
            records: self.records.update(slot as int, (self.records[slot as int].0, Some(value))),
            free: self.free,
        }
    }

    /// The pool after a slot was given up for reuse.
    pub open spec fn forget(self, slot: u32) -> Self {
        PoolView { records: self.records, free: self.free.push(slot) }
    }

    /// The pool after the object of a live handle was replaced.
    pub open spec fn set(self, handle: Handle, value: T) -> Self {
        PoolView {
            records: self.records.update(handle.index as int, (handle.generation, Some(value))),
            free: self.free,
        }
    }
}

/// A new object gets a handle that named nothing before, and is afterwards the
/// only change to the objects of the pool. It never goes into a reserved
/// slot, and the reserved slots stay reserved.
pub proof fn lemma_spawn<T>(pool: PoolView<T>, value: T)
    requires
        pool.wf(),
        pool.can_spawn(),
    ensures
        pool.spawn(value).wf(),
        !pool.is_live(pool.next_handle()),
        pool.next_handle().generation != 0,
        pool.spawn(value).is_live(pool.next_handle()),
        pool.spawn(value).objects() == pool.objects().insert(pool.next_handle(), value),
        forall|slot: u32| pool.is_reserved(slot) ==> pool.next_handle().index != slot,
        forall|slot: u32| pool.is_reserved(slot) <==> pool.spawn(value).is_reserved(slot),
        forall|slot: u32|
            pool.is_reserved(slot) ==> pool.spawn(value).handle_at(slot) == pool.handle_at(slot),
        forall|handle: Handle| pool.is_live(handle) ==> pool.spawn(value).is_live(handle),
{
    let after = pool.spawn(value);
    let handle = pool.next_handle();
    if pool.free.len() > 0 {
        let top = pool.free.last();
        assert(pool.free[pool.free.len() - 1] == top);
        assert forall|i: int| 0 <= i < after.free.len() implies after.is_vacant(
            #[trigger] after.free[i],
        ) by {
            assert(after.free[i] == pool.free[i]);
            assert(pool.is_vacant(pool.free[i]));
        }
        assert forall|slot: u32| pool.is_reserved(slot) <==> after.is_reserved(slot) by {
            if slot != top && pool.free.contains(slot) {
                let i = choose|i: int| 0 <= i < pool.free.len() && pool.free[i] == slot;
                assert(after.free[i] == slot);
            }
            if after.free.contains(slot) {
                let i = choose|i: int| 0 <= i < after.free.len() && after.free[i] == slot;
                assert(pool.free[i] == slot);
            }
        }
    } else {
        assert forall|slot: u32| pool.is_reserved(slot) <==> after.is_reserved(slot) by {}
    }
    assert(after.objects() =~= pool.objects().insert(handle, value));
}

/// Taking an object out removes it from the objects of the pool and nothing
/// else, and reserves its slot under the same generation.
pub proof fn lemma_take<T>(pool: PoolView<T>, handle: Handle)
    requires
        pool.wf(),
        pool.is_live(handle),
    ensures
        pool.take(handle).wf(),
        pool.take(handle).is_reserved(handle.index),
        pool.take(handle).handle_at(handle.index) == handle,
        pool.take(handle).objects() == pool.objects().remove(handle),
        forall|slot: u32|
            slot != handle.index ==> (pool.is_reserved(slot) <==> pool.take(handle).is_reserved(
                slot,
            )),
        forall|slot: u32|
            slot < pool.records.len() ==> pool.take(handle).handle_at(slot) == pool.handle_at(
                slot,
            ),
{
    let after = pool.take(handle);
    assert forall|i: int| 0 <= i < after.free.len() implies after.is_vacant(
        #[trigger] after.free[i],
    ) by {
        assert(pool.is_vacant(pool.free[i]));
    }
    if pool.free.contains(handle.index) {
        let i = choose|i: int| 0 <= i < pool.free.len() && pool.free[i] == handle.index;
        assert(pool.is_vacant(pool.free[i]));
    }
    assert(after.objects() =~= pool.objects().remove(handle));
}

/// Putting an object into a reserved slot makes it live again under the
/// handle it had, and changes nothing else.
pub proof fn lemma_put_back<T>(pool: PoolView<T>, slot: u32, value: T)
    requires
        pool.wf(),
        pool.is_reserved(slot),
    ensures
        pool.put_back(slot, value).wf(),
        !pool.is_live(pool.handle_at(slot)),
        pool.put_back(slot, value).is_live(pool.handle_at(slot)),
        pool.put_back(slot, value).objects() == pool.objects().insert(
            pool.handle_at(slot),
            value,
        ),
        forall|other: u32|
            other != slot ==> (pool.is_reserved(other) <==> pool.put_back(slot, value).is_reserved(
                other,
            )),
        forall|other: u32|
            other < pool.records.len() ==> pool.put_back(slot, value).handle_at(other)
                == pool.handle_at(other),
{
    let after = pool.put_back(slot, value);
    assert forall|i: int| 0 <= i < after.free.len() implies after.is_vacant(
        #[trigger] after.free[i],
    ) by {
        assert(pool.is_vacant(pool.free[i]));
        assert(pool.free.contains(pool.free[i]));
    }
    assert(after.objects() =~= pool.objects().insert(pool.handle_at(slot), value));
}

/// Giving up a reserved slot changes no object; the slot is the next to be
/// filled, under the generation that follows the one it has.
pub proof fn lemma_forget<T>(pool: PoolView<T>, slot: u32)
    requires
        pool.wf(),
        pool.is_reserved(slot),
    ensures
        pool.forget(slot).wf(),
        !pool.forget(slot).is_reserved(slot),
        pool.forget(slot).objects() == pool.objects(),
        pool.forget(slot).next_handle().index == slot,
        pool.handle_at(slot).generation < u32::MAX ==> {
            &&& pool.forget(slot).can_spawn()
            &&& pool.forget(slot).next_handle().generation == pool.handle_at(slot).generation + 1
        },
        forall|other: u32|
            other != slot ==> (pool.is_reserved(other) <==> pool.forget(slot).is_reserved(other)),
{
    let after = pool.forget(slot);
    assert(after.free[after.free.len() - 1] == slot);
    assert forall|i: int| 0 <= i < after.free.len() implies after.is_vacant(
        #[trigger] after.free[i],
    ) by {
        if i < pool.free.len() {
            assert(pool.is_vacant(pool.free[i]));
        }
    }
    assert forall|other: u32| other != slot implies (pool.is_reserved(other)
        <==> after.is_reserved(other)) by {
        if pool.free.contains(other) {
            let i = choose|i: int| 0 <= i < pool.free.len() && pool.free[i] == other;
            assert(after.free[i] == other);
        }
        if after.free.contains(other) {
            let i = choose|i: int| 0 <= i < after.free.len() && after.free[i] == other;
            assert(pool.free[i] == other);
        }
    }
    assert(after.objects() =~= pool.objects());
}

/// A slot must be given up once only: a pool in which a slot was given up
/// twice is no longer well formed, for the slot would be filled twice.
pub proof fn lemma_forget_twice<T>(pool: PoolView<T>, slot: u32)
    ensures
        !pool.forget(slot).forget(slot).wf(),
{
    let after = pool.forget(slot).forget(slot);
    assert(after.free[after.free.len() - 1] == slot);
    assert(after.free[after.free.len() - 2] == slot);
}

/// Replacing the object of a live handle changes that entry of the objects
/// alone.
pub proof fn lemma_set<T>(pool: PoolView<T>, handle: Handle, value: T)
    requires
        pool.wf(),
        pool.is_live(handle),
    ensures
        pool.set(handle, value).wf(),
        pool.set(handle, value).objects() == pool.objects().insert(handle, value),
        forall|slot: u32| pool.is_reserved(slot) <==> pool.set(handle, value).is_reserved(slot),
        forall|slot: u32|
            slot < pool.records.len() ==> pool.set(handle, value).handle_at(slot)
                == pool.handle_at(slot),
{
    let after = pool.set(handle, value);
    assert forall|i: int| 0 <= i < after.free.len() implies after.is_vacant(
        #[trigger] after.free[i],
    ) by {
        assert(pool.is_vacant(pool.free[i]));
    }
    assert(after.objects() =~= pool.objects().insert(handle, value));
}

/// An object that is taken out and put back leaves the pool as it was.
pub proof fn lemma_take_then_put_back<T>(pool: PoolView<T>, handle: Handle)
    requires
        pool.is_live(handle),
    ensures
        pool.take(handle).put_back(handle.index, pool.get(handle)) == pool,
{
    let after = pool.take(handle).put_back(handle.index, pool.get(handle));
    assert(after.records =~= pool.records);
}

/// An object that is put back and taken out again leaves the pool as it was,
/// the slot reserved as before.
pub proof fn lemma_put_back_then_take<T>(pool: PoolView<T>, slot: u32, value: T)
    requires
        pool.is_vacant(slot),
    ensures
        pool.put_back(slot, value).take(pool.handle_at(slot)) == pool,
{
    let after = pool.put_back(slot, value).take(pool.handle_at(slot));
    assert(after.records =~= pool.records);
}

} // verus!
