//! The per-instance object-data slot.
//!
//! The host owns one opaque memory block per instance and never looks
//! inside it; the plugin keeps the address of its heap-allocated native
//! object in one slot of that block. The whole lifecycle rests on a
//! borrow-then-return discipline: the constructor stores the object once,
//! every tick or method call takes it out and must release it back, and the
//! destructor takes it out one final time, after which the slot must not be
//! read again. None of this is checked at run time by the host — there is
//! no type or liveness metadata — so [`Instance`] makes the discipline a
//! precondition: storing over a live object or taking from an empty slot is
//! rejected by the verifier, not discovered as a leak or a double free.

use vstd::prelude::*;

verus! {

/// The block after an object is stored at `offset`.
pub open spec fn spec_store<T>(block: Seq<Option<T>>, offset: int, obj: T) -> Seq<Option<T>>
    recommends
        0 <= offset < block.len(),
        block[offset] is None,
{
    block.update(offset, Some(obj))
}

/// The object recovered by a take at `offset`.
pub open spec fn spec_taken<T>(block: Seq<Option<T>>, offset: int) -> T
    recommends
        0 <= offset < block.len(),
        block[offset] is Some,
{
    block[offset]->0
}

/// The block after a take at `offset`: the slot is empty again.
pub open spec fn spec_after_take<T>(block: Seq<Option<T>>, offset: int) -> Seq<Option<T>>
    recommends
        0 <= offset < block.len(),
        block[offset] is Some,
{
    block.update(offset, None)
}

/// A host-owned per-instance data block, seen through the only operations
/// the plugin may perform on it. Each slot either holds the plugin's native
/// object or is empty; the host never dereferences what is stored.
pub struct Instance<T> {
    slots: Vec<Option<T>>,
}

impl<T> View for Instance<T> {
    type V = Seq<Option<T>>;

    closed spec fn view(&self) -> Seq<Option<T>> {
        self.slots@
    }
}

impl<T> Instance<T> {
    /// A fresh block, as the host hands it to the constructor: every slot
    /// empty. The host sizes the block from the member slots the class
    /// registered.
    pub fn new(size: usize) -> (inst: Instance<T>)
        ensures
            inst@.len() == size,
            forall|i: int| 0 <= i < size ==> inst@[i] is None,
    {
        let mut slots: Vec<Option<T>> = Vec::new();
        while slots.len() < size
            invariant
                slots@.len() <= size,
                forall|j: int| 0 <= j < slots@.len() ==> slots@[j] is None,
            decreases size - slots@.len(),
        {
            slots.push(None);
        }
        Instance { slots }
    }

    /// Number of slots in the block.
    pub fn len(&self) -> (n: usize)
        ensures
            n == self@.len(),
    {
        self.slots.len()
    }

    /// Whether the slot at `offset` currently holds an object.
    pub fn is_live(&self, offset: usize) -> (live: bool)
        requires
            offset < self@.len(),
        ensures
            live == (self@[offset as int] is Some),
    {
        self.slots[offset].is_some()
    }

    /// Transfers exclusive ownership of the object into the slot at
    /// `offset`. The slot must not already hold a live object — storing
    /// over one would leak it.
    pub fn set_object_data(&mut self, offset: usize, obj: T)
        requires
            offset < old(self)@.len(),
            old(self)@[offset as int] is None,
        ensures
            final(self)@ == spec_store(old(self)@, offset as int, obj),
    {
        self.slots[offset] = Some(obj);
    }

    /// Recovers ownership of the object previously stored at `offset`,
    /// leaving the slot empty. A caller that does not release the object
    /// back lets it be destroyed when the returned value goes out of scope;
    /// that is the destructor's path, and the slot must then not be read
    /// again.
    pub fn get_object_data(&mut self, offset: usize) -> (obj: T)
        requires
            offset < old(self)@.len(),
            old(self)@[offset as int] is Some,
        ensures
            obj == spec_taken(old(self)@, offset as int),
            final(self)@ == spec_after_take(old(self)@, offset as int),
    {
        let slot = &mut self.slots[offset];
        let taken = slot.take();
        taken.unwrap()
    }

    /// Re-stores a previously taken object without destroying it, restoring
    /// the slot for the next callback. Every non-destructive callback must
    /// end with this call.
    pub fn release_back(&mut self, obj: T, offset: usize)
        requires
            offset < old(self)@.len(),
            old(self)@[offset as int] is None,
        ensures
            final(self)@ == spec_store(old(self)@, offset as int, obj),
    {
        self.set_object_data(offset, obj);
    }
}

/// Round trip of the slot discipline: after store → take → release_back,
/// the object recovered is exactly the object stored, and the block reads
/// exactly as it did right after the store.
pub proof fn lemma_slot_round_trip<T>(block: Seq<Option<T>>, offset: int, obj: T)
    requires
        0 <= offset < block.len(),
        block[offset] is None,
    ensures
        spec_taken(spec_store(block, offset, obj), offset) == obj,
        spec_store(
            spec_after_take(spec_store(block, offset, obj), offset),
            offset,
            spec_taken(spec_store(block, offset, obj), offset),
        ) == spec_store(block, offset, obj),
{
    let stored = spec_store(block, offset, obj);
    assert(spec_store(spec_after_take(stored, offset), offset, spec_taken(stored, offset))
        =~= stored);
}

/// A store followed by a take with no release back: the one object leaves
/// the block, the slot is empty again — so a further take at this offset is
/// not admissible — and the block is back to its state before the store.
pub proof fn lemma_slot_take_consumes<T>(block: Seq<Option<T>>, offset: int, obj: T)
    requires
        0 <= offset < block.len(),
        block[offset] is None,
    ensures
        spec_taken(spec_store(block, offset, obj), offset) == obj,
        spec_after_take(spec_store(block, offset, obj), offset)[offset] is None,
        spec_after_take(spec_store(block, offset, obj), offset) == block,
{
    assert(spec_after_take(spec_store(block, offset, obj), offset) =~= block);
}

} // verus!
