use vstd::prelude::*;
use crate::deref_move::DerefMove;
use crate::move_ref::MoveRef;
use crate::new::TryNew;
use crate::pin::Pinned;
use crate::slot::Slot;
use crate::slot_storage::{destructor_runs, SlotStorage, SlotStorageKind, SlotStorageTeardown};

verus! {

// Each law speaks of a run of calls. A call stands in `requires` as the
// relation that its contract makes between what it takes and what it gives.
// A parameter `storage` is the borrow of a storage that `slot` takes: it
// holds the storage as it is before the borrow, and `*final(storage)` is the
// storage once the slot, and the reference made from it, are gone.

/// Reading through the reference that `put` made in a new storage of any kind
/// yields the value that was put.
pub proof fn lemma_put_then_read<'frame, T>(
    kind: SlotStorageKind,
    storage: &'frame mut SlotStorage<T>,
    slot: Slot<'frame, T>,
    val: T,
    mov: MoveRef<'frame, T>,
    read: &T,
)
    requires
        call_ensures(SlotStorage::<T>::new, (kind,), *storage),
        call_ensures(SlotStorage::<T>::slot, (storage,), slot),
        call_ensures(Slot::<'frame, T>::put, (slot, val), mov),
        call_ensures(MoveRef::<'frame, T>::as_ptr, (&mov,), read),
    ensures
        call_requires(Slot::<'frame, T>::put, (slot, val)),
        *read == val,
{
}

/// A new storage of any kind through which nothing was constructed is torn
/// down without any effect: nothing was written, no destructor runs and no
/// leak is found.
pub proof fn lemma_unused_storage_tears_down_silently<T>(
    kind: SlotStorageKind,
    storage: SlotStorage<T>,
    outcome: SlotStorageTeardown<T>,
)
    requires
        call_ensures(SlotStorage::<T>::new, (kind,), storage),
        call_ensures(SlotStorage::<T>::drop, (storage,), outcome),
    ensures
        outcome is Uninitialized,
        destructor_runs(outcome.destroyed()) == 0,
{
}

/// A construction that fails in the slot of a new storage returns the error of
/// the initializer and leaves no trace: the teardown of the storage finds
/// nothing written, whatever the kind of the storage, and runs no destructor.
pub proof fn lemma_failed_construction_leaves_no_trace<'frame, T, N: TryNew<Output = T>>(
    kind: SlotStorageKind,
    storage: &'frame mut SlotStorage<T>,
    slot: Slot<'frame, T>,
    new: N,
    error: N::Error,
    outcome: SlotStorageTeardown<T>,
)
    requires
        call_ensures(SlotStorage::<T>::new, (kind,), *storage),
        call_ensures(SlotStorage::<T>::slot, (storage,), slot),
        call_ensures(Slot::<'frame, T>::try_emplace::<N>, (slot, new), Err(error)),
        call_ensures(SlotStorage::<T>::drop, (*final(storage),), outcome),
    ensures
        call_requires(Slot::<'frame, T>::try_emplace::<N>, (slot, new)),
        new.try_fails(error),
        outcome is Uninitialized,
        destructor_runs(outcome.destroyed()) == 0,
{
}

/// A reference `mov` that was made by filling the vacant slot of a storage,
/// and was not released, runs the destructor of its referent when its own
/// destructor runs. The teardown of the storage then runs no destructor and
/// finds no leak, whatever the kind of the storage: the destructor of the
/// referent runs exactly once.
pub proof fn lemma_destructor_runs_once<'frame, T>(
    storage: &'frame mut SlotStorage<T>,
    slot: Slot<'frame, T>,
    mov: MoveRef<'frame, T>,
    outcome: SlotStorageTeardown<T>,
)
    requires
        call_ensures(SlotStorage::<T>::slot, (storage,), slot),
        slot.is_vacant(),
        mov.status() == slot.status().initialize(),
        *final(mov.memory()) == *final(slot.memory()),
        *final(mov.tracker()) == *final(slot.tracker()),
        !mov.status().released,
        call_ensures(MoveRef::<'frame, T>::drop, (mov,), ()),
        call_ensures(SlotStorage::<T>::drop, (*final(storage),), outcome),
    ensures
        mov.destroyed_by_drop() == Some(mov.value()),
        destructor_runs(mov.destroyed_by_drop()) + destructor_runs(outcome.destroyed()) == 1,
        !(outcome is Leaking),
        !(outcome is Uninitialized),
{
}

/// After the release of a reference that was made by filling the vacant slot
/// of a storage, the teardown of the storage finds no leak. Where the storage
/// keeps its referent, the teardown runs no destructor: the referent is
/// destroyed by whoever took it over, and by nobody else.
pub proof fn lemma_released_referent_is_left_alone<'frame, T>(
    storage: &'frame mut SlotStorage<T>,
    slot: Slot<'frame, T>,
    pin: Pinned<MoveRef<'frame, T>>,
    ptr: &'frame mut T,
    outcome: SlotStorageTeardown<T>,
)
    requires
        storage.kind() == SlotStorageKind::Keep,
        call_ensures(SlotStorage::<T>::slot, (storage,), slot),
        slot.is_vacant(),
        pin.pointer().status() == slot.status().initialize(),
        *final(pin.pointer().memory()) == *final(slot.memory()),
        *final(pin.pointer().tracker()) == *final(slot.tracker()),
        call_ensures(MoveRef::<'frame, T>::release, (pin,), ptr),
        call_ensures(SlotStorage::<T>::drop, (*final(storage),), outcome),
    ensures
        *old(ptr) == pin.pointer().value(),
        outcome is Kept,
        outcome->Kept_0@ == Some(*final(ptr)),
        destructor_runs(outcome.destroyed()) == 0,
{
}

/// After the release of a reference that was made by filling the vacant slot
/// of a storage, the teardown of a storage that drops its referent finds no
/// leak, and runs the destructor of what the memory then holds: the referent
/// as whoever took it over left it.
pub proof fn lemma_released_referent_is_dropped_with_its_storage<'frame, T>(
    storage: &'frame mut SlotStorage<T>,
    slot: Slot<'frame, T>,
    pin: Pinned<MoveRef<'frame, T>>,
    ptr: &'frame mut T,
    outcome: SlotStorageTeardown<T>,
)
    requires
        storage.kind() == SlotStorageKind::Drop,
        call_ensures(SlotStorage::<T>::slot, (storage,), slot),
        slot.is_vacant(),
        pin.pointer().status() == slot.status().initialize(),
        *final(pin.pointer().memory()) == *final(slot.memory()),
        *final(pin.pointer().tracker()) == *final(slot.tracker()),
        call_ensures(MoveRef::<'frame, T>::release, (pin,), ptr),
        call_ensures(SlotStorage::<T>::drop, (*final(storage),), outcome),
    ensures
        *old(ptr) == pin.pointer().value(),
        outcome == SlotStorageTeardown::Dropped(Some(*final(ptr))),
        destructor_runs(outcome.destroyed()) == 1,
{
}

/// Moving the referent out of the reference that `put` made yields the value
/// that was put. The teardown of the storage then runs no destructor and finds
/// no leak, whatever the kind of the storage: the value is destroyed by whoever
/// holds it, and by nobody else.
pub proof fn lemma_moved_out_referent_is_not_destroyed<'frame, T>(
    storage: &'frame mut SlotStorage<T>,
    slot: Slot<'frame, T>,
    val: T,
    mov: MoveRef<'frame, T>,
    moved: T,
    outcome: SlotStorageTeardown<T>,
)
    requires
        call_ensures(SlotStorage::<T>::slot, (storage,), slot),
        slot.is_vacant(),
        call_ensures(Slot::<'frame, T>::put, (slot, val), mov),
        call_ensures(MoveRef::<'frame, T>::into_inner, (mov,), moved),
        call_ensures(SlotStorage::<T>::drop, (*final(storage),), outcome),
    ensures
        moved == val,
        destructor_runs(outcome.destroyed()) == 0,
        !(outcome is Leaking),
        !(outcome is Uninitialized),
{
}

/// A reference that was made by filling the vacant slot of a storage that was
/// not released, and is then forgotten, leaves the storage counting it: the
/// teardown of the storage finds the leak, whatever the kind of the storage,
/// and runs no destructor.
pub proof fn lemma_forgotten_reference_leaks<'frame, T>(
    storage: &'frame mut SlotStorage<T>,
    slot: Slot<'frame, T>,
    mov: MoveRef<'frame, T>,
    outcome: SlotStorageTeardown<T>,
)
    requires
        call_ensures(SlotStorage::<T>::slot, (storage,), slot),
        slot.is_vacant(),
        !slot.status().released,
        mov.status() == slot.status().initialize(),
        *final(mov.memory()) == *final(slot.memory()),
        *final(mov.tracker()) == *final(slot.tracker()),
        has_resolved(mov),
        call_ensures(SlotStorage::<T>::drop, (*final(storage),), outcome),
    ensures
        outcome is Leaking,
        destructor_runs(outcome.destroyed()) == 0,
{
    mov.lemma_forgotten();
}

/// Taking a reference from a reference hands the same reference on: the same
/// place, the same tracker, in the same state. The slot offered for it is
/// left unused, and the teardown of that slot's storage, where it was new,
/// finds nothing written.
pub proof fn lemma_nesting_hands_the_reference_on<'f, 'frame, T>(
    mov: MoveRef<'f, T>,
    kind: SlotStorageKind,
    storage: &'frame mut SlotStorage<()>,
    slot: Slot<'frame, ()>,
    nested: MoveRef<'frame, T>,
    outcome: SlotStorageTeardown<()>,
)
    requires
        call_ensures(SlotStorage::<()>::new, (kind,), *storage),
        call_ensures(SlotStorage::<()>::slot, (storage,), slot),
        call_ensures(<MoveRef<'f, T> as DerefMove>::deref_move, (mov, slot), nested),
        call_ensures(SlotStorage::<()>::drop, (*final(storage),), outcome),
    ensures
        nested == mov,
        nested.status().references == mov.status().references,
        outcome is Uninitialized,
{
}

} // verus!
