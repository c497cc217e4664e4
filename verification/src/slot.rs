use vstd::prelude::*;
use crate::move_ref::MoveRef;
use crate::new::{New, TryNew};
use crate::pin::Pinned;
use crate::slot_storage::{SlotStorageStatus, SlotStorageTracker, TrackerState};

verus! {

/// Backing storage for a [`MoveRef`](crate::MoveRef): the right to construct one
/// value in the memory of a storage.
pub struct Slot<'frame, T> {
    /// The underlying, possibly vacant, storage memory.
    pub(crate) memory: &'frame mut Option<T>,
    /// Status flags for the storage which track initialization, dropping state,
    /// and reference count.
    pub(crate) status: SlotStorageStatus<'frame>,
}

impl<'frame, T> Slot<'frame, T> {
    /// The borrow of the storage memory that the slot holds.
    pub closed spec fn memory(self) -> &'frame mut Option<T> {
        self.memory
    }

    /// The borrow of the storage tracker that the slot holds.
    pub closed spec fn tracker(self) -> &'frame mut SlotStorageTracker {
        self.status.tracker
    }

    /// What the tracker of the storage records.
    pub closed spec fn status(self) -> TrackerState {
        self.status@
    }

    /// Whether nothing was written through the slot's storage yet.
    pub open spec fn spec_is_vacant(&self) -> bool {
        &&& *self.memory() is None
        &&& self.status().is_uninitialized()
    }

    /// Check if nothing was written through the slot's storage yet: only then
    /// can the slot be filled.
    #[verifier::when_used_as_spec(spec_is_vacant)]
    pub fn is_vacant(&self) -> (vacant: bool)
        ensures
            vacant == self.spec_is_vacant(),
    {
        self.memory.is_none() && self.status.is_uninitialized()
    }

    /// Make the slot of a storage from the borrows of its memory and tracker.
    pub(crate) fn new(memory: &'frame mut Option<T>, status: SlotStorageStatus<'frame>) -> (slot: Self)
        ensures
            *slot.memory() == *old(memory),
            *final(slot.memory()) == *final(memory),
            slot.tracker() == status.tracker,
            slot.status() == status@,
    {
        Slot { memory, status }
    }

    /// A slot that is given up unused leaves its storage as it is.
    pub proof fn lemma_unused(self)
        requires
            has_resolved(self),
        ensures
            *final(self.memory()) == *self.memory(),
            final(self.tracker())@ == self.status(),
    {
    }

    /// Construct and pin `new` into the slot and return the associated owning
    /// [`MoveRef`].
    pub fn emplace<N: New<Output = T>>(self, new: N) -> (pin: Pinned<MoveRef<'frame, T>>)
        requires
            self.is_vacant(),
        ensures
            new.creates(pin.pointer().value()),
            pin.pointer().status() == self.status().initialize(),
            *final(pin.pointer().memory()) == *final(self.memory()),
            *final(pin.pointer().tracker()) == *final(self.tracker()),
    {
        match self.try_emplace(new) {
            Ok(pin) => pin,
            Err(_) => unreached(),
        }
    }

    /// Try to construct and pin `new` into the slot and return the associated
    /// owning [`MoveRef`].
    ///
    /// # Errors
    ///
    /// Returns the error of the `new` initializer where it fails. The storage
    /// is then as it was: vacant, with nothing recorded.
    pub fn try_emplace<N: TryNew<Output = T>>(self, new: N) -> (result: Result<
        Pinned<MoveRef<'frame, T>>,
        N::Error,
    >)
        requires
            self.is_vacant(),
        ensures
            match result {
                Ok(pin) => {
                    &&& new.try_creates(pin.pointer().value())
                    &&& pin.pointer().status() == self.status().initialize()
                    &&& *final(pin.pointer().memory()) == *final(self.memory())
                    &&& *final(pin.pointer().tracker()) == *final(self.tracker())
                },
                Err(error) => {
                    &&& new.try_fails(error)
                    &&& *final(self.memory()) is None
                    &&& final(self.tracker())@ == self.status()
                },
            },
    {
        let Slot { memory, mut status } = self;
        match new.try_new(memory) {
            Ok(_) => {
                status.initialize();
                let mov = MoveRef::new_unchecked(memory, status);
                Ok(mov.into_pin())
            },
            Err(error) => Err(error),
        }
    }

    /// Move and pin `val` into the slot and return the associated owning
    /// [`MoveRef`].
    pub fn pin(self, val: T) -> (pin: Pinned<MoveRef<'frame, T>>)
        requires
            self.is_vacant(),
        ensures
            pin.pointer().value() == val,
            pin.pointer().status() == self.status().initialize(),
            *final(pin.pointer().memory()) == *final(self.memory()),
            *final(pin.pointer().tracker()) == *final(self.tracker()),
    {
        self.emplace(crate::new::of(val))
    }

    /// Move `val` into the slot and return the associated owning [`MoveRef`].
    pub fn put(self, val: T) -> (mov: MoveRef<'frame, T>)
        requires
            self.is_vacant(),
        ensures
            mov.value() == val,
            mov.status() == self.status().initialize(),
            *final(mov.memory()) == *final(self.memory()),
            *final(mov.tracker()) == *final(self.tracker()),
    {
        let pin = self.pin(val);
        pin.into_inner_unchecked()
    }

    /// Write `val` into the slot and return a reference to its place and the
    /// status of its storage.
    pub(crate) fn write(self, val: T) -> (written: (&'frame mut Option<T>, SlotStorageStatus<'frame>))
        requires
            self.is_vacant(),
        ensures
            *written.0 == Some(val),
            *final(written.0) == *final(self.memory()),
            written.1@ == self.status().initialize(),
            *final(written.1.tracker) == *final(self.tracker()),
    {
        let Slot { memory, mut status } = self;
        status.initialize();
        *memory = Some(val);
        (memory, status)
    }
}

} // verus!
