use vstd::prelude::*;
use vstd::string::StringExecFns;
use core::mem::ManuallyDrop;
use crate::slot::Slot;

verus! {

/// What a tracker records, as a mathematical value.
pub struct TrackerState {
    /// Whether a value was written into the storage.
    pub initialized: bool,
    /// Whether the value was detached from automatic destruction.
    pub released: bool,
    /// The number of live owning references into the storage.
    pub references: nat,
}

impl TrackerState {
    /// The state of a storage into which nothing was written.
    pub open spec fn fresh() -> TrackerState {
        TrackerState { initialized: false, released: false, references: 0 }
    }

    /// The state after the owning reference ran its destructor.
    pub open spec fn terminated() -> TrackerState {
        TrackerState { initialized: true, released: false, references: 0 }
    }

    /// The state after the owning reference was released or its value moved out.
    pub open spec fn detached() -> TrackerState {
        TrackerState { initialized: true, released: true, references: 0 }
    }

    /// No reference is counted.
    pub open spec fn is_reference_zeroed(self) -> bool {
        self.references == 0
    }

    /// Nothing was ever written: no reference and no value.
    pub open spec fn is_uninitialized(self) -> bool {
        self.is_reference_zeroed() && !self.initialized
    }

    /// A reference is still counted although nobody released the value.
    pub open spec fn is_leaking(self) -> bool {
        !self.released && self.initialized && !self.is_reference_zeroed()
    }

    /// The state with one reference more.
    pub open spec fn increment(self) -> TrackerState {
        TrackerState { references: self.references + 1, ..self }
    }

    /// The state with one reference less.
    pub open spec fn decrement(self) -> TrackerState {
        TrackerState { references: (self.references - 1) as nat, ..self }
    }

    /// The state after a value was written: initialized, with one reference
    /// more.
    pub open spec fn initialize(self) -> TrackerState {
        TrackerState { initialized: true, ..self }.increment()
    }

    /// The state after the value was detached from automatic destruction.
    pub open spec fn release(self) -> TrackerState {
        TrackerState { released: true, ..self }
    }

    /// The state after the owning reference gave up its count.
    pub open spec fn terminate(self) -> TrackerState {
        self.decrement()
    }
}

/// State for tracking the status of a storage slot.
pub struct SlotStorageTracker {
    /// Whether the slot is initialized.
    initialized: bool,
    /// Whether the slot is released. A released slot is exempt from the leak check.
    released: bool,
    /// Number of references to the slot.
    references: usize,
}

impl View for SlotStorageTracker {
    type V = TrackerState;

    closed spec fn view(&self) -> TrackerState {
        TrackerState {
            initialized: self.initialized,
            released: self.released,
            references: self.references as nat,
        }
    }
}

impl SlotStorageTracker {
    /// Construct a new tracker: nothing written, nothing released, no reference.
    pub fn new() -> (tracker: Self)
        ensures
            tracker@ == TrackerState::fresh(),
    {
        SlotStorageTracker { initialized: false, released: false, references: 0 }
    }

    /// Project the status by borrowing the tracker.
    pub fn status(&mut self) -> (status: SlotStorageStatus<'_>)
        ensures
            status@ == old(self)@,
            *final(self) == *final(status.tracker),
    {
        SlotStorageStatus { tracker: self }
    }
}

/// The borrowed form of [`SlotStorageTracker`]: the one path through which the
/// holders of a slot read and update its tracker.
pub struct SlotStorageStatus<'frame> {
    /// The tracker that the status reads and updates.
    pub tracker: &'frame mut SlotStorageTracker,
}

impl<'frame> View for SlotStorageStatus<'frame> {
    type V = TrackerState;

    open spec fn view(&self) -> TrackerState {
        self.tracker@
    }
}

impl<'frame> SlotStorageStatus<'frame> {
    /// Set the status to initialized and count the first reference.
    pub fn initialize(&mut self)
        requires
            !old(self)@.initialized,
            old(self)@.is_reference_zeroed(),
        ensures
            final(self)@ == old(self)@.initialize(),
            *final(final(self).tracker) == *final(old(self).tracker),
    {
        self.tracker.initialized = true;
        self.increment();
    }

    /// Increment the reference count.
    pub fn increment(&mut self)
        requires
            old(self)@.is_reference_zeroed(),
        ensures
            final(self)@ == old(self)@.increment(),
            *final(final(self).tracker) == *final(old(self).tracker),
    {
        self.tracker.references = self.tracker.references + 1;
    }

    /// Decrement the reference count.
    pub fn decrement(&mut self)
        requires
            !old(self)@.is_reference_zeroed(),
        ensures
            final(self)@ == old(self)@.decrement(),
            *final(final(self).tracker) == *final(old(self).tracker),
    {
        self.tracker.references = self.tracker.references - 1;
    }

    /// Mark the storage as released. The caller takes over the eventual cleanup
    /// of the value.
    pub fn release(&mut self)
        ensures
            final(self)@ == old(self)@.release(),
            *final(final(self).tracker) == *final(old(self).tracker),
    {
        self.tracker.released = true;
    }

    /// Mark the storage as terminated: a decrement that must leave no reference.
    pub fn terminate(&mut self)
        requires
            old(self)@.references == 1,
        ensures
            final(self)@ == old(self)@.terminate(),
            final(self)@.is_reference_zeroed(),
            *final(final(self).tracker) == *final(old(self).tracker),
    {
        self.decrement();
    }

    /// Check if the storage is initialized.
    pub fn is_initialized(&self) -> (b: bool)
        ensures
            b == self@.initialized,
    {
        self.tracker.initialized
    }

    /// Check if the storage is uninitialized.
    pub fn is_uninitialized(&self) -> (b: bool)
        ensures
            b == self@.is_uninitialized(),
    {
        self.is_reference_zeroed() && !self.is_initialized()
    }

    /// Check if the storage is released.
    pub fn is_released(&self) -> (b: bool)
        ensures
            b == self@.released,
    {
        self.tracker.released
    }

    /// Check if the storage is leaking.
    pub fn is_leaking(&self) -> (b: bool)
        ensures
            b == self@.is_leaking(),
    {
        !self.is_released() && self.is_initialized() && !self.is_reference_zeroed()
    }

    /// Check if the references are zeroed.
    pub fn is_reference_zeroed(&self) -> (b: bool)
        ensures
            b == self@.is_reference_zeroed(),
    {
        self.tracker.references == 0
    }
}

/// Kind dictating whether the storage should drop its referent when leaving scope.
#[derive(Copy, Clone, Debug, PartialEq, Eq, Structural)]
pub enum SlotStorageKind {
    /// The storage should drop its referent.
    Drop,
    /// The storage should not drop its referent.
    Keep,
}

/// Placeholder for the place at which a storage was made, which is not recorded.
pub const UNKNOWN_LOCATION: &'static str = "<unknown>";

/// The text that reports a leaking storage made at `location`.
pub open spec fn abort_message_spec(location: Seq<char>) -> Seq<char> {
    "a critical reference counter at "@ + location + " was not zeroed!"@
}

/// The number of destructor runs that destroying `destroyed` makes.
pub open spec fn destructor_runs<T>(destroyed: Option<T>) -> nat {
    if destroyed is Some {
        1
    } else {
        0
    }
}

/// What the teardown of a storage found and did.
pub enum SlotStorageTeardown<T> {
    /// Nothing was ever written into the storage: nothing was done.
    Uninitialized,
    /// A reference into the storage was never disposed of. Going on would leave
    /// a dangling reference or a destructor that never runs: the caller must
    /// end the process, reporting the message.
    Leaking(String),
    /// The storage drops its referent: what the memory held is handed out, and
    /// its destructor runs when this outcome goes out of scope.
    Dropped(Option<T>),
    /// The storage keeps its referent: what the memory held is handed out
    /// untouched, and no destructor runs on it unless its new owner unwraps it.
    Kept(ManuallyDrop<Option<T>>),
}

impl<T> SlotStorageTeardown<T> {
    /// The value whose destructor runs with this outcome.
    pub open spec fn destroyed(self) -> Option<T> {
        match self {
            SlotStorageTeardown::Dropped(memory) => memory,
            _ => None,
        }
    }
}

/// Type used for constructing the storage for a [`Slot`] backing a
/// [`MoveRef`](crate::MoveRef).
pub struct SlotStorage<T> {
    /// The kind dictating the storage drop behavior.
    kind: SlotStorageKind,
    /// The underlying, possibly vacant, storage memory.
    memory: Option<T>,
    /// Status flags for the storage which track initialization, dropping state,
    /// and reference count.
    tracker: SlotStorageTracker,
}

impl<T> SlotStorage<T> {
    /// The drop policy of the storage.
    pub closed spec fn kind(self) -> SlotStorageKind {
        self.kind
    }

    /// What the memory of the storage holds.
    pub closed spec fn memory(self) -> Option<T> {
        self.memory
    }

    /// What the tracker of the storage records.
    pub closed spec fn status(self) -> TrackerState {
        self.tracker@
    }

    /// The value whose destructor the teardown of a storage in this state runs:
    /// what the memory holds, where the storage drops its referent and neither
    /// was never written to nor leaks.
    pub open spec fn torn_down_value(self) -> Option<T> {
        if self.status().is_uninitialized() || self.status().is_leaking() {
            None
        } else {
            match self.kind() {
                SlotStorageKind::Drop => self.memory(),
                SlotStorageKind::Keep => None,
            }
        }
    }

    /// Construct a new storage given a `kind`: vacant memory and a fresh tracker.
    #[must_use]
    pub fn new(kind: SlotStorageKind) -> (storage: Self)
        ensures
            storage.kind() == kind,
            storage.memory() is None,
            storage.status() == TrackerState::fresh(),
    {
        SlotStorage { kind, memory: None, tracker: SlotStorageTracker::new() }
    }

    /// Project the [`Slot`] for the storage. What the storage holds once the
    /// slot, or the reference made from it, is gone is what they leave behind.
    pub fn slot(&mut self) -> (slot: Slot<'_, T>)
        ensures
            *slot.memory() == old(self).memory(),
            slot.status() == old(self).status(),
            final(self).kind() == old(self).kind(),
            final(self).memory() == *final(slot.memory()),
            final(self).status() == final(slot.tracker())@,
    {
        let memory = &mut self.memory;
        let status = self.tracker.status();
        Slot::new(memory, status)
    }

    /// The place at which the storage was made, for reports.
    pub fn display_location(&self) -> (location: &'static str)
        ensures
            location@ == UNKNOWN_LOCATION@,
    {
        UNKNOWN_LOCATION
    }

    /// The report of a reference counter that was not zeroed when its storage
    /// was torn down.
    pub fn abort_message(&self) -> (message: String)
        ensures
            message@ == abort_message_spec(UNKNOWN_LOCATION@),
    {
        let message = String::from_str("a critical reference counter at ");
        let message = message.concat(self.display_location());
        message.concat(" was not zeroed!")
    }

    /// Tear the storage down. Verus knows no destructors, so the end of a
    /// storage is this call.
    pub fn drop(self) -> (outcome: SlotStorageTeardown<T>)
        ensures
            match outcome {
                SlotStorageTeardown::Uninitialized => self.status().is_uninitialized(),
                SlotStorageTeardown::Leaking(message) => {
                    &&& !self.status().is_uninitialized()
                    &&& self.status().is_leaking()
                    &&& message@ == abort_message_spec(UNKNOWN_LOCATION@)
                },
                SlotStorageTeardown::Dropped(memory) => {
                    &&& !self.status().is_uninitialized()
                    &&& !self.status().is_leaking()
                    &&& self.kind() == SlotStorageKind::Drop
                    &&& memory == self.memory()
                },
                SlotStorageTeardown::Kept(memory) => {
                    &&& !self.status().is_uninitialized()
                    &&& !self.status().is_leaking()
                    &&& self.kind() == SlotStorageKind::Keep
                    &&& memory@ == self.memory()
                },
            },
            outcome is Uninitialized <==> self.status().is_uninitialized(),
            outcome is Leaking <==> self.status().is_leaking(),
            outcome.destroyed() == self.torn_down_value(),
    {
        let mut storage = self;
        let status = storage.tracker.status();
        if status.is_uninitialized() {
            let _untouched = ManuallyDrop::new(storage.memory);
            return SlotStorageTeardown::Uninitialized;
        }
        if status.is_leaking() {
            let message = storage.abort_message();
            let _untouched = ManuallyDrop::new(storage.memory);
            return SlotStorageTeardown::Leaking(message);
        }
        match storage.kind {
            SlotStorageKind::Drop => SlotStorageTeardown::Dropped(storage.memory),
            SlotStorageKind::Keep => SlotStorageTeardown::Kept(ManuallyDrop::new(storage.memory)),
        }
    }
}

} // verus!
