use vstd::prelude::*;
use vstd::std_specs::cmp::{OrdSpec, PartialEqSpec, PartialEqSpecImpl, PartialOrdSpec, PartialOrdSpecImpl};
use core::cmp::Ordering;
use core::fmt::{Debug, Formatter};
use core::hash::{Hash, Hasher};
use core::ops::{Deref, DerefMut};
use crate::pin::Pinned;
use crate::slot_storage::{SlotStorageStatus, SlotStorageTracker, TrackerState};

verus! {

/// The referent inside a filled place, for reading.
fn referent<T>(place: &Option<T>) -> (referent: &T)
    requires
        *place is Some,
    ensures
        *referent == place->0,
{
    place.as_ref().unwrap()
}

/// The referent inside a filled place, for writing. The place stays filled.
fn referent_mut<T>(place: &mut Option<T>) -> (referent: &mut T)
    requires
        *old(place) is Some,
    ensures
        *referent == old(place)->0,
        *final(place) == Some(*final(referent)),
    no_unwind
{
    match place {
        Some(referent) => referent,
        None => {
            loop
                invariant false,
                decreases 0nat
            {
            }
        },
    }
}

/// The state of a formatter is of no concern to this library, which only hands
/// it on: `core::fmt::Formatter` is known as a type and nothing else.
#[verifier::external_type_specification]
#[verifier::external_body]
pub struct ExFormatter<'a>(core::fmt::Formatter<'a>);

/// `core::fmt::Error`, the error of a formatter, known as a type and nothing
/// else.
#[verifier::external_type_specification]
#[verifier::external_body]
pub struct ExFmtError(core::fmt::Error);

/// Calls `core::fmt::Debug::fmt` of the referent. Nothing is claimed of what
/// it writes or returns.
#[verifier::external_body]
fn fmt_referent<T: Debug>(referent: &T, f: &mut Formatter<'_>) -> core::fmt::Result {
    Debug::fmt(referent, f)
}

/// Calls `core::hash::Hash::hash` of the referent. Nothing is claimed of what
/// it feeds to the hasher.
#[verifier::external_body]
fn hash_referent<T: Hash, H: Hasher>(referent: &T, state: &mut H) {
    referent.hash(state)
}

/// A "reference" type which *uniquely* owns its referent type `T` with respect
/// to external storage with lifetime `'frame`.
///
/// It is like `&'frame mut` in that it uniquely references data that lives for
/// `'frame`, and like `Box` in that it owns that data: the referent is destroyed
/// through the reference, not through the storage it lies in. Reading and
/// writing through it never move the referent; moving it out is a call of its
/// own, [`MoveRef::into_inner`].
///
/// Verus knows no destructors: a reference ends with [`MoveRef::drop`],
/// [`MoveRef::release`] or [`MoveRef::into_inner`]. One that merely goes out of
/// scope was forgotten, and the teardown of its storage reports the leak.
pub struct MoveRef<'frame, T> {
    /// The place of the referent, in some external storage.
    ptr: &'frame mut Option<T>,
    /// Status flags for the storage which track initialization, dropping state,
    /// and reference count.
    status: SlotStorageStatus<'frame>,
}

impl<'frame, T> MoveRef<'frame, T> {
    /// A reference has a referent, and its storage counts it.
    #[verifier::type_invariant]
    closed spec fn owns_referent(self) -> bool {
        &&& *self.ptr is Some
        &&& self.status@.initialized
        &&& self.status@.references == 1
    }

    /// The referent.
    pub closed spec fn value(self) -> T {
        self.ptr->0
    }

    /// The borrow of the storage memory that the reference holds.
    pub closed spec fn memory(self) -> &'frame mut Option<T> {
        self.ptr
    }

    /// The borrow of the storage tracker that the reference holds.
    pub closed spec fn tracker(self) -> &'frame mut SlotStorageTracker {
        self.status.tracker
    }

    /// What the tracker of the storage records.
    pub closed spec fn status(self) -> TrackerState {
        self.status@
    }

    /// Create a new [`MoveRef`] from the place of a referent and the status of
    /// the storage that counts it.
    pub(crate) fn new_unchecked(ptr: &'frame mut Option<T>, status: SlotStorageStatus<'frame>) -> (mov: Self)
        requires
            *old(ptr) is Some,
            status@.initialized,
            status@.references == 1,
        ensures
            mov.value() == old(ptr)->0,
            mov.status() == status@,
            *final(mov.memory()) == *final(ptr),
            mov.tracker() == status.tracker,
    {
        MoveRef { ptr, status }
    }

    /// Transform a [`MoveRef<T>`] into a [`Pinned<MoveRef<T>>`]. Nothing moves
    /// the referent of a [`MoveRef`] or invalidates its storage until the
    /// reference itself is given up, so this is always in order.
    #[must_use]
    pub fn into_pin(self) -> (pin: Pinned<Self>)
        ensures
            pin.pointer() == self,
    {
        Pinned::new_unchecked(self)
    }

    /// Consume a pinned reference and return a plain reference to the referent,
    /// which stays in its storage. This inhibits the destruction of the referent
    /// through the [`MoveRef`]: the storage is marked released and counts no
    /// reference any more, and the caller becomes responsible for the referent.
    #[must_use]
    pub fn release(pin: Pinned<Self>) -> (ptr: &'frame mut T)
        ensures
            *ptr == pin.pointer().value(),
            *final(pin.pointer().memory()) == Some(*final(ptr)),
            final(pin.pointer().tracker())@ == pin.pointer().status().release().decrement(),
            final(pin.pointer().tracker())@ == TrackerState::detached(),
    {
        let mov = pin.into_inner_unchecked();
        proof {
            use_type_invariant(&mov);
        }
        let MoveRef { ptr, mut status } = mov;
        status.release();
        status.decrement();
        referent_mut(ptr)
    }

    /// Move the referent out. The storage is marked released and counts no
    /// reference any more, and its memory is left vacant: its teardown finds no
    /// value to destroy.
    #[must_use]
    pub fn into_inner(self) -> (val: T)
        ensures
            val == self.value(),
            *final(self.memory()) is None,
            final(self.tracker())@ == self.status().release().decrement(),
            final(self.tracker())@ == TrackerState::detached(),
    {
        proof {
            use_type_invariant(&self);
        }
        let MoveRef { ptr, mut status } = self;
        status.release();
        status.decrement();
        ptr.take().unwrap()
    }

    /// The value whose destructor the destructor of the reference runs: the
    /// referent, unless the storage is already released.
    pub open spec fn destroyed_by_drop(self) -> Option<T> {
        if self.status().released {
            None
        } else {
            Some(self.value())
        }
    }

    /// The destructor of the reference. Where the storage is already released
    /// it does nothing. Otherwise it gives up the one counted reference and
    /// destroys the referent where it lies, leaving the memory vacant.
    pub fn drop(self)
        ensures
            self.destroyed_by_drop() is None ==> {
                &&& *final(self.memory()) == Some(self.value())
                &&& final(self.tracker())@ == self.status()
            },
            self.destroyed_by_drop() is Some ==> {
                &&& *final(self.memory()) is None
                &&& final(self.tracker())@ == self.status().terminate()
                &&& final(self.tracker())@ == TrackerState::terminated()
            },
    {
        proof {
            use_type_invariant(&self);
        }
        let MoveRef { ptr, mut status } = self;
        if status.is_released() {
            return ;
        }
        status.terminate();
        *ptr = None;
    }

    /// A reference that is given up without a call, as by `core::mem::forget`,
    /// leaves its storage as it is: holding the referent and counting the
    /// reference.
    pub proof fn lemma_forgotten(self)
        requires
            has_resolved(self),
        ensures
            *final(self.memory()) == *self.memory(),
            final(self.tracker())@ == self.status(),
    {
    }

    /// A plain reference to the referent, for reading.
    #[must_use]
    pub fn as_ptr(&self) -> (ptr: &T)
        ensures
            *ptr == self.value(),
    {
        proof {
            use_type_invariant(self);
        }
        referent(self.ptr)
    }

    /// A plain reference to the referent, for writing. What is written through
    /// it is the referent afterwards; the storage is as before.
    #[must_use]
    pub fn as_mut_ptr(&mut self) -> (ptr: &mut T)
        ensures
            *ptr == old(self).value(),
            final(self).value() == *final(ptr),
            final(self).status() == old(self).status(),
            *final(final(self).memory()) == *final(old(self).memory()),
            *final(final(self).tracker()) == *final(old(self).tracker()),
    {
        proof {
            use_type_invariant(&*self);
        }
        referent_mut(self.ptr)
    }
}

impl<'frame, T> Pinned<MoveRef<'frame, T>> {
    /// The destructor of a pinned reference: that of the reference inside.
    pub fn drop(self)
        ensures
            self.pointer().destroyed_by_drop() is None ==> {
                &&& *final(self.pointer().memory()) == Some(self.pointer().value())
                &&& final(self.pointer().tracker())@ == self.pointer().status()
            },
            self.pointer().destroyed_by_drop() is Some ==> {
                &&& *final(self.pointer().memory()) is None
                &&& final(self.pointer().tracker())@ == self.pointer().status().terminate()
                &&& final(self.pointer().tracker())@ == TrackerState::terminated()
            },
    {
        self.into_inner_unchecked().drop()
    }
}

impl<'frame, T> Deref for MoveRef<'frame, T> {
    type Target = T;

    fn deref(&self) -> (referent: &T)
        ensures
            *referent == self.value(),
    {
        self.as_ptr()
    }
}

impl<'frame, T> DerefMut for MoveRef<'frame, T> {
    fn deref_mut(&mut self) -> (referent: &mut T)
        ensures
            *referent == old(self).value(),
            final(self).value() == *final(referent),
            final(self).status() == old(self).status(),
            *final(final(self).memory()) == *final(old(self).memory()),
            *final(final(self).tracker()) == *final(old(self).tracker()),
    {
        self.as_mut_ptr()
    }
}

impl<'frame, T: Debug> Debug for MoveRef<'frame, T> {
    /// A reference is formatted as its referent is.
    fn fmt(&self, f: &mut Formatter<'_>) -> core::fmt::Result {
        fmt_referent(self.as_ptr(), f)
    }
}

impl<'t, T: Hash> Hash for MoveRef<'t, T> {
    /// A reference is hashed as its referent is.
    fn hash<H: Hasher>(&self, state: &mut H) {
        hash_referent(self.as_ptr(), state)
    }
}

impl<'t, T: Ord> MoveRef<'t, T> {
    /// Order two references as their referents are ordered.
    pub fn cmp(&self, other: &Self) -> (ordering: Ordering)
        ensures
            T::obeys_cmp_spec() ==> ordering == self.value().cmp_spec(&other.value()),
    {
        self.as_ptr().cmp(other.as_ptr())
    }
}

impl<'s, 't, S, T: PartialEq<S>> PartialEq<MoveRef<'s, S>> for MoveRef<'t, T> {
    /// Two references are equal as their referents are.
    fn eq(&self, other: &MoveRef<'s, S>) -> (equal: bool) {
        self.as_ptr().eq(other.as_ptr())
    }
}

impl<'s, 't, S, T: PartialEq<S>> PartialEqSpecImpl<MoveRef<'s, S>> for MoveRef<'t, T> {
    open spec fn obeys_eq_spec() -> bool {
        T::obeys_eq_spec()
    }

    open spec fn eq_spec(&self, other: &MoveRef<'s, S>) -> bool {
        self.value().eq_spec(&other.value())
    }
}

impl<'t, T: PartialEq> Eq for MoveRef<'t, T> {

}

impl<'s, 't, S, T: PartialOrd<S>> PartialOrd<MoveRef<'s, S>> for MoveRef<'t, T> {
    /// Two references are ordered as their referents are.
    fn partial_cmp(&self, other: &MoveRef<'s, S>) -> (ordering: Option<Ordering>) {
        self.as_ptr().partial_cmp(other.as_ptr())
    }

    fn lt(&self, other: &MoveRef<'s, S>) -> (less: bool) {
        self.as_ptr().lt(other.as_ptr())
    }

    fn le(&self, other: &MoveRef<'s, S>) -> (less: bool) {
        self.as_ptr().le(other.as_ptr())
    }

    fn gt(&self, other: &MoveRef<'s, S>) -> (greater: bool) {
        self.as_ptr().gt(other.as_ptr())
    }

    fn ge(&self, other: &MoveRef<'s, S>) -> (greater: bool) {
        self.as_ptr().ge(other.as_ptr())
    }
}

impl<'s, 't, S, T: PartialOrd<S>> PartialOrdSpecImpl<MoveRef<'s, S>> for MoveRef<'t, T> {
    open spec fn obeys_partial_cmp_spec() -> bool {
        T::obeys_partial_cmp_spec()
    }

    open spec fn partial_cmp_spec(&self, other: &MoveRef<'s, S>) -> Option<Ordering> {
        self.value().partial_cmp_spec(&other.value())
    }
}

} // verus!
