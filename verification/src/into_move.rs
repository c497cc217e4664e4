use vstd::prelude::*;
use core::ops::Deref;
use crate::deref_move::DerefMove;
use crate::move_ref::MoveRef;
use crate::pin::Pinned;
use crate::slot::Slot;

verus! {

/// A trait for transforming a [`Deref`] type into a pinned [`MoveRef`] with
/// respect to a specified backing storage type [`IntoMove::Storage`].
pub trait IntoMove: Deref + Sized where Self::Target: Sized {
    type Storage: Sized;

    /// Whether `referent` is the contents of `self`, which the [`MoveRef`]
    /// comes to own. Unless an implementation says more, it may be any value.
    open spec fn owns(self, referent: Self::Target) -> bool {
        true
    }

    /// Consume `self` and create a pinned [`MoveRef`] with `self`'s contents
    /// placed into `storage`. Either `storage` comes to count the new
    /// reference, or it is left as it was.
    fn into_move<'frame>(self, storage: Slot<'frame, Self::Storage>) -> (pin: Pinned<
        MoveRef<'frame, Self::Target>,
    >) where Self: 'frame
        requires
            storage.is_vacant(),
        ensures
            self.owns(pin.pointer().value()),
            ({
                &&& pin.pointer().status() == storage.status().initialize()
                &&& *final(pin.pointer().tracker()) == *final(storage.tracker())
            }) || final(storage.tracker())@ == storage.status(),
    ;
}

impl<T> IntoMove for Box<T> {
    type Storage = T;

    open spec fn owns(self, referent: T) -> bool {
        referent == *self
    }

    fn into_move<'frame>(self, storage: Slot<'frame, T>) -> (pin: Pinned<
        MoveRef<'frame, T>,
    >) where Self: 'frame
        ensures
            pin.pointer().status() == storage.status().initialize(),
            *final(pin.pointer().memory()) == *final(storage.memory()),
            *final(pin.pointer().tracker()) == *final(storage.tracker()),
    {
        MoveRef::into_pin(self.deref_move(storage))
    }
}

impl<'f, T> IntoMove for MoveRef<'f, T> {
    type Storage = ();

    open spec fn owns(self, referent: T) -> bool {
        referent == self.value()
    }

    fn into_move<'frame>(self, storage: Slot<'frame, ()>) -> (pin: Pinned<
        MoveRef<'frame, T>,
    >) where Self: 'frame
        ensures
            pin.pointer() == self,
            *final(storage.memory()) == *storage.memory(),
            final(storage.tracker())@ == storage.status(),
    {
        MoveRef::into_pin(self.deref_move(storage))
    }
}

impl<P: DerefMove> IntoMove for Pinned<P> where P::Target: Sized {
    type Storage = P::Storage;

    open spec fn owns(self, referent: P::Target) -> bool {
        self.pointer().owns(referent)
    }

    fn into_move<'frame>(self, storage: Slot<'frame, P::Storage>) -> (pin: Pinned<
        MoveRef<'frame, P::Target>,
    >) where Self: 'frame
        ensures
            call_ensures(P::deref_move, (self.pointer(), storage), pin.pointer()),
    {
        let inner = self.into_inner_unchecked();
        let this = P::deref_move(inner, storage);
        MoveRef::into_pin(this)
    }
}

} // verus!
