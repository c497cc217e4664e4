use vstd::prelude::*;
use core::ops::Deref;

verus! {

/// A pointer whose referent stays where it is: through the wrapper the referent
/// can be read, and written only where its type does not care about its place.
/// It stands where `core::pin::Pin` would, which cannot be made for every
/// referent without `unsafe`.
pub struct Pinned<P> {
    /// The pointer that is kept from moving its referent.
    pointer: P,
}

impl<P> Pinned<P> {
    /// The pointer inside the wrapper.
    pub closed spec fn pointer(self) -> P {
        self.pointer
    }

    /// Pin a pointer whose referent the caller will not relocate.
    pub(crate) fn new_unchecked(pointer: P) -> (pin: Self)
        ensures
            pin.pointer() == pointer,
    {
        Pinned { pointer }
    }

    /// Unwrap the pointer; the caller goes on treating the referent as pinned.
    pub(crate) fn into_inner_unchecked(self) -> (pointer: P)
        ensures
            pointer == self.pointer(),
    {
        self.pointer
    }

    /// Borrow the pointer inside the wrapper.
    pub fn get_ref(&self) -> (pointer: &P)
        ensures
            *pointer == self.pointer(),
    {
        &self.pointer
    }
}

impl<P: Deref> Pinned<P> where P::Target: Unpin {
    /// Pin a pointer to a referent that may move freely.
    pub fn new(pointer: P) -> (pin: Self)
        ensures
            pin.pointer() == pointer,
    {
        Pinned { pointer }
    }

    /// Borrow the pointer to a referent that may move freely, for writing.
    pub fn get_mut(&mut self) -> (pointer: &mut P)
        ensures
            *pointer == old(self).pointer(),
            final(self).pointer() == *final(pointer),
    {
        &mut self.pointer
    }

    /// Unwrap the pointer to a referent that may move freely.
    pub fn into_inner(self) -> (pointer: P)
        ensures
            pointer == self.pointer(),
    {
        self.pointer
    }
}

impl<P: Deref> Deref for Pinned<P> {
    type Target = P::Target;

    fn deref(&self) -> (referent: &P::Target)
        ensures
            call_ensures(P::deref, (&self.pointer(),), referent),
    {
        self.pointer.deref()
    }
}

} // verus!
