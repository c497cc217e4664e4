use vstd::prelude::*;
use core::ops::DerefMut;
use crate::into_move::IntoMove;
use crate::move_ref::MoveRef;
use crate::slot::Slot;

verus! {

/// Dereferencing move operations for [`MoveRef`].
///
/// This trait serves a similar purpose for [`MoveRef`] as `Deref` does for
/// normal references.
///
/// In order to implement this trait, the `Self` pointer type must be the
/// *unique owner* of its referent, such that dropping `Self` would cause its
/// referent's destructor to run.
///
/// - [`MoveRef<T>`] implements [`DerefMove`] by definition.
/// - `Box<T>` implements [`DerefMove`] because when it drops it destructs `T`.
/// - `&mut T` does *not* implement [`DerefMove`] because it is non-owning.
/// - `Rc<T>` and `Arc<T>` do *not* implement [`DerefMove`] because they are not
///   *uniquely* owning.
pub trait DerefMove: DerefMut + IntoMove where Self::Target: Sized {
    /// Construct a [`MoveRef`] by dereferencing `self` and moving its contents
    /// into `storage`. Either `storage` comes to count the new reference, or
    /// it is left as it was.
    fn deref_move<'frame>(self, storage: Slot<'frame, Self::Storage>) -> (mov: MoveRef<
        'frame,
        Self::Target,
    >) where Self: 'frame
        requires
            storage.is_vacant(),
        ensures
            self.owns(mov.value()),
            ({
                &&& mov.status() == storage.status().initialize()
                &&& *final(mov.tracker()) == *final(storage.tracker())
            }) || final(storage.tracker())@ == storage.status(),
    ;
}

impl<T> DerefMove for Box<T> {
    fn deref_move<'frame>(self, storage: Slot<'frame, T>) -> (mov: MoveRef<'frame, T>) where
        Self: 'frame,

        ensures
            mov.status() == storage.status().initialize(),
            *final(mov.memory()) == *final(storage.memory()),
            *final(mov.tracker()) == *final(storage.tracker()),
    {
        let (ptr, status) = storage.write(*self);
        MoveRef::new_unchecked(ptr, status)
    }
}

impl<'f, T> DerefMove for MoveRef<'f, T> {
    /// A [`MoveRef`] already owns its referent: it is handed on as it is, and
    /// the storage offered for it stays untouched.
    fn deref_move<'frame>(self, storage: Slot<'frame, ()>) -> (mov: MoveRef<'frame, T>) where
        Self: 'frame,

        ensures
            mov == self,
            *final(storage.memory()) == *storage.memory(),
            final(storage.tracker())@ == storage.status(),
    {
        proof {
            storage.lemma_unused();
        }
        self
    }
}

} // verus!
