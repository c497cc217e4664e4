use vstd::prelude::*;
use crate::into_move::IntoMove;
use crate::move_ref::MoveRef;
use crate::pin::Pinned;
use crate::slot_storage::{SlotStorage, SlotStorageKind};

verus! {

/// Types which can be constructed (initialized) into some provided storage.
pub trait New: Sized {
    type Output;

    /// Whether `value` is a value that this procedure may construct. Unless an
    /// implementation says more, it may construct any value.
    open spec fn creates(self, value: Self::Output) -> bool {
        true
    }

    /// Initialize `Self` using `this` for storage.
    ///
    /// - `this` is vacant memory that nobody wrote to before
    /// - after the call, `this` holds a value, one that the procedure creates
    fn new(self, this: &mut Option<Self::Output>)
        requires
            *old(this) is None,
        ensures
            *final(this) is Some,
            self.creates((*final(this))->0),
    ;
}

/// Types which can be constructed (initialized) into some provided storage.
/// Construction may fail.
pub trait TryNew: Sized {
    type Output;

    type Error;

    /// Whether `value` is a value that this procedure may construct. Unless an
    /// implementation says more, it may construct any value.
    open spec fn try_creates(self, value: Self::Output) -> bool {
        true
    }

    /// Whether `error` is an error with which this procedure may fail. Unless
    /// an implementation says more, it may fail with any error.
    open spec fn try_fails(self, error: Self::Error) -> bool {
        true
    }

    /// Try to initialize `Self` using `this` for storage.
    ///
    /// - `this` is vacant memory that nobody wrote to before
    /// - after a success, `this` holds a value, one that the procedure creates
    /// - after a failure, `this` is vacant as before
    fn try_new(self, this: &mut Option<Self::Output>) -> (result: Result<(), Self::Error>)
        requires
            *old(this) is None,
        ensures
            match result {
                Ok(_) => *final(this) is Some && self.try_creates((*final(this))->0),
                Err(error) => *final(this) is None && self.try_fails(error),
            },
    ;
}

impl<N: New> TryNew for N {
    type Output = N::Output;

    type Error = core::convert::Infallible;

    open spec fn try_creates(self, value: Self::Output) -> bool {
        self.creates(value)
    }

    open spec fn try_fails(self, error: Self::Error) -> bool {
        false
    }

    fn try_new(self, this: &mut Option<Self::Output>) -> (result: Result<(), Self::Error>) {
        self.new(this);
        Ok(())
    }
}

/// Types which can be copy-constructed from an existing value into some
/// provided storage.
pub trait CopyNew: Sized {
    /// Whether `made` is a value that copy-construction from `src` may give.
    /// Unless an implementation says more, it may give any value.
    open spec fn copies(src: Self, made: Self) -> bool {
        true
    }

    /// Copy-construct from `src` into the vacant memory `dst`.
    fn copy_new(src: &Self, dst: &mut Option<Self>)
        requires
            *old(dst) is None,
        ensures
            *final(dst) is Some,
            Self::copies(*src, (*final(dst))->0),
    ;
}

/// Types which can be move-constructed from an existing value into some
/// provided storage.
pub trait MoveNew: Sized {
    /// Whether `made` is a value that move-construction from `src` may give.
    /// Unless an implementation says more, it may give any value.
    open spec fn moves(src: Self, made: Self) -> bool {
        true
    }

    /// Move-construct from the referent of `src` into the vacant memory `dst`.
    /// The reference `src` is disposed of: its storage no longer counts it, or
    /// is released.
    fn move_new(src: Pinned<MoveRef<'_, Self>>, dst: &mut Option<Self>)
        requires
            *old(dst) is None,
        ensures
            *final(dst) is Some,
            Self::moves(src.pointer().value(), (*final(dst))->0),
            !final(src.pointer().tracker())@.is_leaking(),
    ;
}

/// A [`New`] made of a thunk that fills vacant memory.
#[verifier::reject_recursive_types(T)]
struct FnNew<F: FnOnce(Option<T>) -> Option<T>, T> {
    /// The underlying thunk.
    initializer: F,
    /// Phantom type holding `T`.
    _type: core::marker::PhantomData<T>,
}

impl<F: FnOnce(Option<T>) -> Option<T>, T> FnNew<F, T> {
    /// The thunk takes vacant memory and gives it back filled.
    #[verifier::type_invariant]
    closed spec fn fills_vacant_memory(self) -> bool {
        fills(self.initializer)
    }
}

/// Whether `initializer` takes vacant memory and gives it back filled.
pub open spec fn fills<T, F: FnOnce(Option<T>) -> Option<T>>(initializer: F) -> bool {
    &&& initializer.requires((None::<T>,))
    &&& forall|filled: Option<T>| initializer.ensures((None::<T>,), filled) ==> filled is Some
}

impl<F: FnOnce(Option<T>) -> Option<T>, T> New for FnNew<F, T> {
    type Output = T;

    closed spec fn creates(self, value: T) -> bool {
        self.initializer.ensures((None::<T>,), Some(value))
    }

    fn new(self, this: &mut Option<T>) {
        proof {
            use_type_invariant(&self);
        }
        let vacant = this.take();
        *this = (self.initializer)(vacant);
    }
}

/// Constructs a [`New`] value using a thunk which takes the vacant memory and
/// gives it back with its data initialized. The thunk must fill the memory,
/// whatever else it does.
pub fn by_raw<T, F>(initializer: F) -> (new: impl New<Output = T>) where
    F: FnOnce(Option<T>) -> Option<T>,

    requires
        fills(initializer),
    ensures
        forall|value: T| new.creates(value) <==> initializer.ensures((None::<T>,), Some(value)),
{
    FnNew { initializer, _type: core::marker::PhantomData }
}

/// Constructs a [`New`] value using a value-producing thunk `f`, which is run
/// at once.
pub fn by<T, F>(f: F) -> (new: impl New<Output = T>) where F: FnOnce() -> T
    requires
        f.requires(()),
    ensures
        forall|value: T| new.creates(value) ==> f.ensures((), value),
{
    let val = f();
    let initializer = move |dst: Option<T>| -> (filled: Option<T>)
        ensures
            filled == Some(val),
    {
        Some(val)
    };
    by_raw(initializer)
}

/// Constructs a [`New`] value using a given value `val`.
pub fn of<T>(val: T) -> (new: impl New<Output = T>)
    ensures
        forall|value: T| new.creates(value) ==> value == val,
{
    let thunk = move || -> (made: T)
        ensures
            made == val,
    {
        val
    };
    by::<T, _>(thunk)
}

/// Constructs a [`New`] value for a type `T` using its default value.
pub fn default<T: Default>() -> (new: impl New<Output = T>)
    ensures
        forall|value: T| new.creates(value) ==> T::default.ensures((), value),
{
    by::<T, _>(T::default)
}

/// Constructs a [`New`] value from a *uniquely* owning pointer `ptr` by moving
/// its referent into the eventually provided storage.
pub fn mov<P>(ptr: P) -> (new: impl New<Output = P::Target>) where
    P: IntoMove,
    P::Target: MoveNew + Sized,

    ensures
        forall|value: P::Target|
            new.creates(value) ==> exists|referent: P::Target|
                ptr.owns(referent) && <P::Target as MoveNew>::moves(referent, value),
{
    let initializer = move |dst: Option<P::Target>| -> (filled: Option<P::Target>)
        requires
            dst is None,
        ensures
            filled is Some,
            exists|referent: P::Target|
                ptr.owns(referent) && <P::Target as MoveNew>::moves(referent, filled->0),
    {
        let mut dst = dst;
        let mut storage = SlotStorage::<P::Storage>::new(SlotStorageKind::Drop);
        let src = ptr.into_move(storage.slot());
        MoveNew::move_new(src, &mut dst);
        let outcome = storage.drop();
        assert(!(outcome is Leaking));
        dst
    };
    by_raw(initializer)
}

} // verus!
