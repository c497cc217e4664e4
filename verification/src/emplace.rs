use vstd::prelude::*;
use core::ops::Deref;
use std::rc::Rc;
use std::sync::Arc;
use crate::new::{New, TryNew};
use crate::pin::Pinned;

verus! {

/// Pointer types that can be made by constructing their referent in place.
pub trait Emplace<T>: Sized + Deref {
    type Output: Deref<Target = Self::Target>;

    /// Whether `value` is the referent of `output`. Unless an implementation
    /// says more, it may be any value.
    open spec fn emplaces(output: Self::Output, value: T) -> bool {
        true
    }

    /// Construct `new` behind a fresh pointer.
    fn emplace<N: New<Output = T>>(new: N) -> (output: Self::Output)
        ensures
            exists|value: T| Self::emplaces(output, value) && new.creates(value),
    {
        match Self::try_emplace(new) {
            Ok(output) => output,
            Err(_) => unreached(),
        }
    }

    /// Try to construct `new` behind a fresh pointer.
    ///
    /// # Errors
    ///
    /// Returns the error of the `new` initializer where it fails.
    fn try_emplace<N: TryNew<Output = T>>(new: N) -> (result: Result<Self::Output, N::Error>)
        ensures
            match result {
                Ok(output) => exists|value: T|
                    Self::emplaces(output, value) && new.try_creates(value),
                Err(error) => new.try_fails(error),
            },
    ;
}

impl<T> Emplace<T> for Box<T> {
    type Output = Pinned<Self>;

    open spec fn emplaces(output: Pinned<Self>, value: T) -> bool {
        value == *output.pointer()
    }

    fn try_emplace<N: TryNew<Output = T>>(new: N) -> (result: Result<Pinned<Self>, N::Error>) {
        let mut uninit: Option<T> = None;
        match new.try_new(&mut uninit) {
            Ok(_) => Ok(Pinned::new_unchecked(Box::new(uninit.unwrap()))),
            Err(error) => Err(error),
        }
    }
}

impl<T> Emplace<T> for Rc<T> {
    type Output = Pinned<Self>;

    open spec fn emplaces(output: Pinned<Self>, value: T) -> bool {
        value == *output.pointer()
    }

    fn try_emplace<N: TryNew<Output = T>>(new: N) -> (result: Result<Pinned<Self>, N::Error>) {
        let mut uninit: Option<T> = None;
        match new.try_new(&mut uninit) {
            Ok(_) => Ok(Pinned::new_unchecked(Rc::new(uninit.unwrap()))),
            Err(error) => Err(error),
        }
    }
}

impl<T> Emplace<T> for Arc<T> {
    type Output = Pinned<Self>;

    open spec fn emplaces(output: Pinned<Self>, value: T) -> bool {
        value == *output.pointer()
    }

    fn try_emplace<N: TryNew<Output = T>>(new: N) -> (result: Result<Pinned<Self>, N::Error>) {
        let mut uninit: Option<T> = None;
        match new.try_new(&mut uninit) {
            Ok(_) => Ok(Pinned::new_unchecked(Arc::new(uninit.unwrap()))),
            Err(error) => Err(error),
        }
    }
}

} // verus!
