use vstd::prelude::*;
use core::marker::PhantomData;
use core::mem::ManuallyDrop;
use crate::move_ref::MoveRef;
use crate::new::{CopyNew, MoveNew};
use crate::pin::Pinned;

verus! {

/// Move-construct by moving the referent out of `src` and into `dst` as it is.
fn trivial_move<T>(src: Pinned<MoveRef<'_, T>>, dst: &mut Option<T>)
    ensures
        *final(dst) == Some(src.pointer().value()),
        !final(src.pointer().tracker())@.is_leaking(),
{
    let this = src.into_inner_unchecked();
    let data = MoveRef::into_inner(this);
    *dst = Some(data);
}

impl CopyNew for () {
    open spec fn copies(src: Self, made: Self) -> bool {
        made == src
    }

    fn copy_new(src: &Self, dst: &mut Option<Self>) {
        let data = *src;
        *dst = Some(data);
    }
}

impl CopyNew for bool {
    open spec fn copies(src: Self, made: Self) -> bool {
        made == src
    }

    fn copy_new(src: &Self, dst: &mut Option<Self>) {
        let data = *src;
        *dst = Some(data);
    }
}

impl CopyNew for char {
    open spec fn copies(src: Self, made: Self) -> bool {
        made == src
    }

    fn copy_new(src: &Self, dst: &mut Option<Self>) {
        let data = *src;
        *dst = Some(data);
    }
}

impl CopyNew for i8 {
    open spec fn copies(src: Self, made: Self) -> bool {
        made == src
    }

    fn copy_new(src: &Self, dst: &mut Option<Self>) {
        let data = *src;
        *dst = Some(data);
    }
}

impl CopyNew for i16 {
    open spec fn copies(src: Self, made: Self) -> bool {
        made == src
    }

    fn copy_new(src: &Self, dst: &mut Option<Self>) {
        let data = *src;
        *dst = Some(data);
    }
}

impl CopyNew for i32 {
    open spec fn copies(src: Self, made: Self) -> bool {
        made == src
    }

    fn copy_new(src: &Self, dst: &mut Option<Self>) {
        let data = *src;
        *dst = Some(data);
    }
}

impl CopyNew for i64 {
    open spec fn copies(src: Self, made: Self) -> bool {
        made == src
    }

    fn copy_new(src: &Self, dst: &mut Option<Self>) {
        let data = *src;
        *dst = Some(data);
    }
}

impl CopyNew for i128 {
    open spec fn copies(src: Self, made: Self) -> bool {
        made == src
    }

    fn copy_new(src: &Self, dst: &mut Option<Self>) {
        let data = *src;
        *dst = Some(data);
    }
}

impl CopyNew for isize {
    open spec fn copies(src: Self, made: Self) -> bool {
        made == src
    }

    fn copy_new(src: &Self, dst: &mut Option<Self>) {
        let data = *src;
        *dst = Some(data);
    }
}

impl CopyNew for u8 {
    open spec fn copies(src: Self, made: Self) -> bool {
        made == src
    }

    fn copy_new(src: &Self, dst: &mut Option<Self>) {
        let data = *src;
        *dst = Some(data);
    }
}

impl CopyNew for u16 {
    open spec fn copies(src: Self, made: Self) -> bool {
        made == src
    }

    fn copy_new(src: &Self, dst: &mut Option<Self>) {
        let data = *src;
        *dst = Some(data);
    }
}

impl CopyNew for u32 {
    open spec fn copies(src: Self, made: Self) -> bool {
        made == src
    }

    fn copy_new(src: &Self, dst: &mut Option<Self>) {
        let data = *src;
        *dst = Some(data);
    }
}

impl CopyNew for u64 {
    open spec fn copies(src: Self, made: Self) -> bool {
        made == src
    }

    fn copy_new(src: &Self, dst: &mut Option<Self>) {
        let data = *src;
        *dst = Some(data);
    }
}

impl CopyNew for u128 {
    open spec fn copies(src: Self, made: Self) -> bool {
        made == src
    }

    fn copy_new(src: &Self, dst: &mut Option<Self>) {
        let data = *src;
        *dst = Some(data);
    }
}

impl CopyNew for usize {
    open spec fn copies(src: Self, made: Self) -> bool {
        made == src
    }

    fn copy_new(src: &Self, dst: &mut Option<Self>) {
        let data = *src;
        *dst = Some(data);
    }
}

impl<'a, T> CopyNew for &'a T {
    open spec fn copies(src: Self, made: Self) -> bool {
        made == src
    }

    fn copy_new(src: &Self, dst: &mut Option<Self>) {
        let data = *src;
        *dst = Some(data);
    }
}

impl<T> CopyNew for PhantomData<T> {
    open spec fn copies(src: Self, made: Self) -> bool {
        made == src
    }

    fn copy_new(src: &Self, dst: &mut Option<Self>) {
        let data = *src;
        *dst = Some(data);
    }
}

impl<T: Clone> CopyNew for Option<T> {
    open spec fn copies(src: Self, made: Self) -> bool {
        cloned::<Self>(src, made)
    }

    fn copy_new(src: &Self, dst: &mut Option<Self>) {
        let data = src.clone();
        *dst = Some(data);
    }
}

impl<T: Clone, E: Clone> CopyNew for Result<T, E> {
    open spec fn copies(src: Self, made: Self) -> bool {
        match (src, made) {
            (Ok(src), Ok(made)) => cloned::<T>(src, made),
            (Err(src), Err(made)) => cloned::<E>(src, made),
            _ => false,
        }
    }

    fn copy_new(src: &Self, dst: &mut Option<Self>) {
        let data = match src {
            Ok(value) => Ok(value.clone()),
            Err(error) => Err(error.clone()),
        };
        *dst = Some(data);
    }
}

impl<T: Clone> CopyNew for ManuallyDrop<T> {
    open spec fn copies(src: Self, made: Self) -> bool {
        cloned::<Self>(src, made)
    }

    fn copy_new(src: &Self, dst: &mut Option<Self>) {
        let data = src.clone();
        *dst = Some(data);
    }
}

impl MoveNew for () {
    open spec fn moves(src: Self, made: Self) -> bool {
        made == src
    }

    fn move_new(src: Pinned<MoveRef<'_, Self>>, dst: &mut Option<Self>) {
        trivial_move(src, dst);
    }
}

impl MoveNew for bool {
    open spec fn moves(src: Self, made: Self) -> bool {
        made == src
    }

    fn move_new(src: Pinned<MoveRef<'_, Self>>, dst: &mut Option<Self>) {
        trivial_move(src, dst);
    }
}

impl MoveNew for char {
    open spec fn moves(src: Self, made: Self) -> bool {
        made == src
    }

    fn move_new(src: Pinned<MoveRef<'_, Self>>, dst: &mut Option<Self>) {
        trivial_move(src, dst);
    }
}

impl MoveNew for i8 {
    open spec fn moves(src: Self, made: Self) -> bool {
        made == src
    }

    fn move_new(src: Pinned<MoveRef<'_, Self>>, dst: &mut Option<Self>) {
        trivial_move(src, dst);
    }
}

impl MoveNew for i16 {
    open spec fn moves(src: Self, made: Self) -> bool {
        made == src
    }

    fn move_new(src: Pinned<MoveRef<'_, Self>>, dst: &mut Option<Self>) {
        trivial_move(src, dst);
    }
}

impl MoveNew for i32 {
    open spec fn moves(src: Self, made: Self) -> bool {
        made == src
    }

    fn move_new(src: Pinned<MoveRef<'_, Self>>, dst: &mut Option<Self>) {
        trivial_move(src, dst);
    }
}

impl MoveNew for i64 {
    open spec fn moves(src: Self, made: Self) -> bool {
        made == src
    }

    fn move_new(src: Pinned<MoveRef<'_, Self>>, dst: &mut Option<Self>) {
        trivial_move(src, dst);
    }
}

impl MoveNew for i128 {
    open spec fn moves(src: Self, made: Self) -> bool {
        made == src
    }

    fn move_new(src: Pinned<MoveRef<'_, Self>>, dst: &mut Option<Self>) {
        trivial_move(src, dst);
    }
}

impl MoveNew for isize {
    open spec fn moves(src: Self, made: Self) -> bool {
        made == src
    }

    fn move_new(src: Pinned<MoveRef<'_, Self>>, dst: &mut Option<Self>) {
        trivial_move(src, dst);
    }
}

impl MoveNew for u8 {
    open spec fn moves(src: Self, made: Self) -> bool {
        made == src
    }

    fn move_new(src: Pinned<MoveRef<'_, Self>>, dst: &mut Option<Self>) {
        trivial_move(src, dst);
    }
}

impl MoveNew for u16 {
    open spec fn moves(src: Self, made: Self) -> bool {
        made == src
    }

    fn move_new(src: Pinned<MoveRef<'_, Self>>, dst: &mut Option<Self>) {
        trivial_move(src, dst);
    }
}

impl MoveNew for u32 {
    open spec fn moves(src: Self, made: Self) -> bool {
        made == src
    }

    fn move_new(src: Pinned<MoveRef<'_, Self>>, dst: &mut Option<Self>) {
        trivial_move(src, dst);
    }
}

impl MoveNew for u64 {
    open spec fn moves(src: Self, made: Self) -> bool {
        made == src
    }

    fn move_new(src: Pinned<MoveRef<'_, Self>>, dst: &mut Option<Self>) {
        trivial_move(src, dst);
    }
}

impl MoveNew for u128 {
    open spec fn moves(src: Self, made: Self) -> bool {
        made == src
    }

    fn move_new(src: Pinned<MoveRef<'_, Self>>, dst: &mut Option<Self>) {
        trivial_move(src, dst);
    }
}

impl MoveNew for usize {
    open spec fn moves(src: Self, made: Self) -> bool {
        made == src
    }

    fn move_new(src: Pinned<MoveRef<'_, Self>>, dst: &mut Option<Self>) {
        trivial_move(src, dst);
    }
}

impl<'a, T> MoveNew for &'a T {
    open spec fn moves(src: Self, made: Self) -> bool {
        made == src
    }

    fn move_new(src: Pinned<MoveRef<'_, Self>>, dst: &mut Option<Self>) {
        trivial_move(src, dst);
    }
}

impl<'a, T> MoveNew for &'a mut T {
    open spec fn moves(src: Self, made: Self) -> bool {
        made == src
    }

    fn move_new(src: Pinned<MoveRef<'_, Self>>, dst: &mut Option<Self>) {
        trivial_move(src, dst);
    }
}

impl<T> MoveNew for PhantomData<T> {
    open spec fn moves(src: Self, made: Self) -> bool {
        made == src
    }

    fn move_new(src: Pinned<MoveRef<'_, Self>>, dst: &mut Option<Self>) {
        trivial_move(src, dst);
    }
}

impl<T> MoveNew for Option<T> {
    open spec fn moves(src: Self, made: Self) -> bool {
        made == src
    }

    fn move_new(src: Pinned<MoveRef<'_, Self>>, dst: &mut Option<Self>) {
        trivial_move(src, dst);
    }
}

impl<T, E> MoveNew for Result<T, E> {
    open spec fn moves(src: Self, made: Self) -> bool {
        made == src
    }

    fn move_new(src: Pinned<MoveRef<'_, Self>>, dst: &mut Option<Self>) {
        trivial_move(src, dst);
    }
}

impl<T> MoveNew for ManuallyDrop<T> {
    open spec fn moves(src: Self, made: Self) -> bool {
        made == src
    }

    fn move_new(src: Pinned<MoveRef<'_, Self>>, dst: &mut Option<Self>) {
        trivial_move(src, dst);
    }
}

impl<P> MoveNew for Pinned<P> {
    open spec fn moves(src: Self, made: Self) -> bool {
        made == src
    }

    fn move_new(src: Pinned<MoveRef<'_, Self>>, dst: &mut Option<Self>) {
        trivial_move(src, dst);
    }
}

} // verus!
