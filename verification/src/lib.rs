//! Placement construction with uniquely owning references.
//!
//! A [`SlotStorage`] holds the memory for one value together with the record of
//! what became of it. A [`Slot`] is the one-shot right to construct a value in
//! that memory, and a [`MoveRef`] is the uniquely owning reference that results.

pub mod deref_move;
pub mod emplace;
pub mod into_move;
pub mod laws;
pub mod move_ref;
pub mod new;
pub mod pin;
pub mod slot;
pub mod slot_storage;
mod trivial;

pub use deref_move::DerefMove;
pub use emplace::Emplace;
pub use into_move::IntoMove;
pub use move_ref::MoveRef;
pub use new::{CopyNew, MoveNew, New, TryNew};
pub use pin::Pinned;
pub use slot::Slot;
pub use slot_storage::{
    SlotStorage, SlotStorageKind, SlotStorageStatus, SlotStorageTeardown, SlotStorageTracker,
    TrackerState,
};
