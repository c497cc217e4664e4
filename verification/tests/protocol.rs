use core::cell::Cell;
use core::mem::ManuallyDrop;
use moveref::{
    DerefMove, MoveRef, Pinned, SlotStorage, SlotStorageKind, SlotStorageTeardown,
    SlotStorageTracker,
};

/// A value that counts the runs of its destructor.
struct Counted<'a> {
    runs: &'a Cell<u32>,
    tag: u8,
}

impl<'a> Counted<'a> {
    fn new(runs: &'a Cell<u32>, tag: u8) -> Self {
        Counted { runs, tag }
    }
}

impl Drop for Counted<'_> {
    fn drop(&mut self) {
        self.runs.set(self.runs.get() + 1);
    }
}

#[test]
fn tracker_starts_uninitialized() {
    let mut tracker = SlotStorageTracker::new();
    let status = tracker.status();
    assert!(status.is_uninitialized());
    assert!(status.is_reference_zeroed());
    assert!(!status.is_initialized());
    assert!(!status.is_released());
    assert!(!status.is_leaking());
}

#[test]
fn tracker_initialize_counts_one_reference() {
    let mut tracker = SlotStorageTracker::new();
    let mut status = tracker.status();
    status.initialize();
    assert!(status.is_initialized());
    assert!(!status.is_uninitialized());
    assert!(!status.is_reference_zeroed());
    assert!(status.is_leaking());
}

#[test]
fn tracker_terminate_zeroes_the_count() {
    let mut tracker = SlotStorageTracker::new();
    let mut status = tracker.status();
    status.initialize();
    status.terminate();
    assert!(status.is_initialized());
    assert!(status.is_reference_zeroed());
    assert!(!status.is_leaking());
    assert!(!status.is_uninitialized());
    assert!(!status.is_released());
}

#[test]
fn tracker_release_suppresses_the_leak() {
    let mut tracker = SlotStorageTracker::new();
    let mut status = tracker.status();
    status.initialize();
    status.release();
    assert!(status.is_released());
    assert!(!status.is_reference_zeroed());
    assert!(!status.is_leaking());
}

#[test]
fn tracker_increment_and_decrement_are_symmetric() {
    let mut tracker = SlotStorageTracker::new();
    let mut status = tracker.status();
    status.increment();
    assert!(!status.is_reference_zeroed());
    assert!(!status.is_initialized());
    assert!(!status.is_uninitialized());
    assert!(!status.is_leaking());
    status.decrement();
    assert!(status.is_reference_zeroed());
    assert!(status.is_uninitialized());
}

#[test]
fn tracker_is_what_every_status_of_it_sees() {
    let mut tracker = SlotStorageTracker::new();
    tracker.status().initialize();
    assert!(tracker.status().is_initialized());
    tracker.status().decrement();
    assert!(tracker.status().is_reference_zeroed());
}

#[test]
fn put_then_read_yields_the_value() {
    for kind in [SlotStorageKind::Drop, SlotStorageKind::Keep] {
        let mut storage = SlotStorage::new(kind);
        let mov = storage.slot().put(String::from("placed"));
        assert_eq!("placed", *mov);
        assert_eq!("placed", *mov.as_ptr());
    }
}

#[test]
fn unused_storage_is_torn_down_silently() {
    for kind in [SlotStorageKind::Drop, SlotStorageKind::Keep] {
        let storage = SlotStorage::<String>::new(kind);
        assert!(matches!(storage.drop(), SlotStorageTeardown::Uninitialized));
    }
}

#[test]
fn unused_slot_leaves_storage_uninitialized() {
    let mut storage = SlotStorage::<String>::new(SlotStorageKind::Drop);
    let _slot = storage.slot();
    assert!(matches!(storage.drop(), SlotStorageTeardown::Uninitialized));
}

#[test]
fn destructor_runs_once_with_dropping_storage() {
    let runs = Cell::new(0);
    let mut storage = SlotStorage::new(SlotStorageKind::Drop);
    let mov = storage.slot().put(Counted::new(&runs, 1));
    assert_eq!(0, runs.get());
    mov.drop();
    assert_eq!(1, runs.get());
    let outcome = storage.drop();
    assert!(matches!(outcome, SlotStorageTeardown::Dropped(None)));
    drop(outcome);
    assert_eq!(1, runs.get());
}

#[test]
fn destructor_runs_once_with_keeping_storage() {
    let runs = Cell::new(0);
    let mut storage = SlotStorage::new(SlotStorageKind::Keep);
    let pin = storage.slot().pin(Counted::new(&runs, 1));
    pin.drop();
    assert_eq!(1, runs.get());
    let outcome = storage.drop();
    match outcome {
        SlotStorageTeardown::Kept(memory) => assert!(ManuallyDrop::into_inner(memory).is_none()),
        _ => panic!("a storage that keeps its referent was not kept"),
    }
    assert_eq!(1, runs.get());
}

#[test]
fn integer_scenario_with_natural_drop() {
    let mut storage = SlotStorage::new(SlotStorageKind::Drop);
    let mov = storage.slot().put(42i32);
    assert_eq!(42, *mov);
    mov.drop();
    assert!(matches!(storage.drop(), SlotStorageTeardown::Dropped(None)));
}

#[test]
fn integer_scenario_with_release() {
    let mut storage = SlotStorage::new(SlotStorageKind::Drop);
    let pin = storage.slot().pin(42i32);
    let ptr = MoveRef::release(pin);
    assert_eq!(42, *ptr);
    assert!(matches!(storage.drop(), SlotStorageTeardown::Dropped(Some(42))));
}

#[test]
fn released_referent_is_left_alone_by_keeping_storage() {
    let runs = Cell::new(0);
    let mut storage = SlotStorage::new(SlotStorageKind::Keep);
    let pin = storage.slot().pin(Counted::new(&runs, 7));
    let ptr = MoveRef::release(pin);
    assert_eq!(7, ptr.tag);
    let outcome = storage.drop();
    assert_eq!(0, runs.get());
    match outcome {
        SlotStorageTeardown::Kept(memory) => {
            assert_eq!(0, runs.get());
            let referent = ManuallyDrop::into_inner(memory);
            assert_eq!(Some(7), referent.as_ref().map(|counted| counted.tag));
            drop(referent);
            assert_eq!(1, runs.get());
        },
        _ => panic!("a storage that keeps its referent was not kept"),
    }
}

#[test]
fn released_referent_is_never_destroyed_by_keeping_storage() {
    let runs = Cell::new(0);
    let mut storage = SlotStorage::new(SlotStorageKind::Keep);
    let pin = storage.slot().pin(Counted::new(&runs, 7));
    let _ = MoveRef::release(pin);
    drop(storage.drop());
    assert_eq!(0, runs.get());
}

#[test]
fn released_referent_is_destroyed_once_by_dropping_storage() {
    let runs = Cell::new(0);
    let mut storage = SlotStorage::new(SlotStorageKind::Drop);
    let pin = storage.slot().pin(Counted::new(&runs, 7));
    let _ = MoveRef::release(pin);
    assert_eq!(0, runs.get());
    drop(storage.drop());
    assert_eq!(1, runs.get());
}

#[test]
fn into_inner_hands_the_value_out_undestroyed() {
    for kind in [SlotStorageKind::Drop, SlotStorageKind::Keep] {
        let runs = Cell::new(0);
        let mut storage = SlotStorage::new(kind);
        let mov = storage.slot().put(Counted::new(&runs, 9));
        let val = mov.into_inner();
        assert_eq!(9, val.tag);
        assert_eq!(0, runs.get());
        let outcome = storage.drop();
        assert!(!matches!(
            outcome,
            SlotStorageTeardown::Leaking(_) | SlotStorageTeardown::Uninitialized
        ));
        drop(outcome);
        assert_eq!(0, runs.get());
        drop(val);
        assert_eq!(1, runs.get());
    }
}

#[test]
fn forgotten_reference_is_reported_as_a_leak() {
    for kind in [SlotStorageKind::Drop, SlotStorageKind::Keep] {
        let runs = Cell::new(0);
        let mut storage = SlotStorage::new(kind);
        core::mem::forget(storage.slot().put(Counted::new(&runs, 3)));
        match storage.drop() {
            SlotStorageTeardown::Leaking(message) => {
                assert_eq!("a critical reference counter at <unknown> was not zeroed!", message)
            },
            _ => panic!("the leak was not found"),
        }
        assert_eq!(0, runs.get());
    }
}

#[test]
fn abort_message_names_the_location() {
    let storage = SlotStorage::<u8>::new(SlotStorageKind::Keep);
    assert_eq!("<unknown>", storage.display_location());
    assert_eq!(
        "a critical reference counter at <unknown> was not zeroed!",
        storage.abort_message()
    );
}

#[test]
fn nesting_hands_the_same_reference_on() {
    let runs = Cell::new(0);
    let mut storage = SlotStorage::new(SlotStorageKind::Keep);
    let outer = storage.slot().put(Counted::new(&runs, 5));
    let place = format!("{:p}", outer.as_ptr());
    let mut unused = SlotStorage::new(SlotStorageKind::Drop);
    let inner = DerefMove::deref_move(outer, unused.slot());
    assert_eq!(place, format!("{:p}", inner.as_ptr()));
    assert_eq!(5, inner.tag);
    inner.drop();
    assert_eq!(1, runs.get());
    assert!(matches!(unused.drop(), SlotStorageTeardown::Uninitialized));
    assert!(matches!(storage.drop(), SlotStorageTeardown::Kept(_)));
    assert_eq!(1, runs.get());
}

#[test]
fn writing_through_the_reference_changes_the_referent() {
    let mut storage = SlotStorage::new(SlotStorageKind::Drop);
    let mut mov = storage.slot().put(1u64);
    *mov.as_mut_ptr() = 2;
    assert_eq!(2, *mov);
    *mov += 1;
    assert_eq!(3, mov.into_inner());
}

#[test]
fn pinned_pointer_can_be_read_and_unwrapped() {
    let pin = Pinned::new(Box::new(11u16));
    assert_eq!(11, *pin);
    assert_eq!(11, **pin.get_ref());
    assert_eq!(11, *pin.into_inner());
}

#[test]
fn into_pin_keeps_the_referent() {
    let mut storage = SlotStorage::new(SlotStorageKind::Keep);
    let pin = storage.slot().put(13u8).into_pin();
    assert_eq!(13, *pin);
    let mov = pin.into_inner();
    assert_eq!(13, mov.into_inner());
}

#[test]
fn slot_is_vacant_until_it_was_filled_once() {
    let mut storage = SlotStorage::new(SlotStorageKind::Keep);
    assert!(storage.slot().is_vacant());
    storage.slot().put(1u8).drop();
    assert!(!storage.slot().is_vacant());
}

#[test]
fn pinned_pointer_can_be_written_through_where_the_referent_may_move() {
    let mut storage = SlotStorage::new(SlotStorageKind::Keep);
    let mut pin = storage.slot().pin(1u8);
    *pin.get_mut().as_mut_ptr() = 2;
    assert_eq!(2, *pin);
    pin.drop();
}
