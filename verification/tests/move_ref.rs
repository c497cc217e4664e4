use core::cmp::Ordering;
use core::hash::{Hash, Hasher};
use moveref::new::of;
use moveref::{DerefMove, MoveRef, SlotStorage, SlotStorageKind, SlotStorageTeardown};

const VAL1: &str = "value1";
const VAL2: &str = "value2";

#[test]
fn deref_move_of_move_ref() {
    let mut storage = SlotStorage::new(SlotStorageKind::Keep);
    let x: MoveRef<Box<i32>> = storage.slot().put(Box::new(5));
    let mut dropping = SlotStorage::new(SlotStorageKind::Drop);
    let y: MoveRef<Box<i32>> = DerefMove::deref_move(x, dropping.slot());
    let z = y;
    assert_eq!(**z, 5);
}

#[test]
fn deref_move_of_box() {
    let x = Box::new(5);
    let mut dropping = SlotStorage::new(SlotStorageKind::Drop);
    let y: MoveRef<i32> = DerefMove::deref_move(x, dropping.slot());
    let z = y;
    assert_eq!(*z, 5);
}

#[test]
fn move_ref_into_inner() {
    let mut storage = SlotStorage::new(SlotStorageKind::Keep);
    let x: MoveRef<Box<i32>> = storage.slot().put(Box::new(5));
    let y = x.into_inner();
    assert_eq!(*y, 5);
}

#[test]
#[should_panic(expected = "a critical reference counter at")]
fn forget_move_ref() {
    let mut storage = SlotStorage::new(SlotStorageKind::Keep);
    let x: MoveRef<i32> = storage.slot().put(42);
    core::mem::forget(x);
    if let SlotStorageTeardown::Leaking(message) = storage.drop() {
        panic!("{}", message);
    }
}

#[test]
#[should_panic(expected = "a critical reference counter at")]
fn forget_move_ref_temporary() {
    let mut storage = SlotStorage::new(SlotStorageKind::Keep);
    core::mem::forget(storage.slot().put(42));
    if let SlotStorageTeardown::Leaking(message) = storage.drop() {
        panic!("{}", message);
    }
}

#[test]
#[should_panic(expected = "a critical reference counter at")]
fn forget_deref_moved_box() {
    let x = Box::new(5);
    let mut dropping = SlotStorage::new(SlotStorageKind::Drop);
    core::mem::forget(DerefMove::deref_move(x, dropping.slot()));
    if let SlotStorageTeardown::Leaking(message) = dropping.drop() {
        panic!("{}", message);
    }
}

struct PanicsOnDrop;

impl Drop for PanicsOnDrop {
    fn drop(&mut self) {
        panic!();
    }
}

#[test]
fn release_inhibits_drop() {
    let val = PanicsOnDrop;
    let mut storage = SlotStorage::new(SlotStorageKind::Keep);
    let t = storage.slot().emplace(of(val));
    let _ = MoveRef::release(t);
    let outcome = storage.drop();
    assert!(matches!(outcome, SlotStorageTeardown::Kept(_)));
}

#[test]
fn as_ptr() {
    let mut dropping = SlotStorage::new(SlotStorageKind::Drop);
    let val = DerefMove::deref_move(Box::new(VAL1), dropping.slot());
    let ptr = val.as_ptr();
    assert_eq!(VAL1, *ptr);
}

#[test]
fn as_mut_ptr() {
    let mut dropping = SlotStorage::new(SlotStorageKind::Drop);
    let mut val = DerefMove::deref_move(Box::new(VAL1), dropping.slot());
    let ptr = val.as_mut_ptr();
    assert_eq!(VAL1, *ptr);
    *ptr = VAL2;
    assert_eq!(VAL2, *ptr);
}

#[test]
fn deref_mut() {
    let mut storage = SlotStorage::new(SlotStorageKind::Keep);
    let mut val = storage.slot().put(VAL1);
    assert_eq!(VAL1, *val);
    *val = VAL2;
    assert_eq!(VAL2, *val);
}

#[test]
fn partial_eq() {
    let mut left = SlotStorage::new(SlotStorageKind::Keep);
    let lhs = left.slot().put(VAL1);
    let mut right = SlotStorage::new(SlotStorageKind::Keep);
    let rhs = right.slot().put(VAL1);
    assert!(lhs.eq(&rhs));
}

#[test]
fn partial_cmp() {
    let mut left = SlotStorage::new(SlotStorageKind::Keep);
    let lhs = left.slot().put(VAL1);
    let mut right = SlotStorage::new(SlotStorageKind::Keep);
    let rhs = right.slot().put(VAL1);
    assert!(matches!(lhs.partial_cmp(&rhs), Some(Ordering::Equal)));
}

#[test]
fn lt() {
    let mut left = SlotStorage::new(SlotStorageKind::Keep);
    let lhs = left.slot().put(VAL1);
    let mut right = SlotStorage::new(SlotStorageKind::Keep);
    let rhs = right.slot().put(VAL2);
    assert!(lhs.lt(&rhs));
}

#[test]
fn le() {
    let mut left = SlotStorage::new(SlotStorageKind::Keep);
    let lhs = left.slot().put(VAL1);
    let mut right = SlotStorage::new(SlotStorageKind::Keep);
    let rhs = right.slot().put(VAL2);
    assert!(lhs.le(&rhs));
}

#[test]
fn gt() {
    let mut left = SlotStorage::new(SlotStorageKind::Keep);
    let lhs = left.slot().put(VAL2);
    let mut right = SlotStorage::new(SlotStorageKind::Keep);
    let rhs = right.slot().put(VAL1);
    assert!(lhs.gt(&rhs));
}

#[test]
fn ge() {
    let mut left = SlotStorage::new(SlotStorageKind::Keep);
    let lhs = left.slot().put(VAL2);
    let mut right = SlotStorage::new(SlotStorageKind::Keep);
    let rhs = right.slot().put(VAL1);
    assert!(lhs.ge(&rhs));
}

#[test]
fn cmp() {
    let mut left = SlotStorage::new(SlotStorageKind::Keep);
    let lhs = left.slot().put(VAL1);
    let mut right = SlotStorage::new(SlotStorageKind::Keep);
    let rhs = right.slot().put(VAL2);
    assert!(matches!(lhs.cmp(&rhs), Ordering::Less));
}

#[test]
fn fmt() {
    let mut storage = SlotStorage::new(SlotStorageKind::Keep);
    let val = storage.slot().put(VAL1);
    assert_eq!(format!("{VAL1:#?}"), format!("{val:#?}"));
}

#[test]
fn hash() {
    let mut left = SlotStorage::new(SlotStorageKind::Keep);
    let lhs = left.slot().put(VAL1);
    let hash1 = {
        let mut hasher = seahash::SeaHasher::new();
        lhs.hash(&mut hasher);
        hasher.finish()
    };
    let mut right = SlotStorage::new(SlotStorageKind::Keep);
    let rhs = right.slot().put(VAL1);
    let hash2 = {
        let mut hasher = seahash::SeaHasher::new();
        rhs.hash(&mut hasher);
        hasher.finish()
    };
    assert_eq!(hash1, hash2);
}
