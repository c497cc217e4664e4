use moveref::new::of;
use moveref::{CopyNew, DerefMove, MoveNew, SlotStorage, SlotStorageKind};

const VAL: bool = true;

#[test]
fn deref_move_expr() {
    assert_eq!(
        VAL,
        *DerefMove::deref_move(Box::new(VAL), SlotStorage::new(SlotStorageKind::Drop).slot())
    );
}

#[test]
fn trivial_copy() {
    let this = &true;
    let mut that = None;
    CopyNew::copy_new(this, &mut that);
    let that = that.unwrap();
    assert_eq!(this, &that);
}

#[test]
fn trivial_move() {
    let mut storage = SlotStorage::new(SlotStorageKind::Keep);
    let this = storage.slot().emplace(of(VAL));
    let mut that = None;
    MoveNew::move_new(this, &mut that);
    let that = that.unwrap();
    assert_eq!(VAL, that);
}
