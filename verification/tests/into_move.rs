use moveref::{IntoMove, Pinned, SlotStorage, SlotStorageKind};

const VAL: &str = "value";

#[test]
fn into_move_box() {
    let kind = SlotStorageKind::Drop;
    let mut storage = SlotStorage::new(kind);
    let slot = storage.slot();
    let mref = IntoMove::into_move(Box::new(VAL), slot);
    assert_eq!(VAL, *mref);
}

#[test]
fn move_ref() {
    let kind = SlotStorageKind::Drop;
    let mut storage = SlotStorage::new(kind);
    let slot = storage.slot();
    let mut backing = SlotStorage::new(SlotStorageKind::Keep);
    let val = backing.slot().put(VAL);
    let mref = IntoMove::into_move(val, slot);
    assert_eq!(VAL, *mref);
}

#[test]
fn pin() {
    let kind = SlotStorageKind::Drop;
    let mut storage = SlotStorage::new(kind);
    let slot = storage.slot();
    let mref = IntoMove::into_move(Pinned::new(Box::new(VAL)), slot);
    assert_eq!(VAL, *mref);
}
