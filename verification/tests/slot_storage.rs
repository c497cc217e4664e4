use moveref::{SlotStorage, SlotStorageKind, SlotStorageTeardown};

#[test]
fn slot_storage_drop() {
    let kind = SlotStorageKind::Drop;
    let storage = SlotStorage::<()>::new(kind);
    let outcome = storage.drop();
    assert!(matches!(outcome, SlotStorageTeardown::Uninitialized));
}
