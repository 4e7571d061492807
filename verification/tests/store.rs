use awake_toggle::slot::ProcessSlot;
use awake_toggle::store::ProcessHandleStore;

fn shareable<T: Send + Sync>(_: &T) {}

#[test]
fn store_can_be_shared_between_threads() {
    let store: ProcessHandleStore<u32> = ProcessHandleStore::new();
    shareable(&store);
}

#[test]
fn store_starts_empty() {
    let store: ProcessHandleStore<u32> = ProcessHandleStore::new();
    let occupied = store.with_exclusive_access(|slot: &mut ProcessSlot<u32>| slot.is_occupied());
    assert!(!occupied);
}

#[test]
fn store_keeps_what_the_last_caller_left() {
    let store: ProcessHandleStore<u32> = ProcessHandleStore::new();
    store.with_exclusive_access(|slot: &mut ProcessSlot<u32>| slot.populate(41));
    let seen = store.with_exclusive_access(|slot: &mut ProcessSlot<u32>| slot.peek().copied());
    assert_eq!(seen, Some(41));
    let taken = store.with_exclusive_access(|slot: &mut ProcessSlot<u32>| slot.take());
    assert_eq!(taken, Some(41));
    let occupied = store.with_exclusive_access(|slot: &mut ProcessSlot<u32>| slot.is_occupied());
    assert!(!occupied);
}
