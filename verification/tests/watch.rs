use ruxe::{WakerRegistry, WatchCursor, WatchPoll};

#[test]
fn fresh_cursor_yields_initial_version() {
    let mut cursor = WatchCursor::new();
    assert_eq!(cursor.observe(1, false), WatchPoll::Changed);
    assert_eq!(cursor.observe(1, false), WatchPoll::Unchanged);
}

#[test]
fn cursor_coalesces_versions() {
    let mut cursor = WatchCursor::new();
    assert_eq!(cursor.observe(1, false), WatchPoll::Changed);
    // Versions 2 and 3 were published in between: one poll yields the latest.
    assert_eq!(cursor.observe(4, false), WatchPoll::Changed);
    assert_eq!(cursor.observe(4, false), WatchPoll::Unchanged);
}

#[test]
fn cursor_drains_final_value_before_close() {
    let mut cursor = WatchCursor::new();
    assert_eq!(cursor.observe(1, false), WatchPoll::Changed);
    assert_eq!(cursor.observe(2, true), WatchPoll::Changed);
    assert_eq!(cursor.observe(2, true), WatchPoll::Ended);
    assert_eq!(cursor.observe(2, true), WatchPoll::Ended);
}

#[test]
fn cursor_ends_when_closed_without_news() {
    let mut cursor = WatchCursor::new();
    assert_eq!(cursor.observe(1, false), WatchPoll::Changed);
    assert_eq!(cursor.observe(1, true), WatchPoll::Ended);
}

#[test]
fn registry_hands_out_fresh_ids() {
    let mut registry: WakerRegistry<u32> = WakerRegistry::new();
    assert_eq!(registry.next_id(), 0);
    assert_eq!(registry.reserve_id(), 0);
    assert_eq!(registry.reserve_id(), 1);
    assert_eq!(registry.next_id(), 2);
}

#[test]
fn registry_collects_registered_wakers() {
    let mut registry: WakerRegistry<u32> = WakerRegistry::new();
    assert!(registry.collect_wakers().is_empty());
    let first = registry.reserve_id();
    let second = registry.reserve_id();
    registry.register(first, 10);
    registry.register(second, 20);
    let mut wakers = registry.collect_wakers();
    wakers.sort();
    assert_eq!(wakers, vec![10, 20]);

    // Registering again under an id replaces the earlier waker.
    registry.register(first, 11);
    let mut wakers = registry.collect_wakers();
    wakers.sort();
    assert_eq!(wakers, vec![11, 20]);

    registry.unregister(second);
    assert_eq!(registry.collect_wakers(), vec![11]);
    // Unregistering an unknown id changes nothing.
    registry.unregister(second);
    assert_eq!(registry.collect_wakers(), vec![11]);
}
