use power_monitor::error::Error;
use power_monitor::lifecycle::{ListenerSlot, RetryCache, ShutdownLatch, StartReport};

#[test]
fn listener_start_is_idempotent_and_stop_releases_once() {
    let mut slot: ListenerSlot<u32> = ListenerSlot::new();
    assert!(slot.start_needed());
    assert!(!slot.is_running());
    assert!(slot.record_start(StartReport::Ready(7)).is_ok());
    assert!(slot.is_running());
    assert!(!slot.start_needed());
    assert_eq!(slot.take_for_stop(), Some(7));
    assert_eq!(slot.take_for_stop(), None);
    assert!(slot.start_needed());
}

#[test]
fn failed_listener_start_leaves_nothing_running() {
    let mut slot: ListenerSlot<u32> = ListenerSlot::new();
    let error = slot
        .record_start(StartReport::SetupFailed("no logind".to_string()))
        .unwrap_err();
    assert_eq!(
        error.message(),
        "failed to initialize the power event listeners: no logind"
    );
    assert!(!slot.is_running());
    let error = slot.record_start(StartReport::ListenerExited).unwrap_err();
    assert_eq!(
        error.message(),
        "failed to initialize the power event listeners: the power event listener thread exited unexpectedly"
    );
    assert!(slot.start_needed());
}

#[test]
fn shutdown_runs_once() {
    let mut latch = ShutdownLatch::new();
    assert!(latch.begin_shutdown());
    assert!(!latch.begin_shutdown());
    assert!(!latch.begin_shutdown());
}

#[test]
fn failed_attempts_are_not_cached() {
    let mut cache: RetryCache<String> = RetryCache::new();
    assert!(cache.get().is_none());
    assert!(cache
        .record(Err(Error::query("failed to connect to the system D-Bus")))
        .is_err());
    assert!(cache.get().is_none());
    assert!(cache.record(Ok("bus".to_string())).is_ok());
    assert_eq!(cache.get().map(|s| s.as_str()), Some("bus"));
}
