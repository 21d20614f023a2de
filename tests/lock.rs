use aws_auth::lock::{CounterLock, LockSettings, DEFAULT_LOCK_DECAY_SECS, DEFAULT_LOCK_THRESHOLD};

const NOW: i64 = 1_700_000_000;

#[test]
fn threshold_increments_trip_the_lock() {
    let mut l = CounterLock::new(5);
    for _ in 0..4 {
        l.increment(1, NOW);
        assert!(!l.is_locked());
    }
    l.increment(1, NOW);
    assert!(l.is_locked());
    assert_eq!(l.count, 5);
    assert_eq!(l.locked_at, Some(NOW));
}

#[test]
fn reset_opens_the_lock() {
    let mut l = CounterLock::new(2);
    l.increment(2, NOW);
    assert!(l.is_locked());
    l.reset();
    assert!(!l.is_locked());
    assert_eq!(l.count, 0);
    assert_eq!(l.threshold, 2);
}

#[test]
fn increment_saturates() {
    let mut l = CounterLock::from_parts(5, u64::MAX - 1, None);
    l.increment(10, NOW);
    assert_eq!(l.count, u64::MAX);
    assert!(l.is_locked());
}

#[test]
fn settings_defaults_and_zero_values() {
    let s = LockSettings::from_config(None, None);
    assert_eq!(s.threshold, DEFAULT_LOCK_THRESHOLD);
    assert_eq!(s.decay_secs, Some(DEFAULT_LOCK_DECAY_SECS));
    let s = LockSettings::from_config(Some(0), Some(0));
    assert_eq!(s.threshold, 5);
    assert_eq!(s.decay_secs, None);
    let s = LockSettings::from_config(Some(3), Some(60));
    assert_eq!(s.threshold, 3);
    assert_eq!(s.decay_secs, Some(60));
}

#[test]
fn loading_nothing_gives_a_fresh_lock() {
    let s = LockSettings::from_config(Some(3), None);
    let (l, save) = s.on_load(None, NOW);
    assert_eq!((l.threshold, l.count, l.locked_at, save), (3, 0, None, false));
}

#[test]
fn loading_after_the_decay_window_clears_the_lock() {
    let s = LockSettings::from_config(Some(5), None);
    let stored = CounterLock::from_parts(5, 5, Some(NOW - 7200));
    let (l, save) = s.on_load(Some(stored), NOW);
    assert!(!l.is_locked());
    assert_eq!(l.count, 0);
    assert!(save);
}

#[test]
fn loading_within_the_decay_window_keeps_the_lock() {
    let s = LockSettings::from_config(Some(7), None);
    let stored = CounterLock::from_parts(5, 5, Some(NOW - 7199));
    let (l, save) = s.on_load(Some(stored), NOW);
    assert!(l.is_locked());
    assert_eq!(l.count, 5);
    assert_eq!(l.threshold, 7);
    assert!(!save);
}

#[test]
fn without_decay_a_lock_stays() {
    let s = LockSettings::from_config(Some(5), Some(0));
    let stored = CounterLock::from_parts(5, 5, Some(0));
    let (l, save) = s.on_load(Some(stored), NOW);
    assert!(l.is_locked());
    assert!(!save);
}
