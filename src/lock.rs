//! A decaying counter lock in front of the token-creation path: every attempt
//! counts, `threshold` attempts trip it, and a tripped lock clears itself when
//! it is next loaded after the decay window.
use vstd::prelude::*;

verus! {

/// Attempts allowed before the lock trips, when none is configured.
pub const DEFAULT_LOCK_THRESHOLD: u64 = 5;

/// Seconds after which a tripped lock clears itself, when none is configured.
pub const DEFAULT_LOCK_DECAY_SECS: i64 = 7200;

/// The counter and the instant it tripped, if it did.
#[derive(Debug)]
pub struct CounterLock {
    pub threshold: u64,
    pub count: u64,
    pub locked_at: Option<i64>,
}

/// The lock after `n` more attempts at `now`.
pub open spec fn incremented(l: CounterLock, n: u64, now: i64) -> CounterLock {
    let count = if l.count + n > u64::MAX { u64::MAX } else { (l.count + n) as u64 };
    CounterLock {
        threshold: l.threshold,
        count,
        locked_at: if count >= l.threshold { Some(now) } else { l.locked_at },
    }
}

/// The lock after `k` single attempts, all at `now`.
pub open spec fn attempts(l: CounterLock, k: nat, now: i64) -> CounterLock
    decreases k,
{
    if k == 0 {
        l
    } else {
        incremented(attempts(l, (k - 1) as nat, now), 1, now)
    }
}

impl CounterLock {
    /// The lock is set exactly when the count has reached the threshold.
    pub open spec fn consistent(&self) -> bool {
        (self.locked_at is Some) == (self.count >= self.threshold)
    }

    /// A fresh, open lock.
    pub fn new(threshold: u64) -> (r: CounterLock)
        ensures
            r.threshold == threshold,
            r.count == 0,
            r.locked_at is None,
    {
        CounterLock { threshold, count: 0, locked_at: None }
    }

    /// A lock as it was stored.
    pub fn from_parts(threshold: u64, count: u64, locked_at: Option<i64>) -> (r: CounterLock)
        ensures
            r.threshold == threshold,
            r.count == count,
            r.locked_at == locked_at,
    {
        CounterLock { threshold, count, locked_at }
    }

    /// The lock has tripped.
    pub fn is_locked(&self) -> (r: bool)
        ensures
            r == (self.locked_at is Some),
    {
        self.locked_at.is_some()
    }

    /// Counts `n` more attempts at `now`; the lock trips, or trips again at
    /// `now`, once the count reaches the threshold.
    pub fn increment(&mut self, n: u64, now: i64)
        ensures
            *final(self) == incremented(*old(self), n, now),
            old(self).consistent() ==> final(self).consistent(),
    {
        self.count = self.count.saturating_add(n);
        if self.count >= self.threshold {
            self.locked_at = Some(now);
        }
    }

    /// Opens the lock and clears the count.
    pub fn reset(&mut self)
        ensures
            final(self).threshold == old(self).threshold,
            final(self).count == 0,
            final(self).locked_at is None,
            old(self).threshold >= 1 ==> final(self).consistent(),
    {
        self.count = 0;
        self.locked_at = None;
    }

    /// A copy of this lock.
    pub fn duplicate(&self) -> (r: CounterLock)
        ensures
            r == *self,
    {
        CounterLock { threshold: self.threshold, count: self.count, locked_at: self.locked_at }
    }
}

/// From an open lock with a positive threshold, exactly `threshold` single
/// attempts trip it, fewer leave it open, and a reset opens it again with a zero
/// count.
pub proof fn lemma_threshold_attempts_trip(l: CounterLock, now: i64)
    requires
        l.count == 0,
        l.locked_at is None,
        l.threshold >= 1,
    ensures
        attempts(l, l.threshold as nat, now).locked_at is Some,
        forall|k: nat| k < l.threshold ==> (#[trigger] attempts(l, k, now)).locked_at is None,
{
    assert forall|k: nat| k <= l.threshold implies (#[trigger] attempts(l, k, now)).count == k
        && (k < l.threshold ==> attempts(l, k, now).locked_at is None)
        && attempts(l, k, now).threshold == l.threshold by {
        lemma_attempts_count(l, k, now);
    }
}

proof fn lemma_attempts_count(l: CounterLock, k: nat, now: i64)
    requires
        l.count == 0,
        l.locked_at is None,
        k <= l.threshold,
    ensures
        attempts(l, k, now).count == k,
        attempts(l, k, now).threshold == l.threshold,
        k < l.threshold ==> attempts(l, k, now).locked_at is None,
        k == l.threshold && k >= 1 ==> attempts(l, k, now).locked_at is Some,
    decreases k,
{
    if k > 0 {
        lemma_attempts_count(l, (k - 1) as nat, now);
    }
}

/// How the lock is configured: its threshold and its decay window, if any.
#[derive(Debug, Clone, Copy)]
pub struct LockSettings {
    pub threshold: u64,
    pub decay_secs: Option<i64>,
}

/// A stored lock that is tripped at `locked_at` has decayed at `now`.
pub open spec fn decayed(decay_secs: Option<i64>, locked_at: Option<i64>, now: int) -> bool {
    decay_secs is Some && locked_at is Some && now >= locked_at->Some_0 + decay_secs->Some_0
}

impl LockSettings {
    /// The settings for a configured threshold and decay: a missing or zero
    /// threshold takes the default; a missing decay takes the default, and an
    /// explicit zero disables decay.
    pub fn from_config(threshold: Option<u64>, decay_secs: Option<i64>) -> (r: LockSettings)
        ensures
            r.threshold == (match threshold {
                Some(t) if t != 0 => t,
                _ => DEFAULT_LOCK_THRESHOLD,
            }),
            r.decay_secs == (match decay_secs {
                None => Some(DEFAULT_LOCK_DECAY_SECS),
                Some(d) => if d == 0 { None } else { Some(d) },
            }),
    {
        let t = match threshold {
            Some(t) => if t != 0 { t } else { DEFAULT_LOCK_THRESHOLD },
            None => DEFAULT_LOCK_THRESHOLD,
        };
        let d = match decay_secs {
            None => Some(DEFAULT_LOCK_DECAY_SECS),
            Some(d) => if d == 0 { None } else { Some(d) },
        };
        LockSettings { threshold: t, decay_secs: d }
    }

    /// The lock in force after loading `stored` (`None`: nothing stored) at
    /// `now`, and whether it must be written back. Nothing stored gives a fresh
    /// lock; a tripped lock whose decay window has passed is cleared and written
    /// back; in every case the configured threshold applies.
    pub fn on_load(&self, stored: Option<CounterLock>, now: i64) -> (r: (CounterLock, bool))
        ensures
            r.0.threshold == self.threshold,
            match stored {
                None => r.0.count == 0 && r.0.locked_at is None && !r.1,
                Some(l) => if decayed(self.decay_secs, l.locked_at, now as int) {
                    r.0.count == 0 && r.0.locked_at is None && r.1
                } else {
                    r.0.count == l.count && r.0.locked_at == l.locked_at
                        && !r.1
                },
            },
    {
        match stored {
            None => (CounterLock::new(self.threshold), false),
            Some(l) => {
                let elapsed = match (self.decay_secs, l.locked_at) {
                    (Some(d), Some(at)) => (now as i128) >= (at as i128) + (d as i128),
                    _ => false,
                };
                if elapsed {
                    (CounterLock::new(self.threshold), true)
                } else {
                    (CounterLock { threshold: self.threshold, count: l.count, locked_at: l.locked_at }, false)
                }
            }
        }
    }
}

} // verus!
