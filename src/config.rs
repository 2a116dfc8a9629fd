//! State kept between launches: when the last cache refresh started.
use vstd::prelude::*;
use crate::clock::now_millis;

verus! {

/// How long a refresh stays fresh: thirty minutes, in milliseconds.
pub const STALE_AFTER_MS: i64 = 1_800_000;

/// True when a cache whose last refresh started at `last` (milliseconds
/// since the epoch, `None` for never) is due for a refresh at `now`.
pub open spec fn is_stale(last: Option<i64>, now: int) -> bool {
    match last {
        None => true,
        Some(t) => now - t > STALE_AFTER_MS,
    }
}

/// The persisted launcher state.
pub struct GhAlfredConfig {
    /// When the last background refresh started, in milliseconds since the
    /// Unix epoch; `None` when none has started since the last reset.
    pub last_update_start_time: Option<i64>,
}

impl Default for GhAlfredConfig {
    fn default() -> (r: Self)
        ensures
            r.last_update_start_time is None,
    {
        GhAlfredConfig { last_update_start_time: None }
    }
}

impl GhAlfredConfig {
    /// Whether the cache is due for a refresh at the instant `now`.
    pub fn should_update_db_at(&self, now: i64) -> (r: bool)
        ensures
            r == is_stale(self.last_update_start_time, now as int),
    {
        match self.last_update_start_time {
            None => true,
            Some(t) => (now as i128) - (t as i128) > STALE_AFTER_MS as i128,
        }
    }

    /// Whether the cache is due for a refresh now: always when no refresh
    /// has started since the last reset.
    pub fn should_update_db(&self) -> (r: bool)
        ensures
            self.last_update_start_time is None ==> r,
    {
        let now = now_millis();
        self.should_update_db_at(now)
    }

    /// Records that a refresh starts at `now`.
    pub fn update_last_update_start_time_at(&mut self, now: i64)
        ensures
            final(self).last_update_start_time == Some(now),
    {
        self.last_update_start_time = Some(now);
    }

    /// Records that a refresh starts now, and returns that instant.
    pub fn update_last_update_start_time(&mut self) -> (now: i64)
        ensures
            final(self).last_update_start_time == Some(now),
    {
        let now = now_millis();
        self.update_last_update_start_time_at(now);
        now
    }

    /// Forgets the last refresh, so that the next check finds the cache due.
    pub fn reset_last_update_start_time(&mut self)
        ensures
            final(self).last_update_start_time is None,
    {
        self.last_update_start_time = None;
    }
}

/// A fresh or reset state is due for a refresh at any instant; right after a
/// refresh starts at `start` it is not due, and it is due again at any `later`
/// instant more than thirty minutes after `start`.
pub proof fn lemma_staleness_cycle(start: i64, later: i64)
    ensures
        is_stale(None, start as int),
        !is_stale(Some(start), start as int),
        later - start > STALE_AFTER_MS ==> is_stale(Some(start), later as int),
        later - start <= STALE_AFTER_MS ==> !is_stale(Some(start), later as int),
{
}

} // verus!
