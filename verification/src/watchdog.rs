use vstd::prelude::*;

use crate::errors::ProxyError;

verus! {

/// Liveness watchdog for the relayer heartbeat: remembers when the last
/// heartbeat arrived and fails the connection once the configured
/// staleness threshold is exceeded, so that a relayer that stops
/// heartbeating is abandoned rather than trusted indefinitely.
pub struct HeartbeatWatchdog {
    /// Instant (in time units) at which the last heartbeat was recorded;
    /// initialized to the instant the stream was entered.
    pub last_heartbeat: u64,
    /// The max tolerable age of the last heartbeat, in time units.
    pub oldest_allowed_heartbeat: u64,
}

/// Age of the last heartbeat as seen from `now`. A clock that has not
/// advanced past the last heartbeat counts as age zero.
pub open spec fn spec_heartbeat_age(last_heartbeat: u64, now: u64) -> u64 {
    if now >= last_heartbeat {
        (now - last_heartbeat) as u64
    } else {
        0
    }
}

impl HeartbeatWatchdog {
    /// Starts the watchdog as if a heartbeat had just arrived at `now`.
    pub fn new(now: u64, oldest_allowed_heartbeat: u64) -> (r: Self)
        ensures
            r.last_heartbeat == now,
            r.oldest_allowed_heartbeat == oldest_allowed_heartbeat,
    {
        HeartbeatWatchdog { last_heartbeat: now, oldest_allowed_heartbeat }
    }

    /// A heartbeat signal arrived: resets the staleness clock.
    pub fn record_heartbeat(&mut self, now: u64)
        ensures
            final(self).last_heartbeat == now,
            final(self).oldest_allowed_heartbeat == old(self).oldest_allowed_heartbeat,
    {
        self.last_heartbeat = now;
    }

    /// The periodic staleness check: fails with `HeartbeatExpired`
    /// exactly when the last heartbeat is older than the allowed age.
    /// A heartbeat exactly at the threshold still passes.
    pub fn check(&self, now: u64) -> (r: Result<(), ProxyError>)
        ensures
            r is Ok <==> spec_heartbeat_age(self.last_heartbeat, now)
                <= self.oldest_allowed_heartbeat,
            r is Err ==> r == Result::<(), ProxyError>::Err(ProxyError::HeartbeatExpired),
    {
        let age: u64 = if now >= self.last_heartbeat {
            now - self.last_heartbeat
        } else {
            0
        };
        if age > self.oldest_allowed_heartbeat {
            Err(ProxyError::HeartbeatExpired)
        } else {
            Ok(())
        }
    }
}

/// A heartbeat that arrives before the deadline resets the clock:
/// whatever the watchdog held before, once a heartbeat is recorded at
/// `beat`, a check at any instant within the allowed age of `beat`
/// passes, and a check at any later instant fails.
pub proof fn lemma_heartbeat_resets_clock(w: HeartbeatWatchdog, beat: u64, now: u64)
    requires
        w.last_heartbeat == beat,
        beat <= now,
    ensures
        now - beat <= w.oldest_allowed_heartbeat ==> spec_heartbeat_age(w.last_heartbeat, now)
            <= w.oldest_allowed_heartbeat,
        now - beat > w.oldest_allowed_heartbeat ==> spec_heartbeat_age(w.last_heartbeat, now)
            > w.oldest_allowed_heartbeat,
{
}

} // verus!
