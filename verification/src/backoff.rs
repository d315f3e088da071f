use vstd::prelude::*;

verus! {

/// Ceiling of the retry backoff, in time units (seconds).
pub const MAX_BACKOFF_S: u64 = 10;

/// The supervisor's bounded retry backoff: grows by one time unit per
/// consecutive failure, capped at [`MAX_BACKOFF_S`], and resets to zero
/// on a successful connection.
pub struct Backoff {
    backoff_s: u64,
}

impl Backoff {
    /// The current backoff in time units.
    pub closed spec fn view(&self) -> u64 {
        self.backoff_s
    }

    /// A fresh supervisor has no backoff: its first failure sleeps one
    /// time unit.
    pub fn new() -> (r: Self)
        ensures
            r@ == 0,
    {
        Backoff { backoff_s: 0 }
    }

    /// The backoff after `n` consecutive failures of a fresh (or just
    /// successful) supervisor.
    pub open spec fn spec_after_failures(n: nat) -> nat
        decreases n,
    {
        if n == 0 {
            0
        } else {
            spec_next_backoff(Self::spec_after_failures((n - 1) as nat) as u64) as nat
        }
    }

    /// A successful connection resets the backoff, so the next failure
    /// starts over at one time unit.
    pub fn on_success(&mut self)
        ensures
            final(self)@ == 0,
    {
        self.backoff_s = 0;
    }

    /// Registers one more consecutive failure and returns how long the
    /// supervisor must sleep before redialing.
    pub fn on_failure(&mut self) -> (sleep_s: u64)
        ensures
            final(self)@ == spec_next_backoff(old(self)@),
            sleep_s == final(self)@,
            final(self)@ <= MAX_BACKOFF_S,
    {
        let next = if self.backoff_s < MAX_BACKOFF_S {
            self.backoff_s + 1
        } else {
            MAX_BACKOFF_S
        };
        self.backoff_s = next;
        next
    }

    /// The current backoff in time units.
    pub fn current(&self) -> (r: u64)
        ensures
            r == self@,
    {
        self.backoff_s
    }
}

/// One failure grows the backoff by one time unit, up to the cap.
pub open spec fn spec_next_backoff(b: u64) -> u64 {
    if b + 1 <= MAX_BACKOFF_S {
        (b + 1) as u64
    } else {
        MAX_BACKOFF_S
    }
}

/// After `n` consecutive failures of a fresh supervisor the backoff is
/// `n` time units while `n` stays within the cap, and the cap afterwards:
/// the sleep never exceeds [`MAX_BACKOFF_S`].
pub proof fn lemma_backoff_after_failures(n: nat)
    ensures
        n <= MAX_BACKOFF_S ==> Backoff::spec_after_failures(n) == n,
        n > MAX_BACKOFF_S ==> Backoff::spec_after_failures(n) == MAX_BACKOFF_S,
    decreases n,
{
    if n > 0 {
        lemma_backoff_after_failures((n - 1) as nat);
    }
}

} // verus!
