//! The retry/backoff policy: the timeout for attempt `n` (0-indexed) is
//! `15 * 2^n` seconds, and after 8 unanswered attempts the request times out.

use vstd::prelude::*;

verus! {

pub const RETRY_BASE_SECS: u64 = 15;

pub const MAX_ATTEMPTS: u32 = 8;

pub open spec fn spec_pow2(n: nat) -> nat
    decreases n,
{
    if n == 0 {
        1
    } else {
        2 * spec_pow2((n - 1) as nat)
    }
}

/// How long attempt `n` waits for a response.
pub open spec fn spec_timeout(n: nat) -> nat {
    (RETRY_BASE_SECS * spec_pow2(n)) as nat
}

proof fn lemma_shl_is_pow2(n: u32)
    requires
        n < MAX_ATTEMPTS,
    ensures
        (1u64 << n) == spec_pow2(n as nat),
    decreases n,
{
    if n == 0 {
        assert((1u64 << 0u32) == 1) by (bit_vector);
    } else {
        lemma_shl_is_pow2((n - 1) as u32);
        assert((1u64 << n) == 2 * (1u64 << (n - 1) as u32)) by (bit_vector)
            requires
                1 <= n < 8,
        ;
    }
}

proof fn lemma_small_shl_bound(n: u32)
    by (bit_vector)
    requires
        n < 8,
    ensures
        (1u64 << n) <= 128,
{
}

/// The wait before giving an attempt up, per the protocol's schedule.
pub fn timeout_for_attempt(attempt: u32) -> (r: u64)
    requires
        attempt < MAX_ATTEMPTS,
    ensures
        r == spec_timeout(attempt as nat),
{
    let factor = 1u64 << attempt;
    proof {
        lemma_shl_is_pow2(attempt);
        lemma_small_shl_bound(attempt);
    }
    RETRY_BASE_SECS * factor
}

/// Law: the schedule for a client that never receives a valid response is
/// exactly 15, 30, 60, 120, 240, 480, 960, 1920 seconds, one per attempt.
pub proof fn lemma_retry_schedule()
    ensures
        spec_timeout(0) == 15,
        spec_timeout(1) == 30,
        spec_timeout(2) == 60,
        spec_timeout(3) == 120,
        spec_timeout(4) == 240,
        spec_timeout(5) == 480,
        spec_timeout(6) == 960,
        spec_timeout(7) == 1920,
{
    reveal_with_fuel(spec_pow2, 9);
}

/// Counts the attempts already spent on one logical request; its lifetime is
/// a single connect or announce call.
pub struct RetryState {
    pub attempt: u32,
}

impl RetryState {
    pub fn new() -> (r: Self)
        ensures
            r.attempt == 0,
    {
        RetryState { attempt: 0 }
    }

    /// Whether the retry budget still allows another attempt.
    pub fn can_attempt(&self) -> (r: bool)
        ensures
            r == (self.attempt < MAX_ATTEMPTS),
    {
        self.attempt < MAX_ATTEMPTS
    }

    /// The timeout of the current attempt.
    pub fn current_timeout(&self) -> (r: u64)
        requires
            self.attempt < MAX_ATTEMPTS,
        ensures
            r == spec_timeout(self.attempt as nat),
    {
        timeout_for_attempt(self.attempt)
    }

    /// Moves on to the next attempt after an unanswered send.
    pub fn advance(&mut self)
        requires
            old(self).attempt < MAX_ATTEMPTS,
        ensures
            final(self).attempt == old(self).attempt + 1,
    {
        self.attempt = self.attempt + 1;
    }
}

} // verus!
