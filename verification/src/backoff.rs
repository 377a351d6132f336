//! Exponential backoff for reconnect attempts.
//!
//! After the `n`-th transient failure the supervisor waits
//! `min(limit, 100 * 2^n)` milliseconds before trying again, so the delays
//! run 100ms, 200ms, 400ms, ... up to the configured ceiling.

use vstd::prelude::*;

verus! {

/// 2 to the power `n`.
pub open spec fn pow2(n: nat) -> nat
    decreases n,
{
    if n == 0 {
        1
    } else {
        2 * pow2((n - 1) as nat)
    }
}

/// The delay, in milliseconds, before the retry that follows the failure
/// numbered `retries` (counting from 0): `100 * 2^retries`, capped at `limit_ms`.
pub open spec fn backoff_spec(retries: nat, limit_ms: nat) -> nat {
    if 100 * pow2(retries) <= limit_ms {
        100 * pow2(retries)
    } else {
        limit_ms
    }
}

pub proof fn lemma_pow2_positive(n: nat)
    ensures
        pow2(n) >= 1,
    decreases n,
{
    if n > 0 {
        lemma_pow2_positive((n - 1) as nat);
    }
}

/// `pow2` is monotone: more failures never give a smaller uncapped delay.
pub proof fn lemma_pow2_monotone(m: nat, n: nat)
    requires
        m <= n,
    ensures
        pow2(m) <= pow2(n),
    decreases n,
{
    if m < n {
        lemma_pow2_monotone(m, (n - 1) as nat);
        lemma_pow2_positive((n - 1) as nat);
    }
}

/// Shape of the backoff sequence: every delay stays at or under the ceiling;
/// as long as the uncapped delay fits under the ceiling it is exactly
/// `100 * 2^n` (so the delays run 100, 200, 400, 800, ...); and one more
/// failure never shortens the wait.
pub proof fn lemma_backoff_sequence(n: nat, limit_ms: nat)
    ensures
        backoff_spec(n, limit_ms) <= limit_ms,
        100 * pow2(n) <= limit_ms ==> backoff_spec(n, limit_ms) == 100 * pow2(n),
        backoff_spec(n, limit_ms) <= backoff_spec(n + 1, limit_ms),
{
    lemma_pow2_monotone(n, n + 1);
}

/// Computes `min(limit_ms, 100 * 2^retries)` without overflowing.
pub fn backoff_delay_ms(retries: u64, limit_ms: u64) -> (d: u64)
    ensures
        d == backoff_spec(retries as nat, limit_ms as nat),
{
    let mut i: u64 = 0;
    let mut delay: u64 = 100;
    while i < retries
        invariant
            i <= retries,
            delay == 100 * pow2(i as nat),
        decreases retries - i,
    {
        if delay >= limit_ms {
            proof {
                lemma_pow2_monotone(i as nat, retries as nat);
            }
            return limit_ms;
        }
        if delay > u64::MAX / 2 {
            proof {
                lemma_pow2_monotone((i + 1) as nat, retries as nat);
            }
            return limit_ms;
        }
        delay = delay * 2;
        i = i + 1;
    }
    if delay <= limit_ms {
        delay
    } else {
        limit_ms
    }
}

} // verus!
