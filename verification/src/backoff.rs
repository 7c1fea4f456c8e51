//! How long to wait before subscribing again after a failure.
//!
//! The wait doubles with each failure in a row up to a fixed maximum, and a
//! random part keeps peers that failed together from retrying together.

use vstd::prelude::*;
use vstd::arithmetic::power2::{lemma_pow2_unfold, pow2};
use crate::config::{RETRY_BASE_MS, RETRY_MAX_MS};

verus! {

/// The longest wait after `failures` failures in a row: `base` after the
/// first, twice the previous one after each further failure, never more
/// than `max`.
pub open spec fn backoff_ceiling(base: nat, max: nat, failures: nat) -> nat
    decreases failures,
{
    if failures <= 1 {
        if base <= max {
            base
        } else {
            max
        }
    } else {
        let doubled = 2 * backoff_ceiling(base, max, (failures - 1) as nat);
        if doubled <= max {
            doubled
        } else {
            max
        }
    }
}

/// The wait after `failures` failures in a row, for a random sample
/// `jitter`: the lower half of the ceiling is always waited, the sample
/// picks how much of the upper half is added.
pub open spec fn backoff_delay(base: nat, max: nat, failures: nat, jitter: nat) -> nat {
    let ceiling = backoff_ceiling(base, max, failures);
    ceiling / 2 + jitter % ((ceiling - ceiling / 2 + 1) as nat)
}

/// The ceiling never exceeds the maximum.
pub proof fn lemma_ceiling_at_most_max(base: nat, max: nat, failures: nat)
    ensures
        backoff_ceiling(base, max, failures) <= max,
{
}

/// Once the ceiling is zero or has reached the maximum, it stays there.
pub proof fn lemma_ceiling_settles(base: nat, max: nat, reached: nat, failures: nat)
    requires
        1 <= reached <= failures,
        backoff_ceiling(base, max, reached) == 0 || backoff_ceiling(base, max, reached) == max,
    ensures
        backoff_ceiling(base, max, failures) == backoff_ceiling(base, max, reached),
    decreases failures,
{
    if failures > reached {
        lemma_ceiling_settles(base, max, reached, (failures - 1) as nat);
    }
}

/// The ceiling never shrinks as failures add up.
pub proof fn lemma_ceiling_monotone(base: nat, max: nat, fewer: nat, more: nat)
    requires
        fewer <= more,
    ensures
        backoff_ceiling(base, max, fewer) <= backoff_ceiling(base, max, more),
    decreases more,
{
    if more > fewer && more > 1 {
        lemma_ceiling_monotone(base, max, fewer, (more - 1) as nat);
        lemma_ceiling_at_most_max(base, max, (more - 1) as nat);
    }
}

/// The ceiling in closed form: the base doubled once for each failure after
/// the first, cut off at the maximum.
pub proof fn lemma_ceiling_closed_form(base: nat, max: nat, failures: nat)
    requires
        failures >= 1,
    ensures
        backoff_ceiling(base, max, failures) == if base * pow2((failures - 1) as nat) <= max {
            base * pow2((failures - 1) as nat)
        } else {
            max
        },
    decreases failures,
{
    if failures == 1 {
        assert(pow2(0) == 1) by {
            vstd::arithmetic::power2::lemma2_to64();
        }
        assert(base * 1 == base);
    } else {
        let before = (failures - 1) as nat;
        lemma_ceiling_closed_form(base, max, before);
        lemma_pow2_unfold(before);
        let p = pow2((before - 1) as nat);
        assert(pow2(before) == 2 * p);
        assert(base * (2 * p) == 2 * (base * p)) by (nonlinear_arith);
    }
}

/// The wait lies between half the ceiling and the ceiling, so it never
/// exceeds the maximum.
pub proof fn lemma_delay_bounds(base: nat, max: nat, failures: nat, jitter: nat)
    ensures
        backoff_ceiling(base, max, failures) / 2 <= backoff_delay(base, max, failures, jitter),
        backoff_delay(base, max, failures, jitter) <= backoff_ceiling(base, max, failures),
        backoff_delay(base, max, failures, jitter) <= max,
{
    lemma_ceiling_at_most_max(base, max, failures);
}

/// The wait is at least half of the smaller of base and maximum, however
/// many failures came before and whatever the sample: where both are two
/// or more, no retry follows a failure at once.
pub proof fn lemma_delay_at_least(base: nat, max: nat, failures: nat, jitter: nat)
    ensures
        backoff_delay(base, max, failures, jitter) >= backoff_ceiling(base, max, 1) / 2,
        backoff_ceiling(base, max, 1) == if base <= max {
            base
        } else {
            max
        },
        base >= 2 && max >= 2 ==> backoff_delay(base, max, failures, jitter) >= 1,
{
    if failures >= 1 {
        lemma_ceiling_monotone(base, max, 1, failures);
    }
    lemma_delay_bounds(base, max, failures, jitter);
}

/// A bounded exponential backoff, in milliseconds.
#[derive(Debug, Clone, Copy, PartialEq, Eq)]
pub struct BackoffPolicy {
    /// The ceiling after the first failure.
    pub base_ms: u64,
    /// The ceiling that is never exceeded.
    pub max_ms: u64,
}

impl BackoffPolicy {
    /// A policy that starts at `base_ms` and never waits longer than `max_ms`.
    pub fn new(base_ms: u64, max_ms: u64) -> (policy: Self)
        ensures
            policy.base_ms == base_ms,
            policy.max_ms == max_ms,
    {
        BackoffPolicy { base_ms, max_ms }
    }

    /// The policy that a session runs with: the base and the maximum of the
    /// fixed settings.
    pub fn configured() -> (policy: Self)
        ensures
            policy == configured_policy(),
    {
        BackoffPolicy { base_ms: RETRY_BASE_MS, max_ms: RETRY_MAX_MS }
    }

    /// The shortest ceiling of this policy: the smaller of base and maximum.
    pub open spec fn floor(&self) -> nat {
        if self.base_ms <= self.max_ms {
            self.base_ms as nat
        } else {
            self.max_ms as nat
        }
    }

    /// The ceiling of this policy after `failures` failures in a row.
    pub open spec fn ceiling_after(&self, failures: nat) -> nat {
        backoff_ceiling(self.base_ms as nat, self.max_ms as nat, failures)
    }

    /// The wait of this policy after `failures` failures in a row.
    pub open spec fn delay_after(&self, failures: nat, jitter: nat) -> nat {
        backoff_delay(self.base_ms as nat, self.max_ms as nat, failures, jitter)
    }

    /// Computes the ceiling after `failures` failures in a row.
    pub fn ceiling(&self, failures: u32) -> (ceiling: u64)
        ensures
            ceiling == self.ceiling_after(failures as nat),
    {
        let max = self.max_ms;
        let mut current: u64 = if self.base_ms <= max {
            self.base_ms
        } else {
            max
        };
        if failures <= 1 {
            return current;
        }
        let mut counted: u32 = 1;
        while counted < failures && 0 < current && current < max
            invariant
                max == self.max_ms,
                1 <= counted <= failures,
                current == self.ceiling_after(counted as nat),
                current <= max,
            decreases failures - counted,
        {
            current = if current > max / 2 {
                max
            } else {
                2 * current
            };
            counted = counted + 1;
        }
        proof {
            if counted < failures {
                lemma_ceiling_settles(
                    self.base_ms as nat,
                    self.max_ms as nat,
                    counted as nat,
                    failures as nat,
                );
            }
        }
        current
    }

    /// Computes the wait after `failures` failures in a row, given a random
    /// sample. Any sample is accepted; the result is at most `max_ms`.
    pub fn delay(&self, failures: u32, jitter: u64) -> (delay: u64)
        ensures
            delay == self.delay_after(failures as nat, jitter as nat),
            delay <= self.max_ms,
    {
        let ceiling = self.ceiling(failures);
        let half = ceiling / 2;
        let span = ceiling - half + 1;
        proof {
            lemma_delay_bounds(
                self.base_ms as nat,
                self.max_ms as nat,
                failures as nat,
                jitter as nat,
            );
        }
        half + jitter % span
    }
}

/// The policy of the fixed settings.
pub open spec fn configured_policy() -> BackoffPolicy {
    BackoffPolicy { base_ms: RETRY_BASE_MS, max_ms: RETRY_MAX_MS }
}

/// Under the configured policy every wait is at least half the configured
/// base and at most the configured maximum: between 125 and 30000
/// milliseconds, whatever the failures and the sample.
pub proof fn lemma_configured_wait_bounds(failures: nat, jitter: nat)
    ensures
        RETRY_BASE_MS / 2 <= configured_policy().delay_after(failures, jitter) <= RETRY_MAX_MS,
        125 <= configured_policy().delay_after(failures, jitter) <= 30000,
{
    lemma_delay_at_least(RETRY_BASE_MS as nat, RETRY_MAX_MS as nat, failures, jitter);
    lemma_delay_bounds(RETRY_BASE_MS as nat, RETRY_MAX_MS as nat, failures, jitter);
}

} // verus!
