//! The two backoff policies of the connection layer.
//!
//! Both produce an ordered sequence of wait durations, in milliseconds,
//! between connection attempts. The construction policy is user-configured
//! and bounded: exhausting it fails construction. The reconnection policy is
//! fixed: exponential at first, then capped at a ceiling that it repeats
//! forever, so a rebuild is retried indefinitely with a bounded worst-case
//! delay between attempts.

use vstd::prelude::*;

verus! {

/// Base of the fixed reconnection backoff.
pub const EXPONENT_BASE: u32 = 2;

/// Growth factor, in milliseconds, of the fixed reconnection backoff.
pub const FACTOR: u32 = 100;

/// Number of growing steps of the fixed reconnection backoff; every later
/// step repeats the ceiling.
pub const NUMBER_OF_RETRIES: u32 = 5;

/// Ceiling, in milliseconds, on every reconnection backoff delay.
pub const MAX_RECONNECT_DELAY_MS: u64 = 5000;

/// `base` raised to the power `n`.
pub open spec fn pow_spec(base: nat, n: nat) -> nat
    decreases n,
{
    if n == 0 {
        1
    } else {
        base * pow_spec(base, (n - 1) as nat)
    }
}

/// Raising a base of at least one to a larger power never shrinks the result.
pub proof fn lemma_pow_monotone(base: nat, a: nat, b: nat)
    requires
        base >= 1,
        a <= b,
    ensures
        pow_spec(base, a) <= pow_spec(base, b),
    decreases b,
{
    if a < b {
        lemma_pow_monotone(base, a, (b - 1) as nat);
        let p = pow_spec(base, (b - 1) as nat);
        assert(base * p >= 1 * p) by (nonlinear_arith)
            requires
                base >= 1,
                p >= 0,
        ;
    }
}

/// A user-configured, bounded backoff policy for the initial connection.
///
/// Step `n` (counted from zero) waits `exponent_base^n * factor`
/// milliseconds; the sequence has exactly `number_of_retries` steps, so
/// construction makes one attempt plus one more per step before giving up.
pub struct RetryStrategy {
    pub exponent_base: u32,
    pub factor: u32,
    pub number_of_retries: u32,
}

/// The exact construction delay of step `n`, in milliseconds, as a
/// mathematical integer.
pub open spec fn construction_delay_spec(p: RetryStrategy, n: nat) -> nat {
    pow_spec(p.exponent_base as nat, n) * p.factor as nat
}

/// The construction delay of step `n` as a machine word: saturated at
/// `u64::MAX` where the exact value does not fit.
pub open spec fn saturated_delay_spec(p: RetryStrategy, n: nat) -> u64 {
    if construction_delay_spec(p, n) <= u64::MAX as nat {
        construction_delay_spec(p, n) as u64
    } else {
        u64::MAX
    }
}

/// With a base of at least one, a later construction step never waits less.
pub proof fn lemma_construction_delay_monotone(p: RetryStrategy, a: nat, b: nat)
    requires
        p.exponent_base >= 1,
        a <= b,
    ensures
        construction_delay_spec(p, a) <= construction_delay_spec(p, b),
{
    lemma_pow_monotone(p.exponent_base as nat, a, b);
    let pa = pow_spec(p.exponent_base as nat, a);
    let pb = pow_spec(p.exponent_base as nat, b);
    assert(pa * p.factor as nat <= pb * p.factor as nat) by (nonlinear_arith)
        requires
            pa <= pb,
            p.factor >= 0,
    ;
}

impl RetryStrategy {
    /// Bundles the three user-supplied parameters of the construction policy.
    pub fn new(exponent_base: u32, factor: u32, number_of_retries: u32) -> (r: RetryStrategy)
        ensures
            r == (RetryStrategy { exponent_base, factor, number_of_retries }),
    {
        RetryStrategy { exponent_base, factor, number_of_retries }
    }

    /// The delay, in milliseconds, of construction backoff step `n`.
    pub fn delay_at(&self, n: u32) -> (r: u64)
        ensures
            r == saturated_delay_spec(*self, n as nat),
    {
        let base = self.exponent_base as u64;
        let mut acc: u64 = self.factor as u64;
        let mut i: u32 = 0;
        proof {
            assert(1 * self.factor as nat == self.factor as nat) by (nonlinear_arith);
        }
        while i < n
            invariant
                i <= n,
                base == self.exponent_base as u64,
                acc as nat == construction_delay_spec(*self, i as nat),
            decreases n - i,
        {
            match acc.checked_mul(base) {
                Some(next) => {
                    proof {
                        lemma_step_multiplies(*self, i as nat);
                        assert(acc as nat * base as nat == base as nat * acc as nat)
                            by (nonlinear_arith);
                    }
                    acc = next;
                    i = i + 1;
                }
                None => {
                    proof {
                        lemma_step_multiplies(*self, i as nat);
                        assert(acc as nat * base as nat == base as nat * acc as nat)
                            by (nonlinear_arith);
                        if self.exponent_base == 0 {
                            assert(acc as nat * base as nat == 0) by (nonlinear_arith)
                                requires
                                    base as nat == 0,
                            ;
                        }
                        lemma_construction_delay_monotone(*self, i as nat + 1, n as nat);
                    }
                    return u64::MAX;
                }
            }
        }
        acc
    }

    /// The whole finite construction backoff sequence, in order: exactly
    /// `number_of_retries` delays, so exhausting it bounds construction to
    /// `number_of_retries + 1` attempts in all.
    pub fn durations(&self) -> (r: Vec<u64>)
        ensures
            r@.len() == self.number_of_retries as nat,
            forall|i: int|
                0 <= i < r@.len() ==> r@[i] == saturated_delay_spec(*self, i as nat),
    {
        let mut v: Vec<u64> = Vec::new();
        let mut i: u32 = 0;
        while i < self.number_of_retries
            invariant
                i <= self.number_of_retries,
                v@.len() == i as nat,
                forall|j: int|
                    0 <= j < i as int ==> v@[j] == saturated_delay_spec(*self, j as nat),
            decreases self.number_of_retries - i,
        {
            let d = self.delay_at(i);
            v.push(d);
            i = i + 1;
        }
        v
    }
}

/// Each construction step multiplies the previous exact delay by the base.
proof fn lemma_step_multiplies(p: RetryStrategy, n: nat)
    ensures
        construction_delay_spec(p, n + 1) == p.exponent_base as nat * construction_delay_spec(
            p,
            n,
        ),
{
    let b = p.exponent_base as nat;
    let f = p.factor as nat;
    let q = pow_spec(b, n);
    assert(pow_spec(b, n + 1) == b * q);
    assert((b * q) * f == b * (q * f)) by (nonlinear_arith);
}

/// The delay, in milliseconds, before reconnection attempt `n`: exponential
/// in the fixed constants while below the ceiling and before step
/// `NUMBER_OF_RETRIES`, and exactly the ceiling from then on, forever.
pub open spec fn reconnect_delay_spec(n: nat) -> u64 {
    if n < NUMBER_OF_RETRIES as nat {
        let raw = pow_spec(EXPONENT_BASE as nat, n) * FACTOR as nat;
        if raw < MAX_RECONNECT_DELAY_MS as nat {
            raw as u64
        } else {
            MAX_RECONNECT_DELAY_MS
        }
    } else {
        MAX_RECONNECT_DELAY_MS
    }
}

/// Law: the reconnection backoff never exceeds its ceiling, never shrinks
/// from one step to the next, and from step `NUMBER_OF_RETRIES` on it is
/// exactly the ceiling — the sequence flattens out and never ends.
pub proof fn lemma_reconnect_backoff(n: nat)
    ensures
        reconnect_delay_spec(n) <= MAX_RECONNECT_DELAY_MS,
        reconnect_delay_spec(n) <= reconnect_delay_spec(n + 1),
        n >= NUMBER_OF_RETRIES as nat ==> reconnect_delay_spec(n) == MAX_RECONNECT_DELAY_MS,
{
    let b = EXPONENT_BASE as nat;
    let f = FACTOR as nat;
    if n + 1 < NUMBER_OF_RETRIES as nat {
        lemma_pow_monotone(b, n, n + 1);
        let pa = pow_spec(b, n);
        let pb = pow_spec(b, n + 1);
        assert(pa * f <= pb * f) by (nonlinear_arith)
            requires
                pa <= pb,
                f >= 0,
        ;
    }
}

/// The fixed, infinite reconnection backoff sequence, read one step at a
/// time. Past step `NUMBER_OF_RETRIES` every delay equals the ceiling, so the
/// position is kept saturated there.
pub struct ReconnectionBackoff {
    steps_taken: u32,
}

impl ReconnectionBackoff {
    /// How many steps of the sequence have been handed out, saturated at
    /// `NUMBER_OF_RETRIES` (from there on the sequence is constant).
    pub closed spec fn steps(&self) -> nat {
        self.steps_taken as nat
    }

    /// The next reconnection delay, in milliseconds. There is always one:
    /// the sequence never ends, and no delay exceeds the ceiling.
    pub fn next_delay(&mut self) -> (r: u64)
        ensures
            r == reconnect_delay_spec(old(self).steps()),
            r <= MAX_RECONNECT_DELAY_MS,
            final(self).steps() == if old(self).steps() < NUMBER_OF_RETRIES as nat {
                old(self).steps() + 1
            } else {
                old(self).steps()
            },
    {
        let fixed = RetryStrategy {
            exponent_base: EXPONENT_BASE,
            factor: FACTOR,
            number_of_retries: NUMBER_OF_RETRIES,
        };
        let r: u64 = if self.steps_taken < NUMBER_OF_RETRIES {
            let raw = fixed.delay_at(self.steps_taken);
            self.steps_taken = self.steps_taken + 1;
            if raw < MAX_RECONNECT_DELAY_MS {
                raw
            } else {
                MAX_RECONNECT_DELAY_MS
            }
        } else {
            MAX_RECONNECT_DELAY_MS
        };
        r
    }
}

/// The backoff sequence that drives reconnection; fixed, not configurable by
/// users, starting at the first step.
pub fn internal_retry_iterator() -> (r: ReconnectionBackoff)
    ensures
        r.steps() == 0,
{
    ReconnectionBackoff { steps_taken: 0 }
}

} // verus!
