//! Backoff estimation for the acquire poll loop.
//!
//! A waiter far back in the queue polls less often than one near the front:
//! the sleep duration scales with the square root of how far past the
//! admission threshold its position sits, clamped so that it is never shorter
//! than the base duration and never more than a fixed multiple of it.

use vstd::prelude::*;

verus! {

/// Largest multiplier ever applied to the base sleep duration.
pub const MAX_BACKOFF_FACTOR: u64 = 16;

/// How far past the admission threshold a queue position sits.
pub open spec fn excess_of(position: u32, capacity: u32) -> nat {
    if position > capacity {
        (position - capacity) as nat
    } else {
        0
    }
}

/// Integer square root: the largest `r` with `r * r <= x`.
pub open spec fn isqrt_spec(x: nat) -> nat
    decreases x,
{
    if x == 0 {
        0
    } else {
        let r = isqrt_spec((x - 1) as nat);
        if (r + 1) * (r + 1) <= x {
            r + 1
        } else {
            r
        }
    }
}

/// The backoff multiplier: a sub-linear (square-root) curve over the excess,
/// clamped to `1..=MAX_BACKOFF_FACTOR`.
pub open spec fn backoff_factor(position: u32, capacity: u32) -> nat {
    let f = isqrt_spec(excess_of(position, capacity));
    if f < 1 {
        1
    } else if f > MAX_BACKOFF_FACTOR {
        MAX_BACKOFF_FACTOR as nat
    } else {
        f
    }
}

/// The estimated sleep duration in milliseconds: the base duration scaled by
/// the backoff factor, saturating at `u64::MAX`.
pub open spec fn backoff_millis(position: u32, capacity: u32, base_millis: u64) -> u64 {
    let p = base_millis * backoff_factor(position, capacity);
    if p > u64::MAX {
        u64::MAX
    } else {
        p as u64
    }
}

/// `isqrt_spec(x)` satisfies the defining bounds of the integer square root.
proof fn lemma_isqrt_spec_bounds(x: nat)
    ensures
        isqrt_spec(x) * isqrt_spec(x) <= x,
        x < (isqrt_spec(x) + 1) * (isqrt_spec(x) + 1),
    decreases x,
{
    let s = isqrt_spec(x);
    if x == 0 {
        assert(s == 0);
        assert(s * s <= x);
        assert(x < (s + 1) * (s + 1)) by (nonlinear_arith)
            requires
                s == 0,
                x == 0nat,
        ;
    } else {
        lemma_isqrt_spec_bounds((x - 1) as nat);
        let r = isqrt_spec((x - 1) as nat);
        assert(r * r <= x - 1);
        assert(x - 1 < (r + 1) * (r + 1));
        if (r + 1) * (r + 1) <= x {
            assert(s == r + 1);
            assert(s * s <= x);
            assert(x < (s + 1) * (s + 1)) by (nonlinear_arith)
                requires
                    s == r + 1,
                    x == (r + 1) * (r + 1),
            ;
        } else {
            assert(s == r);
            assert(s * s <= x);
            assert(x < (s + 1) * (s + 1));
        }
    }
}

/// The bounds pin the integer square root down uniquely.
proof fn lemma_isqrt_unique(x: nat, a: nat, b: nat)
    requires
        a * a <= x < (a + 1) * (a + 1),
        b * b <= x < (b + 1) * (b + 1),
    ensures
        a == b,
{
    if a < b {
        assert((a + 1) * (a + 1) <= b * b) by (nonlinear_arith)
            requires a + 1 <= b,
        ;
    }
    if b < a {
        assert((b + 1) * (b + 1) <= a * a) by (nonlinear_arith)
            requires b + 1 <= a,
        ;
    }
}

/// The integer square root is monotone.
proof fn lemma_isqrt_monotonic(a: nat, b: nat)
    requires
        a <= b,
    ensures
        isqrt_spec(a) <= isqrt_spec(b),
    decreases b - a,
{
    if a < b {
        lemma_isqrt_monotonic(a, (b - 1) as nat);
    }
}

/// The integer square root of `x`, capped at `MAX_BACKOFF_FACTOR`.
fn capped_isqrt(x: u32) -> (r: u32)
    ensures
        r as nat == if isqrt_spec(x as nat) > MAX_BACKOFF_FACTOR {
            MAX_BACKOFF_FACTOR as nat
        } else {
            isqrt_spec(x as nat)
        },
{
    proof {
        lemma_isqrt_spec_bounds(x as nat);
    }
    let mut r: u32 = 0;
    loop
        invariant
            r as u64 <= MAX_BACKOFF_FACTOR,
            (r as nat) * (r as nat) <= x as nat,
            r as nat <= isqrt_spec(x as nat),
        ensures
            r as u64 <= MAX_BACKOFF_FACTOR,
            (r as nat) * (r as nat) <= x as nat,
            r as nat <= isqrt_spec(x as nat),
            r as u64 == MAX_BACKOFF_FACTOR || (x as nat) < ((r + 1) as nat) * ((r + 1) as nat),
        decreases MAX_BACKOFF_FACTOR - r,
    {
        if (r as u64) >= MAX_BACKOFF_FACTOR {
            break;
        }
        let next: u32 = r + 1;
        proof {
            assert((next as int) * (next as int) <= 17 * 17) by (nonlinear_arith)
                requires
                    next as int <= 17,
            ;
        }
        if (next as u64) * (next as u64) > (x as u64) {
            break;
        }
        proof {
            lemma_isqrt_spec_bounds(x as nat);
            if next as nat > isqrt_spec(x as nat) {
                assert((isqrt_spec(x as nat) + 1) * (isqrt_spec(x as nat) + 1) <= (next as nat) * (
                next as nat)) by (nonlinear_arith)
                    requires
                        isqrt_spec(x as nat) + 1 <= next as nat,
                ;
            }
        }
        r = next;
    }
    proof {
        lemma_isqrt_spec_bounds(x as nat);
        if (r as u64) < MAX_BACKOFF_FACTOR {
            lemma_isqrt_unique(x as nat, r as nat, isqrt_spec(x as nat));
        }
    }
    r
}

/// Estimate how long a waiter at `position` should sleep before polling again,
/// given the admission threshold `capacity` and the configured base interval.
///
/// The result is exactly `backoff_millis`: the base duration times a clamped
/// square-root factor, and never less than the base duration itself.
pub fn estimate_appropriate_sleep_duration(position: u32, capacity: u32, base_millis: u64) -> (d:
    u64)
    ensures
        d == backoff_millis(position, capacity, base_millis),
        d >= base_millis,
{
    let excess: u32 = if position > capacity {
        position - capacity
    } else {
        0
    };
    let c = capped_isqrt(excess);
    let factor: u64 = if c < 1 {
        1
    } else {
        c as u64
    };
    assert(factor as nat == backoff_factor(position, capacity));
    let d = match base_millis.checked_mul(factor) {
        Some(p) => p,
        None => u64::MAX,
    };
    proof {
        vstd::arithmetic::mul::lemma_mul_inequality(1, factor as int, base_millis as int);
        vstd::arithmetic::mul::lemma_mul_is_commutative(base_millis as int, factor as int);
    }
    d
}

/// For a fixed capacity and base duration, the estimated sleep duration never
/// decreases as the observed position grows: waiters deeper in the queue back
/// off at least as long as those ahead of them.
pub proof fn lemma_backoff_monotonic(p1: u32, p2: u32, capacity: u32, base_millis: u64)
    requires
        p1 <= p2,
    ensures
        backoff_millis(p1, capacity, base_millis) <= backoff_millis(p2, capacity, base_millis),
{
    lemma_isqrt_monotonic(excess_of(p1, capacity), excess_of(p2, capacity));
    let f1 = backoff_factor(p1, capacity);
    let f2 = backoff_factor(p2, capacity);
    assert(f1 <= f2);
    vstd::arithmetic::mul::lemma_mul_inequality(f1 as int, f2 as int, base_millis as int);
    vstd::arithmetic::mul::lemma_mul_is_commutative(base_millis as int, f1 as int);
    vstd::arithmetic::mul::lemma_mul_is_commutative(base_millis as int, f2 as int);
}

/// The estimated sleep duration never drops below the base duration.
pub proof fn lemma_backoff_floor(position: u32, capacity: u32, base_millis: u64)
    ensures
        backoff_millis(position, capacity, base_millis) >= base_millis,
{
    let f = backoff_factor(position, capacity);
    vstd::arithmetic::mul::lemma_mul_inequality(1, f as int, base_millis as int);
    vstd::arithmetic::mul::lemma_mul_is_commutative(base_millis as int, f as int);
}

} // verus!
