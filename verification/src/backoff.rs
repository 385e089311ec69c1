//! Exponential backoff between attempts.

use vstd::arithmetic::power2::{lemma_pow2_pos, lemma_pow2_strictly_increases, lemma_pow2_unfold, pow2};
use vstd::prelude::*;

verus! {

/// How long to wait before attempt number `attempt`, counted from zero. The
/// first attempt goes out at once; retry `k` waits `base_ms * 2^(k-1)`
/// milliseconds, capped at `u64::MAX`.
pub open spec fn backoff_delay(base_ms: u64, attempt: nat) -> int {
    if attempt == 0 {
        0
    } else {
        let exact = base_ms * pow2((attempt - 1) as nat);
        if exact > u64::MAX {
            u64::MAX as int
        } else {
            exact
        }
    }
}

/// Delays never shrink from one attempt to the next.
pub proof fn lemma_backoff_monotonic(base_ms: u64, earlier: nat, later: nat)
    requires
        earlier <= later,
    ensures
        backoff_delay(base_ms, earlier) <= backoff_delay(base_ms, later),
{
    if 0 < earlier < later {
        let a = pow2((earlier - 1) as nat);
        let b = pow2((later - 1) as nat);
        lemma_pow2_strictly_increases((earlier - 1) as nat, (later - 1) as nat);
        assert(base_ms * a <= base_ms * b) by (nonlinear_arith)
            requires
                a <= b,
                base_ms >= 0,
        ;
    } else if earlier == 0 && later > 0 {
        lemma_pow2_pos((later - 1) as nat);
        assert(base_ms * pow2((later - 1) as nat) >= 0) by (nonlinear_arith)
            requires
                base_ms >= 0,
                pow2((later - 1) as nat) > 0,
        ;
    }
}

/// Computes [`backoff_delay`] in at most 64 doublings.
pub fn backoff_ms(base_ms: u64, attempt: u32) -> (delay: u64)
    ensures
        delay == backoff_delay(base_ms, attempt as nat),
{
    if attempt == 0 {
        return 0;
    }
    let mut delay: u64 = base_ms;
    let mut k: u32 = 1;
    proof {
        assert(pow2(0) == 1) by {
            lemma_pow2_pos(0);
            vstd::arithmetic::power2::lemma2_to64();
        }
        assert(base_ms * pow2(0) == base_ms);
    }
    while k < attempt && delay != 0 && delay != u64::MAX
        invariant
            1 <= k <= attempt,
            delay == backoff_delay(base_ms, k as nat),
        decreases attempt - k,
    {
        proof {
            lemma_pow2_unfold(k as nat);
            let p = pow2((k - 1) as nat);
            assert(base_ms * (2 * p) == 2 * (base_ms * p)) by (nonlinear_arith);
        }
        delay = if delay > u64::MAX / 2 {
            u64::MAX
        } else {
            delay * 2
        };
        k += 1;
    }
    proof {
        if k < attempt {
            lemma_backoff_monotonic(base_ms, k as nat, attempt as nat);
            if delay == 0 {
                lemma_pow2_pos((k - 1) as nat);
                let p = pow2((k - 1) as nat);
                let q = pow2((attempt - 1) as nat);
                assert(base_ms == 0) by (nonlinear_arith)
                    requires
                        base_ms * p == 0,
                        p > 0,
                        base_ms >= 0,
                ;
                assert(base_ms * q == 0) by (nonlinear_arith)
                    requires
                        base_ms == 0,
                ;
            }
        }
    }
    delay
}

} // verus!
