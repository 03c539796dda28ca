//! The performance score of a testcase, computed from its
//! power-schedule statistics: depth, novelty-bucket execution count, the
//! corpus-wide entropy estimate, and the active strategy.  Scores are
//! exact integers, strictly positive and bounded, so the alias tables
//! built from them stay in exact arithmetic.

use vstd::prelude::*;

use crate::corpus::CORPUS_LIMIT;
use crate::metadata::PowerSchedule;

verus! {

/// The base score of a testcase before strategy and depth factors.
pub const PERF_BASE: u64 = 100;

/// The largest score `calculate_score` can produce.
pub const SCORE_CEIL: u64 = 2000;

/// The floor of the binary logarithm: the position of the highest set
/// bit of a positive number.
pub open spec fn spec_log2(n: int) -> int
    decreases n,
{
    if n < 2 {
        0
    } else {
        1 + spec_log2(n / 2)
    }
}

/// The binary logarithm is nonnegative.
pub proof fn lemma_log2_nonneg(n: int)
    ensures
        spec_log2(n) >= 0,
    decreases n,
{
    if n >= 2 {
        lemma_log2_nonneg(n / 2);
    }
}

/// A number below a power of two has a logarithm below its exponent.
proof fn lemma_log2_below_pow2(n: int, k: nat)
    requires
        k >= 1,
        0 <= n < vstd::arithmetic::power2::pow2(k),
    ensures
        spec_log2(n) <= k - 1,
    decreases k,
{
    vstd::arithmetic::power2::lemma_pow2_unfold(k);
    if n >= 2 {
        if k == 1 {
            vstd::arithmetic::power2::lemma2_to64();
        } else {
            lemma_log2_below_pow2(n / 2, (k - 1) as nat);
        }
    }
}

/// The binary logarithm of a `u32` never exceeds 31.
pub proof fn lemma_log2_u32_bound(n: int)
    requires
        0 <= n < 0x1_0000_0000,
    ensures
        0 <= spec_log2(n) <= 31,
{
    lemma_log2_nonneg(n);
    vstd::arithmetic::power2::lemma2_to64();
    lemma_log2_below_pow2(n, 32);
}

/// The floor of the binary logarithm of a positive number.
pub fn log2_floor(x: u32) -> (r: u32)
    requires
        x >= 1,
    ensures
        r == spec_log2(x as int),
        r <= 31,
{
    let mut v: u32 = x;
    let mut r: u32 = 0;
    while v >= 2
        invariant
            1 <= v <= x,
            r <= 31,
            spec_log2(x as int) == r + spec_log2(v as int),
            v >= 2 ==> r <= 30,
        decreases v,
    {
        proof {
            lemma_log2_u32_bound(x as int);
            if v / 2 >= 2 {
                assert(spec_log2(v as int) == 1 + spec_log2(v as int / 2));
                assert(spec_log2(v as int / 2) == 1 + spec_log2(v as int / 2 / 2));
                lemma_log2_nonneg(v as int / 2 / 2);
            }
        }
        v = v / 2;
        r = r + 1;
    }
    proof {
        lemma_log2_u32_bound(x as int);
    }
    r
}

/// The depth factor: deeper testcases get a mild multiplicative bonus,
/// capped at five.
pub open spec fn spec_depth_factor(depth: u32) -> int {
    if depth < 4 {
        1
    } else if depth < 8 {
        2
    } else if depth < 14 {
        3
    } else if depth < 26 {
        4
    } else {
        5
    }
}

/// The strategy factor, from the bucket execution count and the entropy
/// estimate `mu_num / mu_den`.
pub open spec fn spec_strat_base(strat: PowerSchedule, count: u32, mu_num: int, mu_den: int) -> int {
    match strat {
        PowerSchedule::Explore => PERF_BASE as int,
        PowerSchedule::Exploit => 4 * PERF_BASE as int,
        PowerSchedule::Fast => if count == 0 {
            PERF_BASE as int
        } else {
            PERF_BASE as int / (1 + spec_log2(count as int))
        },
        PowerSchedule::Coe => if count > 0 && spec_log2(count as int) * mu_den > mu_num {
            1
        } else {
            PERF_BASE as int
        },
    }
}

/// The performance score of a testcase: the strategy factor scaled by
/// the depth factor, clamped into `[1, SCORE_CEIL]` so that every
/// testcase keeps a nonzero selection probability.
pub open spec fn spec_score(
    depth: u32,
    count: u32,
    mu_num: int,
    mu_den: int,
    strat: PowerSchedule,
) -> int {
    let s = spec_strat_base(strat, count, mu_num, mu_den) * spec_depth_factor(depth);
    if s < 1 {
        1
    } else if s > SCORE_CEIL as int {
        SCORE_CEIL as int
    } else {
        s
    }
}

/// Compute the performance score of one testcase.
pub fn calculate_score(
    depth: u32,
    count: u32,
    mu_num: u64,
    mu_den: u64,
    strat: PowerSchedule,
) -> (r: u64)
    requires
        mu_den <= CORPUS_LIMIT,
        mu_num <= 31 * CORPUS_LIMIT,
    ensures
        r == spec_score(depth, count, mu_num as int, mu_den as int, strat),
        1 <= r <= SCORE_CEIL,
{
    let base: u64 = match strat {
        PowerSchedule::Explore => PERF_BASE,
        PowerSchedule::Exploit => 4 * PERF_BASE,
        PowerSchedule::Fast => {
            if count == 0 {
                PERF_BASE
            } else {
                let lc = log2_floor(count);
                PERF_BASE / (1 + lc as u64)
            }
        },
        PowerSchedule::Coe => {
            if count > 0 {
                let lc = log2_floor(count);
                proof {
                    vstd::arithmetic::mul::lemma_mul_upper_bound(
                        lc as int,
                        31,
                        mu_den as int,
                        CORPUS_LIMIT as int,
                    );
                }
                if (lc as u64) * mu_den > mu_num {
                    1
                } else {
                    PERF_BASE
                }
            } else {
                PERF_BASE
            }
        },
    };
    let factor: u64 = if depth < 4 {
        1
    } else if depth < 8 {
        2
    } else if depth < 14 {
        3
    } else if depth < 26 {
        4
    } else {
        5
    };
    let s = base * factor;
    if s < 1 {
        1
    } else if s > SCORE_CEIL {
        SCORE_CEIL
    } else {
        s
    }
}

} // verus!
