//! Construction of the alias-method sampling tables, in exact integer
//! arithmetic.
//!
//! For weights `w[0..n]` with total `W`, the tables hold, per slot `i`,
//! a cutoff `prob[i]` (in fixed point out of `W`) and an alias index
//! `alias[i]`.  Sampling draws a slot `s` uniformly from `[0, n)` and a
//! value `u` uniformly from `[0, W)`, and selects `s` when
//! `u < prob[s]`, else `alias[s]`.  Of the `n * W` equally likely draw
//! pairs, slot `i` contributes `prob[i]` outcomes to itself and
//! `W - prob[i]` to its alias, so index `j` is selected in exactly
//! `column_mass(j)` of them.  `build_alias_table` guarantees
//! `column_mass(j) == n * w[j]`: selection is exactly proportional to
//! the weights.

use vstd::prelude::*;

use vstd::pervasive::VecAdditionalExecFns;
use vstd::arithmetic::mul::{lemma_mul_is_distributive_add, lemma_mul_is_distributive_sub,
    lemma_mul_upper_bound};

use crate::corpus::CORPUS_LIMIT;
use crate::score::SCORE_CEIL;

verus! {

/// The sum of the first `k` elements of `s`.
pub open spec fn sum_prefix(s: Seq<u64>, k: int) -> int
    decreases k,
{
    if k <= 0 {
        0
    } else {
        sum_prefix(s, k - 1) + s[k - 1]
    }
}

/// A prefix sum of elements in `[1, SCORE_CEIL]` lies between the count
/// and `SCORE_CEIL` times the count.
pub proof fn lemma_sum_prefix_bounds(s: Seq<u64>, k: int)
    requires
        0 <= k <= s.len(),
        forall|i: int| 0 <= i < k ==> 1 <= #[trigger] s[i] <= SCORE_CEIL,
    ensures
        k <= sum_prefix(s, k) <= SCORE_CEIL * k,
    decreases k,
{
    if k > 0 {
        lemma_sum_prefix_bounds(s, k - 1);
    }
}

/// A prefix sum reads only the elements below `k`.
pub proof fn lemma_sum_prefix_agree(s1: Seq<u64>, s2: Seq<u64>, k: int)
    requires
        forall|j: int| 0 <= j < k ==> #[trigger] s1[j] == s2[j],
    ensures
        sum_prefix(s1, k) == sum_prefix(s2, k),
    decreases k,
{
    if k > 0 {
        lemma_sum_prefix_agree(s1, s2, k - 1);
    }
}

/// The sum of `q` at the listed indices.
pub open spec fn sum_at(q: Seq<u64>, idxs: Seq<usize>) -> int
    decreases idxs.len(),
{
    if idxs.len() == 0 {
        0
    } else {
        sum_at(q, idxs.drop_last()) + q[idxs.last() as int]
    }
}

/// Membership in a sequence is unchanged by appending, except for the
/// appended value.
proof fn lemma_contains_push(s: Seq<usize>, v: usize, x: usize)
    ensures
        s.push(v).contains(x) == (s.contains(x) || x == v),
{
    if s.push(v).contains(x) {
        let i = choose|i: int| 0 <= i < s.push(v).len() && s.push(v)[i] == x;
        if i < s.len() {
            assert(s[i] == x);
        }
    }
    if s.contains(x) {
        let i = choose|i: int| 0 <= i < s.len() && s[i] == x;
        assert(s.push(v)[i] == x);
    }
    if x == v {
        assert(s.push(v)[s.len() as int] == x);
    }
}

/// Membership in a nonempty sequence splits into the last element and
/// the rest.
proof fn lemma_contains_drop_last(s: Seq<usize>, x: usize)
    requires
        s.len() > 0,
    ensures
        s.contains(x) == (s.drop_last().contains(x) || s.last() == x),
{
    if s.contains(x) {
        let i = choose|i: int| 0 <= i < s.len() && s[i] == x;
        if i < s.len() - 1 {
            assert(s.drop_last()[i] == x);
        }
    }
    if s.drop_last().contains(x) {
        let i = choose|i: int| 0 <= i < s.drop_last().len() && s.drop_last()[i] == x;
        assert(s[i] == x);
    }
}

/// Appending a fresh value preserves distinctness.
proof fn lemma_nodup_push(s: Seq<usize>, v: usize)
    requires
        s.no_duplicates(),
        !s.contains(v),
    ensures
        s.push(v).no_duplicates(),
{
    assert forall|i: int, j: int|
        0 <= i < s.push(v).len() && 0 <= j < s.push(v).len() && i != j implies s.push(v)[i]
        != s.push(v)[j] by {
        if i < s.len() && j < s.len() {
        } else if i < s.len() {
            assert(s.contains(s[i]));
        } else if j < s.len() {
            assert(s.contains(s[j]));
        }
    }
}

/// Dropping the last element of a distinct sequence removes exactly it.
proof fn lemma_nodup_drop_last(s: Seq<usize>)
    requires
        s.len() > 0,
        s.no_duplicates(),
    ensures
        !s.drop_last().contains(s.last()),
        s.drop_last().no_duplicates(),
{
    if s.drop_last().contains(s.last()) {
        let i = choose|i: int| 0 <= i < s.drop_last().len() && s.drop_last()[i] == s.last();
        assert(s[i] == s[s.len() - 1]);
    }
}

/// Sums at fixed indices ignore values stored elsewhere.
proof fn lemma_sum_at_agree(q1: Seq<u64>, q2: Seq<u64>, idxs: Seq<usize>)
    requires
        forall|k: int|
            0 <= k < idxs.len() ==> #[trigger] idxs[k] < q1.len() && idxs[k] < q2.len() && q1[idxs[k] as int]
                == q2[idxs[k] as int],
    ensures
        sum_at(q1, idxs) == sum_at(q2, idxs),
    decreases idxs.len(),
{
    if idxs.len() > 0 {
        lemma_sum_at_agree(q1, q2, idxs.drop_last());
    }
}

/// A sum over indices whose values all reach `w` is at least `w` per
/// index.
proof fn lemma_sum_at_lower(q: Seq<u64>, idxs: Seq<usize>, w: int)
    requires
        forall|k: int|
            0 <= k < idxs.len() ==> #[trigger] idxs[k] < q.len() && q[idxs[k] as int] >= w,
    ensures
        sum_at(q, idxs) >= w * idxs.len(),
    decreases idxs.len(),
{
    if idxs.len() > 0 {
        lemma_sum_at_lower(q, idxs.drop_last(), w);
        lemma_mul_is_distributive_sub(w, idxs.len() as int, 1);
    } else {
        assert(w * 0 == 0) by (nonlinear_arith);
    }
}

/// A sum over indices whose values all stay below `w` is strictly less
/// than `w` per index, once there is at least one index.
proof fn lemma_sum_at_upper_strict(q: Seq<u64>, idxs: Seq<usize>, w: int)
    requires
        idxs.len() >= 1,
        forall|k: int| 0 <= k < idxs.len() ==> #[trigger] idxs[k] < q.len() && q[idxs[k] as int] < w,
    ensures
        sum_at(q, idxs) < w * idxs.len(),
    decreases idxs.len(),
{
    assert(idxs[idxs.len() - 1] == idxs.last());
    assert(w * 1 == w) by (nonlinear_arith);
    if idxs.len() == 1 {
        assert(idxs.drop_last().len() == 0);
        assert(sum_at(q, idxs.drop_last()) == 0);
        assert(q[idxs.last() as int] < w);
    } else {
        lemma_sum_at_upper_strict(q, idxs.drop_last(), w);
        lemma_mul_is_distributive_sub(w, idxs.len() as int, 1);
        assert(q[idxs.last() as int] < w);
    }
}

/// What slot `i` contributes to the selection mass of index `j`:
/// `prob[i]` if `i` is `j` itself, and the remainder `w_total - prob[i]`
/// if `j` is its alias.
pub open spec fn slot_contrib(
    prob: Seq<u64>,
    alias: Seq<usize>,
    w_total: int,
    i: int,
    j: int,
) -> int {
    (if i == j {
        prob[i] as int
    } else {
        0
    }) + (if alias[i] as int == j {
        w_total - prob[i]
    } else {
        0
    })
}

/// The selection mass of index `j` over the first `k` slots: of the
/// `n * w_total` equally likely draw pairs, how many select `j`.
pub open spec fn column_mass(prob: Seq<u64>, alias: Seq<usize>, w_total: int, j: int, k: int) -> int
    decreases k,
{
    if k <= 0 {
        0
    } else {
        column_mass(prob, alias, w_total, j, k - 1) + slot_contrib(prob, alias, w_total, k - 1, j)
    }
}

/// Whether slot `i` still sits on one of the two worklists.
pub open spec fn in_work(small: Seq<usize>, large: Seq<usize>, i: usize) -> bool {
    small.contains(i) || large.contains(i)
}

/// The selection mass of `j` counting only finalized slots: those no
/// longer on a worklist.
spec fn column_mass_live(
    prob: Seq<u64>,
    alias: Seq<usize>,
    w_total: int,
    small: Seq<usize>,
    large: Seq<usize>,
    j: int,
    k: int,
) -> int
    decreases k,
{
    if k <= 0 {
        0
    } else {
        column_mass_live(prob, alias, w_total, small, large, j, k - 1) + (if in_work(
            small,
            large,
            (k - 1) as usize,
        ) {
            0
        } else {
            slot_contrib(prob, alias, w_total, k - 1, j)
        })
    }
}

/// While every slot below `k` is still on a worklist, no mass is
/// finalized.
proof fn lemma_column_mass_live_full(
    prob: Seq<u64>,
    alias: Seq<usize>,
    w_total: int,
    small: Seq<usize>,
    large: Seq<usize>,
    j: int,
    k: int,
)
    requires
        k <= usize::MAX,
        forall|i: usize| (i as int) < k ==> #[trigger] in_work(small, large, i),
    ensures
        column_mass_live(prob, alias, w_total, small, large, j, k) == 0,
    decreases k,
{
    if k > 0 {
        lemma_column_mass_live_full(prob, alias, w_total, small, large, j, k - 1);
        assert(in_work(small, large, (k - 1) as usize));
    }
}

/// Once the worklists are empty, the finalized mass is the total mass.
proof fn lemma_column_mass_live_empty(
    prob: Seq<u64>,
    alias: Seq<usize>,
    w_total: int,
    small: Seq<usize>,
    large: Seq<usize>,
    j: int,
    k: int,
)
    requires
        small.len() == 0,
        large.len() == 0,
    ensures
        column_mass_live(prob, alias, w_total, small, large, j, k) == column_mass(
            prob,
            alias,
            w_total,
            j,
            k,
        ),
    decreases k,
{
    if k > 0 {
        lemma_column_mass_live_empty(prob, alias, w_total, small, large, j, k - 1);
    }
}

/// Finalizing one slot `s` — taking it off the worklists and fixing its
/// cutoff and alias — adds exactly its contribution to the finalized
/// mass, provided no other slot changes.
proof fn lemma_column_mass_live_step(
    prob1: Seq<u64>,
    alias1: Seq<usize>,
    small1: Seq<usize>,
    large1: Seq<usize>,
    prob2: Seq<u64>,
    alias2: Seq<usize>,
    small2: Seq<usize>,
    large2: Seq<usize>,
    w_total: int,
    s: usize,
    j: int,
    k: int,
)
    requires
        k <= usize::MAX,
        forall|i: int| 0 <= i < k && i != s ==> #[trigger] prob1[i] == prob2[i],
        forall|i: int| 0 <= i < k && i != s ==> #[trigger] alias1[i] == alias2[i],
        forall|i: usize|
            i != s ==> #[trigger] in_work(small2, large2, i) == in_work(small1, large1, i),
        in_work(small1, large1, s),
        !in_work(small2, large2, s),
    ensures
        column_mass_live(prob2, alias2, w_total, small2, large2, j, k) == column_mass_live(
            prob1,
            alias1,
            w_total,
            small1,
            large1,
            j,
            k,
        ) + (if (s as int) < k {
            slot_contrib(prob2, alias2, w_total, s as int, j)
        } else {
            0
        }),
    decreases k,
{
    if k > 0 {
        lemma_column_mass_live_step(
            prob1,
            alias1,
            small1,
            large1,
            prob2,
            alias2,
            small2,
            large2,
            w_total,
            s,
            j,
            k - 1,
        );
        if k - 1 != s {
            assert(prob1[k - 1] == prob2[k - 1]);
            assert(alias1[k - 1] == alias2[k - 1]);
            assert(in_work(small2, large2, (k - 1) as usize) == in_work(
                small1,
                large1,
                (k - 1) as usize,
            ));
        }
    }
}

/// The total selection mass of the first `k` indices, each over a table
/// of `n` slots.
pub open spec fn column_mass_total(
    prob: Seq<u64>,
    alias: Seq<usize>,
    w_total: int,
    k: int,
    n: int,
) -> int
    decreases k,
{
    if k <= 0 {
        0
    } else {
        column_mass_total(prob, alias, w_total, k - 1, n) + column_mass(prob, alias, w_total, k - 1, n)
    }
}

/// Mass conservation: a table whose column `j` carries mass
/// `n * weights[j]` carries in total the whole mass `n * W`.  Scaled
/// down by `W`, the normalized weights of the alias method sum back to
/// `n`, and no selection mass is created or lost.
pub proof fn lemma_alias_mass_conservation(
    prob: Seq<u64>,
    alias: Seq<usize>,
    w_total: int,
    weights: Seq<u64>,
    k: int,
)
    requires
        0 <= k <= weights.len(),
        forall|j: int|
            0 <= j < weights.len() ==> column_mass(prob, alias, w_total, j, weights.len() as int)
                == weights.len() * #[trigger] weights[j],
    ensures
        column_mass_total(prob, alias, w_total, k, weights.len() as int) == weights.len()
            * sum_prefix(weights, k),
    decreases k,
{
    if k > 0 {
        lemma_alias_mass_conservation(prob, alias, w_total, weights, k - 1);
        lemma_mul_is_distributive_add(
            weights.len() as int,
            sum_prefix(weights, k - 1),
            weights[k - 1] as int,
        );
    } else {
        assert(weights.len() * 0 == 0) by (nonlinear_arith);
    }
}

/// Build the alias tables for `weights` with total `w_total`.
///
/// Vose's construction in exact arithmetic: slot `i` starts with mass
/// `q[i] = n * w[i]`; a slot below the average (`q < w_total`) is
/// finalized against one above it, which hands over the deficit.
/// Because nothing is rounded, the remaining slots end at exactly the
/// average, and every column of the finished table carries the mass
/// `n * w[j]`.
pub fn build_alias_table(weights: &Vec<u64>, w_total: u64) -> (res: (Vec<u64>, Vec<usize>))
    requires
        1 <= weights@.len() <= CORPUS_LIMIT,
        forall|i: int| 0 <= i < weights@.len() ==> 1 <= #[trigger] weights@[i] <= SCORE_CEIL,
        w_total == sum_prefix(weights@, weights@.len() as int),
    ensures
        res.0@.len() == weights@.len(),
        res.1@.len() == weights@.len(),
        forall|i: int| 0 <= i < weights@.len() ==> #[trigger] res.0@[i] <= w_total,
        forall|i: int| 0 <= i < weights@.len() ==> #[trigger] res.1@[i] < weights@.len(),
        forall|j: int|
            0 <= j < weights@.len() ==> column_mass(res.0@, res.1@, w_total as int, j, weights@.len() as int)
                == weights@.len() * #[trigger] weights@[j],
{
    let n = weights.len();
    proof {
        lemma_sum_prefix_bounds(weights@, n as int);
    }
    let mut prob: Vec<u64> = vec![0u64; n];
    let mut alias: Vec<usize> = vec![0usize; n];
    let mut q: Vec<u64> = Vec::new();

    let mut i: usize = 0;
    while i < n
        invariant
            n == weights@.len(),
            1 <= n <= CORPUS_LIMIT,
            forall|k: int| 0 <= k < n ==> 1 <= #[trigger] weights@[k] <= SCORE_CEIL,
            i <= n,
            q@.len() == i,
            forall|k: int| 0 <= k < i ==> #[trigger] q@[k] == n * weights@[k],
            forall|k: int| 0 <= k < i ==> #[trigger] q@[k] <= n * (SCORE_CEIL as int),
        decreases n - i,
    {
        proof {
            lemma_mul_upper_bound(n as int, CORPUS_LIMIT as int, weights@[i as int] as int,
                SCORE_CEIL as int);
            vstd::arithmetic::mul::lemma_mul_inequality(weights@[i as int] as int,
                SCORE_CEIL as int, n as int);
        }
        let qi: u64 = (n as u64) * weights[i];
        q.push(qi);
        i += 1;
    }

    let mut small: Vec<usize> = Vec::new();
    let mut large: Vec<usize> = Vec::new();
    let mut i: usize = 0;
    while i < n
        invariant
            n == weights@.len(),
            1 <= n <= CORPUS_LIMIT,
            forall|k: int| 0 <= k < n ==> 1 <= #[trigger] weights@[k] <= SCORE_CEIL,
            w_total == sum_prefix(weights@, n as int),
            q@.len() == n,
            forall|k: int| 0 <= k < n ==> #[trigger] q@[k] == n * weights@[k],
            i <= n,
            forall|p: int|
                0 <= p < small@.len() ==> #[trigger] small@[p] < i && q@[small@[p] as int]
                    < w_total,
            forall|p: int|
                0 <= p < large@.len() ==> #[trigger] large@[p] < i && q@[large@[p] as int]
                    >= w_total,
            forall|k: usize| k < i ==> #[trigger] in_work(small@, large@, k),
            small@.no_duplicates(),
            large@.no_duplicates(),
            forall|k: usize| !(small@.contains(k) && #[trigger] large@.contains(k)),
            small@.len() + large@.len() == i,
            sum_at(q@, small@) + sum_at(q@, large@) == n * sum_prefix(weights@, i as int),
        decreases n - i,
    {
        let ghost small0 = small@;
        let ghost large0 = large@;
        let qi = q[i];
        if qi < w_total {
            small.push(i);
            proof {
                assert(small@.drop_last() =~= small0);
                lemma_nodup_push(small0, i);
                assert forall|k: usize| k < i + 1 implies #[trigger] in_work(small@, large@, k) by {
                    lemma_contains_push(small0, i, k);
                    if k < i {
                        assert(in_work(small0, large0, k));
                    }
                }
                assert forall|k: usize| !(small@.contains(k) && #[trigger] large@.contains(k)) by {
                    lemma_contains_push(small0, i, k);
                }
            }
        } else {
            large.push(i);
            proof {
                assert(large@.drop_last() =~= large0);
                lemma_nodup_push(large0, i);
                assert forall|k: usize| k < i + 1 implies #[trigger] in_work(small@, large@, k) by {
                    lemma_contains_push(large0, i, k);
                    if k < i {
                        assert(in_work(small0, large0, k));
                    }
                }
                assert forall|k: usize| !(small@.contains(k) && #[trigger] large@.contains(k)) by {
                    lemma_contains_push(large0, i, k);
                }
            }
        }
        proof {
            lemma_mul_is_distributive_add(n as int, sum_prefix(weights@, i as int),
                weights@[i as int] as int);
        }
        i += 1;
    }

    proof {
        assert(sum_at(q@, small@) + sum_at(q@, large@) == n * (w_total as int));
        assert(n * (w_total as int) == (w_total as int) * (small@.len() + large@.len()))
            by (nonlinear_arith)
            requires
                n == small@.len() + large@.len(),
        ;
        assert forall|j: int|
            0 <= j < n implies column_mass_live(prob@, alias@, w_total as int, small@, large@, j, n as int)
            + (if in_work(small@, large@, j as usize) {
            q@[j] as int
        } else {
            0
        }) == n * weights@[j] by {
            lemma_column_mass_live_full(prob@, alias@, w_total as int, small@, large@, j, n as int);
        }
    }

    while small.len() > 0 && large.len() > 0
        invariant
            n == weights@.len(),
            1 <= n <= CORPUS_LIMIT,
            forall|k: int| 0 <= k < n ==> 1 <= #[trigger] weights@[k] <= SCORE_CEIL,
            n <= w_total,
            q@.len() == n,
            prob@.len() == n,
            alias@.len() == n,
            forall|p: int|
                0 <= p < small@.len() ==> #[trigger] small@[p] < n && q@[small@[p] as int]
                    < w_total,
            forall|p: int|
                0 <= p < large@.len() ==> #[trigger] large@[p] < n && q@[large@[p] as int]
                    >= w_total,
            small@.no_duplicates(),
            large@.no_duplicates(),
            forall|k: usize| !(small@.contains(k) && #[trigger] large@.contains(k)),
            sum_at(q@, small@) + sum_at(q@, large@) == w_total * (small@.len() + large@.len()),
            forall|k: usize|
                k < n && !(#[trigger] in_work(small@, large@, k)) ==> prob@[k as int] <= w_total
                    && alias@[k as int] < n,
            forall|j: int|
                0 <= j < n ==> column_mass_live(prob@, alias@, w_total as int, small@, large@, j, n as int)
                    + (if in_work(small@, large@, j as usize) {
                    q@[j] as int
                } else {
                    0
                }) == n * #[trigger] weights@[j],
        decreases small@.len() + large@.len(),
    {
        let ghost prob0 = prob@;
        let ghost alias0 = alias@;
        let ghost small0 = small@;
        let ghost large0 = large@;
        let ghost q0 = q@;

        let s = match small.pop() {
            Some(x) => x,
            None => vstd::pervasive::unreached(),
        };
        let l = match large.pop() {
            Some(x) => x,
            None => vstd::pervasive::unreached(),
        };
        proof {
            lemma_nodup_drop_last(small0);
            lemma_nodup_drop_last(large0);
        }
        let qs = q[s];
        let ql = q[l];
        prob.set(s, qs);
        alias.set(s, l);
        let ghost qmid = q@;
        q.set(l, ql - (w_total - qs));

        let push_small = q[l] < w_total;
        if push_small {
            small.push(l);
        } else {
            large.push(l);
        }

        proof {
            let smid = small0.drop_last();
            let lmid = large0.drop_last();
            // membership after the pops and the push of l
            assert forall|k: usize|
                #[trigger] in_work(small@, large@, k) == (in_work(smid, lmid, k) || k == l) by {
                if push_small {
                    lemma_contains_push(smid, l, k);
                } else {
                    lemma_contains_push(lmid, l, k);
                }
            }
            assert forall|k: usize|
                k != s implies #[trigger] in_work(small@, large@, k) == in_work(
                small0,
                large0,
                k,
            ) by {
                lemma_contains_drop_last(small0, k);
                lemma_contains_drop_last(large0, k);
            }
            assert(in_work(small0, large0, s));
            assert(!in_work(small@, large@, s)) by {
                assert(!smid.contains(s));
                assert(!large0.contains(s));
                lemma_contains_drop_last(large0, s);
            }

            // worklist wf is kept
            assert forall|p: int|
                0 <= p < small@.len() implies #[trigger] small@[p] < n && q@[small@[p] as int]
                < w_total by {
                if p < smid.len() {
                    assert(small0[p] == smid[p]);
                    assert(smid.contains(smid[p]));
                    lemma_contains_drop_last(large0, smid[p]);
                }
            }
            assert forall|p: int|
                0 <= p < large@.len() implies #[trigger] large@[p] < n && q@[large@[p] as int]
                >= w_total by {
                if p < lmid.len() {
                    assert(large0[p] == lmid[p]);
                    assert(lmid.contains(lmid[p]));
                    lemma_contains_drop_last(large0, lmid[p]);
                    assert(lmid[p] != l);
                }
            }

            // distinctness is kept
            if push_small {
                assert(!smid.contains(l));
                lemma_nodup_push(smid, l);
                assert forall|k: usize|
                    !(small@.contains(k) && #[trigger] large@.contains(k)) by {
                    lemma_contains_push(smid, l, k);
                    lemma_contains_drop_last(large0, k);
                }
            } else {
                lemma_nodup_push(lmid, l);
                assert forall|k: usize|
                    !(small@.contains(k) && #[trigger] large@.contains(k)) by {
                    lemma_contains_push(lmid, l, k);
                    lemma_contains_drop_last(large0, k);
                }
            }

            // the mass ledger: s is finalized with cutoff q0[s] and alias l
            assert forall|j: int|
                0 <= j < n implies column_mass_live(prob@, alias@, w_total as int, small@, large@, j, n as int)
                + (if in_work(small@, large@, j as usize) {
                q@[j] as int
            } else {
                0
            }) == n * #[trigger] weights@[j] by {
                lemma_column_mass_live_step(
                    prob0,
                    alias0,
                    small0,
                    large0,
                    prob@,
                    alias@,
                    small@,
                    large@,
                    w_total as int,
                    s,
                    j,
                    n as int,
                );
                assert(in_work(small0, large0, j as usize) == (in_work(small@, large@, j as usize)
                    || j == s));
            }

            // the remaining mass: one slot left the lists, totalling w_total
            assert(sum_at(q0, small0) == sum_at(q0, smid) + q0[s as int]);
            assert(sum_at(q0, large0) == sum_at(q0, lmid) + q0[l as int]);
            lemma_sum_at_agree(q0, qmid, smid);
            lemma_sum_at_agree(q0, qmid, lmid);
            lemma_sum_at_agree(qmid, q@, smid);
            lemma_sum_at_agree(qmid, q@, lmid);
            if push_small {
                assert(small@.drop_last() =~= smid);
                assert(sum_at(q@, small@) == sum_at(q@, smid) + q@[l as int]);
            } else {
                assert(large@.drop_last() =~= lmid);
                assert(sum_at(q@, large@) == sum_at(q@, lmid) + q@[l as int]);
            }
            lemma_mul_is_distributive_sub(w_total as int, (small0.len() + large0.len()) as int, 1);
        }
    }

    proof {
        if small@.len() > 0 {
            assert(large@.len() == 0);
            assert(sum_at(q@, large@) == 0);
            lemma_sum_at_upper_strict(q@, small@, w_total as int);
            assert(false);
        }
    }

    while large.len() > 0
        invariant
            n == weights@.len(),
            1 <= n <= CORPUS_LIMIT,
            forall|k: int| 0 <= k < n ==> 1 <= #[trigger] weights@[k] <= SCORE_CEIL,
            n <= w_total,
            q@.len() == n,
            prob@.len() == n,
            alias@.len() == n,
            small@.len() == 0,
            forall|p: int|
                0 <= p < large@.len() ==> #[trigger] large@[p] < n && q@[large@[p] as int]
                    >= w_total,
            large@.no_duplicates(),
            sum_at(q@, large@) == w_total * large@.len(),
            forall|k: usize|
                k < n && !(#[trigger] in_work(small@, large@, k)) ==> prob@[k as int] <= w_total
                    && alias@[k as int] < n,
            forall|j: int|
                0 <= j < n ==> column_mass_live(prob@, alias@, w_total as int, small@, large@, j, n as int)
                    + (if in_work(small@, large@, j as usize) {
                    q@[j] as int
                } else {
                    0
                }) == n * #[trigger] weights@[j],
        decreases large@.len(),
    {
        let ghost prob0 = prob@;
        let ghost alias0 = alias@;
        let ghost large0 = large@;

        let l = match large.pop() {
            Some(x) => x,
            None => vstd::pervasive::unreached(),
        };
        proof {
            lemma_nodup_drop_last(large0);
            // the slot left at the end holds exactly the average mass
            assert(sum_at(q@, large0) == sum_at(q@, large@) + q@[l as int]);
            lemma_sum_at_lower(q@, large@, w_total as int);
            lemma_mul_is_distributive_sub(w_total as int, large0.len() as int, 1);
            assert(q@[l as int] == w_total);
        }
        prob.set(l, w_total);
        alias.set(l, l);

        proof {
            assert forall|k: usize|
                k != l implies #[trigger] in_work(small@, large@, k) == in_work(
                small@,
                large0,
                k,
            ) by {
                lemma_contains_drop_last(large0, k);
            }
            assert(!in_work(small@, large@, l));
            assert forall|j: int|
                0 <= j < n implies column_mass_live(prob@, alias@, w_total as int, small@, large@, j, n as int)
                + (if in_work(small@, large@, j as usize) {
                q@[j] as int
            } else {
                0
            }) == n * #[trigger] weights@[j] by {
                lemma_column_mass_live_step(
                    prob0,
                    alias0,
                    small@,
                    large0,
                    prob@,
                    alias@,
                    small@,
                    large@,
                    w_total as int,
                    l,
                    j,
                    n as int,
                );
                assert(in_work(small@, large0, j as usize) == (in_work(small@, large@, j as usize)
                    || j == l));
            }
        }
    }

    proof {
        assert forall|j: int|
            0 <= j < n implies column_mass(prob@, alias@, w_total as int, j, n as int) == n
            * #[trigger] weights@[j] by {
            lemma_column_mass_live_empty(prob@, alias@, w_total as int, small@, large@, j, n as int);
            assert(!in_work(small@, large@, j as usize));
        }
        assert forall|i: int| 0 <= i < n implies #[trigger] prob@[i] <= w_total by {
            assert(!in_work(small@, large@, i as usize));
        }
        assert forall|i: int| 0 <= i < n implies #[trigger] alias@[i] < n by {
            assert(!in_work(small@, large@, i as usize));
        }
    }
    (prob, alias)
}

} // verus!
