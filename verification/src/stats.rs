//! Summary figures over a list of latencies, in milliseconds.

use vstd::arithmetic::div_mod::{
    lemma_div_is_ordered, lemma_div_multiples_vanish, lemma_fundamental_div_mod,
    lemma_hoist_over_denominator,
};
use vstd::prelude::*;

verus! {

/// The sum of the values.
pub open spec fn total(values: Seq<u128>) -> nat
    decreases values.len(),
{
    if values.len() == 0 {
        0
    } else {
        total(values.drop_last()) + values.last() as nat
    }
}

/// The arithmetic mean of the values, rounded down.
pub open spec fn mean_of(values: Seq<u128>) -> nat
    recommends
        values.len() > 0,
{
    (total(values) as int / values.len() as int) as nat
}

/// `least` occurs among the values and none of them is smaller.
pub open spec fn is_least(values: Seq<u128>, least: u128) -> bool {
    &&& exists|i: int| 0 <= i < values.len() && values[i] == least
    &&& forall|i: int| 0 <= i < values.len() ==> least <= #[trigger] values[i]
}

/// The sum of `values` is at most as many times the largest `u128`.
pub proof fn lemma_total_bounded(values: Seq<u128>)
    ensures
        total(values) <= values.len() * u128::MAX,
    decreases values.len(),
{
    if values.len() > 0 {
        lemma_total_bounded(values.drop_last());
        assert((values.len() - 1) * u128::MAX + u128::MAX == values.len() * u128::MAX)
            by (nonlinear_arith);
    }
}

/// The mean of a list that is not empty fits in a `u128`.
pub proof fn lemma_mean_fits(values: Seq<u128>)
    requires
        values.len() > 0,
    ensures
        mean_of(values) <= u128::MAX,
{
    let n: int = values.len() as int;
    lemma_total_bounded(values);
    lemma_div_is_ordered(total(values) as int, n * u128::MAX, n);
    lemma_div_multiples_vanish(u128::MAX as int, n);
}

/// A list has at most one least value.
pub proof fn lemma_least_unique(values: Seq<u128>, a: u128, b: u128)
    requires
        is_least(values, a),
        is_least(values, b),
    ensures
        a == b,
{
    let i: int = choose|i: int| 0 <= i < values.len() && values[i] == a;
    let j: int = choose|j: int| 0 <= j < values.len() && values[j] == b;
    assert(a <= values[j]);
    assert(b <= values[i]);
}

/// The mean of `values`, rounded down; `None` for an empty list.
///
/// Quotients and remainders by the length are summed apart, so that no
/// intermediate sum leaves `u128` however large the values are.
pub fn mean(values: &Vec<u128>) -> (average: Option<u128>)
    ensures
        average is None <==> values@.len() == 0,
        average matches Some(m) ==> m == mean_of(values@),
{
    let len: usize = values.len();
    if len == 0 {
        return None;
    }
    let n: u128 = len as u128;
    let mut quotients: u128 = 0;
    let mut remainders: u128 = 0;
    let mut k: usize = 0;
    while k < len
        invariant
            len == values@.len(),
            n == len,
            0 < n,
            k <= len,
            n * quotients + remainders == total(values@.take(k as int)),
            quotients <= k * (u128::MAX / n),
            remainders <= k * (n - 1),
        decreases len - k,
    {
        let x: u128 = values[k];
        proof {
            let step: int = (u128::MAX / n) as int;
            lemma_div_is_ordered(x as int, u128::MAX as int, n as int);
            assert((k + 1) * step <= n * step) by (nonlinear_arith)
                requires
                    k + 1 <= n,
                    0 <= step,
            ;
            assert(n * step <= u128::MAX) by {
                lemma_fundamental_div_mod(u128::MAX as int, n as int);
            }
            assert(k * step + step == (k + 1) * step) by (nonlinear_arith);
            assert((k + 1) * (n - 1) <= n * (n - 1)) by (nonlinear_arith)
                requires
                    k + 1 <= n,
                    0 <= n - 1,
            ;
            assert(n * (n - 1) <= u128::MAX) by (nonlinear_arith)
                requires
                    0 < n <= u64::MAX,
            ;
            assert(k * (n - 1) + (n - 1) == (k + 1) * (n - 1)) by (nonlinear_arith);
            assert(values@.take(k + 1).drop_last() == values@.take(k as int));
            lemma_fundamental_div_mod(x as int, n as int);
            assert(n * (quotients + x / n) == n * quotients + n * (x / n)) by (nonlinear_arith);
        }
        quotients = quotients + x / n;
        remainders = remainders + x % n;
        k = k + 1;
    }
    proof {
        assert(values@.take(len as int) == values@);
        lemma_hoist_over_denominator(remainders as int, quotients as int, n as nat);
        assert(quotients * n == n * quotients) by (nonlinear_arith);
        lemma_mean_fits(values@);
    }
    Some(quotients + remainders / n)
}

/// The least of `values`; `None` for an empty list.
pub fn fastest(values: &Vec<u128>) -> (least: Option<u128>)
    ensures
        least is None <==> values@.len() == 0,
        least matches Some(m) ==> is_least(values@, m),
{
    let len: usize = values.len();
    if len == 0 {
        return None;
    }
    let mut best: u128 = values[0];
    let mut k: usize = 1;
    while k < len
        invariant
            len == values@.len(),
            1 <= k <= len,
            exists|i: int| 0 <= i < k && values@[i] == best,
            forall|i: int| 0 <= i < k ==> best <= #[trigger] values@[i],
        decreases len - k,
    {
        if values[k] < best {
            best = values[k];
        }
        k = k + 1;
    }
    Some(best)
}

} // verus!
