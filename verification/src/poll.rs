//! Bounded-retry arithmetic: how many fixed-interval polls cover a maximum
//! wait duration.

use vstd::prelude::*;
use vstd::arithmetic::div_mod::lemma_fundamental_div_mod;
use vstd::arithmetic::div_mod::lemma_mod_bound;
use vstd::arithmetic::mul::lemma_mul_inequality;

verus! {

/// Returns the amount of iterations `delay_interval_millis` fits into
/// `max_wait_millis`, rounding up: the smallest `n >= 1` with
/// `n * delay_interval_millis >= max_wait_millis`. A zero maximum wait still
/// yields one attempt.
///
/// A non-positive delay interval is a programming error, ruled out by the
/// precondition; this function is never entered with it.
pub fn poll_iters(delay_interval_millis: u64, max_wait_millis: u64) -> (n: u64)
    requires
        delay_interval_millis > 0,
    ensures
        n >= 1,
        n * delay_interval_millis >= max_wait_millis,
        forall|k: int| 1 <= k < n ==> #[trigger] (k * delay_interval_millis) < max_wait_millis,
{
    let q: u64 = max_wait_millis / delay_interval_millis;
    let r: u64 = max_wait_millis % delay_interval_millis;
    proof {
        let d = delay_interval_millis as int;
        let m = max_wait_millis as int;
        let qi = q as int;
        lemma_fundamental_div_mod(m, d);
        lemma_mod_bound(m, d);
        assert(d * qi == qi * d) by (nonlinear_arith);
        if r > 0 {
            // the interval does not divide the wait evenly, so it is at least 2
            // and the quotient leaves room for the rounding-up increment
            lemma_mul_inequality(2, d, qi);
        }
    }
    let n: u64 = if r > 0 {
        q + 1
    } else if q == 0 {
        1
    } else {
        q
    };
    proof {
        let d = delay_interval_millis as int;
        let m = max_wait_millis as int;
        let qi = q as int;
        if r > 0 {
            assert((qi + 1) * d == qi * d + d) by (nonlinear_arith);
        }
        assert forall|k: int| 1 <= k < n implies #[trigger] (k * d) < m by {
            if r > 0 {
                lemma_mul_inequality(k, qi, d);
            } else {
                lemma_mul_inequality(k, qi - 1, d);
                assert((qi - 1) * d == qi * d - d) by (nonlinear_arith);
            }
        }
    }
    n
}

} // verus!
