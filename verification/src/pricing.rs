//! The constant-product curve that prices a deposit against one side's pool.

use vstd::prelude::*;

verus! {

/// `a + b`, clamped at the top of the `u64` range.
pub open spec fn saturating_sum(a: u64, b: u64) -> u64 {
    if a + b > u64::MAX {
        u64::MAX
    } else {
        (a + b) as u64
    }
}

/// Tokens the curve pays for `amount` deposited against a pool of size `pool`:
/// `floor(amount * pool / (pool + amount))`, the sum in the divisor clamped
/// at `u64::MAX`. A deposit of nothing buys nothing.
pub open spec fn curve_tokens(pool: u64, amount: u64) -> nat {
    if amount == 0 {
        0
    } else {
        (amount as nat * pool as nat) / (saturating_sum(pool, amount) as nat)
    }
}

/// For `x >= 0` and `d > 0` the quotient `x / d` is the one `q` with
/// `q * d <= x < (q + 1) * d`.
pub proof fn lemma_floor_bounds(x: int, d: int)
    requires
        0 <= x,
        0 < d,
    ensures
        0 <= x / d,
        (x / d) * d <= x,
        x < (x / d + 1) * d,
{
    assert(0 <= x / d && (x / d) * d <= x && x < (x / d + 1) * d) by (nonlinear_arith)
        requires
            0 <= x,
            0 < d,
    ;
}

/// The curve never pays more tokens than were deposited, nor more than the
/// pool held, and so stays strictly under `pool + amount`.
pub proof fn lemma_curve_bound(pool: u64, amount: u64)
    ensures
        curve_tokens(pool, amount) <= amount,
        curve_tokens(pool, amount) <= pool,
        amount > 0 ==> curve_tokens(pool, amount) < pool + amount,
{
    if amount > 0 {
        let d = saturating_sum(pool, amount) as int;
        let a = amount as int;
        let p = pool as int;
        let t = (a * p) / d;
        assert(0 <= a * p) by (nonlinear_arith)
            requires
                0 <= a,
                0 <= p,
        ;
        lemma_floor_bounds(a * p, d);
        assert(t <= a) by (nonlinear_arith)
            requires
                t * d <= a * p,
                0 <= p <= d,
                0 <= a,
                0 < d,
        ;
        assert(t <= p) by (nonlinear_arith)
            requires
                t * d <= a * p,
                0 <= a <= d,
                0 <= p,
                0 < d,
        ;
    }
}

/// A larger deposit never buys fewer tokens from the same pool.
pub proof fn lemma_curve_monotone(pool: u64, smaller: u64, larger: u64)
    requires
        smaller <= larger,
    ensures
        curve_tokens(pool, smaller) <= curve_tokens(pool, larger),
{
    if smaller > 0 {
        let p = pool as int;
        let a1 = smaller as int;
        let a2 = larger as int;
        let d1 = saturating_sum(pool, smaller) as int;
        let d2 = saturating_sum(pool, larger) as int;
        let t1 = (a1 * p) / d1;
        let t2 = (a2 * p) / d2;
        assert(0 <= a1 * p && 0 <= a2 * p) by (nonlinear_arith)
            requires
                0 <= a1,
                0 <= a2,
                0 <= p,
        ;
        lemma_floor_bounds(a1 * p, d1);
        lemma_floor_bounds(a2 * p, d2);
        // The divisor grows no faster than the deposit does.
        assert(a1 * d2 <= a2 * d1) by (nonlinear_arith)
            requires
                0 < a1 <= a2,
                0 <= p,
                d1 == p + a1 || (d1 == d2 && d1 <= p + a1),
                d2 <= p + a2,
                0 < d1 <= d2,
        ;
        assert(t1 * d2 * d1 <= a2 * p * d1) by (nonlinear_arith)
            requires
                t1 * d1 <= a1 * p,
                a1 * d2 <= a2 * d1,
                0 <= t1,
                0 <= p,
                0 < d1,
                0 < d2,
        ;
        assert(t1 * d2 <= a2 * p) by (nonlinear_arith)
            requires
                t1 * d2 * d1 <= a2 * p * d1,
                0 < d1,
        ;
        assert(t1 < t2 + 1) by (nonlinear_arith)
            requires
                t1 * d2 <= a2 * p,
                a2 * p < (t2 + 1) * d2,
                0 < d2,
        ;
    }
}

/// One more unit deposited buys at most one more token.
pub proof fn lemma_extra_unit_buys_at_most_one_token(pool: u64, amount: u64)
    requires
        amount < u64::MAX,
    ensures
        curve_tokens(pool, (amount + 1) as u64) <= curve_tokens(pool, amount) + 1,
{
    let more = (amount + 1) as u64;
    if amount == 0 {
        lemma_curve_bound(pool, more);
    } else {
        let p = pool as int;
        let a = amount as int;
        let d = saturating_sum(pool, amount) as int;
        let d_more = saturating_sum(pool, more) as int;
        let t = (a * p) / d;
        let t_more = ((a + 1) * p) / d_more;
        assert(0 <= a * p && 0 <= (a + 1) * p) by (nonlinear_arith)
            requires
                0 <= a,
                0 <= p,
        ;
        lemma_floor_bounds(a * p, d);
        lemma_floor_bounds((a + 1) * p, d_more);
        assert(t_more * d <= a * p + p) by (nonlinear_arith)
            requires
                t_more * d_more <= (a + 1) * p,
                0 <= t_more,
                0 < d <= d_more,
        ;
        assert(t_more < t + 2) by (nonlinear_arith)
            requires
                t_more * d <= a * p + p,
                a * p < (t + 1) * d,
                0 <= p <= d,
                0 < d,
        ;
    }
}

/// Diminishing returns: the tokens bought per unit deposited fall as the
/// deposit grows. Up to the one token that rounding down may withhold from
/// the smaller deposit, the larger deposit's rate is strictly the lower one:
/// `tokens(larger) / larger < (tokens(smaller) + 1) / smaller`.
pub proof fn lemma_diminishing_returns(pool: u64, smaller: u64, larger: u64)
    requires
        0 < smaller <= larger,
    ensures
        curve_tokens(pool, larger) * smaller < (curve_tokens(pool, smaller) + 1) * larger,
{
    let p = pool as int;
    let a1 = smaller as int;
    let a2 = larger as int;
    let d1 = saturating_sum(pool, smaller) as int;
    let d2 = saturating_sum(pool, larger) as int;
    let t1 = (a1 * p) / d1;
    let t2 = (a2 * p) / d2;
    assert(0 <= a1 * p && 0 <= a2 * p) by (nonlinear_arith)
        requires
            0 <= a1,
            0 <= a2,
            0 <= p,
    ;
    lemma_floor_bounds(a1 * p, d1);
    lemma_floor_bounds(a2 * p, d2);
    assert(t2 * a1 * d1 <= a1 * a2 * p) by (nonlinear_arith)
        requires
            t2 * d2 <= a2 * p,
            0 < d1 <= d2,
            0 <= t2,
            0 < a1,
    ;
    assert(a1 * a2 * p < (t1 + 1) * a2 * d1) by (nonlinear_arith)
        requires
            a1 * p < (t1 + 1) * d1,
            0 < a2,
    ;
    assert(t2 * a1 < (t1 + 1) * a2) by (nonlinear_arith)
        requires
            t2 * a1 * d1 < (t1 + 1) * a2 * d1,
            0 < d1,
    ;
}

/// The same across pools: what counts is the deposit's size relative to the
/// pool. Of two deposits, the one that is larger relative to its pool
/// (`first / first_pool <= second / second_pool`) buys at the lower rate, up
/// to the same one token of rounding, as long as the sum `second_pool +
/// second` is not clamped.
pub proof fn lemma_rate_falls_with_relative_size(
    first_pool: u64,
    first: u64,
    second_pool: u64,
    second: u64,
)
    requires
        0 < first,
        0 < second,
        first * second_pool <= second * first_pool,
        second_pool + second <= u64::MAX,
    ensures
        curve_tokens(second_pool, second) * first < (curve_tokens(first_pool, first) + 1) * second,
{
    let pool1 = first_pool as int;
    let a1 = first as int;
    let pool2 = second_pool as int;
    let a2 = second as int;
    let d1 = saturating_sum(first_pool, first) as int;
    let d2 = pool2 + a2;
    let t1 = (a1 * pool1) / d1;
    let t2 = (a2 * pool2) / d2;
    assert(0 <= a1 * pool1 && 0 <= a2 * pool2) by (nonlinear_arith)
        requires
            0 <= a1,
            0 <= a2,
            0 <= pool1,
            0 <= pool2,
    ;
    lemma_floor_bounds(a1 * pool1, d1);
    lemma_floor_bounds(a2 * pool2, d2);
    let s1 = pool1 + a1;
    // What the first deposit gets, stated over the sum that is not clamped.
    assert(a1 * pool1 < (t1 + 1) * s1) by (nonlinear_arith)
        requires
            a1 * pool1 < (t1 + 1) * d1,
            d1 <= s1,
            0 <= t1,
    ;
    // The second rate is at most the first: pool2 / d2 <= pool1 / s1.
    assert(pool2 * s1 <= pool1 * d2) by (nonlinear_arith)
        requires
            a1 * pool2 <= a2 * pool1,
            s1 == pool1 + a1,
            d2 == pool2 + a2,
    ;
    let lhs = t2 * a1;
    let rhs = (t1 + 1) * a2;
    assert(lhs * d2 <= a1 * (a2 * pool2)) by (nonlinear_arith)
        requires
            lhs == t2 * a1,
            t2 * d2 <= a2 * pool2,
            0 < a1,
    ;
    assert(a1 * (a2 * pool2) * s1 <= a1 * a2 * pool1 * d2) by (nonlinear_arith)
        requires
            pool2 * s1 <= pool1 * d2,
            0 < a1,
            0 < a2,
    ;
    assert(a1 * a2 * pool1 * d2 < rhs * s1 * d2) by (nonlinear_arith)
        requires
            rhs == (t1 + 1) * a2,
            a1 * pool1 < (t1 + 1) * s1,
            0 < a2,
            0 < d2,
    ;
    assert(lhs * d2 * s1 <= a1 * (a2 * pool2) * s1) by (nonlinear_arith)
        requires
            lhs * d2 <= a1 * (a2 * pool2),
            0 < s1,
    ;
    assert(lhs < rhs) by (nonlinear_arith)
        requires
            lhs * d2 * s1 < rhs * s1 * d2,
            0 < s1,
            0 < d2,
    ;
}

/// Computes `curve_tokens` in 128-bit arithmetic, where the product of two
/// `u64` values always fits.
pub fn tokens_out(pool: u64, amount: u64) -> (tokens: u64)
    ensures
        tokens == curve_tokens(pool, amount),
        tokens <= amount,
        tokens <= pool,
        amount > 0 ==> tokens < pool + amount,
{
    proof {
        lemma_curve_bound(pool, amount);
    }
    if amount == 0 {
        return 0;
    }
    let divisor: u64 = pool.saturating_add(amount);
    assert((amount as u128) * (pool as u128) <= u128::MAX) by (nonlinear_arith)
        requires
            amount <= u64::MAX,
            pool <= u64::MAX,
    ;
    let product: u128 = (amount as u128) * (pool as u128);
    let quotient: u128 = product / (divisor as u128);
    quotient as u64
}

} // verus!
