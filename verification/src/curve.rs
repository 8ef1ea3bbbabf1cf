//! The pricing engine: pure functions from curve parameters and the current
//! supply to the quantity a trade yields.
//!
//! On the bounded curve the price of the next unit rises linearly with the
//! supply `s`, from `pmin` at `s = 0` to `pmax` at `s = smax`:
//! `p(s) = pmin + (pmax - pmin) * s / smax`. A trade is worth the area under
//! that line. All quantities here are exact integers: areas are kept
//! multiplied by `2 * smax`, which clears every denominator, and results are
//! rounded down.

use vstd::prelude::*;
use vstd::arithmetic::div_mod::{
    lemma_div_denominator, lemma_fundamental_div_mod, lemma_fundamental_div_mod_converse_div,
};

verus! {

/// Bounds that describe a price line: a positive floor, a ceiling that is
/// not below the floor and a positive supply cap.
pub open spec fn curve_valid(pmin: u64, pmax: u64, smax: u64) -> bool {
    0 < pmin <= pmax && 0 < smax
}

/// The area under the price line from `s0` to `s0 + ds`, times `2 * smax`.
pub open spec fn scaled_cost(s0: int, ds: int, pmin: int, pmax: int, smax: int) -> int {
    2 * smax * pmin * ds + (pmax - pmin) * (2 * s0 * ds + ds * ds)
}

/// The area under the price line from `s0 - ds` to `s0`, times `2 * smax`.
pub open spec fn scaled_proceeds(s0: int, ds: int, pmin: int, pmax: int, smax: int) -> int {
    2 * smax * pmin * ds + (pmax - pmin) * (2 * s0 * ds - ds * ds)
}

/// Whether a payment of `c` covers `ds` units bought at supply `s0`.
pub open spec fn affordable(c: int, s0: int, ds: int, pmin: int, pmax: int, smax: int) -> bool {
    scaled_cost(s0, ds, pmin, pmax, smax) <= 2 * smax * c
}

/// Whether `ds` is the greatest number of units that a payment of `c` covers
/// at supply `s0`.
pub open spec fn is_tokens_bought(
    c: int,
    s0: int,
    pmin: int,
    pmax: int,
    smax: int,
    ds: int,
) -> bool {
    &&& 0 <= ds
    &&& affordable(c, s0, ds, pmin, pmax, smax)
    &&& !affordable(c, s0, ds + 1, pmin, pmax, smax)
}

/// What a payment of `c` buys at supply `s0`: the greatest `ds` whose cost
/// does not exceed `c`. This is the positive root of
/// `a * ds^2 + b * ds - c = 0`, rounded down, with
/// `a = (pmax - pmin) / (2 * smax)` and `b = pmin + (pmax - pmin) * s0 / smax`.
pub open spec fn tokens_bought(c: int, s0: int, pmin: int, pmax: int, smax: int) -> int {
    choose|ds: int| is_tokens_bought(c, s0, pmin, pmax, smax, ds)
}

/// What `ds` units sold back at supply `s0` return: the area under the price
/// line from `s0 - ds` to `s0`, rounded down.
pub open spec fn refund_owed(s0: int, ds: int, pmin: int, pmax: int, smax: int) -> int {
    scaled_proceeds(s0, ds, pmin, pmax, smax) / (2 * smax)
}

/// Buying more never costs less.
pub proof fn lemma_cost_monotonic(s0: int, x: int, y: int, pmin: int, pmax: int, smax: int)
    requires
        0 <= s0,
        0 <= x <= y,
        0 <= pmin <= pmax,
        0 <= smax,
    ensures
        scaled_cost(s0, x, pmin, pmax, smax) <= scaled_cost(s0, y, pmin, pmax, smax),
{
    let d = pmax - pmin;
    assert(2 * smax * pmin * x <= 2 * smax * pmin * y) by (nonlinear_arith)
        requires
            0 <= x <= y,
            0 <= pmin,
            0 <= smax,
    ;
    assert(2 * s0 * x + x * x <= 2 * s0 * y + y * y) by (nonlinear_arith)
        requires
            0 <= s0,
            0 <= x <= y,
    ;
    assert(d * (2 * s0 * x + x * x) <= d * (2 * s0 * y + y * y)) by (nonlinear_arith)
        requires
            0 <= d,
            2 * s0 * x + x * x <= 2 * s0 * y + y * y,
    ;
}

/// At least the floor price is paid for every unit.
pub proof fn lemma_cost_at_least_floor(s0: int, ds: int, pmin: int, pmax: int, smax: int)
    requires
        0 <= s0,
        0 <= ds,
        0 <= pmin <= pmax,
        0 <= smax,
    ensures
        2 * smax * (pmin * ds) <= scaled_cost(s0, ds, pmin, pmax, smax),
{
    let d = pmax - pmin;
    assert(2 * smax * (pmin * ds) == 2 * smax * pmin * ds) by (nonlinear_arith);
    assert(0 <= d * (2 * s0 * ds + ds * ds)) by (nonlinear_arith)
        requires
            0 <= d,
            0 <= s0,
            0 <= ds,
    ;
}

/// Selling `ds` units right after buying them, at the supply the purchase
/// led to, returns exactly the area that was paid for.
pub proof fn lemma_proceeds_undo_cost(s0: int, ds: int, pmin: int, pmax: int, smax: int)
    ensures
        scaled_proceeds(s0 + ds, ds, pmin, pmax, smax) == scaled_cost(s0, ds, pmin, pmax, smax),
{
    let d = pmax - pmin;
    assert(2 * (s0 + ds) * ds - ds * ds == 2 * s0 * ds + ds * ds) by (nonlinear_arith);
}

/// At most one quantity is the greatest affordable one.
pub proof fn lemma_tokens_bought_unique(
    c: int,
    s0: int,
    pmin: int,
    pmax: int,
    smax: int,
    x: int,
    y: int,
)
    requires
        0 <= s0,
        0 <= pmin <= pmax,
        0 <= smax,
        is_tokens_bought(c, s0, pmin, pmax, smax, x),
        is_tokens_bought(c, s0, pmin, pmax, smax, y),
    ensures
        x == y,
{
    if x < y {
        lemma_cost_monotonic(s0, x + 1, y, pmin, pmax, smax);
    } else if y < x {
        lemma_cost_monotonic(s0, y + 1, x, pmin, pmax, smax);
    }
}

/// A quantity that is affordable while the next one is not is what the
/// payment buys.
pub proof fn lemma_tokens_bought_is(c: int, s0: int, pmin: int, pmax: int, smax: int, ds: int)
    requires
        0 <= s0,
        0 <= pmin <= pmax,
        0 <= smax,
        is_tokens_bought(c, s0, pmin, pmax, smax, ds),
    ensures
        tokens_bought(c, s0, pmin, pmax, smax) == ds,
{
    let t = tokens_bought(c, s0, pmin, pmax, smax);
    assert(is_tokens_bought(c, s0, pmin, pmax, smax, t));
    lemma_tokens_bought_unique(c, s0, pmin, pmax, smax, t, ds);
}

/// Between an affordable quantity and a larger one that is not affordable
/// lies the greatest affordable one.
proof fn lemma_greatest_affordable_between(
    c: int,
    s0: int,
    pmin: int,
    pmax: int,
    smax: int,
    lo: int,
    hi: int,
)
    requires
        0 <= lo < hi,
        affordable(c, s0, lo, pmin, pmax, smax),
        !affordable(c, s0, hi, pmin, pmax, smax),
    ensures
        exists|ds: int| lo <= ds < hi && is_tokens_bought(c, s0, pmin, pmax, smax, ds),
    decreases hi - lo,
{
    if affordable(c, s0, lo + 1, pmin, pmax, smax) {
        lemma_greatest_affordable_between(c, s0, pmin, pmax, smax, lo + 1, hi);
    } else {
        assert(is_tokens_bought(c, s0, pmin, pmax, smax, lo));
    }
}

/// More than `c / pmin` units are never affordable.
pub proof fn lemma_unaffordable_above_floor_quotient(
    c: int,
    s0: int,
    pmin: int,
    pmax: int,
    smax: int,
    ds: int,
)
    requires
        0 <= c,
        0 <= s0,
        0 < pmin <= pmax,
        0 < smax,
        ds > c / pmin,
    ensures
        !affordable(c, s0, ds, pmin, pmax, smax),
{
    lemma_fundamental_div_mod(c, pmin);
    let q = c / pmin;
    assert(c % pmin < pmin);
    assert(pmin * ds >= pmin * (q + 1)) by (nonlinear_arith)
        requires
            ds >= q + 1,
            0 < pmin,
    ;
    assert(pmin * (q + 1) == pmin * q + pmin) by (nonlinear_arith);
    assert(pmin * ds > c);
    assert(2 * smax * (pmin * ds) > 2 * smax * c) by (nonlinear_arith)
        requires
            pmin * ds > c,
            0 < smax,
    ;
    lemma_cost_at_least_floor(s0, ds, pmin, pmax, smax);
}

/// Every payment buys a definite number of units, between zero and the
/// payment divided by the floor price.
pub proof fn lemma_tokens_bought_exists(c: int, s0: int, pmin: int, pmax: int, smax: int)
    requires
        0 <= c,
        0 <= s0,
        0 < pmin <= pmax,
        0 < smax,
    ensures
        is_tokens_bought(c, s0, pmin, pmax, smax, tokens_bought(c, s0, pmin, pmax, smax)),
        0 <= tokens_bought(c, s0, pmin, pmax, smax) <= c / pmin,
{
    assert(scaled_cost(s0, 0, pmin, pmax, smax) == 0) by (nonlinear_arith);
    assert(0 <= 2 * smax * c) by (nonlinear_arith)
        requires
            0 <= c,
            0 < smax,
    ;
    lemma_fundamental_div_mod(c, pmin);
    assert(0 <= c / pmin) by (nonlinear_arith)
        requires
            0 <= c,
            0 < pmin,
            c == pmin * (c / pmin) + c % pmin,
            0 <= c % pmin < pmin,
    ;
    lemma_unaffordable_above_floor_quotient(c, s0, pmin, pmax, smax, c / pmin + 1);
    lemma_greatest_affordable_between(c, s0, pmin, pmax, smax, 0, c / pmin + 1);
    let t = tokens_bought(c, s0, pmin, pmax, smax);
    assert(is_tokens_bought(c, s0, pmin, pmax, smax, t));
    if t > c / pmin {
        lemma_unaffordable_above_floor_quotient(c, s0, pmin, pmax, smax, t);
    }
}

/// A larger payment never buys fewer units at the same supply.
pub proof fn lemma_buy_monotonic(c1: int, c2: int, s0: int, pmin: int, pmax: int, smax: int)
    requires
        0 <= c1 <= c2,
        0 <= s0,
        0 < pmin <= pmax,
        0 < smax,
    ensures
        tokens_bought(c1, s0, pmin, pmax, smax) <= tokens_bought(c2, s0, pmin, pmax, smax),
{
    lemma_tokens_bought_exists(c1, s0, pmin, pmax, smax);
    lemma_tokens_bought_exists(c2, s0, pmin, pmax, smax);
    let t1 = tokens_bought(c1, s0, pmin, pmax, smax);
    let t2 = tokens_bought(c2, s0, pmin, pmax, smax);
    if t2 < t1 {
        lemma_cost_monotonic(s0, t2 + 1, t1, pmin, pmax, smax);
        assert(2 * smax * c1 <= 2 * smax * c2) by (nonlinear_arith)
            requires
                c1 <= c2,
                0 < smax,
        ;
    }
}

/// Buying with a payment of `c` and selling what was bought straight back,
/// at the supply the purchase led to, never returns more than `c`.
pub proof fn lemma_round_trip_never_gains(c: int, s0: int, pmin: int, pmax: int, smax: int)
    requires
        0 <= c,
        0 <= s0,
        0 < pmin <= pmax,
        0 < smax,
    ensures
        refund_owed(
            s0 + tokens_bought(c, s0, pmin, pmax, smax),
            tokens_bought(c, s0, pmin, pmax, smax),
            pmin,
            pmax,
            smax,
        ) <= c,
{
    lemma_tokens_bought_exists(c, s0, pmin, pmax, smax);
    let t = tokens_bought(c, s0, pmin, pmax, smax);
    lemma_proceeds_undo_cost(s0, t, pmin, pmax, smax);
    let n = scaled_proceeds(s0 + t, t, pmin, pmax, smax);
    let m = 2 * smax;
    assert(n <= m * c);
    lemma_fundamental_div_mod(n, m);
    assert(n / m <= c) by (nonlinear_arith)
        requires
            n == m * (n / m) + n % m,
            0 <= n % m < m,
            n <= m * c,
            0 < m,
    ;
}

/// With `m == k * p + r` and `0 <= r < p`, twice `m` divided by `p` is `2 * k`
/// or `2 * k + 1`, and a product `p * q` stays within twice `m` exactly when
/// `q` stays within that quotient.
proof fn lemma_product_within_double(p: int, q: int, m: int, k: int, r: int)
    requires
        0 < p,
        m == k * p + r,
        0 <= r < p,
    ensures
        (p * q <= 2 * m) <==> (q <= 2 * k + (if r >= p - r {
            1int
        } else {
            0int
        })),
{
    let e = if r >= p - r {
        1int
    } else {
        0int
    };
    let f = 2 * k + e;
    assert(2 * m == f * p + (2 * r - e * p)) by (nonlinear_arith)
        requires
            m == k * p + r,
            f == 2 * k + e,
    ;
    assert(0 <= 2 * r - e * p < p) by (nonlinear_arith)
        requires
            0 <= r < p,
            e == (if r >= p - r {
                1int
            } else {
                0int
            }),
    ;
    if q <= f {
        assert(p * q <= f * p) by (nonlinear_arith)
            requires
                q <= f,
                0 < p,
        ;
    } else {
        assert(p * q >= f * p + p) by (nonlinear_arith)
            requires
                q >= f + 1,
                0 < p,
        ;
    }
}

/// Whether a payment of `c` covers `ds` units bought at supply `s0`.
fn can_afford(c: u64, s0: u64, ds: u64, pmin: u64, pmax: u64, smax: u64) -> (r: bool)
    requires
        curve_valid(pmin, pmax, smax),
    ensures
        r == affordable(c as int, s0 as int, ds as int, pmin as int, pmax as int, smax as int),
{
    let ghost cost = scaled_cost(s0 as int, ds as int, pmin as int, pmax as int, smax as int);
    assert(pmin * ds <= 0xffff_ffff_ffff_ffff * 0xffff_ffff_ffff_ffff) by (nonlinear_arith)
        requires
            pmin <= 0xffff_ffff_ffff_ffff,
            ds <= 0xffff_ffff_ffff_ffff,
    ;
    let base: u128 = (pmin as u128) * (ds as u128);
    proof {
        lemma_cost_at_least_floor(s0 as int, ds as int, pmin as int, pmax as int, smax as int);
    }
    if base > c as u128 {
        assert(2 * smax * (pmin * ds) > 2 * smax * c) by (nonlinear_arith)
            requires
                pmin * ds > c,
                0 < smax,
        ;
        return false;
    }
    let rest: u128 = (c as u128) - base;
    let d: u128 = (pmax - pmin) as u128;
    assert(d * ds <= 0xffff_ffff_ffff_ffff * 0xffff_ffff_ffff_ffff) by (nonlinear_arith)
        requires
            0 <= d <= 0xffff_ffff_ffff_ffff,
            ds <= 0xffff_ffff_ffff_ffff,
    ;
    let p: u128 = d * (ds as u128);
    let q: u128 = 2 * (s0 as u128) + (ds as u128);
    assert(smax * rest <= 0xffff_ffff_ffff_ffff * 0xffff_ffff_ffff_ffff) by (nonlinear_arith)
        requires
            smax <= 0xffff_ffff_ffff_ffff,
            0 <= rest <= 0xffff_ffff_ffff_ffff,
    ;
    let m: u128 = (smax as u128) * rest;
    // The payment covers the units when `p * q <= 2 * m`.
    assert(cost <= 2 * smax * c <==> p * q <= 2 * m) by (nonlinear_arith)
        requires
            cost == 2 * smax * pmin * ds + (pmax - pmin) * (2 * s0 * ds + ds * ds),
            p == (pmax - pmin) * ds,
            q == 2 * s0 + ds,
            m == smax * (c - pmin * ds),
    ;
    if p == 0 {
        assert(p * q == 0) by (nonlinear_arith)
            requires
                p == 0,
        ;
        return true;
    }
    let k: u128 = m / p;
    let r: u128 = m % p;
    proof {
        lemma_fundamental_div_mod(m as int, p as int);
        assert(p * k == k * p) by (nonlinear_arith);
        lemma_product_within_double(p as int, q as int, m as int, k as int, r as int);
    }
    if k > q {
        return true;
    }
    let f: u128 = 2 * k + (if r >= p - r {
        1u128
    } else {
        0u128
    });
    q <= f
}

/// What a payment of `c` buys at supply `s0` on the bounded curve: the
/// greatest number of units whose cost does not exceed `c`.
pub fn exact_sol_to_tokens(c: u64, s0: u64, pmin: u64, pmax: u64, smax: u64) -> (out: u64)
    requires
        curve_valid(pmin, pmax, smax),
    ensures
        out == tokens_bought(c as int, s0 as int, pmin as int, pmax as int, smax as int),
        pmin * out <= c,
{
    let mut lo: u64 = 0;
    let mut hi: u64 = c / pmin;
    proof {
        assert(scaled_cost(s0 as int, 0, pmin as int, pmax as int, smax as int) == 0)
            by (nonlinear_arith);
        assert(0 <= 2 * smax * c) by (nonlinear_arith)
            requires
                0 <= c,
                0 < smax,
        ;
        lemma_unaffordable_above_floor_quotient(
            c as int,
            s0 as int,
            pmin as int,
            pmax as int,
            smax as int,
            hi + 1,
        );
    }
    while lo < hi
        invariant
            curve_valid(pmin, pmax, smax),
            lo <= hi,
            affordable(c as int, s0 as int, lo as int, pmin as int, pmax as int, smax as int),
            !affordable(c as int, s0 as int, hi + 1, pmin as int, pmax as int, smax as int),
        decreases hi - lo,
    {
        let mid: u64 = hi - (hi - lo) / 2;
        if can_afford(c, s0, mid, pmin, pmax, smax) {
            lo = mid;
        } else {
            hi = mid - 1;
        }
    }
    proof {
        lemma_tokens_bought_is(
            c as int,
            s0 as int,
            pmin as int,
            pmax as int,
            smax as int,
            lo as int,
        );
        lemma_tokens_bought_exists(c as int, s0 as int, pmin as int, pmax as int, smax as int);
        let quot = (c as int) / (pmin as int);
        let rem = (c as int) % (pmin as int);
        lemma_fundamental_div_mod(c as int, pmin as int);
        assert(pmin * lo <= c) by (nonlinear_arith)
            requires
                0 <= lo <= quot,
                c == pmin * quot + rem,
                0 <= rem,
                0 < pmin,
        ;
    }
    lo
}

/// The refund split into parts that fit the machine: with
/// `t = ds * (2 * s0 - ds)`, `q = t / smax` and `r = t % smax`, the refund is
/// `pmin * ds + (d * q + d * r / smax) / 2`, where `d = pmax - pmin`.
proof fn lemma_refund_in_parts(s0: int, ds: int, pmin: int, pmax: int, smax: int)
    requires
        0 <= ds <= s0,
        0 <= pmin <= pmax,
        0 < smax,
    ensures
        ({
            let d = pmax - pmin;
            let t = ds * (2 * s0 - ds);
            let q = t / smax;
            let r = t % smax;
            &&& 0 <= t <= s0 * s0
            &&& 0 <= r < smax
            &&& 0 <= q
            &&& (s0 <= smax ==> q <= s0)
            &&& 0 <= (d * r) / smax <= d
            &&& refund_owed(s0, ds, pmin, pmax, smax) == pmin * ds + (d * q + (d * r) / smax) / 2
        }),
{
    let d = pmax - pmin;
    let t = ds * (2 * s0 - ds);
    let q = t / smax;
    let r = t % smax;
    let n = 2 * smax;
    assert(0 <= t <= s0 * s0) by (nonlinear_arith)
        requires
            t == ds * (2 * s0 - ds),
            0 <= ds <= s0,
    ;
    lemma_fundamental_div_mod(t, smax);
    assert(0 <= q) by (nonlinear_arith)
        requires
            t == smax * q + r,
            0 <= r < smax,
            0 <= t,
    ;
    if s0 <= smax {
        assert(q <= s0) by (nonlinear_arith)
            requires
                t == smax * q + r,
                0 <= r < smax,
                t <= s0 * s0,
                0 <= s0 <= smax,
        ;
    }
    // d * r / smax lies between 0 and d.
    let dr = d * r;
    let w = dr / smax;
    lemma_fundamental_div_mod(dr, smax);
    assert(0 <= dr < d * smax || (d == 0 && dr == 0)) by (nonlinear_arith)
        requires
            dr == d * r,
            0 <= d,
            0 <= r < smax,
    ;
    assert(0 <= w <= d) by (nonlinear_arith)
        requires
            dr == smax * w + dr % smax,
            0 <= dr % smax < smax,
            0 <= dr,
            dr < d * smax || (d == 0 && dr == 0),
            0 <= d,
    ;
    // d * t / smax == d * q + d * r / smax.
    let y = d * t;
    assert(y == (d * q + w) * smax + dr % smax) by (nonlinear_arith)
        requires
            y == d * t,
            t == smax * q + r,
            dr == d * r,
            dr == smax * w + dr % smax,
    ;
    lemma_fundamental_div_mod_converse_div(y, smax, d * q + w, dr % smax);
    assert(y / smax == d * q + w);
    // d * t / (2 * smax) == (d * t / smax) / 2.
    assert(0 <= y) by (nonlinear_arith)
        requires
            y == d * t,
            0 <= d,
            0 <= t,
    ;
    lemma_div_denominator(y, smax, 2);
    assert(smax * 2 == n);
    assert(y / n == (d * q + w) / 2);
    // The floor part is a whole multiple of the divisor.
    let total = scaled_proceeds(s0, ds, pmin, pmax, smax);
    assert(total == n * (pmin * ds) + y) by (nonlinear_arith)
        requires
            total == 2 * smax * pmin * ds + (pmax - pmin) * (2 * s0 * ds - ds * ds),
            n == 2 * smax,
            y == d * t,
            d == pmax - pmin,
            t == ds * (2 * s0 - ds),
    ;
    lemma_fundamental_div_mod(y, n);
    assert(total == (pmin * ds + y / n) * n + y % n) by (nonlinear_arith)
        requires
            total == n * (pmin * ds) + y,
            y == n * (y / n) + y % n,
    ;
    lemma_fundamental_div_mod_converse_div(total, n, pmin * ds + y / n, y % n);
}

/// What `delta_s` units sold back at supply `s0` return on the bounded
/// curve, or `None` where that amount is too large for the machine.
pub fn exact_tokens_to_sol(s0: u64, delta_s: u64, pmin: u64, pmax: u64, smax: u64) -> (out: Option<
    u64,
>)
    requires
        curve_valid(pmin, pmax, smax),
        delta_s <= s0 <= smax,
    ensures
        match out {
            Some(v) => v == refund_owed(
                s0 as int,
                delta_s as int,
                pmin as int,
                pmax as int,
                smax as int,
            ),
            None => refund_owed(s0 as int, delta_s as int, pmin as int, pmax as int, smax as int)
                > u64::MAX,
        },
{
    proof {
        lemma_refund_in_parts(s0 as int, delta_s as int, pmin as int, pmax as int, smax as int);
    }
    let ghost gd = pmax - pmin;
    let ghost gt = delta_s * (2 * s0 - delta_s);
    let ghost gq = gt / (smax as int);
    let ghost gr = gt % (smax as int);
    assert(pmin * delta_s <= 0xffff_ffff_ffff_ffff * 0xffff_ffff_ffff_ffff) by (nonlinear_arith)
        requires
            pmin <= 0xffff_ffff_ffff_ffff,
            delta_s <= 0xffff_ffff_ffff_ffff,
    ;
    let base: u128 = (pmin as u128) * (delta_s as u128);
    let d: u128 = (pmax - pmin) as u128;
    let width: u128 = 2 * (s0 as u128) - (delta_s as u128);
    assert(s0 * s0 <= 0xffff_ffff_ffff_ffff * 0xffff_ffff_ffff_ffff) by (nonlinear_arith)
        requires
            s0 <= 0xffff_ffff_ffff_ffff,
    ;
    let t: u128 = (delta_s as u128) * width;
    let q: u128 = t / (smax as u128);
    let r: u128 = t % (smax as u128);
    assert(d * q <= 0xffff_ffff_ffff_ffff * 0xffff_ffff_ffff_ffff) by (nonlinear_arith)
        requires
            0 <= d <= 0xffff_ffff_ffff_ffff,
            0 <= q <= 0xffff_ffff_ffff_ffff,
    ;
    let dq: u128 = d * q;
    assert(d * r <= 0xffff_ffff_ffff_ffff * 0xffff_ffff_ffff_ffff) by (nonlinear_arith)
        requires
            0 <= d <= 0xffff_ffff_ffff_ffff,
            0 <= r <= 0xffff_ffff_ffff_ffff,
    ;
    let dr: u128 = d * r;
    let x: u128 = dq + dr / (smax as u128);
    let half: u128 = x / 2;
    assert(base + half == refund_owed(
        s0 as int,
        delta_s as int,
        pmin as int,
        pmax as int,
        smax as int,
    ));
    if base > u64::MAX as u128 {
        return None;
    }
    let total: u128 = base + half;
    if total > u64::MAX as u128 {
        None
    } else {
        Some(total as u64)
    }
}

/// The pricing model of a pair, chosen when the pair is created and kept
/// for its whole life.
#[derive(Clone, Copy, Debug, PartialEq, Eq, Structural)]
pub enum CurveModel {
    /// A fixed ratio of base asset to tokens, given by two reserves.
    ConstantRatio,
    /// A fixed whole price per token.
    LinearDivision,
    /// A price that rises linearly with the supply, between two bounds.
    BoundedQuadratic,
}

/// What a trade yields at a fixed whole price: a payment divided by the
/// price, rounded down, for a buy; tokens times the price for a sell.
pub open spec fn linear_division_out(amount_in: int, base_price: int, is_buy: bool) -> int {
    if is_buy {
        amount_in / base_price
    } else {
        amount_in * base_price
    }
}

/// What a trade yields at a fixed ratio of `reserve_a` units of base asset
/// to `reserve_b` tokens, rounded down.
pub open spec fn constant_ratio_out(
    amount_in: int,
    reserve_a: int,
    reserve_b: int,
    is_buy: bool,
) -> int {
    if is_buy {
        (amount_in * reserve_b) / reserve_a
    } else {
        (amount_in * reserve_a) / reserve_b
    }
}

/// At a fixed whole price a larger payment never buys fewer tokens, and
/// tokens sold straight back never return more than was paid for them.
pub proof fn lemma_linear_division_fair(c1: int, c2: int, base_price: int)
    requires
        0 <= c1 <= c2,
        0 < base_price,
    ensures
        0 <= linear_division_out(c1, base_price, true) <= linear_division_out(
            c2,
            base_price,
            true,
        ),
        linear_division_out(linear_division_out(c2, base_price, true), base_price, false) <= c2,
{
    lemma_fundamental_div_mod(c1, base_price);
    lemma_fundamental_div_mod(c2, base_price);
    let q1 = c1 / base_price;
    let q2 = c2 / base_price;
    assert(0 <= q1 <= q2 && q2 * base_price <= c2) by (nonlinear_arith)
        requires
            c1 == base_price * q1 + c1 % base_price,
            c2 == base_price * q2 + c2 % base_price,
            0 <= c1 % base_price < base_price,
            0 <= c2 % base_price < base_price,
            0 <= c1 <= c2,
            0 < base_price,
    ;
}

/// At a fixed ratio of reserves a larger payment never buys fewer tokens,
/// and tokens sold straight back never return more than was paid for them.
pub proof fn lemma_constant_ratio_fair(c1: int, c2: int, reserve_a: int, reserve_b: int)
    requires
        0 <= c1 <= c2,
        0 < reserve_a,
        0 < reserve_b,
    ensures
        0 <= constant_ratio_out(c1, reserve_a, reserve_b, true) <= constant_ratio_out(
            c2,
            reserve_a,
            reserve_b,
            true,
        ),
        constant_ratio_out(
            constant_ratio_out(c2, reserve_a, reserve_b, true),
            reserve_a,
            reserve_b,
            false,
        ) <= c2,
{
    let n1 = c1 * reserve_b;
    let n2 = c2 * reserve_b;
    assert(0 <= n1 <= n2) by (nonlinear_arith)
        requires
            n1 == c1 * reserve_b,
            n2 == c2 * reserve_b,
            0 <= c1 <= c2,
            0 < reserve_b,
    ;
    lemma_fundamental_div_mod(n1, reserve_a);
    lemma_fundamental_div_mod(n2, reserve_a);
    let q1 = n1 / reserve_a;
    let q2 = n2 / reserve_a;
    assert(0 <= q1 <= q2 && q2 * reserve_a <= n2) by (nonlinear_arith)
        requires
            n1 == reserve_a * q1 + n1 % reserve_a,
            n2 == reserve_a * q2 + n2 % reserve_a,
            0 <= n1 % reserve_a < reserve_a,
            0 <= n2 % reserve_a < reserve_a,
            0 <= n1 <= n2,
            0 < reserve_a,
    ;
    let back = q2 * reserve_a;
    lemma_fundamental_div_mod(back, reserve_b);
    let r = back / reserve_b;
    assert(r <= c2) by (nonlinear_arith)
        requires
            back == reserve_b * r + back % reserve_b,
            0 <= back % reserve_b < reserve_b,
            back <= c2 * reserve_b,
            0 < reserve_b,
    ;
}

/// What a trade yields at a fixed whole price, or `None` where that amount
/// is too large for the machine.
pub fn linear_division_quote(amount_in: u64, base_price: u64, is_buy: bool) -> (out: Option<u64>)
    requires
        base_price > 0,
    ensures
        match out {
            Some(v) => v == linear_division_out(amount_in as int, base_price as int, is_buy),
            None => linear_division_out(amount_in as int, base_price as int, is_buy) > u64::MAX,
        },
{
    if is_buy {
        Some(amount_in / base_price)
    } else {
        amount_in.checked_mul(base_price)
    }
}

/// What a trade yields at a fixed ratio of reserves, or `None` where that
/// amount is too large for the machine.
pub fn constant_ratio_quote(amount_in: u64, reserve_a: u64, reserve_b: u64, is_buy: bool) -> (out:
    Option<u64>)
    requires
        reserve_a > 0,
        reserve_b > 0,
    ensures
        match out {
            Some(v) => v == constant_ratio_out(
                amount_in as int,
                reserve_a as int,
                reserve_b as int,
                is_buy,
            ),
            None => constant_ratio_out(amount_in as int, reserve_a as int, reserve_b as int, is_buy)
                > u64::MAX,
        },
{
    let num: u64 = if is_buy {
        reserve_b
    } else {
        reserve_a
    };
    let den: u64 = if is_buy {
        reserve_a
    } else {
        reserve_b
    };
    assert(amount_in * num <= 0xffff_ffff_ffff_ffff * 0xffff_ffff_ffff_ffff) by (nonlinear_arith)
        requires
            amount_in <= 0xffff_ffff_ffff_ffff,
            num <= 0xffff_ffff_ffff_ffff,
    ;
    let product: u128 = (amount_in as u128) * (num as u128);
    let out: u128 = product / (den as u128);
    if out > u64::MAX as u128 {
        None
    } else {
        Some(out as u64)
    }
}

impl Default for CurveModel {
    fn default() -> (m: CurveModel)
        ensures
            m == CurveModel::BoundedQuadratic,
    {
        CurveModel::BoundedQuadratic
    }
}

/// Whether three bounds describe a price line.
pub fn curve_is_valid(pmin: u64, pmax: u64, smax: u64) -> (ok: bool)
    ensures
        ok == curve_valid(pmin, pmax, smax),
{
    0 < pmin && pmin <= pmax && 0 < smax
}

} // verus!
