//! Quotients rounded to binary64 and printed with a fixed number of decimals:
//! the arithmetic behind `ns as f64 / divisor` shown with `{:.1}` or `{:.2}`.

use vstd::prelude::*;
use crate::text;

verus! {

/// 2^52, the least significand of a normal double.
pub const SIGNIFICAND_LOW: u128 = 0x10_0000_0000_0000;

/// 2^53, one past the greatest significand of a double.
pub const SIGNIFICAND_HIGH: u128 = 0x20_0000_0000_0000;

/// 2 to the power `k`.
pub open spec fn two_to(k: nat) -> nat
    decreases k,
{
    if k == 0 {
        1
    } else {
        2 * two_to((k - 1) as nat)
    }
}

/// The double nearest to `(n / d) * 2^e`, ties to an even significand, as its
/// significand and exponent: the quotient is doubled or halved, moving the
/// exponent the other way, until it lies in [2^52, 2^53), and is then
/// rounded to an integer. Zero stays zero. (Within the normal range of
/// binary64, which is all this library asks of it.)
pub open spec fn nearest_double(n: nat, d: nat, e: int) -> (nat, int)
    decreases
        (if n >= SIGNIFICAND_HIGH * d {
            (n - SIGNIFICAND_HIGH * d + 1) as nat
        } else {
            0nat
        }),
        (if n < SIGNIFICAND_LOW * d {
            (SIGNIFICAND_LOW * d - n) as nat
        } else {
            0nat
        }),
{
    if n == 0 || d == 0 {
        (0, e)
    } else if n >= SIGNIFICAND_HIGH * d {
        nearest_double(n, 2 * d, e + 1)
    } else if n < SIGNIFICAND_LOW * d {
        nearest_double(2 * n, d, e - 1)
    } else {
        (text::round_half_even(n, d), e)
    }
}

/// 10 to the power `places`, for one or two decimals.
pub open spec fn decimal_scale(places: nat) -> nat {
    if places == 1 {
        10
    } else {
        100
    }
}

/// `m * 2^e` in units of the last of `places` decimals, rounded to the
/// nearest unit, ties to even.
pub open spec fn scaled_units(m: nat, e: int, places: nat) -> nat {
    if e >= 0 {
        m * two_to(e as nat) * decimal_scale(places)
    } else {
        text::round_half_even(m * decimal_scale(places), two_to((-e) as nat))
    }
}

/// `ns as f64 / divisor as f64` in units of its last printed decimal, as
/// `{:.1}` (`places` 1) or `{:.2}` (`places` 2) prints it: `ns` rounded to a
/// double, the quotient rounded to a double, and the exact value of that
/// double rounded to the nearest unit, ties to even.
pub open spec fn float_quotient_units(ns: nat, divisor: nat, places: nat) -> nat {
    let a = nearest_double(ns, 1, 0);
    let q = nearest_double(a.0, divisor, a.1);
    scaled_units(q.0, q.1, places)
}

/// The printed text of `float_quotient_units`.
pub open spec fn float_quotient_text(ns: nat, divisor: nat, places: nat) -> Seq<char> {
    text::fixed(float_quotient_units(ns, divisor, places), places)
}

proof fn lemma_two_to_bounds(k: nat)
    ensures
        two_to(k) >= 1,
        k >= 1 ==> two_to(k) >= 2,
    decreases k,
{
    if k > 0 {
        lemma_two_to_bounds((k - 1) as nat);
    }
}

proof fn lemma_div_bounds(n: nat, d: nat, b: nat)
    requires
        d >= 1,
    ensures
        n / d >= b <==> n >= b * d,
{
    assert(n == d * (n / d) + n % d) by (nonlinear_arith)
        requires
            d >= 1,
    ;
    assert(n / d >= b ==> n >= b * d) by (nonlinear_arith)
        requires
            n == d * (n / d) + n % d,
            n % d >= 0,
            d >= 1,
    ;
    assert(n / d < b ==> n < b * d) by (nonlinear_arith)
        requires
            n == d * (n / d) + n % d,
            n % d < d,
            d >= 1,
    ;
}

proof fn lemma_round_bounds(n: nat, d: nat)
    requires
        d >= 1,
        SIGNIFICAND_LOW * d <= n < SIGNIFICAND_HIGH * d,
    ensures
        SIGNIFICAND_LOW <= text::round_half_even(n, d) <= SIGNIFICAND_HIGH,
{
    lemma_div_bounds(n, d, SIGNIFICAND_LOW as nat);
    lemma_div_bounds(n, d, SIGNIFICAND_HIGH as nat);
}

/// `n as f64` for an integer `n`: every integer below 2^53 is a double;
/// above, the nearest double, ties to an even significand.
pub open spec fn integer_as_double(n: nat) -> nat {
    if n < SIGNIFICAND_HIGH {
        n
    } else {
        let a = nearest_double(n, 1, 0);
        a.0 * two_to(a.1 as nat)
    }
}

/// The value of `n as f64`, which is an integer.
pub fn u64_as_double(n: u64) -> (r: u128)
    ensures
        r == integer_as_double(n as nat),
        r <= 0x2_0000_0000_0000_0000,
{
    let nn = n as u128;
    if nn < SIGNIFICAND_HIGH {
        return nn;
    }
    let mut d: u128 = 1;
    let ghost mut e: int = 0;
    while nn / d >= SIGNIFICAND_HIGH
        invariant
            nn == n,
            nn >= SIGNIFICAND_HIGH,
            1 <= d <= nn,
            d >= 2 ==> SIGNIFICAND_LOW * d <= nn,
            e >= 0,
            d == two_to(e as nat),
            nearest_double(n as nat, 1, 0) == nearest_double(nn as nat, d as nat, e),
        decreases nn - d,
    {
        proof {
            lemma_div_bounds(nn as nat, d as nat, SIGNIFICAND_HIGH as nat);
        }
        d = d * 2;
        proof {
            e = e + 1;
        }
    }
    proof {
        lemma_div_bounds(nn as nat, d as nat, SIGNIFICAND_HIGH as nat);
        lemma_round_bounds(nn as nat, d as nat);
        assert(d <= 0x1000) by (nonlinear_arith)
            requires
                SIGNIFICAND_LOW * d <= nn,
                nn <= 0xFFFF_FFFF_FFFF_FFFF,
                SIGNIFICAND_LOW == 0x10_0000_0000_0000,
        ;
    }
    let m = text::div_round_half_even(nn, d);
    assert(nearest_double(n as nat, 1, 0) == (m as nat, e));
    assert(m * d <= 0x2_0000_0000_0000_0000) by (nonlinear_arith)
        requires
            m <= SIGNIFICAND_HIGH,
            d <= 0x1000,
            SIGNIFICAND_HIGH == 0x20_0000_0000_0000,
    ;
    m * d
}

/// `float_quotient_units`, for a divisor from four times `10^places` up to a
/// million (the report divides by a thousand and by a million).
pub fn quotient_units(ns: u128, divisor: u128, places: usize) -> (u: u128)
    requires
        places == 1 || places == 2,
        4 * decimal_scale(places as nat) <= divisor <= 1_000_000,
    ensures
        u == float_quotient_units(ns as nat, divisor as nat, places as nat),
{
    let ten: u128 = if places == 1 {
        10
    } else {
        100
    };
    if ns == 0 {
        assert(nearest_double(0, 1, 0) == (0nat, 0int));
        assert(nearest_double(0, divisor as nat, 0) == (0nat, 0int));
        assert(scaled_units(0, 0, places as nat) == 0) by (nonlinear_arith);
        return 0;
    }
    // `ns as f64`: above 2^53 halve, below 2^52 double.

    let mut n: u128 = ns;
    let mut d: u128 = 1;
    let mut p: u128 = 1;
    let mut q: u128 = 1;
    let ghost mut e: int = 0;
    while n / d >= SIGNIFICAND_HIGH
        invariant
            n == ns,
            ns >= 1,
            1 <= d <= ns,
            d >= 2 ==> SIGNIFICAND_LOW * d <= n,
            d == p,
            q == 1,
            e >= 0,
            p == two_to(e as nat),
            nearest_double(ns as nat, 1, 0) == nearest_double(n as nat, d as nat, e),
        decreases ns - d,
    {
        proof {
            lemma_div_bounds(n as nat, d as nat, SIGNIFICAND_HIGH as nat);
        }
        d = d * 2;
        p = p * 2;
        proof {
            e = e + 1;
        }
    }
    proof {
        lemma_div_bounds(n as nat, d as nat, SIGNIFICAND_HIGH as nat);
        lemma_two_to_bounds(e as nat);
    }
    while n / d < SIGNIFICAND_LOW
        invariant
            ns >= 1,
            1 <= n < SIGNIFICAND_HIGH * d,
            1 <= d <= ns,
            d >= 2 ==> SIGNIFICAND_LOW * d <= n,
            d == 1 || e >= 0,
            e >= 0 ==> n == ns && q == 1 && p == two_to(e as nat) && d == p,
            e < 0 ==> p == 1 && q == two_to((-e) as nat) && q <= n && d == 1,
            nearest_double(ns as nat, 1, 0) == nearest_double(n as nat, d as nat, e),
        decreases SIGNIFICAND_HIGH * d - n,
    {
        proof {
            lemma_div_bounds(n as nat, d as nat, SIGNIFICAND_LOW as nat);
            lemma_div_bounds(n as nat, d as nat, SIGNIFICAND_HIGH as nat);
            if e >= 0 {
                lemma_two_to_bounds(e as nat);
            }
        }
        n = n * 2;
        if p >= 2 {
            p = p / 2;
        } else {
            q = q * 2;
        }
        proof {
            e = e - 1;
        }
    }
    proof {
        lemma_div_bounds(n as nat, d as nat, SIGNIFICAND_LOW as nat);
        lemma_round_bounds(n as nat, d as nat);
        if e < 0 {
            lemma_two_to_bounds((-e) as nat);
        }
    }
    let m1 = text::div_round_half_even(n, d);
    assert(nearest_double(ns as nat, 1, 0) == (m1 as nat, e));
    let ghost pa = p;
    let ghost qa = q;
    let ghost e1 = e;
    proof {
        if e >= 0 {
            assert(pa * SIGNIFICAND_LOW <= ns) by (nonlinear_arith)
                requires
                    SIGNIFICAND_LOW * d <= n,
                    n == ns,
                    d == pa,
            ;
        }
        assert(pa >= 2 ==> pa * SIGNIFICAND_LOW <= ns);
    }
    // The quotient: the significand is at most 2^53 and the divisor at
    // least 2, so only doubling is left to do.

    let mut n: u128 = m1;
    let d: u128 = divisor;
    assert(n < SIGNIFICAND_HIGH * d);
    assert(q <= qa * n) by (nonlinear_arith)
        requires
            q == qa,
            n >= 1,
            qa >= 1,
    ;
    while n / d < SIGNIFICAND_LOW
        invariant
            d == divisor,
            4 * decimal_scale(places as nat) <= divisor <= 1_000_000,
            SIGNIFICAND_LOW <= m1 <= n < SIGNIFICAND_HIGH * d,
            m1 <= SIGNIFICAND_HIGH,
            1 <= qa <= SIGNIFICAND_HIGH,
            1 <= q <= qa * n,
            p <= pa,
            ns >= 1,
            ten == decimal_scale(places as nat),
            pa >= 2 ==> pa * SIGNIFICAND_LOW <= ns,
            p >= 2 ==> n * p <= m1 * pa,
            e >= 0 ==> q == 1 && p == two_to(e as nat),
            e < 0 ==> p == 1 && q == two_to((-e) as nat),
            nearest_double(m1 as nat, divisor as nat, e1) == nearest_double(n as nat, d as nat, e),
        decreases SIGNIFICAND_HIGH * d - n,
    {
        proof {
            lemma_div_bounds(n as nat, d as nat, SIGNIFICAND_LOW as nat);
            if e >= 0 {
                lemma_two_to_bounds(e as nat);
            }
            assert(qa * (2 * n) <= SIGNIFICAND_HIGH * (SIGNIFICAND_HIGH * 1_000_000)) by (
            nonlinear_arith)
                requires
                    qa <= SIGNIFICAND_HIGH,
                    2 * n < SIGNIFICAND_HIGH * 1_000_000,
            ;
            assert(2 * q <= qa * (2 * n)) by (nonlinear_arith)
                requires
                    q <= qa * n,
            ;
            if p >= 4 {
                assert((2 * n) * (p / 2) <= n * p) by (nonlinear_arith);
            }
        }
        n = n * 2;
        if p >= 2 {
            p = p / 2;
        } else {
            q = q * 2;
        }
        proof {
            e = e - 1;
        }
    }
    proof {
        lemma_div_bounds(n as nat, d as nat, SIGNIFICAND_LOW as nat);
        lemma_round_bounds(n as nat, d as nat);
    }
    let m2 = text::div_round_half_even(n, d);
    assert(nearest_double(m1 as nat, divisor as nat, e1) == (m2 as nat, e));
    proof {
        lemma_two_to_bounds((-e) as nat);
    }
    if q == 1 {
        proof {
            if p >= 2 {
                assert(p * divisor <= 2 * pa) by (nonlinear_arith)
                    requires
                        n * p <= m1 * pa,
                        SIGNIFICAND_LOW * divisor <= n,
                        m1 <= SIGNIFICAND_HIGH,
                        SIGNIFICAND_HIGH == 2 * SIGNIFICAND_LOW,
                ;
                assert(m2 * p * ten <= ns) by (nonlinear_arith)
                    requires
                        p * divisor <= 2 * pa,
                        pa * SIGNIFICAND_LOW <= ns,
                        m2 <= SIGNIFICAND_HIGH,
                        SIGNIFICAND_HIGH == 2 * SIGNIFICAND_LOW,
                        4 * ten <= divisor,
                ;
            } else {
                assert(m2 * p * ten <= SIGNIFICAND_HIGH * 100) by (nonlinear_arith)
                    requires
                        p <= 1,
                        m2 <= SIGNIFICAND_HIGH,
                        ten <= 100,
                ;
            }
            assert(m2 * p <= m2 * p * ten) by (nonlinear_arith)
                requires
                    ten >= 1,
            ;
        }
        m2 * p * ten
    } else {
        text::div_round_half_even(m2 * ten, q)
    }
}

} // verus!
