use vstd::prelude::*;

verus! {

/// Micro-units in one grid unit.
pub const UNIT: i64 = 1_000_000;

/// Bound on the magnitude of every position and velocity. A ball's position
/// or velocity that would pass it is capped at `LIMIT` (or `-LIMIT`).
pub const LIMIT: i64 = 9_007_199_254_740_992;

/// Bound on the magnitude of the vertical band a paddle is kept in.
pub const BAND_LIMIT: i64 = 4_503_599_627_370_496;

/// `v` held to `[-LIMIT, LIMIT]`.
pub open spec fn clamp(v: int) -> int {
    if v < -LIMIT {
        -LIMIT as int
    } else if v > LIMIT {
        LIMIT as int
    } else {
        v
    }
}

/// The largest whole grid coordinate not above `v` (in micro-units).
pub open spec fn floor_unit(v: int) -> int {
    (v / UNIT as int) * UNIT
}

/// The smallest whole grid coordinate not below `v` (in micro-units).
pub open spec fn ceil_unit(v: int) -> int {
    -floor_unit(-v)
}

/// Floor division by a positive divisor.
pub fn floor_div(p: i128, d: i128) -> (q: i128)
    requires
        d > 0,
        p > i128::MIN,
    ensures
        q == p / d,
{
    if p >= 0 {
        p / d
    } else {
        let m: i128 = -p;
        let t: i128 = m / d;
        let r: i128 = m % d;
        proof {
            vstd::arithmetic::div_mod::lemma_fundamental_div_mod(m as int, d as int);
            assert(p == (-t) * d - r) by (nonlinear_arith)
                requires
                    m == d * t + r,
                    p == -m,
            ;
        }
        if r == 0 {
            proof {
                vstd::arithmetic::div_mod::lemma_fundamental_div_mod_converse(
                    p as int, d as int, -t, 0);
            }
            -t
        } else {
            proof {
                assert(p == (-t - 1) * d + (d - r)) by (nonlinear_arith)
                    requires
                        p == (-t) * d - r,
                ;
                vstd::arithmetic::div_mod::lemma_fundamental_div_mod_converse(
                    p as int, d as int, -t - 1, d - r);
            }
            -t - 1
        }
    }
}

/// `v` rounded down to a whole grid coordinate.
pub fn floor_to_unit(v: i64) -> (r: i64)
    requires
        -LIMIT <= v <= LIMIT,
    ensures
        r == floor_unit(v as int),
{
    let q: i128 = floor_div(v as i128, UNIT as i128);
    proof {
        vstd::arithmetic::div_mod::lemma_fundamental_div_mod(v as int, UNIT as int);
    }
    (q as i64) * UNIT
}

/// `v` rounded up to a whole grid coordinate.
pub fn ceil_to_unit(v: i64) -> (r: i64)
    requires
        -LIMIT <= v <= LIMIT,
    ensures
        r == ceil_unit(v as int),
{
    let f: i64 = floor_to_unit(-v);
    proof {
        vstd::arithmetic::div_mod::lemma_fundamental_div_mod(-v as int, UNIT as int);
    }
    -f
}

/// `v` held to `[-LIMIT, LIMIT]`.
pub fn clamp_to_limit(v: i128) -> (r: i64)
    ensures
        r == clamp(v as int),
{
    if v < -(LIMIT as i128) {
        -LIMIT
    } else if v > LIMIT as i128 {
        LIMIT
    } else {
        v as i64
    }
}

} // verus!
