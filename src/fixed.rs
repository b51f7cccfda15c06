//! Fixed-point helpers shared by projection and shading.
use vstd::prelude::*;

verus! {

/// One whole unit in the fixed-point representation (16 fractional bits).
pub const FIXED_ONE: i64 = 65536;

/// Largest magnitude of a world coordinate the library works with.
pub const COORD_MAX: i64 = 1_000_000;

/// Floor of `n / d` for any nonzero `d`.
pub open spec fn floor_div_spec(n: int, d: int) -> int {
    if d < 0 {
        (-n) / (-d)
    } else {
        n / d
    }
}

/// Clamps an integer into the byte range.
pub open spec fn clamp_byte_spec(v: int) -> u8 {
    if v < 0 {
        0u8
    } else if v > 255 {
        255u8
    } else {
        v as u8
    }
}

/// Rounds `n / d` towards negative infinity.
pub fn floor_div(n: i64, d: i64) -> (q: i64)
    requires
        d != 0,
        n > i64::MIN,
        d > i64::MIN,
    ensures
        q == floor_div_spec(n as int, d as int),
{
    let (a, b) = if d < 0 {
        (-n, -d)
    } else {
        (n, d)
    };
    if a >= 0 {
        a / b
    } else {
        let m: i64 = (-(a + 1)) / b;
        proof {
            let bi = b as int;
            let k = -(a + 1);
            vstd::arithmetic::div_mod::lemma_fundamental_div_mod(k, bi);
            vstd::arithmetic::div_mod::lemma_mod_bound(k, bi);
            let q = k / bi;
            let r = k % bi;
            assert(a == (-q - 1) * bi + (bi - 1 - r)) by (nonlinear_arith)
                requires
                    a == -k - 1,
                    k == bi * q + r,
            ;
            vstd::arithmetic::div_mod::lemma_fundamental_div_mod_converse(
                a as int,
                bi,
                -q - 1,
                bi - 1 - r,
            );
        }
        -m - 1
    }
}

/// Clamps an integer into `0..=255`, saturating rather than wrapping.
pub fn clamp_byte(v: i64) -> (r: u8)
    ensures
        r == clamp_byte_spec(v as int),
{
    if v < 0 {
        0
    } else if v > 255 {
        255
    } else {
        v as u8
    }
}

/// Euclidean remainder of `n` by a positive `d`, always in `0..d`.
pub fn floor_mod(n: i64, d: i64) -> (m: i64)
    requires
        d > 0,
    ensures
        m == n as int % d as int,
        0 <= m < d,
{
    if n >= 0 {
        n % d
    } else {
        let k: i64 = -(n + 1);
        let rk: i64 = k % d;
        proof {
            let di = d as int;
            vstd::arithmetic::div_mod::lemma_fundamental_div_mod(k as int, di);
            vstd::arithmetic::div_mod::lemma_mod_bound(k as int, di);
            let q = k as int / di;
            assert(n == (-q - 1) * di + (di - 1 - rk)) by (nonlinear_arith)
                requires
                    n == -k - 1,
                    k == di * q + rk,
            ;
            vstd::arithmetic::div_mod::lemma_fundamental_div_mod_converse(
                n as int,
                di,
                -q - 1,
                di - 1 - rk,
            );
        }
        d - 1 - rk
    }
}

/// Adds two integers, saturating at the bounds of `i64`.
pub open spec fn sat_add_spec(a: int, b: int) -> i64 {
    if a + b > i64::MAX {
        i64::MAX
    } else if a + b < i64::MIN {
        i64::MIN
    } else {
        (a + b) as i64
    }
}

/// Adds two integers, saturating at the bounds of `i64`.
pub fn sat_add(a: i64, b: i64) -> (s: i64)
    ensures
        s == sat_add_spec(a as int, b as int),
{
    if b > 0 && a > i64::MAX - b {
        i64::MAX
    } else if b < 0 && a < i64::MIN - b {
        i64::MIN
    } else {
        a + b
    }
}

} // verus!
