//! Fixed-point scalars: an `i64` counts billionths of a unit. Every operation
//! saturates at `LIMIT`, so no operation overflows whatever its inputs.
use vstd::prelude::*;
use vstd::arithmetic::mul::lemma_mul_upper_bound;

verus! {

/// Number of raw units in one whole unit of a scalar.
pub const ONE: i64 = 1_000_000_000;

/// Largest magnitude that an operation returns; results beyond it saturate.
pub const LIMIT: i64 = 1_125_899_906_842_624;

/// Tolerance used for shadow offsets, parallel-ray tests and approximate equality.
pub const EPSILON: i64 = 100_000;

pub open spec fn clamp(x: int) -> int {
    if x > LIMIT {
        LIMIT as int
    } else if x < -LIMIT {
        -LIMIT
    } else {
        x
    }
}

/// Division rounding toward zero, for a positive divisor.
pub open spec fn tdiv(n: int, d: int) -> int
    recommends
        d > 0,
{
    if n >= 0 {
        n / d
    } else {
        -((-n) / d)
    }
}

pub open spec fn sadd(a: int, b: int) -> int {
    clamp(a + b)
}

pub open spec fn ssub(a: int, b: int) -> int {
    clamp(a - b)
}

pub open spec fn sneg(a: int) -> int {
    clamp(-a)
}

pub open spec fn smul(a: int, b: int) -> int {
    clamp(tdiv(a * b, ONE as int))
}

/// Quotient of two scalars; zero when the divisor is zero.
pub open spec fn sdiv(a: int, b: int) -> int {
    if b > 0 {
        clamp(tdiv(a * ONE, b))
    } else if b < 0 {
        clamp(tdiv(-(a * ONE), -b))
    } else {
        0
    }
}

/// `r` is the integer square root of `n`.
pub open spec fn is_isqrt(n: int, r: int) -> bool {
    0 <= r && r * r <= n < (r + 1) * (r + 1)
}

/// Square root of a scalar, rounded down; zero for a negative argument.
pub open spec fn ssqrt(a: int) -> int {
    if a <= 0 {
        0
    } else {
        choose|r: int| #[trigger] is_isqrt(a * ONE, r)
    }
}

/// `b` raised to the whole power `e`, by repeated squaring.
pub open spec fn spow(b: int, e: nat) -> int
    decreases e,
{
    if e == 0 {
        ONE as int
    } else if e % 2 == 0 {
        let h = spow(b, e / 2);
        smul(h, h)
    } else {
        smul(b, spow(b, (e - 1) as nat))
    }
}

/// `a` and `b` differ by less than `EPSILON`.
pub open spec fn near(a: int, b: int) -> bool {
    -EPSILON < a - b < EPSILON
}

fn clamp_wide(x: i128) -> (r: i64)
    ensures
        r == clamp(x as int),
{
    if x > LIMIT as i128 {
        LIMIT
    } else if x < -(LIMIT as i128) {
        -LIMIT
    } else {
        x as i64
    }
}

/// Division of a wide value by a positive divisor, rounding toward zero.
fn tdiv_wide(n: i128, d: i128) -> (r: i128)
    requires
        d > 0,
        -0x4000_0000_0000_0000_0000_0000_0000_0000 <= n <= 0x4000_0000_0000_0000_0000_0000_0000_0000,
    ensures
        r == tdiv(n as int, d as int),
{
    if n >= 0 {
        (n as u128 / d as u128) as i128
    } else {
        let m: u128 = (-n) as u128 / d as u128;
        proof {
            assert((-n) as int / d as int <= (-n) as int) by (nonlinear_arith)
                requires
                    -n > 0,
                    d > 0,
            ;
        }
        -(m as i128)
    }
}

/// Saturating sum.
pub fn fadd(a: i64, b: i64) -> (r: i64)
    ensures
        r == sadd(a as int, b as int),
{
    clamp_wide(a as i128 + b as i128)
}

/// Saturating difference.
pub fn fsub(a: i64, b: i64) -> (r: i64)
    ensures
        r == ssub(a as int, b as int),
{
    clamp_wide(a as i128 - b as i128)
}

/// Saturating negation.
pub fn fneg(a: i64) -> (r: i64)
    ensures
        r == sneg(a as int),
{
    clamp_wide(-(a as i128))
}

/// Saturating product.
pub fn fmul(a: i64, b: i64) -> (r: i64)
    ensures
        r == smul(a as int, b as int),
{
    proof {
        lemma_product_bound(a as int, b as int, 0x8000_0000_0000_0000, 0x8000_0000_0000_0000);
    }
    let p: i128 = a as i128 * b as i128;
    clamp_wide(tdiv_wide(p, ONE as i128))
}

/// Saturating quotient; zero when `b` is zero.
pub fn fdiv(a: i64, b: i64) -> (r: i64)
    ensures
        r == sdiv(a as int, b as int),
{
    proof {
        lemma_product_bound(a as int, ONE as int, 0x8000_0000_0000_0000, ONE as int);
    }
    let n: i128 = a as i128 * ONE as i128;
    if b > 0 {
        clamp_wide(tdiv_wide(n, b as i128))
    } else if b < 0 {
        clamp_wide(tdiv_wide(-n, -(b as i128)))
    } else {
        0
    }
}

proof fn lemma_product_bound(x: int, y: int, xb: int, yb: int)
    requires
        -xb <= x <= xb,
        -yb <= y <= yb,
    ensures
        -(xb * yb) <= x * y <= xb * yb,
{
    let (ax, ay) = (if x >= 0 { x } else { -x }, if y >= 0 { y } else { -y });
    lemma_mul_upper_bound(ax, xb, ay, yb);
    assert(ax * ay == x * y || ax * ay == -(x * y)) by (nonlinear_arith)
        requires
            ax == x || ax == -x,
            ay == y || ay == -y,
    ;
}

proof fn lemma_isqrt_unique(n: int, r: int, s: int)
    requires
        is_isqrt(n, r),
        is_isqrt(n, s),
    ensures
        r == s,
{
    if r < s {
        assert((r + 1) * (r + 1) <= s * s) by (nonlinear_arith)
            requires
                0 <= r + 1 <= s,
        ;
    } else if s < r {
        assert((s + 1) * (s + 1) <= r * r) by (nonlinear_arith)
            requires
                0 <= s + 1 <= r,
        ;
    }
}

/// Square root, rounded down; zero for a non-positive argument.
pub fn fsqrt(a: i64) -> (r: i64)
    ensures
        r == ssqrt(a as int),
{
    if a <= 0 {
        return 0;
    }
    proof {
        lemma_product_bound(a as int, ONE as int, 0x8000_0000_0000_0000, ONE as int);
    }
    let n: u128 = a as u128 * ONE as u128;
    let mut lo: u128 = 0;
    let mut hi: u128 = 0x1_0000_0000_0000;
    assert(n < hi * hi) by (nonlinear_arith)
        requires
            n == a * ONE,
            a < 0x8000_0000_0000_0000,
            hi == 0x1_0000_0000_0000,
    ;
    while hi - lo > 1
        invariant
            lo < hi <= 0x1_0000_0000_0000,
            lo * lo <= n,
            n < hi * hi,
        decreases hi - lo,
    {
        let mid: u128 = lo + (hi - lo) / 2;
        assert(mid * mid <= 0x1_0000_0000_0000 * 0x1_0000_0000_0000) by (nonlinear_arith)
            requires
                mid <= 0x1_0000_0000_0000,
        ;
        if mid * mid <= n {
            lo = mid;
        } else {
            hi = mid;
        }
    }
    proof {
        assert(is_isqrt(n as int, lo as int));
        let c = choose|r: int| #[trigger] is_isqrt(a * ONE, r);
        lemma_isqrt_unique(n as int, lo as int, c);
    }
    lo as i64
}

/// `b` raised to the whole power `e`.
pub fn fpow(b: i64, e: u32) -> (r: i64)
    ensures
        r == spow(b as int, e as nat),
    decreases e,
{
    if e == 0 {
        ONE
    } else if e % 2 == 0 {
        let h = fpow(b, e / 2);
        fmul(h, h)
    } else {
        let p = fpow(b, e - 1);
        fmul(b, p)
    }
}

/// Approximate equality of two scalars, within `EPSILON`.
pub fn approx_eq(a: i64, b: i64) -> (r: bool)
    ensures
        r == near(a as int, b as int),
{
    let d: i128 = a as i128 - b as i128;
    -(EPSILON as i128) < d && d < EPSILON as i128
}

} // verus!
