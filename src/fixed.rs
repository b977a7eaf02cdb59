//! Fixed-point arithmetic on `i64` / `i128` values scaled by `UNIT`.
use vstd::arithmetic::div_mod::{lemma_div_is_ordered, lemma_fundamental_div_mod};
use vstd::prelude::*;

verus! {

/// The integer that stands for the real number 1.
pub const UNIT: i64 = 1_000_000;

/// Pi radians, rounded to the nearest fixed-point value.
pub const PI: i64 = 3_141_593;

/// Pi / 2 radians, rounded to the nearest fixed-point value.
pub const HALF_PI: i64 = 1_570_796;

/// Largest accepted tunable coefficient, time step or throttle (about 2147.48).
pub const MAX_COEFF: i64 = 2_147_483_648;

/// Largest accepted velocity component for the drag stage (about 1.1e6).
pub const MAX_SPEED: i64 = 1_099_511_627_776;

pub open spec fn abs(x: int) -> int {
    if x < 0 {
        -x
    } else {
        x
    }
}

pub open spec fn in_i64(x: int) -> bool {
    i64::MIN <= x <= i64::MAX
}

/// Fixed-point product of `a` and `b`, rounded toward zero.
pub open spec fn fmul(a: int, b: int) -> int {
    if a * b >= 0 {
        (a * b) / (UNIT as int)
    } else {
        -((-(a * b)) / (UNIT as int))
    }
}

/// The integer square root: the largest `r` with `r * r <= n`.
pub open spec fn is_isqrt(n: int, r: int) -> bool {
    0 <= r && r * r <= n < (r + 1) * (r + 1)
}

pub open spec fn isqrt(n: int) -> int {
    choose|r: int| is_isqrt(n, r)
}

pub proof fn lemma_isqrt_unique(n: int, r: int, s: int)
    requires
        is_isqrt(n, r),
        is_isqrt(n, s),
    ensures
        r == s,
{
    if r < s {
        assert((r + 1) * (r + 1) <= s * s) by (nonlinear_arith)
            requires
                0 <= r,
                r + 1 <= s,
        ;
    } else if s < r {
        assert((s + 1) * (s + 1) <= r * r) by (nonlinear_arith)
            requires
                0 <= s,
                s + 1 <= r,
        ;
    }
}

pub proof fn lemma_isqrt_is(n: int, r: int)
    requires
        is_isqrt(n, r),
    ensures
        isqrt(n) == r,
{
    assert(is_isqrt(n, isqrt(n)));
    lemma_isqrt_unique(n, r, isqrt(n));
}

/// The square root never exceeds a bound whose square reaches `n`.
pub proof fn lemma_isqrt_le(n: int, r: int, m: int)
    requires
        is_isqrt(n, r),
        0 <= m,
        n <= m * m,
    ensures
        r <= m,
{
    if r > m {
        assert(m * m < r * r) by (nonlinear_arith)
            requires
                0 <= m,
                m < r,
        ;
    }
}

/// `isqrt` is monotone.
pub proof fn lemma_isqrt_monotone(n: int, m: int)
    requires
        0 <= n <= m,
        exists|r: int| is_isqrt(n, r),
        exists|r: int| is_isqrt(m, r),
    ensures
        isqrt(n) <= isqrt(m),
{
    let a = isqrt(n);
    let b = isqrt(m);
    if a > b {
        assert((b + 1) * (b + 1) <= a * a) by (nonlinear_arith)
            requires
                0 <= b,
                b + 1 <= a,
        ;
    }
}

pub proof fn lemma_fmul_sign(a: int, b: int)
    ensures
        abs(fmul(a, b)) == abs(a * b) / (UNIT as int),
        a * b >= 0 ==> fmul(a, b) >= 0,
        a * b <= 0 ==> fmul(a, b) <= 0,
        fmul(a, b) == 0 <==> abs(a * b) < UNIT,
{
}

pub proof fn lemma_fmul_zero(a: int)
    ensures
        fmul(a, 0) == 0,
        fmul(0, a) == 0,
{
}

pub proof fn lemma_fmul_unit(a: int)
    ensures
        fmul(a, UNIT as int) == a,
        fmul(a, -(UNIT as int)) == -a,
{
    assert(a * (UNIT as int) == (UNIT as int) * a) by (nonlinear_arith);
    assert(a * -(UNIT as int) == -((UNIT as int) * a)) by (nonlinear_arith);
    if a >= 0 {
        assert(((UNIT as int) * a) / (UNIT as int) == a) by (nonlinear_arith);
    } else {
        assert(((UNIT as int) * -a) / (UNIT as int) == -a) by (nonlinear_arith);
        assert((UNIT as int) * -a == -((UNIT as int) * a)) by (nonlinear_arith);
    }
}

/// Magnitude bounds carry through a fixed-point product.
pub proof fn lemma_fmul_bound(a: int, b: int, x: int, y: int)
    requires
        abs(a) <= x,
        abs(b) <= y,
    ensures
        abs(a * b) <= x * y,
        abs(fmul(a, b)) <= (x * y) / (UNIT as int),
        abs(fmul(a, b)) <= abs(a) * y / (UNIT as int),
{
    assert(abs(a * b) == abs(a) * abs(b)) by (nonlinear_arith);
    assert(abs(a) * abs(b) <= abs(a) * y) by (nonlinear_arith)
        requires
            0 <= abs(a),
            abs(b) <= y,
    ;
    assert(abs(a) * y <= x * y) by (nonlinear_arith)
        requires
            abs(a) <= x,
            0 <= y,
    ;
    lemma_fmul_sign(a, b);
    lemma_div_is_ordered(abs(a * b), x * y, UNIT as int);
    lemma_div_is_ordered(abs(a * b), abs(a) * y, UNIT as int);
}

/// A fraction of at most one never grows a value nor flips its sign.
pub proof fn lemma_fmul_fraction(v: int, k: int)
    requires
        0 <= k <= UNIT,
    ensures
        abs(fmul(v, k)) <= abs(v),
        v >= 0 ==> 0 <= fmul(v, k) <= v,
        v <= 0 ==> v <= fmul(v, k) <= 0,
{
    lemma_fmul_bound(v, k, abs(v), UNIT as int);
    assert(abs(v) * (UNIT as int) / (UNIT as int) == abs(v)) by (nonlinear_arith);
    lemma_fmul_sign(v, k);
    assert(v >= 0 ==> v * k >= 0) by (nonlinear_arith)
        requires
            k >= 0,
    ;
    assert(v <= 0 ==> v * k <= 0) by (nonlinear_arith)
        requires
            k >= 0,
    ;
}

/// Every non-negative integer has an integer square root.
pub proof fn lemma_isqrt_exists(n: nat)
    ensures
        is_isqrt(n as int, isqrt(n as int)),
    decreases n,
{
    if n == 0 {
        assert(is_isqrt(0, 0));
    } else {
        lemma_isqrt_exists((n - 1) as nat);
        let r = isqrt(n - 1);
        if (r + 1) * (r + 1) <= n {
            assert((r + 1) * (r + 1) == n);
            assert(n < (r + 2) * (r + 2)) by (nonlinear_arith)
                requires
                    (r + 1) * (r + 1) == n,
                    0 <= r,
            ;
            assert(is_isqrt(n as int, r + 1));
        } else {
            assert(is_isqrt(n as int, r));
        }
    }
}

pub proof fn lemma_fmul_nonneg(a: int, b: int)
    requires
        0 <= a,
        0 <= b,
    ensures
        0 <= fmul(a, b),
{
    assert(0 <= a * b) by (nonlinear_arith)
        requires
            0 <= a,
            0 <= b,
    ;
}

/// On non-negative arguments the fixed-point product is monotone in both.
pub proof fn lemma_fmul_monotone(a: int, b: int, x: int, y: int)
    requires
        0 <= a <= x,
        0 <= b <= y,
    ensures
        0 <= fmul(a, b) <= fmul(x, y),
{
    assert(0 <= a * b <= x * y) by (nonlinear_arith)
        requires
            0 <= a <= x,
            0 <= b <= y,
    ;
    lemma_div_is_ordered(a * b, x * y, UNIT as int);
    lemma_fmul_nonneg(a, b);
}

/// The rounding error of a fixed-point product is less than one unit.
pub proof fn lemma_fmul_residue(a: int, b: int)
    ensures
        abs(a * b - (UNIT as int) * fmul(a, b)) < UNIT,
        a * b >= 0 ==> 0 <= a * b - (UNIT as int) * fmul(a, b),
        a * b <= 0 ==> a * b - (UNIT as int) * fmul(a, b) <= 0,
{
    let p = a * b;
    let u = UNIT as int;
    if p >= 0 {
        lemma_fundamental_div_mod(p, u);
    } else {
        lemma_fundamental_div_mod(-p, u);
    }
}

/// Fixed-point product rounded toward zero.
pub fn mul_fixed(a: i128, b: i128) -> (r: i128)
    requires
        abs(a * b) <= i128::MAX,
    ensures
        r == fmul(a as int, b as int),
{
    let p = a * b;
    if p >= 0 {
        p / (UNIT as i128)
    } else {
        -((-p) / (UNIT as i128))
    }
}

/// Integer square root by bisection.
pub fn isqrt_u128(n: u128) -> (r: u128)
    ensures
        is_isqrt(n as int, r as int),
        r == isqrt(n as int),
{
    let mut lo: u128 = 0;
    let mut hi: u128 = 0x1_0000_0000_0000_0000;
    assert(n < hi * hi) by (nonlinear_arith)
        requires
            n <= u128::MAX,
            hi == 0x1_0000_0000_0000_0000u128,
    ;
    while hi - lo > 1
        invariant
            lo < hi <= 0x1_0000_0000_0000_0000u128,
            lo * lo <= n,
            n < hi * hi,
        decreases hi - lo,
    {
        let mid: u128 = lo + (hi - lo) / 2;
        assert(mid * mid <= u128::MAX) by (nonlinear_arith)
            requires
                mid < 0x1_0000_0000_0000_0000u128,
        ;
        if mid * mid <= n {
            lo = mid;
        } else {
            hi = mid;
        }
    }
    assert(hi == lo + 1);
    proof {
        lemma_isqrt_is(n as int, lo as int);
    }
    lo
}

} // verus!
