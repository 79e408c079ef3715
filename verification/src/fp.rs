//! Saturating fixed-point arithmetic: every simulation scalar is an `i64`
//! carrying 16 fractional bits, kept inside `[-FP_MAX, FP_MAX]`.
//!
//! Quotients round toward zero (`tdiv`), matching the way the per-tick
//! damping and the boundary nudges are meant to shave magnitude off a value
//! regardless of its sign.

use vstd::prelude::*;

verus! {

use vstd::arithmetic::div_mod::lemma_fundamental_div_mod;

/// One unit: the fixed-point scale, 16 fractional bits.
pub const FP_ONE: i64 = 65536;

/// Saturation bound for every stored scalar (2^40 raw, about sixteen million
/// world units): far beyond anything the map can produce, yet small enough
/// that sums fit `i64` and triple products fit `i128`.
pub const FP_MAX: i64 = 1099511627776;

/// Pi in fixed-point radians.
pub const PI_FP: i64 = 205887;

/// A full turn in fixed-point radians.
pub const TWO_PI_FP: i64 = 2 * PI_FP;

/// A quarter turn in fixed-point radians (half of `PI_FP`, rounded down).
pub const HALF_PI_FP: i64 = 102943;

/// Magnitude of an integer.
pub open spec fn mag(x: int) -> int {
    if x < 0 {
        -x
    } else {
        x
    }
}

/// Whether a value lies inside the saturation band.
pub open spec fn in_fp(x: int) -> bool {
    -FP_MAX <= x <= FP_MAX
}

/// Saturation: clamp into `[-FP_MAX, FP_MAX]`.
pub open spec fn sat(x: int) -> int {
    if x > FP_MAX {
        FP_MAX as int
    } else if x < -FP_MAX {
        -FP_MAX as int
    } else {
        x
    }
}

/// Division with the quotient rounded toward zero (the rounding of the
/// executable code), defined from Euclidean division on magnitudes.
pub open spec fn tdiv(a: int, b: int) -> int {
    if (a < 0) == (b < 0) {
        mag(a) / mag(b)
    } else {
        -(mag(a) / mag(b))
    }
}

/// Fixed-point product: `a * b` rescaled by one unit, saturated.
pub open spec fn fmul_s(a: int, b: int) -> int {
    sat(tdiv(a * b, FP_ONE as int))
}

/// Fixed-point quotient: `a / b` rescaled by one unit, saturated.
pub open spec fn fdiv_s(a: int, b: int) -> int {
    sat(tdiv(a * FP_ONE, b))
}

/// Sign-preserving clamp of `v` into `[-m, m]`.
pub open spec fn clamp_s(v: int, m: int) -> int {
    if v > m {
        m
    } else if v < -m {
        -m
    } else {
        v
    }
}

/// A truncated quotient never exceeds its dividend in magnitude.
pub proof fn lemma_tdiv_mag(a: int, b: int)
    requires
        b != 0,
    ensures
        mag(tdiv(a, b)) <= mag(a),
{
    vstd::arithmetic::div_mod::lemma_div_pos_is_pos(mag(a), mag(b));
    vstd::arithmetic::div_mod::lemma_div_nonincreasing(mag(a), mag(b));
}

/// Scaling by a ratio of at most one never grows a value, and by a ratio
/// below one strictly shrinks it: the fact behind every damping step.
pub proof fn lemma_tdiv_scale_down(v: int, num: int, den: int)
    requires
        0 <= num <= den,
        0 < den,
    ensures
        mag(tdiv(v * num, den)) <= mag(v),
        v == 0 ==> tdiv(v * num, den) == 0,
        v != 0 && num < den ==> mag(tdiv(v * num, den)) < mag(v),
{
    let m = mag(v);
    if v >= 0 {
        assert(v * num >= 0 && v * num == m * num) by (nonlinear_arith)
            requires
                v >= 0,
                num >= 0,
                m == v,
        ;
    } else {
        assert(v * num <= 0 && -(v * num) == m * num) by (nonlinear_arith)
            requires
                v < 0,
                num >= 0,
                m == -v,
        ;
    }
    assert(mag(v * num) == m * num);
    vstd::arithmetic::div_mod::lemma_div_pos_is_pos(m * num, den);
    vstd::arithmetic::mul::lemma_mul_inequality(num, den, m);
    vstd::arithmetic::div_mod::lemma_div_is_ordered(m * num, m * den, den);
    vstd::arithmetic::div_mod::lemma_div_multiples_vanish(m, den);
    assert(num * m == m * num && den * m == m * den) by (nonlinear_arith);
    if v != 0 && num < den {
        vstd::arithmetic::mul::lemma_mul_inequality(num, den - 1, m);
        assert((den - 1) * m == den * m - m) by (nonlinear_arith);
        assert(m * num <= m * den - m);
        vstd::arithmetic::div_mod::lemma_div_is_ordered(m * num, m * den - 1, den);
        vstd::arithmetic::div_mod::lemma_div_multiples_vanish_fancy(m - 1, den - 1, den);
        assert(den * (m - 1) + (den - 1) == m * den - 1) by (nonlinear_arith);
        assert((m * den - 1) / den == m - 1);
    }
}

/// A product is bounded by the product of the factors' bounds.
pub proof fn lemma_mul_bound(a: int, b: int, m: int, n: int)
    requires
        -m <= a <= m,
        -n <= b <= n,
    ensures
        -(m * n) <= a * b <= m * n,
{
    assert(-(m * n) <= a * b <= m * n) by (nonlinear_arith)
        requires
            -m <= a <= m,
            -n <= b <= n,
    ;
}

/// Saturate an `i128` into the `i64` band.
pub fn sat_i128(v: i128) -> (r: i64)
    ensures
        r as int == sat(v as int),
        in_fp(r as int),
{
    if v > (FP_MAX as i128) {
        FP_MAX
    } else if v < -(FP_MAX as i128) {
        -FP_MAX
    } else {
        v as i64
    }
}

/// Quotient toward zero over `i128`, the working width of the arithmetic.
pub fn tdiv_i128(a: i128, b: i128) -> (q: i128)
    requires
        b != 0,
        a > i128::MIN,
        b > i128::MIN,
    ensures
        q == tdiv(a as int, b as int),
{
    let aa: i128 = if a < 0 {
        -a
    } else {
        a
    };
    let bb: i128 = if b < 0 {
        -b
    } else {
        b
    };
    let q0: i128 = aa / bb;
    assert(aa as int == mag(a as int));
    assert(bb as int == mag(b as int));
    if (a < 0) == (b < 0) {
        q0
    } else {
        -q0
    }
}

/// `a * b / d` with truncation and saturation: the workhorse every other
/// operation is phrased with.
pub fn muldiv(a: i64, b: i64, d: i64) -> (r: i64)
    requires
        d != 0,
    ensures
        r as int == sat(tdiv(a * b, d as int)),
        in_fp(r as int),
{
    proof {
        assert(-85070591730234615865843651857942052864 <= (a as int) * (b as int)
            <= 85070591730234615865843651857942052864) by (nonlinear_arith)
            requires
                -9223372036854775808 <= a as int <= 9223372036854775807,
                -9223372036854775808 <= b as int <= 9223372036854775807,
        ;
    }
    let p: i128 = (a as i128) * (b as i128);
    let q: i128 = tdiv_i128(p, d as i128);
    if q > (FP_MAX as i128) {
        FP_MAX
    } else if q < -(FP_MAX as i128) {
        -FP_MAX
    } else {
        q as i64
    }
}

/// Saturating addition.
pub fn fadd(a: i64, b: i64) -> (r: i64)
    requires
        in_fp(a as int),
        in_fp(b as int),
    ensures
        r as int == sat(a + b),
        in_fp(r as int),
{
    let s: i64 = a + b;
    if s > FP_MAX {
        FP_MAX
    } else if s < -FP_MAX {
        -FP_MAX
    } else {
        s
    }
}

/// Saturating subtraction.
pub fn fsub(a: i64, b: i64) -> (r: i64)
    requires
        in_fp(a as int),
        in_fp(b as int),
    ensures
        r as int == sat(a - b),
        in_fp(r as int),
{
    let s: i64 = a - b;
    if s > FP_MAX {
        FP_MAX
    } else if s < -FP_MAX {
        -FP_MAX
    } else {
        s
    }
}

/// Exact negation (safe inside the saturation band).
pub fn fneg(a: i64) -> (r: i64)
    requires
        in_fp(a as int),
    ensures
        r as int == -(a as int),
        in_fp(r as int),
{
    -a
}

/// Magnitude (safe inside the saturation band).
pub fn fmag(a: i64) -> (r: i64)
    requires
        in_fp(a as int),
    ensures
        r as int == mag(a as int),
        in_fp(r as int),
{
    if a < 0 {
        -a
    } else {
        a
    }
}

/// Sign-preserving clamp into `[-m, m]`.
pub fn fclamp(v: i64, m: i64) -> (r: i64)
    requires
        in_fp(v as int),
        0 <= m,
        in_fp(m as int),
    ensures
        r as int == clamp_s(v as int, m as int),
        in_fp(r as int),
{
    if v > m {
        m
    } else if v < -m {
        -m
    } else {
        v
    }
}

/// An angle reduced into `[-PI_FP, PI_FP]`: subtract the whole turns
/// (quotient toward zero), then fold the leftover half turn over.
pub open spec fn wrap_pi_s(a: int) -> int {
    let r: int = a - TWO_PI_FP * tdiv(a, TWO_PI_FP as int);
    if r > PI_FP {
        r - TWO_PI_FP
    } else if r < -PI_FP {
        r + TWO_PI_FP
    } else {
        r
    }
}

/// Reduce an angle into `[-PI_FP, PI_FP]`.
pub fn wrap_pi(a: i64) -> (r: i64)
    requires
        in_fp(a as int),
    ensures
        r as int == wrap_pi_s(a as int),
        -PI_FP <= r <= PI_FP,
{
    let q: i64 = if a >= 0 {
        a / TWO_PI_FP
    } else {
        -((-a) / TWO_PI_FP)
    };
    proof {
        assert(q == tdiv(a as int, TWO_PI_FP as int));
        lemma_fundamental_div_mod(mag(a as int), TWO_PI_FP as int);
    }
    let rem: i64 = a - q * TWO_PI_FP;
    if rem > PI_FP {
        rem - TWO_PI_FP
    } else if rem < -PI_FP {
        rem + TWO_PI_FP
    } else {
        rem
    }
}

/// Sign and magnitude of a truncated quotient by a positive divisor.
pub proof fn lemma_tdiv_signs(a: int, b: int)
    requires
        b > 0,
    ensures
        mag(tdiv(a, b)) <= mag(a),
        a >= 0 ==> tdiv(a, b) >= 0,
        a <= 0 ==> tdiv(a, b) <= 0,
{
    vstd::arithmetic::div_mod::lemma_div_pos_is_pos(mag(a), b);
    vstd::arithmetic::div_mod::lemma_div_nonincreasing(mag(a), b);
}

/// A ratio of `a` to `b` with `0 <= a <= b` lands in `[0, FP_ONE]` once
/// rescaled by one fixed-point unit.
pub proof fn lemma_tdiv_ratio_unit(a: int, b: int)
    requires
        0 <= a <= b,
        0 < b,
    ensures
        0 <= tdiv(a * FP_ONE, b) <= FP_ONE,
{
    vstd::arithmetic::mul::lemma_mul_inequality(a, b, FP_ONE as int);
    vstd::arithmetic::div_mod::lemma_div_pos_is_pos(a * FP_ONE, b);
    vstd::arithmetic::div_mod::lemma_div_is_ordered(a * FP_ONE, b * FP_ONE, b);
    vstd::arithmetic::div_mod::lemma_div_multiples_vanish(FP_ONE as int, b);
    assert(b * FP_ONE == FP_ONE * b) by (nonlinear_arith);
    assert(mag(a * FP_ONE) == a * FP_ONE) by (nonlinear_arith)
        requires
            a >= 0,
            FP_ONE as int > 0,
    ;
}

/// Upper end of the square-root search range (2^62); its square bounds the
/// admissible radicands.
pub const ISQRT_HI: u128 = 4611686018427387904;

/// Whether `r` is the integer square root of `n`.
pub open spec fn is_isqrt(n: int, r: int) -> bool {
    0 <= r && r * r <= n && n < (r + 1) * (r + 1)
}

/// The integer square root, as the unique root the predicate admits.
pub closed spec fn isqrt_s(n: int) -> int {
    choose|r: int| is_isqrt(n, r)
}

/// Every nonnegative integer has an integer square root, and `isqrt_s` is it.
pub proof fn lemma_isqrt_exists(n: int)
    requires
        n >= 0,
    ensures
        is_isqrt(n, isqrt_s(n)),
    decreases n,
{
    if n == 0 {
        assert(is_isqrt(0, 0));
    } else {
        lemma_isqrt_exists(n - 1);
        let r = isqrt_s(n - 1);
        if n < (r + 1) * (r + 1) {
            assert(is_isqrt(n, r));
        } else {
            assert(n == (r + 1) * (r + 1));
            assert((r + 1) * (r + 1) < (r + 2) * (r + 2)) by (nonlinear_arith)
                requires
                    r >= 0,
            ;
            assert(is_isqrt(n, r + 1));
        }
    }
}

/// Two integer square roots of the same radicand agree.
pub proof fn lemma_isqrt_unique(n: int, r1: int, r2: int)
    requires
        is_isqrt(n, r1),
        is_isqrt(n, r2),
    ensures
        r1 == r2,
{
    assert(r1 == r2) by (nonlinear_arith)
        requires
            0 <= r1,
            0 <= r2,
            r1 * r1 <= n,
            n < (r1 + 1) * (r1 + 1),
            r2 * r2 <= n,
            n < (r2 + 1) * (r2 + 1),
    ;
}

/// Integer square root by bisection.
pub fn isqrt(n: u128) -> (r: u64)
    requires
        (n as int) < (ISQRT_HI as int) * (ISQRT_HI as int),
    ensures
        r as int == isqrt_s(n as int),
        is_isqrt(n as int, r as int),
{
    let mut lo: u128 = 0;
    let mut hi: u128 = ISQRT_HI;
    while lo + 1 < hi
        invariant
            lo < hi <= ISQRT_HI,
            (lo as int) * (lo as int) <= n as int,
            (n as int) < (hi as int) * (hi as int),
        decreases hi - lo,
    {
        let mid: u128 = lo + (hi - lo) / 2;
        proof {
            assert((mid as int) * (mid as int) < 340282366920938463463374607431768211455) by (nonlinear_arith)
                requires
                    0 <= mid as int <= 4611686018427387904,
            ;
        }
        if mid * mid <= n {
            lo = mid;
        } else {
            hi = mid;
        }
    }
    proof {
        assert((hi as int) * (hi as int) <= ((lo + 1) as int) * ((lo + 1) as int)) by (nonlinear_arith)
            requires
                0 <= hi as int <= (lo + 1) as int,
        ;
        assert(is_isqrt(n as int, lo as int));
        lemma_isqrt_exists(n as int);
        lemma_isqrt_unique(n as int, lo as int, isqrt_s(n as int));
    }
    lo as u64
}

} // verus!
