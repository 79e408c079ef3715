//! Fixed-point circular and hyperbolic functions.
//!
//! Each executable function computes exactly the polynomial its spec mirror
//! states; the mirrors are the model the simulation contracts are phrased
//! over.  Sine and cosine reduce any angle into one turn first, so stored
//! rotations may be kept reduced without changing a single result.

use vstd::prelude::*;

verus! {

use crate::fp::{
    FP_ONE, PI_FP, HALF_PI_FP, mag, in_fp, sat, tdiv, fmul_s, clamp_s, wrap_pi_s, muldiv,
    fadd, fsub, fneg, fmag, fclamp, wrap_pi, lemma_tdiv_ratio_unit, lemma_tdiv_signs,
};

/// An eighth of a turn in fixed-point radians.
pub const QUARTER_PI_FP: i64 = 51472;

/// First arctangent correction coefficient (0.2447 in fixed point).
pub const ATAN_C1: i64 = 16037;

/// Second arctangent correction coefficient (0.0663 in fixed point).
pub const ATAN_C2: i64 = 4345;

/// 27 in fixed point, the constant of the hyperbolic-tangent approximation.
pub const TANH_K: i64 = 1769472;

/// Odd-polynomial sine approximation on the folded quarter-wave range.
pub open spec fn sin_poly_s(x: int) -> int {
    let x2: int = fmul_s(x, x);
    let x3: int = fmul_s(x2, x);
    let x5: int = fmul_s(x3, x2);
    let x7: int = fmul_s(x5, x2);
    let x9: int = fmul_s(x7, x2);
    let s1: int = sat(x - sat(tdiv(x3, 6)));
    let s2: int = sat(s1 + sat(tdiv(x5, 120)));
    let s3: int = sat(s2 - sat(tdiv(x7, 5040)));
    let s4: int = sat(s3 + sat(tdiv(x9, 362880)));
    clamp_s(s4, FP_ONE as int)
}

/// Fold a reduced angle onto the quarter-wave the polynomial covers.
pub open spec fn fold_half_s(w: int) -> int {
    if w > HALF_PI_FP {
        sat(PI_FP - w)
    } else if w < -HALF_PI_FP {
        sat(-PI_FP - w)
    } else {
        w
    }
}

/// Fixed-point sine of an angle in fixed-point radians.
pub open spec fn sin_s(a: int) -> int {
    sin_poly_s(fold_half_s(wrap_pi_s(a)))
}

/// Fixed-point cosine, as the sine a quarter turn ahead.
pub open spec fn cos_s(a: int) -> int {
    sin_s(sat(a + HALF_PI_FP))
}

fn sin_poly(x: i64) -> (r: i64)
    requires
        in_fp(x as int),
    ensures
        r as int == sin_poly_s(x as int),
        -FP_ONE <= r <= FP_ONE,
{
    let x2: i64 = muldiv(x, x, FP_ONE);
    let x3: i64 = muldiv(x2, x, FP_ONE);
    let x5: i64 = muldiv(x3, x2, FP_ONE);
    let x7: i64 = muldiv(x5, x2, FP_ONE);
    let x9: i64 = muldiv(x7, x2, FP_ONE);
    let s1: i64 = fsub(x, muldiv(x3, 1, 6));
    let s2: i64 = fadd(s1, muldiv(x5, 1, 120));
    let s3: i64 = fsub(s2, muldiv(x7, 1, 5040));
    let s4: i64 = fadd(s3, muldiv(x9, 1, 362880));
    fclamp(s4, FP_ONE)
}

/// Fixed-point sine.
pub fn sin_fp(a: i64) -> (r: i64)
    requires
        in_fp(a as int),
    ensures
        r as int == sin_s(a as int),
        -FP_ONE <= r <= FP_ONE,
{
    let w: i64 = wrap_pi(a);
    let x: i64 = if w > HALF_PI_FP {
        fsub(PI_FP, w)
    } else if w < -HALF_PI_FP {
        fsub(-PI_FP, w)
    } else {
        w
    };
    sin_poly(x)
}

/// Fixed-point cosine.
pub fn cos_fp(a: i64) -> (r: i64)
    requires
        in_fp(a as int),
    ensures
        r as int == cos_s(a as int),
        -FP_ONE <= r <= FP_ONE,
{
    sin_fp(fadd(a, HALF_PI_FP))
}

/// Quarter-circle arctangent approximation on `[0, FP_ONE]`.
pub open spec fn atan_unit_s(z: int) -> int {
    let t1: int = fmul_s(QUARTER_PI_FP as int, z);
    let u: int = sat(FP_ONE - z);
    let t2: int = fmul_s(z, u);
    let t3: int = sat(ATAN_C1 + fmul_s(ATAN_C2 as int, z));
    sat(t1 + fmul_s(t2, t3))
}

fn atan_unit(z: i64) -> (r: i64)
    requires
        0 <= z <= FP_ONE,
    ensures
        r as int == atan_unit_s(z as int),
        in_fp(r as int),
{
    let t1: i64 = muldiv(QUARTER_PI_FP, z, FP_ONE);
    let u: i64 = fsub(FP_ONE, z);
    let t2: i64 = muldiv(z, u, FP_ONE);
    let t3: i64 = fadd(ATAN_C1, muldiv(ATAN_C2, z, FP_ONE));
    fadd(t1, muldiv(t2, t3, FP_ONE))
}

/// The angle of the vector `(x, y)`, in `[-PI_FP, PI_FP]`, by octant
/// reduction onto the quarter-circle approximation; the origin maps to zero.
pub open spec fn atan2_s(y: int, x: int) -> int {
    if x == 0 && y == 0 {
        0
    } else {
        let ax: int = mag(x);
        let ay: int = mag(y);
        let base: int = if ay <= ax {
            atan_unit_s(sat(tdiv(ay * FP_ONE, ax)))
        } else {
            sat(HALF_PI_FP - atan_unit_s(sat(tdiv(ax * FP_ONE, ay))))
        };
        let q: int = if x >= 0 {
            base
        } else {
            sat(PI_FP - base)
        };
        if y >= 0 {
            q
        } else {
            -q
        }
    }
}

/// Fixed-point two-argument arctangent.
pub fn atan2_fp(y: i64, x: i64) -> (r: i64)
    requires
        in_fp(y as int),
        in_fp(x as int),
    ensures
        r as int == atan2_s(y as int, x as int),
        in_fp(r as int),
{
    if x == 0 && y == 0 {
        return 0;
    }
    let ax: i64 = fmag(x);
    let ay: i64 = fmag(y);
    let base: i64 = if ay <= ax {
        assert(ax > 0);
        let z: i64 = muldiv(ay, FP_ONE, ax);
        proof {
            lemma_tdiv_ratio_unit(ay as int, ax as int);
        }
        atan_unit(z)
    } else {
        assert(ay > 0);
        let z: i64 = muldiv(ax, FP_ONE, ay);
        proof {
            lemma_tdiv_ratio_unit(ax as int, ay as int);
        }
        fsub(HALF_PI_FP, atan_unit(z))
    };
    let q: i64 = if x >= 0 {
        base
    } else {
        fsub(PI_FP, base)
    };
    if y >= 0 {
        q
    } else {
        fneg(q)
    }
}

/// Rational hyperbolic-tangent approximation, clamped into `[-1, 1]`.
pub open spec fn tanh_s(x: int) -> int {
    let x2: int = fmul_s(x, x);
    let num: int = fmul_s(x, sat(TANH_K + x2));
    let den: int = sat(TANH_K + sat(tdiv(x2 * 9, 1)));
    clamp_s(sat(tdiv(num * FP_ONE, den)), FP_ONE as int)
}

/// Fixed-point hyperbolic tangent.
pub fn tanh_fp(x: i64) -> (r: i64)
    requires
        in_fp(x as int),
    ensures
        r as int == tanh_s(x as int),
        -FP_ONE <= r <= FP_ONE,
{
    let x2: i64 = muldiv(x, x, FP_ONE);
    proof {
        assert((x as int) * (x as int) >= 0) by (nonlinear_arith);
        lemma_tdiv_signs((x as int) * (x as int), FP_ONE as int);
    }
    let num: i64 = muldiv(x, fadd(TANH_K, x2), FP_ONE);
    let nine: i64 = muldiv(x2, 9, 1);
    proof {
        assert((x2 as int) * 9 >= 0) by (nonlinear_arith)
            requires
                x2 as int >= 0,
        ;
        lemma_tdiv_signs((x2 as int) * 9, 1);
    }
    let den: i64 = fadd(TANH_K, nine);
    assert(den > 0);
    fclamp(muldiv(num, FP_ONE, den), FP_ONE)
}

} // verus!
