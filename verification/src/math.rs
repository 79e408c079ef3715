//! Angle-unit conversions and small vector helpers.

use vstd::prelude::*;

verus! {

use crate::fp::{FP_ONE, PI_FP, in_fp, sat, tdiv, muldiv};
use crate::vec2::{Vec2, wf_v2};

/// Degrees to radians, both in fixed point.
pub open spec fn deg_to_rad_s(degrees: int) -> int {
    sat(tdiv(degrees * PI_FP, 180 * FP_ONE))
}

/// Radians to degrees, both in fixed point.
pub open spec fn rad_to_deg_s(radians: int) -> int {
    sat(tdiv(radians * (180 * FP_ONE), PI_FP as int))
}

/// Convert fixed-point degrees to fixed-point radians.
pub fn degrees_to_radians(degrees: i64) -> (r: i64)
    ensures
        r as int == deg_to_rad_s(degrees as int),
        in_fp(r as int),
{
    muldiv(degrees, PI_FP, 180 * FP_ONE)
}

/// Convert fixed-point radians to fixed-point degrees.
pub fn radians_to_degrees(radians: i64) -> (r: i64)
    ensures
        r as int == rad_to_deg_s(radians as int),
        in_fp(r as int),
{
    muldiv(radians, 180 * FP_ONE, PI_FP)
}

/// The mean of a vector's two components.
pub fn avg_vec2(v: Vec2) -> (r: i64)
    requires
        wf_v2(v),
    ensures
        r as int == sat(tdiv(v.x + v.y, 2)),
        in_fp(r as int),
{
    let s: i64 = v.x + v.y;
    muldiv(s, 1, 2)
}

} // verus!
