//! The fixed-point 2D vector the craft and the obstacles are measured in.

use vstd::prelude::*;

verus! {

use crate::fp::{FP_ONE, in_fp, sat, fmul_s, muldiv, fadd, fsub};
use crate::trig::{sin_s, cos_s, sin_fp, cos_fp};

/// A 2D vector with fixed-point components.
#[derive(Clone, Copy, PartialEq, Eq, Structural, Debug)]
pub struct Vec2 {
    pub x: i64,
    pub y: i64,
}

/// Both components inside the saturation band.
pub open spec fn wf_v2(v: Vec2) -> bool {
    in_fp(v.x as int) && in_fp(v.y as int)
}

/// The first component of `(vx, vy)` rotated by `angle`.
pub open spec fn rotate_x_s(vx: int, vy: int, angle: int) -> int {
    sat(fmul_s(vx, cos_s(angle)) - fmul_s(vy, sin_s(angle)))
}

/// The second component of `(vx, vy)` rotated by `angle`.
pub open spec fn rotate_y_s(vx: int, vy: int, angle: int) -> int {
    sat(fmul_s(vx, sin_s(angle)) + fmul_s(vy, cos_s(angle)))
}

impl Vec2 {
    /// Build a vector from raw fixed-point components.
    pub fn new(x: i64, y: i64) -> (v: Vec2)
        ensures
            v.x == x,
            v.y == y,
    {
        Vec2 { x, y }
    }

    /// This vector rotated counterclockwise by `angle` fixed-point radians.
    pub fn rotated(self, angle: i64) -> (r: Vec2)
        requires
            wf_v2(self),
            in_fp(angle as int),
        ensures
            r.x as int == rotate_x_s(self.x as int, self.y as int, angle as int),
            r.y as int == rotate_y_s(self.x as int, self.y as int, angle as int),
            wf_v2(r),
    {
        let c: i64 = cos_fp(angle);
        let s: i64 = sin_fp(angle);
        let rx: i64 = fsub(muldiv(self.x, c, FP_ONE), muldiv(self.y, s, FP_ONE));
        let ry: i64 = fadd(muldiv(self.x, s, FP_ONE), muldiv(self.y, c, FP_ONE));
        Vec2 { x: rx, y: ry }
    }
}

} // verus!
