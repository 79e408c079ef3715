//! The closed obstacle set — gravity-well planets and line barriers — and
//! the two per-obstacle passes: the gravity perturbation and the collision
//! correction.

use vstd::prelude::*;

verus! {

use crate::fp::{
    FP_ONE, FP_MAX, in_fp, sat, tdiv, fdiv_s, isqrt_s, isqrt, muldiv, fadd, fsub, fneg,
    sat_i128, tdiv_i128, lemma_mul_bound, lemma_tdiv_mag,
};
use crate::vec2::{Vec2, wf_v2, rotate_x_s, rotate_y_s};
use crate::trig::{atan2_s, tanh_s, atan2_fp, tanh_fp};
use crate::math::{deg_to_rad_s, degrees_to_radians};
use crate::state::{Craft, State, craft_of, wf_state};

/// The craft's collision radius, ten world units.
pub const CRAFT_RADIUS_FP: i64 = 10 * FP_ONE;

/// A world obstacle: a circular gravity-well planet, or an infinitely thin
/// static line barrier with no gravity of its own.
#[derive(Clone, Copy, PartialEq, Eq, Structural, Debug)]
pub enum Obstacle {
    Planet { position: Vec2, radius: i64, mass: i64 },
    Line { start_pos: Vec2, end_pos: Vec2 },
}

/// Obstacle well-formedness: geometry saturated, radius and mass nonnegative.
pub open spec fn wf_obstacle(ob: Obstacle) -> bool {
    match ob {
        Obstacle::Planet { position, radius, mass } => wf_v2(position) && 0 <= radius
            && in_fp(radius as int) && 0 <= mass && in_fp(mass as int),
        Obstacle::Line { start_pos, end_pos } => wf_v2(start_pos) && wf_v2(end_pos),
    }
}

/// Whether the ratio `n / d` lies in `[0, 1]`.
pub open spec fn unit_ratio(n: int, d: int) -> bool {
    if d > 0 {
        0 <= n <= d
    } else {
        d <= n <= 0
    }
}

/// Where the segment `a`–`b` meets the segment `p`–`q`, if anywhere:
/// parallel (or degenerate) pairs report nothing, otherwise the crossing
/// point of the two carrier lines is taken when both parameters lie in
/// `[0, 1]`.
pub open spec fn seg_intersect_s(
    ax: int, ay: int, bx: int, by: int, px: int, py: int, qx: int, qy: int,
) -> Option<(int, int)> {
    let rx: int = bx - ax;
    let ry: int = by - ay;
    let sx: int = qx - px;
    let sy: int = qy - py;
    let d: int = rx * sy - ry * sx;
    if d == 0 {
        None
    } else {
        let ex: int = px - ax;
        let ey: int = py - ay;
        let tn: int = ex * sy - ey * sx;
        let un: int = ex * ry - ey * rx;
        if unit_ratio(tn, d) && unit_ratio(un, d) {
            Some((sat(ax + tdiv(tn * rx, d)), sat(ay + tdiv(tn * ry, d))))
        } else {
            None
        }
    }
}

/// Intersection point of two segments, or `None` when they do not cross.
pub fn segment_intersection(a: Vec2, b: Vec2, p: Vec2, q: Vec2) -> (r: Option<Vec2>)
    requires
        wf_v2(a),
        wf_v2(b),
        wf_v2(p),
        wf_v2(q),
    ensures
        match r {
            Some(v) => seg_intersect_s(
                a.x as int, a.y as int, b.x as int, b.y as int,
                p.x as int, p.y as int, q.x as int, q.y as int,
            ) == Some((v.x as int, v.y as int)) && wf_v2(v),
            None => seg_intersect_s(
                a.x as int, a.y as int, b.x as int, b.y as int,
                p.x as int, p.y as int, q.x as int, q.y as int,
            ) is None,
        },
{
    let x1: i128 = a.x as i128;
    let y1: i128 = a.y as i128;
    let rx: i128 = (b.x as i128) - x1;
    let ry: i128 = (b.y as i128) - y1;
    let sx: i128 = (q.x as i128) - (p.x as i128);
    let sy: i128 = (q.y as i128) - (p.y as i128);
    proof {
        lemma_mul_bound(rx as int, sy as int, 2199023255552, 2199023255552);
        lemma_mul_bound(ry as int, sx as int, 2199023255552, 2199023255552);
    }
    let d: i128 = rx * sy - ry * sx;
    if d == 0 {
        return None;
    }
    let ex: i128 = (p.x as i128) - x1;
    let ey: i128 = (p.y as i128) - y1;
    proof {
        lemma_mul_bound(ex as int, sy as int, 2199023255552, 2199023255552);
        lemma_mul_bound(ey as int, sx as int, 2199023255552, 2199023255552);
        lemma_mul_bound(ex as int, ry as int, 2199023255552, 2199023255552);
        lemma_mul_bound(ey as int, rx as int, 2199023255552, 2199023255552);
    }
    let tn: i128 = ex * sy - ey * sx;
    let un: i128 = ex * ry - ey * rx;
    let ok_t: bool = if d > 0 {
        0 <= tn && tn <= d
    } else {
        d <= tn && tn <= 0
    };
    let ok_u: bool = if d > 0 {
        0 <= un && un <= d
    } else {
        d <= un && un <= 0
    };
    if ok_t && ok_u {
        proof {
            lemma_mul_bound(tn as int, rx as int, 9671406556917033397649408, 2199023255552);
            lemma_mul_bound(tn as int, ry as int, 9671406556917033397649408, 2199023255552);
            lemma_tdiv_mag(tn as int * rx as int, d as int);
            lemma_tdiv_mag(tn as int * ry as int, d as int);
        }
        let ox: i64 = sat_i128(x1 + tdiv_i128(tn * rx, d));
        let oy: i64 = sat_i128(y1 + tdiv_i128(tn * ry, d));
        Some(Vec2 { x: ox, y: oy })
    } else {
        None
    }
}

/// The velocity perturbation one obstacle imposes: planets inside their
/// influence radius pull the craft along the stylized perpendicular
/// direction; everything else — barriers, distant planets, and the
/// zero-distance degeneracy — leaves the craft untouched.
pub open spec fn gravity_s(c: Craft, ob: Obstacle) -> Craft {
    match ob {
        Obstacle::Planet { position, radius, mass } => {
            let dx: int = sat(c.pos_x - position.x);
            let dy: int = sat(c.pos_y - position.y);
            let dsq: int = dx * dx + dy * dy;
            let rinf: int = sat(tdiv(sat(mass + FP_ONE) * 200, 1));
            if dsq == 0 || dsq > rinf * rinf {
                c
            } else {
                let angle: int = atan2_s(dy, dx);
                let g1x: int = rotate_x_s(0, mass as int, angle);
                let g1y: int = rotate_y_s(0, mass as int, angle);
                let turn: int = deg_to_rad_s(90 * FP_ONE);
                let g2x: int = rotate_x_s(g1x, g1y, turn);
                let g2y: int = rotate_y_s(g1x, g1y, turn);
                let root: int = isqrt_s(isqrt_s(dsq) * FP_ONE);
                let gx: int = fdiv_s(g2x, root);
                let gy: int = fdiv_s(g2y, root);
                Craft {
                    vel_x: sat(c.vel_x - gx),
                    vel_y: sat(c.vel_y - gy),
                    pos_x: c.pos_x,
                    pos_y: c.pos_y,
                    rot: c.rot,
                    rot_vel: c.rot_vel,
                }
            }
        },
        Obstacle::Line { .. } => c,
    }
}

/// Apply one obstacle's gravity to the craft.
#[verifier::rlimit(80)]
pub fn gravity_obstacle(obstacle: &Obstacle, state: &mut State)
    requires
        wf_state(*old(state)),
        wf_obstacle(*obstacle),
    ensures
        craft_of(*final(state)) == gravity_s(craft_of(*old(state)), *obstacle),
        final(state).obstacles == old(state).obstacles,
        final(state).ship_mov_pressed == old(state).ship_mov_pressed,
        wf_state(*final(state)),
{
    match *obstacle {
        Obstacle::Planet { position, radius: _, mass } => {
            let dx: i64 = fsub(state.ship_pos.x, position.x);
            let dy: i64 = fsub(state.ship_pos.y, position.y);
            proof {
                lemma_mul_bound(dx as int, dx as int, 1099511627776, 1099511627776);
                lemma_mul_bound(dy as int, dy as int, 1099511627776, 1099511627776);
                assert((dx as int) * (dx as int) >= 0) by (nonlinear_arith);
                assert((dy as int) * (dy as int) >= 0) by (nonlinear_arith);
            }
            let dist_sq: i128 = (dx as i128) * (dx as i128) + (dy as i128) * (dy as i128);
            let rinf: i64 = muldiv(fadd(mass, FP_ONE), 200, 1);
            proof {
                lemma_mul_bound(rinf as int, rinf as int, 1099511627776, 1099511627776);
            }
            if dist_sq == 0 || dist_sq > (rinf as i128) * (rinf as i128) {
                return;
            }
            let dist_u: u64 = isqrt(dist_sq as u128);
            proof {
                assert(dist_u as int <= 4398046511104) by (nonlinear_arith)
                    requires
                        0 <= dist_u as int,
                        (dist_u as int) * (dist_u as int) <= 2417851639229258349412352,
                ;
                assert(dist_u >= 1);
            }
            let root_u: u64 = isqrt((dist_u as u128) * (FP_ONE as u128));
            proof {
                assert(root_u as int <= 536870912) by (nonlinear_arith)
                    requires
                        0 <= root_u as int,
                        (root_u as int) * (root_u as int) <= 288230376151711744,
                ;
                assert(root_u >= 1);
            }
            let root: i64 = root_u as i64;
            let angle: i64 = atan2_fp(dy, dx);
            let g1: Vec2 = Vec2 { x: 0, y: mass }.rotated(angle);
            let g2: Vec2 = g1.rotated(degrees_to_radians(90 * FP_ONE));
            let gx: i64 = muldiv(g2.x, FP_ONE, root);
            let gy: i64 = muldiv(g2.y, FP_ONE, root);
            state.ship_vel = Vec2 { x: fsub(state.ship_vel.x, gx), y: fsub(state.ship_vel.y, gy) };
        },
        Obstacle::Line { .. } => {},
    }
}

/// Whether an obstacle triggers a collision correction against the craft's
/// current motion: circle overlap for planets, segment crossing of the
/// upcoming move for barriers.
pub open spec fn collide_triggers(c: Craft, ob: Obstacle) -> bool {
    match ob {
        Obstacle::Planet { position, radius, mass } => {
            let dx: int = sat(position.x - c.pos_x);
            let dy: int = sat(position.y - c.pos_y);
            let reach: int = sat(radius + CRAFT_RADIUS_FP);
            dx * dx + dy * dy <= reach * reach
        },
        Obstacle::Line { start_pos, end_pos } => {
            let after_x: int = sat(c.pos_x - c.vel_x);
            let after_y: int = sat(c.pos_y - c.vel_y);
            seg_intersect_s(
                start_pos.x as int, start_pos.y as int, end_pos.x as int, end_pos.y as int,
                c.pos_x, c.pos_y, after_x, after_y,
            ) is Some
        },
    }
}

/// The collision correction one obstacle imposes.  An overlapped planet
/// rotates the velocity by the negated hyperbolic tangent of the angle
/// toward its center and re-applies the integration once; a crossed barrier
/// rotates the velocity by the slope toward the crossing point and a further
/// quarter turn, then backs the position off by the result.  A vertical
/// slope saturates.  Obstacles that do not trigger leave the craft as it is.
pub open spec fn collide_s(c: Craft, ob: Obstacle) -> Craft {
    if !collide_triggers(c, ob) {
        c
    } else {
        match ob {
            Obstacle::Planet { position, radius, mass } => {
                let angle: int = atan2_s(sat(position.y - c.pos_y), sat(position.x - c.pos_x));
                let t: int = tanh_s(angle);
                let vx: int = rotate_x_s(c.vel_x, c.vel_y, -t);
                let vy: int = rotate_y_s(c.vel_x, c.vel_y, -t);
                Craft {
                    vel_x: vx,
                    vel_y: vy,
                    pos_x: sat(c.pos_x - vx),
                    pos_y: sat(c.pos_y - vy),
                    rot: c.rot,
                    rot_vel: c.rot_vel,
                }
            },
            Obstacle::Line { start_pos, end_pos } => {
                let after_x: int = sat(c.pos_x - c.vel_x);
                let after_y: int = sat(c.pos_y - c.vel_y);
                let hit: (int, int) = seg_intersect_s(
                    start_pos.x as int, start_pos.y as int, end_pos.x as int, end_pos.y as int,
                    c.pos_x, c.pos_y, after_x, after_y,
                )->Some_0;
                let dxp: int = sat(hit.0 - c.pos_x);
                let dyp: int = sat(hit.1 - c.pos_y);
                let slope: int = if dxp == 0 {
                    if dyp >= 0 {
                        FP_MAX as int
                    } else {
                        -FP_MAX as int
                    }
                } else {
                    fdiv_s(dyp, dxp)
                };
                let wx: int = rotate_x_s(c.vel_x, c.vel_y, slope);
                let wy: int = rotate_y_s(c.vel_x, c.vel_y, slope);
                let turn: int = deg_to_rad_s(90 * FP_ONE);
                let vx: int = rotate_x_s(wx, wy, turn);
                let vy: int = rotate_y_s(wx, wy, turn);
                Craft {
                    vel_x: vx,
                    vel_y: vy,
                    pos_x: sat(c.pos_x - vx),
                    pos_y: sat(c.pos_y - vy),
                    rot: c.rot,
                    rot_vel: c.rot_vel,
                }
            },
        }
    }
}

/// Apply one obstacle's collision correction to the craft.
#[verifier::rlimit(80)]
pub fn collide_obstacle(obstacle: &Obstacle, state: &mut State)
    requires
        wf_state(*old(state)),
        wf_obstacle(*obstacle),
    ensures
        craft_of(*final(state)) == collide_s(craft_of(*old(state)), *obstacle),
        final(state).obstacles == old(state).obstacles,
        final(state).ship_mov_pressed == old(state).ship_mov_pressed,
        wf_state(*final(state)),
{
    match *obstacle {
        Obstacle::Planet { position, radius, mass: _ } => {
            let dx: i64 = fsub(position.x, state.ship_pos.x);
            let dy: i64 = fsub(position.y, state.ship_pos.y);
            let reach: i64 = fadd(radius, CRAFT_RADIUS_FP);
            proof {
                lemma_mul_bound(dx as int, dx as int, 1099511627776, 1099511627776);
                lemma_mul_bound(dy as int, dy as int, 1099511627776, 1099511627776);
                lemma_mul_bound(reach as int, reach as int, 1099511627776, 1099511627776);
            }
            let dist_sq: i128 = (dx as i128) * (dx as i128) + (dy as i128) * (dy as i128);
            if dist_sq <= (reach as i128) * (reach as i128) {
                let angle: i64 = atan2_fp(dy, dx);
                let t: i64 = tanh_fp(angle);
                let new_vel: Vec2 = state.ship_vel.rotated(fneg(t));
                state.ship_vel = new_vel;
                state.ship_pos = Vec2 {
                    x: fsub(state.ship_pos.x, new_vel.x),
                    y: fsub(state.ship_pos.y, new_vel.y),
                };
            }
        },
        Obstacle::Line { start_pos, end_pos } => {
            let after: Vec2 = Vec2 {
                x: fsub(state.ship_pos.x, state.ship_vel.x),
                y: fsub(state.ship_pos.y, state.ship_vel.y),
            };
            let hit: Option<Vec2> = segment_intersection(start_pos, end_pos, state.ship_pos, after);
            if let Some(point) = hit {
                let dxp: i64 = fsub(point.x, state.ship_pos.x);
                let dyp: i64 = fsub(point.y, state.ship_pos.y);
                let slope: i64 = if dxp == 0 {
                    if dyp >= 0 {
                        FP_MAX
                    } else {
                        -FP_MAX
                    }
                } else {
                    muldiv(dyp, FP_ONE, dxp)
                };
                let w: Vec2 = state.ship_vel.rotated(slope);
                let new_vel: Vec2 = w.rotated(degrees_to_radians(90 * FP_ONE));
                state.ship_vel = new_vel;
                state.ship_pos = Vec2 {
                    x: fsub(state.ship_pos.x, new_vel.x),
                    y: fsub(state.ship_pos.y, new_vel.y),
                };
            }
        },
    }
}

} // verus!
