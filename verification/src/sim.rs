//! The per-tick simulation step: input-driven thrust and rotation, velocity
//! and position integration, boundary reflection, then the gravity and
//! collision passes over the obstacle collection in order.

use vstd::prelude::*;

verus! {

use crate::fp::{
    FP_ONE, mag, sat, tdiv, fmul_s, clamp_s, wrap_pi_s, muldiv, fadd, fsub, fneg, fmag,
    fclamp, wrap_pi, lemma_tdiv_scale_down,
};
use crate::vec2::{Vec2, rotate_x_s, rotate_y_s};
use crate::trig::{sin_s, cos_s, sin_fp, cos_fp};
use crate::obstacles::{Obstacle, gravity_s, collide_s, gravity_obstacle, collide_obstacle};
use crate::state::{Craft, State, craft_of, wf_state};

/// Map width in fixed point.
pub const MAP_WIDTH_FP: i64 = 8192 * FP_ONE;

/// Map height in fixed point.
pub const MAP_HEIGHT_FP: i64 = 8192 * FP_ONE;

/// The craft's half-extent: positions are clamped this far inside the map.
pub const EDGE_FP: i64 = 10 * FP_ONE;

/// Per-component velocity clamp, ten world units per tick.
pub const VEL_MAX_FP: i64 = 10 * FP_ONE;

/// Rotational velocity clamp, a quarter fixed-point radian per tick.
pub const ROT_VEL_MAX_FP: i64 = 16384;

/// Rotational input step per tick (0.02125 in fixed point).
pub const ROT_STEP_FP: i64 = 1393;

/// Forward-thrust impulse per tick, half a world unit.
pub const THRUST_FP: i64 = 32768;

/// Velocity damping ratio: each tick the velocity is scaled by 2000/2001,
/// that is, divided by 1.0005.
pub const VEL_DAMP_NUM: i64 = 2000;

/// Denominator of the velocity damping ratio.
pub const VEL_DAMP_DEN: i64 = 2001;

/// Rotational damping ratio: each tick the rotational velocity is scaled by
/// 20/21, that is, divided by 1.05.
pub const ROT_DAMP_NUM: i64 = 20;

/// Denominator of the rotational damping ratio.
pub const ROT_DAMP_DEN: i64 = 21;

/// The discrete input intents one tick consumes.
#[derive(Clone, Copy, PartialEq, Eq, Structural, Debug)]
pub struct InputIntent {
    pub thrust: bool,
    pub rotate_left: bool,
    pub rotate_right: bool,
}

/// The craft velocity after the input stage: thrust impulse along the
/// current heading if held, then the per-component clamp, then damping.
pub open spec fn controls_vel_s(c: Craft, thrust: bool) -> (int, int) {
    let tx: int = if thrust {
        sat(c.vel_x + rotate_x_s(0, THRUST_FP as int, c.rot))
    } else {
        c.vel_x
    };
    let ty: int = if thrust {
        sat(c.vel_y + rotate_y_s(0, THRUST_FP as int, c.rot))
    } else {
        c.vel_y
    };
    let cx: int = clamp_s(tx, VEL_MAX_FP as int);
    let cy: int = clamp_s(ty, VEL_MAX_FP as int);
    (sat(tdiv(cx * VEL_DAMP_NUM, VEL_DAMP_DEN as int)), sat(
        tdiv(cy * VEL_DAMP_NUM, VEL_DAMP_DEN as int),
    ))
}

/// The rotational velocity after the input stage: steering steps, the
/// clamp, then damping.
pub open spec fn controls_rot_vel_s(rv: int, left: bool, right: bool) -> int {
    let r1: int = if left {
        sat(rv - ROT_STEP_FP)
    } else {
        rv
    };
    let r2: int = if right {
        sat(r1 + ROT_STEP_FP)
    } else {
        r1
    };
    sat(tdiv(clamp_s(r2, ROT_VEL_MAX_FP as int) * ROT_DAMP_NUM, ROT_DAMP_DEN as int))
}

/// The whole input stage.
pub open spec fn controls_s(c: Craft, input: InputIntent) -> Craft {
    Craft {
        vel_x: controls_vel_s(c, input.thrust).0,
        vel_y: controls_vel_s(c, input.thrust).1,
        pos_x: c.pos_x,
        pos_y: c.pos_y,
        rot: c.rot,
        rot_vel: controls_rot_vel_s(c.rot_vel, input.rotate_left, input.rotate_right),
    }
}

/// Apply the input stage to the session: thrust, clamps, damping, and the
/// thrust flag the rendering surface reads.
pub fn controls(state: &mut State, input: InputIntent)
    requires
        wf_state(*old(state)),
    ensures
        craft_of(*final(state)) == controls_s(craft_of(*old(state)), input),
        final(state).ship_mov_pressed == input.thrust,
        final(state).obstacles == old(state).obstacles,
        wf_state(*final(state)),
        -VEL_MAX_FP <= final(state).ship_vel.x <= VEL_MAX_FP,
        -VEL_MAX_FP <= final(state).ship_vel.y <= VEL_MAX_FP,
        -ROT_VEL_MAX_FP <= final(state).ship_rot_vel <= ROT_VEL_MAX_FP,
{
    if input.thrust {
        state.ship_mov_pressed = true;
        let tvec: Vec2 = Vec2 { x: 0, y: THRUST_FP }.rotated(state.ship_rot);
        state.ship_vel = Vec2 {
            x: fadd(state.ship_vel.x, tvec.x),
            y: fadd(state.ship_vel.y, tvec.y),
        };
    } else {
        state.ship_mov_pressed = false;
    }
    let cx: i64 = fclamp(state.ship_vel.x, VEL_MAX_FP);
    let cy: i64 = fclamp(state.ship_vel.y, VEL_MAX_FP);
    proof {
        lemma_tdiv_scale_down(cx as int, VEL_DAMP_NUM as int, VEL_DAMP_DEN as int);
        lemma_tdiv_scale_down(cy as int, VEL_DAMP_NUM as int, VEL_DAMP_DEN as int);
    }
    state.ship_vel = Vec2 {
        x: muldiv(cx, VEL_DAMP_NUM, VEL_DAMP_DEN),
        y: muldiv(cy, VEL_DAMP_NUM, VEL_DAMP_DEN),
    };
    if input.rotate_left {
        state.ship_rot_vel = fsub(state.ship_rot_vel, ROT_STEP_FP);
    }
    if input.rotate_right {
        state.ship_rot_vel = fadd(state.ship_rot_vel, ROT_STEP_FP);
    }
    let cr: i64 = fclamp(state.ship_rot_vel, ROT_VEL_MAX_FP);
    proof {
        lemma_tdiv_scale_down(cr as int, ROT_DAMP_NUM as int, ROT_DAMP_DEN as int);
    }
    state.ship_rot_vel = muldiv(cr, ROT_DAMP_NUM, ROT_DAMP_DEN);
}

/// Position integration: the velocity is a per-tick displacement that is
/// subtracted from the position — the engine's deliberate sign convention.
pub open spec fn integrate_s(c: Craft) -> Craft {
    Craft {
        vel_x: c.vel_x,
        vel_y: c.vel_y,
        pos_x: sat(c.pos_x - c.vel_x),
        pos_y: sat(c.pos_y - c.vel_y),
        rot: c.rot,
        rot_vel: c.rot_vel,
    }
}

/// Boundary reflection: each crossed edge clamps the position onto the
/// edge, negates and halves the offending velocity component, and nudges
/// the rotational velocity by a heading-dependent share of the mean
/// absolute velocity (the bottom edge divides by 12 where the others divide
/// by 20 — a deliberate asymmetry of the tuning).
pub open spec fn boundary_s(c: Craft) -> Craft {
    let avgv: int = sat(tdiv(mag(c.vel_x) + mag(c.vel_y), 2));
    let co2: int = sat(tdiv(cos_s(c.rot), 2));
    let si2: int = sat(tdiv(sin_s(c.rot), 2));
    let n20: int = sat(tdiv(avgv, 20));
    let n12: int = sat(tdiv(avgv, 12));
    let hit_r: bool = c.pos_x + EDGE_FP >= MAP_WIDTH_FP;
    let px1: int = if hit_r { MAP_WIDTH_FP - EDGE_FP } else { c.pos_x };
    let vx1: int = if hit_r { -sat(tdiv(c.vel_x, 2)) } else { c.vel_x };
    let rv1: int = if hit_r { sat(c.rot_vel - fmul_s(co2, n20)) } else { c.rot_vel };
    let hit_l: bool = px1 - EDGE_FP <= 0;
    let px2: int = if hit_l { EDGE_FP as int } else { px1 };
    let vx2: int = if hit_l { -sat(tdiv(vx1, 2)) } else { vx1 };
    let rv2: int = if hit_l { sat(rv1 + fmul_s(co2, n20)) } else { rv1 };
    let hit_b: bool = c.pos_y + EDGE_FP >= MAP_HEIGHT_FP;
    let py1: int = if hit_b { MAP_HEIGHT_FP - EDGE_FP } else { c.pos_y };
    let vy1: int = if hit_b { -sat(tdiv(c.vel_y, 2)) } else { c.vel_y };
    let rv3: int = if hit_b { sat(rv2 - fmul_s(si2, n12)) } else { rv2 };
    let hit_t: bool = py1 - EDGE_FP <= 0;
    let py2: int = if hit_t { EDGE_FP as int } else { py1 };
    let vy2: int = if hit_t { -sat(tdiv(vy1, 2)) } else { vy1 };
    let rv4: int = if hit_t { sat(rv3 + fmul_s(si2, n20)) } else { rv3 };
    Craft { vel_x: vx2, vel_y: vy2, pos_x: px2, pos_y: py2, rot: c.rot, rot_vel: rv4 }
}

/// Advance the heading by the rotational velocity, kept reduced to one turn.
pub open spec fn rot_advance_s(c: Craft) -> Craft {
    Craft {
        vel_x: c.vel_x,
        vel_y: c.vel_y,
        pos_x: c.pos_x,
        pos_y: c.pos_y,
        rot: wrap_pi_s(sat(c.rot + c.rot_vel)),
        rot_vel: c.rot_vel,
    }
}

/// The gravity pass over the first `n` obstacles, in collection order.
pub open spec fn gravity_upto(c: Craft, obs: Seq<Obstacle>, n: int) -> Craft
    decreases n,
{
    if n <= 0 {
        c
    } else {
        gravity_s(gravity_upto(c, obs, n - 1), obs[n - 1])
    }
}

/// The collision pass over the first `n` obstacles, in collection order.
pub open spec fn collide_upto(c: Craft, obs: Seq<Obstacle>, n: int) -> Craft
    decreases n,
{
    if n <= 0 {
        c
    } else {
        collide_s(collide_upto(c, obs, n - 1), obs[n - 1])
    }
}

/// One whole tick after the input stage: integration, boundary reflection,
/// heading advance, then the gravity and collision passes over the
/// tick-start obstacle snapshot.
pub open spec fn calculate_s(c: Craft, obs: Seq<Obstacle>) -> Craft {
    let c1: Craft = rot_advance_s(boundary_s(integrate_s(c)));
    collide_upto(gravity_upto(c1, obs, obs.len() as int), obs, obs.len() as int)
}

/// Run one tick of physics on the session.  The obstacle collection is
/// never mutated during a tick, so reading it element by element observes
/// exactly the tick-start snapshot.
#[verifier::rlimit(80)]
pub fn calculate(state: &mut State)
    requires
        wf_state(*old(state)),
    ensures
        craft_of(*final(state)) == calculate_s(craft_of(*old(state)), old(state).obstacles@),
        final(state).obstacles == old(state).obstacles,
        final(state).ship_mov_pressed == old(state).ship_mov_pressed,
        wf_state(*final(state)),
{
    state.ship_pos = Vec2 {
        x: fsub(state.ship_pos.x, state.ship_vel.x),
        y: fsub(state.ship_pos.y, state.ship_vel.y),
    };
    let avgv: i64 = muldiv(fmag(state.ship_vel.x) + fmag(state.ship_vel.y), 1, 2);
    let co2: i64 = muldiv(cos_fp(state.ship_rot), 1, 2);
    let si2: i64 = muldiv(sin_fp(state.ship_rot), 1, 2);
    let n20: i64 = muldiv(avgv, 1, 20);
    let n12: i64 = muldiv(avgv, 1, 12);
    if state.ship_pos.x + EDGE_FP >= MAP_WIDTH_FP {
        state.ship_pos = Vec2 { x: MAP_WIDTH_FP - EDGE_FP, y: state.ship_pos.y };
        state.ship_vel = Vec2 { x: fneg(muldiv(state.ship_vel.x, 1, 2)), y: state.ship_vel.y };
        state.ship_rot_vel = fsub(state.ship_rot_vel, muldiv(co2, n20, FP_ONE));
    }
    if state.ship_pos.x - EDGE_FP <= 0 {
        state.ship_pos = Vec2 { x: EDGE_FP, y: state.ship_pos.y };
        state.ship_vel = Vec2 { x: fneg(muldiv(state.ship_vel.x, 1, 2)), y: state.ship_vel.y };
        state.ship_rot_vel = fadd(state.ship_rot_vel, muldiv(co2, n20, FP_ONE));
    }
    if state.ship_pos.y + EDGE_FP >= MAP_HEIGHT_FP {
        state.ship_pos = Vec2 { x: state.ship_pos.x, y: MAP_HEIGHT_FP - EDGE_FP };
        state.ship_vel = Vec2 { x: state.ship_vel.x, y: fneg(muldiv(state.ship_vel.y, 1, 2)) };
        state.ship_rot_vel = fsub(state.ship_rot_vel, muldiv(si2, n12, FP_ONE));
    }
    if state.ship_pos.y - EDGE_FP <= 0 {
        state.ship_pos = Vec2 { x: state.ship_pos.x, y: EDGE_FP };
        state.ship_vel = Vec2 { x: state.ship_vel.x, y: fneg(muldiv(state.ship_vel.y, 1, 2)) };
        state.ship_rot_vel = fadd(state.ship_rot_vel, muldiv(si2, n20, FP_ONE));
    }
    state.ship_rot = wrap_pi(fadd(state.ship_rot, state.ship_rot_vel));
    let ghost c1: Craft = craft_of(*state);
    let ghost obs_seq: Seq<Obstacle> = state.obstacles@;
    assert(c1 == rot_advance_s(boundary_s(integrate_s(craft_of(*old(state))))));
    let n: usize = state.obstacles.len();
    let mut i: usize = 0;
    while i < n
        invariant
            wf_state(*state),
            craft_of(*state) == gravity_upto(c1, obs_seq, i as int),
            state.obstacles@ == obs_seq,
            state.obstacles == old(state).obstacles,
            state.ship_mov_pressed == old(state).ship_mov_pressed,
            n == obs_seq.len(),
            i <= n,
        decreases n - i,
    {
        let ob: Obstacle = state.obstacles[i];
        gravity_obstacle(&ob, state);
        i += 1;
    }
    let ghost c2: Craft = craft_of(*state);
    i = 0;
    while i < n
        invariant
            wf_state(*state),
            craft_of(*state) == collide_upto(c2, obs_seq, i as int),
            state.obstacles@ == obs_seq,
            state.obstacles == old(state).obstacles,
            state.ship_mov_pressed == old(state).ship_mov_pressed,
            n == obs_seq.len(),
            i <= n,
        decreases n - i,
    {
        let ob: Obstacle = state.obstacles[i];
        collide_obstacle(&ob, state);
        i += 1;
    }
}

} // verus!
