//! The simulation's general guarantees, stated and proved over the spec
//! model that the executable step functions are contracted to compute.

use vstd::prelude::*;

verus! {

use crate::fp::{mag, sat, clamp_s, lemma_tdiv_scale_down};
use crate::obstacles::{Obstacle, gravity_s, collide_triggers};
use crate::state::Craft;
use crate::sim::{
    InputIntent, controls_s, integrate_s, boundary_s, rot_advance_s, gravity_upto,
    collide_upto, calculate_s, VEL_MAX_FP, ROT_VEL_MAX_FP, EDGE_FP, MAP_WIDTH_FP,
    MAP_HEIGHT_FP, VEL_DAMP_NUM, VEL_DAMP_DEN, ROT_DAMP_NUM, ROT_DAMP_DEN,
};

/// After the input stage of any tick, each velocity component lies within
/// the ten-unit clamp, whatever the craft state and whatever is held.
pub proof fn lemma_velocity_clamp(c: Craft, input: InputIntent)
    ensures
        mag(controls_s(c, input).vel_x) <= VEL_MAX_FP,
        mag(controls_s(c, input).vel_y) <= VEL_MAX_FP,
{
    let ax = if input.thrust {
        sat(c.vel_x + crate::vec2::rotate_x_s(0, crate::sim::THRUST_FP as int, c.rot))
    } else {
        c.vel_x
    };
    let ay = if input.thrust {
        sat(c.vel_y + crate::vec2::rotate_y_s(0, crate::sim::THRUST_FP as int, c.rot))
    } else {
        c.vel_y
    };
    lemma_tdiv_scale_down(
        clamp_s(ax, VEL_MAX_FP as int),
        VEL_DAMP_NUM as int,
        VEL_DAMP_DEN as int,
    );
    lemma_tdiv_scale_down(
        clamp_s(ay, VEL_MAX_FP as int),
        VEL_DAMP_NUM as int,
        VEL_DAMP_DEN as int,
    );
}

/// After the input stage of any tick, the rotational velocity lies within
/// the quarter-radian clamp.
pub proof fn lemma_rotation_velocity_clamp(c: Craft, input: InputIntent)
    ensures
        mag(controls_s(c, input).rot_vel) <= ROT_VEL_MAX_FP,
{
    let r1 = if input.rotate_left {
        sat(c.rot_vel - crate::sim::ROT_STEP_FP)
    } else {
        c.rot_vel
    };
    let r2 = if input.rotate_right {
        sat(r1 + crate::sim::ROT_STEP_FP)
    } else {
        r1
    };
    lemma_tdiv_scale_down(
        clamp_s(r2, ROT_VEL_MAX_FP as int),
        ROT_DAMP_NUM as int,
        ROT_DAMP_DEN as int,
    );
}

/// Boundary containment: after the integration and boundary-reflection
/// stage, the position lies inside `[EDGE_FP, MAP - EDGE_FP]` on both axes,
/// from any starting state.
pub proof fn lemma_boundary_containment(c: Craft)
    ensures
        EDGE_FP <= boundary_s(integrate_s(c)).pos_x <= MAP_WIDTH_FP - EDGE_FP,
        EDGE_FP <= boundary_s(integrate_s(c)).pos_y <= MAP_HEIGHT_FP - EDGE_FP,
{
}

/// Gravity only ever touches the velocity: the position is left alone by a
/// single application and hence by the whole pass.
pub proof fn lemma_gravity_keeps_position(c: Craft, obs: Seq<Obstacle>, n: int)
    ensures
        gravity_upto(c, obs, n).pos_x == c.pos_x,
        gravity_upto(c, obs, n).pos_y == c.pos_y,
        gravity_upto(c, obs, n).rot == c.rot,
        gravity_upto(c, obs, n).rot_vel == c.rot_vel,
    decreases n,
{
    if n > 0 {
        lemma_gravity_keeps_position(c, obs, n - 1);
    }
}

/// Outside a planet's influence radius — squared distance beyond the square
/// of `(mass + 1) * 200` world units — its gravity leaves the craft exactly
/// as it was; so does the zero-distance degeneracy, and so does a barrier.
pub proof fn lemma_gravity_noop_outside_influence(c: Craft, ob: Obstacle)
    requires
        match ob {
            Obstacle::Planet { position, radius, mass } => {
                let dx = sat(c.pos_x - position.x);
                let dy = sat(c.pos_y - position.y);
                let rinf = sat(sat(mass + crate::fp::FP_ONE) * 200);
                dx * dx + dy * dy == 0 || dx * dx + dy * dy > rinf * rinf
            },
            Obstacle::Line { .. } => true,
        },
    ensures
        gravity_s(c, ob) == c,
{
    match ob {
        Obstacle::Planet { position, radius, mass } => {
            let r0 = sat(mass + crate::fp::FP_ONE);
            vstd::arithmetic::div_mod::lemma_div_basics(r0 * 200);
            assert(crate::fp::tdiv(r0 * 200, 1) == r0 * 200) by {
                if r0 >= 0 {
                    assert(r0 * 200 >= 0) by (nonlinear_arith)
                        requires
                            r0 >= 0,
                    ;
                    vstd::arithmetic::div_mod::lemma_div_basics(r0 * 200);
                } else {
                    assert(r0 * 200 < 0) by (nonlinear_arith)
                        requires
                            r0 < 0,
                    ;
                    vstd::arithmetic::div_mod::lemma_div_basics(-(r0 * 200));
                }
            }
        },
        Obstacle::Line { .. } => {},
    }
}

/// Whether no obstacle among the first `n` triggers a collision correction
/// as the pass walks them in order.
pub open spec fn collide_pass_clear(c: Craft, obs: Seq<Obstacle>, n: int) -> bool
    decreases n,
{
    if n <= 0 {
        true
    } else {
        collide_pass_clear(c, obs, n - 1) && !collide_triggers(
            collide_upto(c, obs, n - 1),
            obs[n - 1],
        )
    }
}

/// A collision pass in which nothing triggers leaves the craft untouched.
pub proof fn lemma_clear_pass_is_noop(c: Craft, obs: Seq<Obstacle>, n: int)
    requires
        collide_pass_clear(c, obs, n),
    ensures
        collide_upto(c, obs, n) == c,
    decreases n,
{
    if n > 0 {
        lemma_clear_pass_is_noop(c, obs, n - 1);
    }
}

/// Tick-level containment: whenever the collision pass of a tick triggers
/// no correction, the craft ends the whole tick inside the map bounds.
pub proof fn lemma_tick_containment(c: Craft, obs: Seq<Obstacle>)
    requires
        collide_pass_clear(
            gravity_upto(rot_advance_s(boundary_s(integrate_s(c))), obs, obs.len() as int),
            obs,
            obs.len() as int,
        ),
    ensures
        EDGE_FP <= calculate_s(c, obs).pos_x <= MAP_WIDTH_FP - EDGE_FP,
        EDGE_FP <= calculate_s(c, obs).pos_y <= MAP_HEIGHT_FP - EDGE_FP,
{
    let c1 = rot_advance_s(boundary_s(integrate_s(c)));
    let c2 = gravity_upto(c1, obs, obs.len() as int);
    lemma_boundary_containment(c);
    lemma_gravity_keeps_position(c1, obs, obs.len() as int);
    lemma_clear_pass_is_noop(c2, obs, obs.len() as int);
}

/// A whole replay: fold the tick over an input script.
pub open spec fn replay_s(c: Craft, inputs: Seq<InputIntent>, obs: Seq<Obstacle>) -> Craft
    decreases inputs.len(),
{
    if inputs.len() == 0 {
        c
    } else {
        replay_s(calculate_s(controls_s(c, inputs[0]), obs), inputs.skip(1), obs)
    }
}

/// Deterministic replay: identical input scripts over identical obstacle
/// sets from identical starting states give identical trajectories.
pub proof fn lemma_deterministic_replay(
    c1: Craft, c2: Craft,
    inputs1: Seq<InputIntent>, inputs2: Seq<InputIntent>,
    obs1: Seq<Obstacle>, obs2: Seq<Obstacle>,
)
    requires
        c1 == c2,
        inputs1 == inputs2,
        obs1 == obs2,
    ensures
        replay_s(c1, inputs1, obs1) == replay_s(c2, inputs2, obs2),
{
}

/// Damping at rest: with nothing held, the input stage never grows the
/// velocity or the rotational velocity, strictly shrinks whichever is
/// nonzero, and keeps a zero one at zero — so both decay monotonically
/// toward zero and never diverge.
pub proof fn lemma_damping_decay(c: Craft)
    ensures
        mag(controls_s(c, InputIntent { thrust: false, rotate_left: false, rotate_right: false }).vel_x)
            <= mag(c.vel_x),
        mag(controls_s(c, InputIntent { thrust: false, rotate_left: false, rotate_right: false }).vel_y)
            <= mag(c.vel_y),
        mag(controls_s(c, InputIntent { thrust: false, rotate_left: false, rotate_right: false }).rot_vel)
            <= mag(c.rot_vel),
        c.vel_x != 0 ==> mag(
            controls_s(c, InputIntent { thrust: false, rotate_left: false, rotate_right: false }).vel_x,
        ) < mag(c.vel_x),
        c.vel_y != 0 ==> mag(
            controls_s(c, InputIntent { thrust: false, rotate_left: false, rotate_right: false }).vel_y,
        ) < mag(c.vel_y),
        c.rot_vel != 0 ==> mag(
            controls_s(c, InputIntent { thrust: false, rotate_left: false, rotate_right: false }).rot_vel,
        ) < mag(c.rot_vel),
        c.vel_x == 0 ==> controls_s(
            c,
            InputIntent { thrust: false, rotate_left: false, rotate_right: false },
        ).vel_x == 0,
        c.vel_y == 0 ==> controls_s(
            c,
            InputIntent { thrust: false, rotate_left: false, rotate_right: false },
        ).vel_y == 0,
        c.rot_vel == 0 ==> controls_s(
            c,
            InputIntent { thrust: false, rotate_left: false, rotate_right: false },
        ).rot_vel == 0,
{
    lemma_tdiv_scale_down(
        clamp_s(c.vel_x, VEL_MAX_FP as int),
        VEL_DAMP_NUM as int,
        VEL_DAMP_DEN as int,
    );
    lemma_tdiv_scale_down(
        clamp_s(c.vel_y, VEL_MAX_FP as int),
        VEL_DAMP_NUM as int,
        VEL_DAMP_DEN as int,
    );
    lemma_tdiv_scale_down(
        clamp_s(c.rot_vel, ROT_VEL_MAX_FP as int),
        ROT_DAMP_NUM as int,
        ROT_DAMP_DEN as int,
    );
}

} // verus!

