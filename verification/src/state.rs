//! The craft state: the one mutable subject of the simulation.

use vstd::prelude::*;

verus! {

use crate::fp::in_fp;
use crate::vec2::{Vec2, wf_v2};
use crate::obstacles::{Obstacle, wf_obstacle};

/// The mathematical image of the craft: the six scalars the per-tick
/// contracts are phrased over.
pub ghost struct Craft {
    pub vel_x: int,
    pub vel_y: int,
    pub pos_x: int,
    pub pos_y: int,
    pub rot: int,
    pub rot_vel: int,
}

/// All six craft scalars inside the saturation band.
pub open spec fn wf_craft(c: Craft) -> bool {
    in_fp(c.vel_x) && in_fp(c.vel_y) && in_fp(c.pos_x) && in_fp(c.pos_y) && in_fp(c.rot)
        && in_fp(c.rot_vel)
}

/// The simulation session: craft pose and motion, the thrust flag the
/// rendering surface reads, and the immutable obstacle collection.
pub struct State {
    pub ship_vel: Vec2,
    pub ship_pos: Vec2,
    pub ship_rot: i64,
    pub ship_rot_vel: i64,
    pub ship_mov_pressed: bool,
    pub obstacles: Vec<Obstacle>,
}

/// The craft scalars of a session state.
pub open spec fn craft_of(s: State) -> Craft {
    Craft {
        vel_x: s.ship_vel.x as int,
        vel_y: s.ship_vel.y as int,
        pos_x: s.ship_pos.x as int,
        pos_y: s.ship_pos.y as int,
        rot: s.ship_rot as int,
        rot_vel: s.ship_rot_vel as int,
    }
}

/// Session well-formedness: every scalar saturated, every obstacle sound.
pub open spec fn wf_state(s: State) -> bool {
    wf_v2(s.ship_vel) && wf_v2(s.ship_pos) && in_fp(s.ship_rot as int) && in_fp(
        s.ship_rot_vel as int,
    ) && forall|i: int| 0 <= i < s.obstacles@.len() ==> wf_obstacle(#[trigger] s.obstacles@[i])
}

impl State {
    /// A fresh session: craft at rest at the origin, no obstacles.
    pub fn new() -> (s: State)
        ensures
            s.ship_vel == (Vec2 { x: 0, y: 0 }),
            s.ship_pos == (Vec2 { x: 0, y: 0 }),
            s.ship_rot == 0,
            s.ship_rot_vel == 0,
            s.ship_mov_pressed == false,
            s.obstacles@ == Seq::<Obstacle>::empty(),
            wf_state(s),
    {
        State {
            ship_vel: Vec2 { x: 0, y: 0 },
            ship_pos: Vec2 { x: 0, y: 0 },
            ship_rot: 0,
            ship_rot_vel: 0,
            ship_mov_pressed: false,
            obstacles: Vec::new(),
        }
    }
}

} // verus!
