use gravwell::fp::FP_ONE;
use gravwell::obstacles::Obstacle;
use gravwell::sim::{
    calculate, controls, InputIntent, EDGE_FP, MAP_HEIGHT_FP, MAP_WIDTH_FP, ROT_VEL_MAX_FP,
    VEL_MAX_FP,
};
use gravwell::state::State;
use gravwell::vec2::Vec2;

const IDLE: InputIntent = InputIntent { thrust: false, rotate_left: false, rotate_right: false };

fn spec_world() -> Vec<Obstacle> {
    vec![
        Obstacle::Planet {
            position: Vec2 { x: 900 * FP_ONE, y: 700 * FP_ONE },
            radius: 200 * FP_ONE,
            mass: 3 * FP_ONE,
        },
        Obstacle::Planet {
            position: Vec2 { x: 1600 * FP_ONE, y: 700 * FP_ONE },
            radius: 50 * FP_ONE,
            mass: 3 * FP_ONE,
        },
        Obstacle::Planet {
            position: Vec2 { x: 1200 * FP_ONE, y: 1200 * FP_ONE },
            radius: 75 * FP_ONE,
            mass: 3 * FP_ONE,
        },
        Obstacle::Line {
            start_pos: Vec2 { x: 200 * FP_ONE, y: 200 * FP_ONE },
            end_pos: Vec2 { x: 400 * FP_ONE, y: 400 * FP_ONE },
        },
    ]
}

#[test]
fn new_session_is_at_rest() {
    let s = State::new();
    assert_eq!(s.ship_vel, Vec2 { x: 0, y: 0 });
    assert_eq!(s.ship_pos, Vec2 { x: 0, y: 0 });
    assert_eq!(s.ship_rot, 0);
    assert_eq!(s.ship_rot_vel, 0);
    assert!(!s.ship_mov_pressed);
    assert!(s.obstacles.is_empty());
}

#[test]
fn velocity_is_clamped_after_input_stage() {
    let mut s = State::new();
    s.ship_vel = Vec2 { x: 20 * FP_ONE, y: -30 * FP_ONE };
    controls(&mut s, IDLE);
    assert!(s.ship_vel.x.abs() <= VEL_MAX_FP);
    assert!(s.ship_vel.y.abs() <= VEL_MAX_FP);
    // exactly: clamp to ten units, then shave by 2000/2001
    assert_eq!(s.ship_vel, Vec2 { x: 655032, y: -655032 });
}

#[test]
fn rotation_velocity_is_clamped_after_input_stage() {
    let mut s = State::new();
    s.ship_rot_vel = 100000;
    controls(&mut s, IDLE);
    assert!(s.ship_rot_vel.abs() <= ROT_VEL_MAX_FP);
    assert_eq!(s.ship_rot_vel, 15603);
}

#[test]
fn damping_is_exact_ratio() {
    let mut s = State::new();
    s.ship_vel = Vec2 { x: 20010, y: 0 };
    controls(&mut s, IDLE);
    assert_eq!(s.ship_vel.x, 20000);
}

#[test]
fn thrust_sets_flag_and_accelerates() {
    let mut s = State::new();
    controls(&mut s, InputIntent { thrust: true, rotate_left: false, rotate_right: false });
    assert!(s.ship_mov_pressed);
    // heading zero: the half-unit impulse lands on the y component, damped once
    assert_eq!(s.ship_vel.x, 0);
    assert_eq!(s.ship_vel.y, 32751);
    controls(&mut s, IDLE);
    assert!(!s.ship_mov_pressed);
}

#[test]
fn steering_accumulates_and_damps() {
    let mut s = State::new();
    controls(&mut s, InputIntent { thrust: false, rotate_left: true, rotate_right: false });
    assert!(s.ship_rot_vel < 0);
    let leftward = s.ship_rot_vel;
    controls(&mut s, InputIntent { thrust: false, rotate_left: false, rotate_right: true });
    assert!(s.ship_rot_vel > leftward);
}

#[test]
fn boundary_reflection_contains_position() {
    let mut s = State::new();
    s.ship_pos = Vec2 { x: 9000 * FP_ONE, y: -5 * FP_ONE };
    calculate(&mut s);
    assert_eq!(s.ship_pos, Vec2 { x: MAP_WIDTH_FP - EDGE_FP, y: EDGE_FP });
}

#[test]
fn boundary_reflection_halves_and_reverses_velocity() {
    let mut s = State::new();
    s.ship_pos = Vec2 { x: 20 * FP_ONE, y: 4000 * FP_ONE };
    s.ship_vel = Vec2 { x: 11 * FP_ONE, y: 0 };
    // integration moves the craft to x = 9, through the left edge
    calculate(&mut s);
    assert_eq!(s.ship_pos.x, EDGE_FP);
    assert_eq!(s.ship_vel.x, -(11 * FP_ONE) / 2);
    assert!(s.ship_pos.y == 4000 * FP_ONE && s.ship_vel.y == 0);
}

#[test]
fn containment_holds_over_a_long_idle_run() {
    let mut s = State::new();
    s.ship_pos = Vec2 { x: 4096 * FP_ONE, y: 4096 * FP_ONE };
    s.ship_vel = Vec2 { x: 9 * FP_ONE, y: -7 * FP_ONE };
    s.obstacles = spec_world();
    for _ in 0..500 {
        controls(&mut s, IDLE);
        calculate(&mut s);
        assert!(EDGE_FP <= s.ship_pos.x && s.ship_pos.x <= MAP_WIDTH_FP - EDGE_FP);
        assert!(EDGE_FP <= s.ship_pos.y && s.ship_pos.y <= MAP_HEIGHT_FP - EDGE_FP);
    }
}

#[test]
fn replay_is_bit_identical() {
    let script = |tick: usize| InputIntent {
        thrust: tick % 3 != 0,
        rotate_left: tick % 5 == 0,
        rotate_right: tick % 7 == 0,
    };
    let run = || {
        let mut s = State::new();
        s.ship_pos = Vec2 { x: 4096 * FP_ONE, y: 4096 * FP_ONE };
        s.obstacles = spec_world();
        let mut trace: Vec<(i64, i64, i64, i64, i64, i64)> = Vec::new();
        for tick in 0..300 {
            controls(&mut s, script(tick));
            calculate(&mut s);
            trace.push((
                s.ship_pos.x,
                s.ship_pos.y,
                s.ship_vel.x,
                s.ship_vel.y,
                s.ship_rot,
                s.ship_rot_vel,
            ));
        }
        trace
    };
    assert_eq!(run(), run());
}

#[test]
fn idle_velocities_decay_to_zero() {
    let mut s = State::new();
    s.ship_pos = Vec2 { x: 4096 * FP_ONE, y: 4096 * FP_ONE };
    s.ship_vel = Vec2 { x: 1000, y: -500 };
    s.ship_rot_vel = 300;
    let mut prev = (s.ship_vel.x.abs(), s.ship_vel.y.abs(), s.ship_rot_vel.abs());
    for _ in 0..200 {
        controls(&mut s, IDLE);
        let cur = (s.ship_vel.x.abs(), s.ship_vel.y.abs(), s.ship_rot_vel.abs());
        assert!(cur.0 <= prev.0 && cur.1 <= prev.1 && cur.2 <= prev.2);
        prev = cur;
    }
    // the rotational damping is fast; the velocity shrinks visibly too
    assert_eq!(s.ship_rot_vel, 0);
    assert!(s.ship_vel.x.abs() < 1000 && s.ship_vel.y.abs() < 500);
    // a one-raw-unit velocity dies in a single idle tick
    let mut t = State::new();
    t.ship_vel = Vec2 { x: 1, y: -1 };
    controls(&mut t, IDLE);
    assert_eq!(t.ship_vel, Vec2 { x: 0, y: 0 });
}

#[test]
fn gravity_pass_compounds_in_collection_order() {
    let mut s = State::new();
    s.ship_pos = Vec2 { x: 1000 * FP_ONE, y: 700 * FP_ONE };
    s.obstacles = spec_world();
    calculate(&mut s);
    // inside the influence of the first two wells: some pull must accrue
    assert!(s.ship_vel != Vec2 { x: 0, y: 0 });
}
