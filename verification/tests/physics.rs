use gravwell::fp::{isqrt, FP_ONE, FP_MAX, PI_FP};
use gravwell::math::{avg_vec2, degrees_to_radians, radians_to_degrees};
use gravwell::obstacles::{collide_obstacle, gravity_obstacle, segment_intersection, Obstacle};
use gravwell::state::State;
use gravwell::vec2::Vec2;

fn session_at(px: i64, py: i64, vx: i64, vy: i64) -> State {
    let mut s = State::new();
    s.ship_pos = Vec2 { x: px, y: py };
    s.ship_vel = Vec2 { x: vx, y: vy };
    s
}

#[test]
fn degree_conversions_hit_known_angles() {
    assert_eq!(degrees_to_radians(90 * FP_ONE), 102943);
    assert_eq!(degrees_to_radians(180 * FP_ONE), PI_FP);
    assert_eq!(radians_to_degrees(PI_FP), 180 * FP_ONE);
    assert_eq!(degrees_to_radians(0), 0);
}

#[test]
fn avg_vec2_is_component_mean() {
    assert_eq!(avg_vec2(Vec2 { x: 10 * FP_ONE, y: 20 * FP_ONE }), 15 * FP_ONE);
    assert_eq!(avg_vec2(Vec2 { x: -4 * FP_ONE, y: 2 * FP_ONE }), -FP_ONE);
}

#[test]
fn isqrt_exact_squares_and_between() {
    assert_eq!(isqrt(0), 0);
    assert_eq!(isqrt(1), 1);
    assert_eq!(isqrt(48), 6);
    assert_eq!(isqrt(49), 7);
    assert_eq!(isqrt((FP_ONE as u128) * (FP_ONE as u128)), FP_ONE as u64);
}

#[test]
fn rotation_by_zero_is_identity_on_unit() {
    let v = Vec2 { x: FP_ONE, y: 0 };
    let r = v.rotated(0);
    assert_eq!(r, Vec2 { x: FP_ONE, y: 0 });
}

#[test]
fn rotation_by_quarter_turn_swaps_axes() {
    let v = Vec2 { x: FP_ONE, y: 0 };
    let r = v.rotated(degrees_to_radians(90 * FP_ONE));
    // the quarter turn carries (1, 0) essentially onto (0, 1)
    assert!(r.x.abs() <= 4, "x was {}", r.x);
    assert!((r.y - FP_ONE).abs() <= 4, "y was {}", r.y);
}

#[test]
fn gravity_noop_outside_influence_radius() {
    // mass 3 gives an influence radius of (3 + 1) * 200 = 800 world units
    let well = Obstacle::Planet {
        position: Vec2 { x: 0, y: 0 },
        radius: 200 * FP_ONE,
        mass: 3 * FP_ONE,
    };
    let mut s = session_at(801 * FP_ONE, 0, 0, 0);
    gravity_obstacle(&well, &mut s);
    assert_eq!(s.ship_vel, Vec2 { x: 0, y: 0 });
    assert_eq!(s.ship_pos, Vec2 { x: 801 * FP_ONE, y: 0 });
}

#[test]
fn gravity_acts_inside_influence_radius() {
    let well = Obstacle::Planet {
        position: Vec2 { x: 0, y: 0 },
        radius: 200 * FP_ONE,
        mass: 3 * FP_ONE,
    };
    let mut s = session_at(799 * FP_ONE, 0, 0, 0);
    gravity_obstacle(&well, &mut s);
    assert_eq!(s.ship_vel, Vec2 { x: 6955, y: 0 });
    // position is never touched by the gravity pass
    assert_eq!(s.ship_pos, Vec2 { x: 799 * FP_ONE, y: 0 });
}

#[test]
fn gravity_ignores_barriers_and_zero_distance() {
    let wall = Obstacle::Line {
        start_pos: Vec2 { x: 0, y: 0 },
        end_pos: Vec2 { x: FP_ONE, y: FP_ONE },
    };
    let mut s = session_at(5 * FP_ONE, 5 * FP_ONE, 7, 7);
    gravity_obstacle(&wall, &mut s);
    assert_eq!(s.ship_vel, Vec2 { x: 7, y: 7 });

    // a craft exactly on a well's center is left alone rather than divided by zero
    let well = Obstacle::Planet {
        position: Vec2 { x: 5 * FP_ONE, y: 5 * FP_ONE },
        radius: 50 * FP_ONE,
        mass: 3 * FP_ONE,
    };
    gravity_obstacle(&well, &mut s);
    assert_eq!(s.ship_vel, Vec2 { x: 7, y: 7 });
}

#[test]
fn collision_at_well_center_corrects_position() {
    // dead on the center the deflection angle is zero, so the velocity is
    // kept while the integration is re-applied with it
    let well = Obstacle::Planet {
        position: Vec2 { x: 1000 * FP_ONE, y: 1000 * FP_ONE },
        radius: 50 * FP_ONE,
        mass: 3 * FP_ONE,
    };
    let mut s = session_at(1000 * FP_ONE, 1000 * FP_ONE, 5 * FP_ONE, 0);
    collide_obstacle(&well, &mut s);
    assert_eq!(s.ship_vel, Vec2 { x: 5 * FP_ONE, y: 0 });
    assert_eq!(s.ship_pos, Vec2 { x: 1000 * FP_ONE - 5 * FP_ONE, y: 1000 * FP_ONE });
}

#[test]
fn collision_off_center_rotates_velocity() {
    let well = Obstacle::Planet {
        position: Vec2 { x: 1000 * FP_ONE, y: 1000 * FP_ONE },
        radius: 50 * FP_ONE,
        mass: 3 * FP_ONE,
    };
    let mut s = session_at(1030 * FP_ONE, 1040 * FP_ONE, 5 * FP_ONE, 0);
    collide_obstacle(&well, &mut s);
    assert_eq!(s.ship_vel, Vec2 { x: 178925, y: 274520 });
    assert_eq!(s.ship_pos, Vec2 { x: 67323155, y: 67882920 });
}

#[test]
fn collision_outside_reach_is_noop() {
    let well = Obstacle::Planet {
        position: Vec2 { x: 1000 * FP_ONE, y: 1000 * FP_ONE },
        radius: 50 * FP_ONE,
        mass: 3 * FP_ONE,
    };
    // 61 world units away: beyond radius + craft radius = 60
    let mut s = session_at(1061 * FP_ONE, 1000 * FP_ONE, 5 * FP_ONE, 0);
    collide_obstacle(&well, &mut s);
    assert_eq!(s.ship_vel, Vec2 { x: 5 * FP_ONE, y: 0 });
    assert_eq!(s.ship_pos, Vec2 { x: 1061 * FP_ONE, y: 1000 * FP_ONE });
}

#[test]
fn barrier_intersection_found_at_crossing() {
    let a = Vec2 { x: 200 * FP_ONE, y: 200 * FP_ONE };
    let b = Vec2 { x: 400 * FP_ONE, y: 400 * FP_ONE };
    let p = Vec2 { x: 300 * FP_ONE, y: 100 * FP_ONE };
    let q = Vec2 { x: 300 * FP_ONE, y: 500 * FP_ONE };
    let hit = segment_intersection(a, b, p, q);
    assert_eq!(hit, Some(Vec2 { x: 300 * FP_ONE, y: 300 * FP_ONE }));
}

#[test]
fn barrier_intersection_none_when_parallel_or_aside() {
    let a = Vec2 { x: 200 * FP_ONE, y: 200 * FP_ONE };
    let b = Vec2 { x: 400 * FP_ONE, y: 400 * FP_ONE };
    // parallel to the barrier
    let hit = segment_intersection(
        a,
        b,
        Vec2 { x: 0, y: 10 * FP_ONE },
        Vec2 { x: 200 * FP_ONE, y: 210 * FP_ONE },
    );
    assert_eq!(hit, None);
    // entirely on one side
    let hit2 = segment_intersection(
        a,
        b,
        Vec2 { x: 100 * FP_ONE, y: 100 * FP_ONE },
        Vec2 { x: 100 * FP_ONE, y: 500 * FP_ONE },
    );
    assert_eq!(hit2, None);
}

#[test]
fn barrier_collision_deflects_crossing_craft() {
    let wall = Obstacle::Line {
        start_pos: Vec2 { x: 200 * FP_ONE, y: 200 * FP_ONE },
        end_pos: Vec2 { x: 400 * FP_ONE, y: 400 * FP_ONE },
    };
    // moving from (300, 100) toward (300, 500): crossing near (300, 300)
    let mut s = session_at(300 * FP_ONE, 100 * FP_ONE, 0, -400 * FP_ONE);
    collide_obstacle(&wall, &mut s);
    assert_eq!(s.ship_vel, Vec2 { x: 26202799, y: 26202001 });
    assert_eq!(s.ship_pos, Vec2 { x: -6541999, y: -19648401 });
}

#[test]
fn barrier_collision_ignores_craft_on_one_side() {
    let wall = Obstacle::Line {
        start_pos: Vec2 { x: 200 * FP_ONE, y: 200 * FP_ONE },
        end_pos: Vec2 { x: 400 * FP_ONE, y: 400 * FP_ONE },
    };
    let mut s = session_at(100 * FP_ONE, 100 * FP_ONE, 0, -400 * FP_ONE);
    collide_obstacle(&wall, &mut s);
    assert_eq!(s.ship_vel, Vec2 { x: 0, y: -400 * FP_ONE });
    assert_eq!(s.ship_pos, Vec2 { x: 100 * FP_ONE, y: 100 * FP_ONE });
}

#[test]
fn saturation_bound_is_generous() {
    assert!(FP_MAX > 8192 * FP_ONE);
}
