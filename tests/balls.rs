use piston_demos::bouncing_balls::{snapshot, BouncingBalls, BALL_COUNT};
use piston_demos::geometry::ball::{Ball, BallDraws, BallSettings, BallUpdateArgs, Color};
use piston_demos::geometry::vector2d::{div_toward_zero, isqrt, Vector2d, DIR_ONE};
use piston_demos::geometry::velocity::Velocity;
use piston_demos::simple_balls::SimpleBalls;
use piston_demos::utils::entity::Updatable;

fn ball(id: u32, x: i64, y: i64, radius: i64, dx: i64, dy: i64, speed: i64) -> Ball {
    Ball {
        id,
        velocity: Velocity { dir: Vector2d { x: dx, y: dy }, speed },
        pos: Vector2d { x, y },
        radius,
        color: Color { r: 1, g: 2, b: 3, a: 255 },
    }
}

fn is_unit(v: Vector2d) -> bool {
    let l = (v.x as i128) * (v.x as i128) + (v.y as i128) * (v.y as i128);
    let lo = ((DIR_ONE - 3) as i128) * ((DIR_ONE - 3) as i128);
    let hi = ((DIR_ONE + 1) as i128) * ((DIR_ONE + 1) as i128);
    lo <= l && l <= hi
}

#[test]
fn isqrt_rounds_down() {
    assert_eq!(isqrt(0), 0);
    assert_eq!(isqrt(15), 3);
    assert_eq!(isqrt(16), 4);
    assert_eq!(isqrt(u128::MAX), u64::MAX);
}

#[test]
fn division_rounds_toward_zero() {
    assert_eq!(div_toward_zero(7, 2), 3);
    assert_eq!(div_toward_zero(-7, 2), -3);
}

#[test]
fn normalize_three_four_five() {
    let mut v = Vector2d { x: 3, y: 4 };
    v.normalize();
    assert_eq!(v, Vector2d { x: 600_000, y: 800_000 });
    let mut z = Vector2d::zero();
    z.normalize();
    assert_eq!(z, Vector2d { x: 0, y: 0 });
}

#[test]
fn normalize_long_vector_is_unit() {
    let mut v = Vector2d { x: -123_456_789, y: 987_654 };
    v.normalize();
    assert!(is_unit(v));
    assert!(v.x < 0 && v.y > 0);
}

#[test]
fn reflect_head_on_reverses() {
    let mut v = Vector2d { x: DIR_ONE, y: 0 };
    v.reflect(&Vector2d { x: DIR_ONE, y: 0 });
    assert_eq!(v, Vector2d { x: -DIR_ONE, y: 0 });
    let mut w = Vector2d { x: 0, y: DIR_ONE };
    w.reflect(&Vector2d { x: DIR_ONE, y: 0 });
    assert_eq!(w, Vector2d { x: 0, y: DIR_ONE });
}

#[test]
fn velocity_components_and_negation() {
    let mut v = Velocity { dir: Vector2d { x: 600_000, y: -800_000 }, speed: 5 };
    assert_eq!(v.x(), 3_000_000);
    assert_eq!(v.y(), -4_000_000);
    v.negate_x();
    v.negate_y();
    assert_eq!(v.dir, Vector2d { x: -600_000, y: 800_000 });
}

#[test]
fn wall_scenario_clamps_and_flips() {
    let mut b = ball(0, 10_000, 10_000, 10_000, -DIR_ONE, 0, 100_000);
    b.mv(1_000_000);
    assert_eq!(b.pos, Vector2d { x: -90_000, y: 10_000 });
    b.update_wall_collision(100, 100);
    assert_eq!(b.pos, Vector2d { x: 10_000, y: 10_000 });
    assert_eq!(b.velocity.dir, Vector2d { x: DIR_ONE, y: 0 });
}

#[test]
fn wall_scenario_through_update() {
    let mut b = ball(0, 10_000, 10_000, 10_000, -DIR_ONE, 0, 100_000);
    b.update(BallUpdateArgs { dt: 1_000_000, width: 100, height: 100, balls: None });
    assert_eq!(b.pos, Vector2d { x: 10_000, y: 10_000 });
    assert_eq!(b.velocity.dir, Vector2d { x: DIR_ONE, y: 0 });
}

#[test]
fn corner_hit_flips_both_axes() {
    let mut b = ball(0, 95_000, 95_000, 10_000, 600_000, 800_000, 0);
    b.update_wall_collision(100, 100);
    assert_eq!(b.pos, Vector2d { x: 90_000, y: 90_000 });
    assert_eq!(b.velocity.dir, Vector2d { x: -600_000, y: -800_000 });
}

#[test]
fn wall_check_keeps_ball_inside() {
    let mut b = ball(3, 5_000_000, -7_000, 20_000, 0, DIR_ONE, 0);
    b.update_wall_collision(1280, 720);
    assert!(b.pos.x >= 20_000 && b.pos.x <= 1_280_000 - 20_000);
    assert!(b.pos.y >= 20_000 && b.pos.y <= 720_000 - 20_000);
}

#[test]
fn zero_dt_does_not_move() {
    let mut b = ball(0, 50_000, 50_000, 10_000, 600_000, 800_000, 1_000_000);
    b.mv(0);
    assert_eq!(b.pos, Vector2d { x: 50_000, y: 50_000 });
}

#[test]
fn collision_needs_distinct_touching_balls() {
    let a = ball(0, 100_000, 100_000, 10_000, DIR_ONE, 0, 0);
    let b = ball(1, 115_000, 100_000, 10_000, -DIR_ONE, 0, 0);
    let c = ball(0, 115_000, 100_000, 10_000, -DIR_ONE, 0, 0);
    let far = ball(2, 200_000, 100_000, 10_000, -DIR_ONE, 0, 0);
    assert!(a.collides_with_ball(&b));
    assert!(!a.collides_with_ball(&c));
    assert!(!a.collides_with_ball(&far));
    let edge = ball(3, 120_000, 100_000, 10_000, 0, DIR_ONE, 0);
    assert!(a.collides_with_ball(&edge));
}

#[test]
fn colliding_pair_changes_direction() {
    let a = ball(0, 100_000, 100_000, 10_000, DIR_ONE, 0, 0);
    let b = ball(1, 115_000, 100_000, 10_000, -DIR_ONE, 0, 0);
    let mut moved_a = a;
    moved_a.update(BallUpdateArgs {
        dt: 0,
        width: 1000,
        height: 1000,
        balls: Some(vec![a, b]),
    });
    assert_eq!(moved_a.velocity.dir, Vector2d { x: -DIR_ONE, y: 0 });
    assert_eq!(moved_a.pos, Vector2d { x: 95_000, y: 100_000 });
    assert!(is_unit(moved_a.velocity.dir));
}

#[test]
fn build_from_draws_exact_ball() {
    let settings = BallSettings::new();
    let draws = BallDraws {
        dir_x: 0,
        dir_y: 0,
        speed: 0,
        x: 0,
        y: 0,
        radius: 0,
        color: Color { r: 9, g: 8, b: 7, a: 255 },
    };
    let b = settings.build_from(5, draws);
    assert_eq!(b.id, 5);
    assert_eq!(b.velocity.dir, Vector2d { x: -707_107, y: -707_107 });
    assert_eq!(b.velocity.speed, 500_000);
    assert_eq!(b.pos, Vector2d { x: 0, y: 0 });
    assert_eq!(b.radius, 10_000);
    assert_eq!(b.color, Color { r: 9, g: 8, b: 7, a: 255 });
}

#[test]
fn build_from_top_of_ranges_stays_below() {
    let settings = BallSettings::new()
        .set_velocity(1_000, 2_000)
        .set_max_pos(50_000, 60_000)
        .set_radius(1_000, 3_000)
        .set_color(Color { r: 1, g: 1, b: 1, a: 1 });
    let draws = BallDraws {
        dir_x: u32::MAX,
        dir_y: 1 << 31,
        speed: u32::MAX,
        x: u32::MAX,
        y: 1 << 31,
        radius: 1 << 31,
        color: Color { r: 9, g: 8, b: 7, a: 255 },
    };
    let b = settings.build_from(1, draws);
    assert_eq!(b.velocity.speed, 1_999);
    assert_eq!(b.pos, Vector2d { x: 49_999, y: 30_000 });
    assert_eq!(b.radius, 2_000);
    assert_eq!(b.velocity.dir, Vector2d { x: DIR_ONE, y: 0 });
    assert_eq!(b.color, Color { r: 1, g: 1, b: 1, a: 1 });
}

#[test]
fn build_draws_within_ranges() {
    let settings = BallSettings::new();
    for id in 0..20 {
        let b = settings.build(id);
        assert_eq!(b.id, id);
        assert!(b.velocity.speed >= 500_000 && b.velocity.speed <= 1_000_000);
        assert!(b.radius >= 10_000 && b.radius <= 20_000);
        assert!(b.pos.x >= 0 && b.pos.x <= 100_000);
        assert!(is_unit(b.velocity.dir));
    }
}

#[test]
fn bouncing_scene_keeps_unit_directions() {
    let mut scene = BouncingBalls::new(1280, 720);
    assert_eq!(scene.balls.len(), BALL_COUNT as usize);
    for (k, b) in scene.balls.iter().enumerate() {
        assert_eq!(b.id as usize, k);
    }
    for _ in 0..10 {
        scene.update(16_667);
    }
    for b in scene.balls.iter() {
        assert!(is_unit(b.velocity.dir));
    }
    scene.on_resize(800, 600);
    assert_eq!((scene.width, scene.height), (800, 600));
}

#[test]
fn simple_scene_stays_inside() {
    let mut scene = SimpleBalls::new(1280, 720);
    for _ in 0..30 {
        scene.update(16_667);
    }
    for b in scene.balls.iter() {
        assert!(is_unit(b.velocity.dir));
        assert!(b.pos.x >= b.radius && b.pos.x <= 1_280_000 - b.radius);
        assert!(b.pos.y >= b.radius && b.pos.y <= 720_000 - b.radius);
    }
}

#[test]
fn snapshot_copies() {
    let v = vec![ball(0, 1, 2, 3, DIR_ONE, 0, 0), ball(1, 4, 5, 6, 0, DIR_ONE, 0)];
    assert_eq!(snapshot(&v), v);
}

#[test]
fn new_scenes_draw_balls_in_ranges() {
    let bouncing = BouncingBalls::new(1280, 720);
    let simple = SimpleBalls::new(1280, 720);
    for b in bouncing.balls.iter().chain(simple.balls.iter()) {
        assert!(b.pos.x >= 0 && b.pos.x <= 1_280_000);
        assert!(b.pos.y >= 0 && b.pos.y <= 720_000);
        assert!(b.radius >= 10_000 && b.radius <= 20_000);
        assert!(b.velocity.speed >= 500_000 && b.velocity.speed <= 1_000_000);
        assert!(is_unit(b.velocity.dir));
    }
}

#[test]
fn build_without_color_is_opaque() {
    let b = BallSettings::new().build(7);
    assert_eq!(b.color.a, 255);
}

#[test]
fn build_from_stays_below_range_tops() {
    let settings = BallSettings::new();
    let draws = BallDraws {
        dir_x: u32::MAX,
        dir_y: u32::MAX,
        speed: u32::MAX,
        x: u32::MAX,
        y: u32::MAX,
        radius: u32::MAX,
        color: Color { r: 0, g: 0, b: 0, a: 255 },
    };
    let b = settings.build_from(0, draws);
    assert!(b.velocity.speed < 1_000_000);
    assert!(b.radius < 20_000);
    assert!(b.pos.x < 100_000 && b.pos.y < 100_000);
}
