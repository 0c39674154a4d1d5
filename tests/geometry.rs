use danmaku::geometry::{
    add_angle, angle_toward, cosine, polar, rotate_about, shift, sine, steer, Circle, Rect, Vec2i,
    HALF_TURN, QUARTER_TURN, TRIG_ONE, TURN, WORLD_LIMIT,
};

fn v(x: i64, y: i64) -> Vec2i {
    Vec2i { x, y }
}

#[test]
fn sine_at_cardinal_angles() {
    assert_eq!(sine(0), 0);
    assert_eq!(sine(QUARTER_TURN), TRIG_ONE);
    assert_eq!(sine(HALF_TURN), 0);
    assert_eq!(sine(3 * QUARTER_TURN), -TRIG_ONE);
    assert_eq!(sine(TURN), 0);
    assert_eq!(cosine(0), TRIG_ONE);
    assert_eq!(cosine(QUARTER_TURN), 0);
    assert_eq!(cosine(HALF_TURN), -TRIG_ONE);
}

#[test]
fn sine_is_close_to_the_real_sine() {
    for a in (0..TURN).step_by(97) {
        let exact = (a as f64 / TURN as f64 * std::f64::consts::TAU).sin() * TRIG_ONE as f64;
        let approx = sine(a) as f64;
        assert!((exact - approx).abs() <= 0.002 * TRIG_ONE as f64, "angle {}", a);
    }
}

#[test]
fn sine_at_an_eighth_turn() {
    // 16 p / (5 h^2 - 4 p) with p = 8192 * 24576 and h = 32768, scaled.
    assert_eq!(sine(8192), 11565);
    assert_eq!(cosine(8192), 11565);
}

#[test]
fn add_angle_wraps_both_ways() {
    assert_eq!(add_angle(65000, 1000), 464);
    assert_eq!(add_angle(100, -200), 65436);
    assert_eq!(add_angle(0, -(TURN as i64) * 3), 0);
    assert_eq!(add_angle(5, 0), 5);
}

#[test]
fn polar_along_the_axes() {
    assert_eq!(polar(1000, 0), v(1000, 0));
    assert_eq!(polar(1000, QUARTER_TURN), v(0, 1000));
    assert_eq!(polar(1000, HALF_TURN), v(-1000, 0));
    assert_eq!(polar(1000, 3 * QUARTER_TURN), v(0, -1000));
}

#[test]
fn polar_rounds_toward_zero() {
    // 100 * 11565 / 16384 = 70.58...
    assert_eq!(polar(100, 8192), v(70, 70));
    assert_eq!(polar(100, HALF_TURN + 8192), v(-70, -70));
}

#[test]
fn shift_clamps_to_the_world() {
    assert_eq!(shift(v(1, 2), v(3, -4)), v(4, -2));
    assert_eq!(shift(v(WORLD_LIMIT, 0), v(10, 0)), v(WORLD_LIMIT, 0));
    assert_eq!(shift(v(-WORLD_LIMIT, 0), v(-10, 0)), v(-WORLD_LIMIT, 0));
}

#[test]
fn rotate_about_a_point() {
    assert_eq!(rotate_about(v(110, 10), v(10, 10), QUARTER_TURN), v(10, 110));
    assert_eq!(rotate_about(v(110, 10), v(10, 10), HALF_TURN), v(-90, 10));
    assert_eq!(rotate_about(v(110, 10), v(10, 10), 0), v(110, 10));
}

#[test]
fn angle_toward_cardinal_and_diagonal() {
    assert_eq!(angle_toward(v(5, 0)), 0);
    assert_eq!(angle_toward(v(0, 5)), QUARTER_TURN);
    assert_eq!(angle_toward(v(-5, 0)), HALF_TURN);
    assert_eq!(angle_toward(v(0, -5)), 3 * QUARTER_TURN);
    assert_eq!(angle_toward(v(7, 7)), 8192);
    assert_eq!(angle_toward(v(-7, -7)), HALF_TURN + 8192);
    assert_eq!(angle_toward(v(0, 0)), 0);
}

#[test]
fn angle_toward_is_close_to_atan2() {
    for &(x, y) in &[(3i64, 1i64), (-2, 9), (-100, -1), (40, -33), (1, 1000)] {
        let exact = (y as f64).atan2(x as f64).rem_euclid(std::f64::consts::TAU) / std::f64::consts::TAU
            * TURN as f64;
        let got = angle_toward(v(x, y)) as f64;
        let diff = (exact - got).abs().min(TURN as f64 - (exact - got).abs());
        assert!(diff < 200.0, "({}, {}): {} vs {}", x, y, got, exact);
    }
}

#[test]
fn steer_turns_by_at_most_the_step() {
    assert_eq!(steer(0, 100, 10), 10);
    assert_eq!(steer(0, 65000, 10), 65526);
    assert_eq!(steer(0, 5, 10), 5);
    assert_eq!(steer(100, 100, 10), 100);
    assert_eq!(steer(65530, 4, 100), 4);
}

#[test]
fn circles_touching_do_not_hit() {
    let a = Circle::new(5, v(0, 0));
    assert!(!a.hits(Circle::new(5, v(10, 0))));
    assert!(a.hits(Circle::new(5, v(9, 0))));
    assert!(a.hits(Circle::new(5, v(6, 7))));
    assert!(!a.hits(Circle::new(5, v(8, 7))));
    assert!(!Circle::new(0, v(0, 0)).hits(Circle::new(0, v(0, 0))));
}

#[test]
fn rect_contains_its_edges() {
    let r = Rect { min: v(-10, -5), max: v(10, 5) };
    assert!(r.contains(v(10, 5)));
    assert!(r.contains(v(-10, -5)));
    assert!(r.contains(v(0, 0)));
    assert!(!r.contains(v(11, 0)));
    assert!(!r.contains(v(0, -6)));
}
