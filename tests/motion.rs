use danmaku::bullet::{
    advance, DelayedBullet, HomingBullet, Motion, NormalBullet, Owner, Projectile, RotatingBullet,
    StutterBullet, Velocity, WaveBullet,
};
use danmaku::geometry::{Circle, Vec2i, QUARTER_TURN, TURN};
use danmaku::store::BulletStore;

const SECOND: u64 = 1_000_000;

fn still() -> Motion {
    Motion { normal: None, rotation: None, homing: None, stutter: None, wave: None }
}

fn at(x: i64, y: i64, motion: Motion) -> Projectile {
    Projectile {
        pos: Vec2i { x, y },
        radius: 80,
        owner: Owner::Enemy,
        lifetime: 0,
        salted: None,
        phasing: None,
        motion,
        delayed: None,
    }
}

fn straight(speed: i64, angle: u32) -> Option<NormalBullet> {
    Some(NormalBullet { velocity: Velocity { speed, angle } })
}

#[test]
fn normal_bullets_move_by_their_velocity() {
    let b = at(0, 0, Motion { normal: straight(10, QUARTER_TURN), ..still() });
    let (b, d) = advance(b, 15_625, Vec2i { x: 0, y: 0 });
    assert!(d.is_none());
    assert_eq!(b.pos, Vec2i { x: 0, y: 10 });
    assert_eq!(b.lifetime, 15_625);
}

#[test]
fn rotating_bullets_circle_their_origin() {
    let rot = Some(RotatingBullet { origin: Vec2i { x: 0, y: 0 }, rotation_speed: (TURN / 4) as i64 });
    let b = at(100, 0, Motion { rotation: rot, ..still() });
    let (b, _) = advance(b, SECOND, Vec2i { x: 0, y: 0 });
    assert_eq!(b.pos, Vec2i { x: 0, y: 100 });
    let c = at(100, 0, Motion { rotation: rot, normal: straight(0, 0), ..still() });
    let (c, _) = advance(c, SECOND / 2, Vec2i { x: 0, y: 0 });
    assert_eq!(c.motion.normal.unwrap().velocity.angle, TURN / 8);
}

#[test]
fn stutter_waits_then_starts_once() {
    let s = StutterBullet { wait_time: SECOND, initial_velocity: Velocity { speed: 50, angle: 0 }, has_started: false };
    let mut b = at(0, 0, Motion { normal: straight(0, 0), stutter: Some(s), ..still() });
    for _ in 0..9 {
        b = advance(b, SECOND / 10, Vec2i { x: 0, y: 0 }).0;
        assert_eq!(b.pos, Vec2i { x: 0, y: 0 });
    }
    b = advance(b, SECOND / 10, Vec2i { x: 0, y: 0 }).0;
    assert!(b.motion.stutter.unwrap().has_started);
    assert_eq!(b.pos, Vec2i { x: 50, y: 0 });
    b = advance(b, SECOND / 10, Vec2i { x: 0, y: 0 }).0;
    assert_eq!(b.pos, Vec2i { x: 100, y: 0 });
}

#[test]
fn wave_swings_the_heading() {
    let w = WaveBullet { sine_mod: 4096, true_velocity: Velocity { speed: 10, angle: 0 } };
    let b = at(0, 0, Motion { wave: Some(w), ..still() });
    let (b, _) = advance(b, SECOND / 4, Vec2i { x: 0, y: 0 });
    assert_eq!(b.motion.normal.unwrap().velocity.angle, 4096);
    let (b, _) = advance(b, SECOND / 2, Vec2i { x: 0, y: 0 });
    assert_eq!(b.motion.normal.unwrap().velocity.angle, TURN - 4096);
}

#[test]
fn homing_stops_at_its_deadline() {
    let homing = Some(HomingBullet { rotation_speed: TURN / 8, seeking_time: 5 * SECOND });
    let mut b = at(0, 0, Motion { normal: straight(10, 0), homing, ..still() });
    let player = Vec2i { x: 0, y: 100_000 };
    b = advance(b, SECOND / 10, player).0;
    assert_eq!(b.motion.normal.unwrap().velocity.angle, 819);
    for _ in 1..49 {
        b = advance(b, SECOND / 10, player).0;
    }
    assert_eq!(b.lifetime, 4_900_000);
    let at_4_9 = b.motion.normal.unwrap().velocity.angle;
    assert_ne!(at_4_9, 0);
    assert!(at_4_9 > 8000 && at_4_9 < QUARTER_TURN + 100);
    b = advance(b, SECOND / 10, player).0;
    b = advance(b, SECOND / 10, player).0;
    assert_eq!(b.lifetime, 5_100_000);
    let frozen = b.motion.normal.unwrap().velocity.angle;
    for k in 0..10 {
        let elsewhere = Vec2i { x: -50_000 + 10_000 * k, y: -100_000 };
        b = advance(b, SECOND / 10, elsewhere).0;
        assert_eq!(b.motion.normal.unwrap().velocity.angle, frozen);
    }
}

#[test]
fn homing_turns_the_short_way() {
    let homing = Some(HomingBullet { rotation_speed: TURN, seeking_time: 5 * SECOND });
    let b = at(0, 0, Motion { normal: straight(0, 0), homing, ..still() });
    let (b, _) = advance(b, SECOND / 100, Vec2i { x: 0, y: -1000 });
    assert_eq!(b.motion.normal.unwrap().velocity.angle, TURN - 655);
}

fn carrier() -> Projectile {
    let inner = DelayedBullet {
        radius: 80,
        motion: Motion { normal: straight(7, 0), ..still() },
        delay: SECOND,
    };
    let mut b = at(0, 0, Motion { normal: straight(10, 0), ..still() });
    b.delayed = Some(inner);
    b
}

#[test]
fn delayed_bullet_deploys_exactly_once_at_its_delay() {
    let mut s = BulletStore::new();
    s.spawn(carrier());
    let player = Vec2i { x: 0, y: 0 };
    for tick in 1..10 {
        s.move_bullets(SECOND / 10, player);
        assert_eq!(s.len(), 1, "tick {}", tick);
        assert!(s.entries[0].bullet.delayed.is_some());
        let pos = s.entries[0].bullet.pos;
        assert!(s.check_enemy_bullets(Circle::new(1000, pos)).is_empty());
    }
    s.move_bullets(SECOND / 10, player);
    assert_eq!(s.len(), 1);
    let e = s.entries[0];
    assert_eq!(e.handle, 1);
    assert!(e.bullet.delayed.is_none());
    assert_eq!(e.bullet.pos, Vec2i { x: 100, y: 0 });
    assert_eq!(e.bullet.lifetime, 0);
    assert_eq!(s.check_enemy_bullets(Circle::new(10, e.bullet.pos)).len(), 1);
    for _ in 0..20 {
        s.move_bullets(SECOND / 10, player);
        assert_eq!(s.len(), 1);
        assert_eq!(s.entries[0].handle, 1);
    }
    assert_eq!(s.entries[0].bullet.pos, Vec2i { x: 240, y: 0 });
}
