//! Projectiles and their motion kinds, and how one projectile advances by
//! one simulation tick.
use vstd::prelude::*;
use crate::geometry::{
    arc_gap, lemma_direction_range, lemma_steer_approaches, add_angle, angle_toward, direction_of, in_world, is_length, polar, polar_of, rotate_about,
    rotated_about, scale_by, shift, shifted, sine, sine_of, steer, steered, trunc_div, turn_add,
    Vec2i, MAX_LENGTH, TURN,
};

verus! {

/// Microseconds in one second: the unit of every time value.
pub const MICROS_PER_SECOND: u64 = 1000000;

/// The longest tick, in microseconds.
pub const MAX_DELTA: u64 = 1073741824;

/// Who fired a projectile.
#[derive(Clone, Copy, Debug, PartialEq, Eq, Structural)]
pub enum Owner {
    Player,
    Enemy,
}

/// A velocity: a speed, in sub-pixel units per tick, along a heading.
#[derive(Clone, Copy, Debug, PartialEq, Eq, Structural)]
pub struct Velocity {
    pub speed: i64,
    pub angle: u32,
}

/// Straight flight at the velocity held here.
#[derive(Clone, Copy, Debug, PartialEq, Eq, Structural)]
pub struct NormalBullet {
    pub velocity: Velocity,
}

/// Circling about `origin`, in turn units per second (signed).
#[derive(Clone, Copy, Debug, PartialEq, Eq, Structural)]
pub struct RotatingBullet {
    pub origin: Vec2i,
    pub rotation_speed: i64,
}

/// Steering toward the player at `rotation_speed` turn units per second,
/// while the projectile is younger than `seeking_time` microseconds.
#[derive(Clone, Copy, Debug, PartialEq, Eq, Structural)]
pub struct HomingBullet {
    pub rotation_speed: u32,
    pub seeking_time: u64,
}

/// Standing still for `wait_time` microseconds, then flying at
/// `initial_velocity`, once.
#[derive(Clone, Copy, Debug, PartialEq, Eq, Structural)]
pub struct StutterBullet {
    pub wait_time: u64,
    pub initial_velocity: Velocity,
    pub has_started: bool,
}

/// Flying along `true_velocity` with a heading that swings by up to
/// `sine_mod` turn units, once a second.
#[derive(Clone, Copy, Debug, PartialEq, Eq, Structural)]
pub struct WaveBullet {
    pub sine_mod: i64,
    pub true_velocity: Velocity,
}

/// The motion kinds of one projectile; each is applied when present.
#[derive(Clone, Copy, Debug, PartialEq, Eq, Structural)]
pub struct Motion {
    pub normal: Option<NormalBullet>,
    pub rotation: Option<RotatingBullet>,
    pub homing: Option<HomingBullet>,
    pub stutter: Option<StutterBullet>,
    pub wave: Option<WaveBullet>,
}

/// An inert carrier: after `delay` microseconds it is replaced by a fresh
/// projectile of the given radius and motion, at its own position.
#[derive(Clone, Copy, Debug, PartialEq, Eq, Structural)]
pub struct DelayedBullet {
    pub radius: i64,
    pub motion: Motion,
    pub delay: u64,
}

/// Marks a player bullet that also destroys the enemy bullet it meets.
#[derive(Clone, Copy, Debug, PartialEq, Eq, Structural)]
pub struct Salted;

/// Marks a bullet that takes part in no collision.
#[derive(Clone, Copy, Debug, PartialEq, Eq, Structural)]
pub struct Phasing;

/// A live projectile.
#[derive(Clone, Copy, Debug, PartialEq, Eq, Structural)]
pub struct Projectile {
    pub pos: Vec2i,
    pub radius: i64,
    pub owner: Owner,
    pub lifetime: u64,
    pub salted: Option<Salted>,
    pub phasing: Option<Phasing>,
    pub motion: Motion,
    pub delayed: Option<DelayedBullet>,
}

pub open spec fn velocity_wf(v: Velocity) -> bool {
    0 <= v.speed <= MAX_LENGTH && v.angle < TURN
}

pub open spec fn motion_wf(m: Motion) -> bool {
    &&& (m.normal matches Some(n) ==> velocity_wf(n.velocity))
    &&& (m.rotation matches Some(r) ==> in_world(r.origin) && is_length(r.rotation_speed as int))
    &&& (m.stutter matches Some(s) ==> velocity_wf(s.initial_velocity))
    &&& (m.wave matches Some(w) ==> velocity_wf(w.true_velocity) && is_length(w.sine_mod as int))
}

/// The invariant of a projectile: its position lies in the world, its
/// lengths and headings are in range.
pub open spec fn projectile_wf(p: Projectile) -> bool {
    &&& in_world(p.pos)
    &&& 0 <= p.radius <= MAX_LENGTH
    &&& motion_wf(p.motion)
    &&& (p.delayed matches Some(d) ==> 0 <= d.radius <= MAX_LENGTH && motion_wf(d.motion))
}

/// A carrier that has not deployed yet: it neither shows nor collides.
pub open spec fn is_carrier(p: Projectile) -> bool {
    p.delayed is Some
}

/// A rate per second applied over `dt` microseconds, rounded toward zero.
pub open spec fn per_tick(rate: int, dt: int) -> int {
    trunc_div(rate * dt, MICROS_PER_SECOND as int)
}

pub(crate) fn rate_per_tick(rate: i64, dt: u64) -> (r: i64)
    requires
        is_length(rate as int),
        dt <= MAX_DELTA,
    ensures
        r == per_tick(rate as int, dt as int),
        -MAX_LENGTH * MAX_DELTA <= r <= MAX_LENGTH * MAX_DELTA,
{
    let d: i64 = dt as i64;
    assert(-MAX_LENGTH * MAX_DELTA <= rate * d <= MAX_LENGTH * MAX_DELTA) by (nonlinear_arith)
        requires
            is_length(rate as int),
            0 <= d <= MAX_DELTA,
    ;
    let n: i64 = rate * d;
    let m: i64 = MICROS_PER_SECOND as i64;
    if n >= 0 {
        n / m
    } else {
        -((-n) / m)
    }
}

/// The lifetime after a tick of `dt`, held at `u64::MAX`.
pub open spec fn aged(lifetime: int, dt: int) -> int {
    if lifetime + dt > u64::MAX {
        u64::MAX as int
    } else {
        lifetime + dt
    }
}

/// The stutter stage: a waiting projectile starts once its lifetime reaches
/// the wait time, taking the initial velocity.
pub open spec fn stutter_stage(p: Projectile) -> Projectile {
    match p.motion.stutter {
        Some(s) => if !s.has_started && p.lifetime >= s.wait_time {
            Projectile {
                motion: Motion {
                    normal: Some(NormalBullet { velocity: s.initial_velocity }),
                    stutter: Some(StutterBullet { has_started: true, ..s }),
                    ..p.motion
                },
                ..p
            }
        } else {
            p
        },
        None => p,
    }
}

/// A stutter projectile that has not started stands still.
pub open spec fn is_waiting(p: Projectile) -> bool {
    p.motion.stutter matches Some(s) && !s.has_started
}

/// The normal stage: the position moves by the velocity.
pub open spec fn normal_stage(p: Projectile) -> Projectile {
    match p.motion.normal {
        Some(n) => if is_waiting(p) {
            p
        } else {
            Projectile { pos: shifted(p.pos, polar_of(n.velocity.speed as int, n.velocity.angle as int)), ..p }
        },
        None => p,
    }
}

/// The rotating stage: the position turns about the origin, and the
/// velocity's heading turns with it.
pub open spec fn rotating_stage(p: Projectile, dt: int) -> Projectile {
    match p.motion.rotation {
        Some(r) => {
            let a = per_tick(r.rotation_speed as int, dt);
            let pos = rotated_about(p.pos, r.origin, turn_add(0, a));
            let normal = match p.motion.normal {
                Some(n) => Some(NormalBullet {
                    velocity: Velocity { angle: turn_add(n.velocity.angle as int, a) as u32, ..n.velocity },
                }),
                None => None,
            };
            Projectile { pos, motion: Motion { normal, ..p.motion }, ..p }
        },
        None => p,
    }
}

/// The fraction of the current second of `lifetime`, as an angle.
pub open spec fn wave_phase(lifetime: int) -> int {
    ((lifetime % (MICROS_PER_SECOND as int)) * TURN) / (MICROS_PER_SECOND as int)
}

/// The wave stage: the velocity is the true velocity, its heading swung by
/// the amplitude times the sine of the phase.
pub open spec fn wave_stage(p: Projectile) -> Projectile {
    match p.motion.wave {
        Some(w) => {
            let swing = scale_by(w.sine_mod as int, sine_of(wave_phase(p.lifetime as int)));
            let velocity = Velocity {
                angle: turn_add(w.true_velocity.angle as int, swing) as u32,
                ..w.true_velocity
            };
            Projectile { motion: Motion { normal: Some(NormalBullet { velocity }), ..p.motion }, ..p }
        },
        None => p,
    }
}

/// The largest turn of a homing projectile in one tick.
pub open spec fn homing_step(rate: int, dt: int) -> int {
    let s = per_tick(rate, dt);
    if s > TURN { TURN as int } else { s }
}

/// The homing stage: while the projectile is younger than its seeking time,
/// its heading turns toward the player by at most the step of this tick.
pub open spec fn homing_stage(p: Projectile, dt: int, player: Vec2i) -> Projectile {
    match (p.motion.homing, p.motion.normal) {
        (Some(h), Some(n)) => if p.lifetime < h.seeking_time {
            let to_player = Vec2i { x: (player.x - p.pos.x) as i64, y: (player.y - p.pos.y) as i64 };
            let target = direction_of(to_player);
            let angle = steered(n.velocity.angle as int, target, homing_step(h.rotation_speed as int, dt));
            Projectile {
                motion: Motion {
                    normal: Some(NormalBullet { velocity: Velocity { angle: angle as u32, ..n.velocity } }),
                    ..p.motion
                },
                ..p
            }
        } else {
            p
        },
        _ => p,
    }
}


/// The projectile carried by `d`, deployed at the carrier's position.
pub open spec fn deployed_from(p: Projectile, d: DelayedBullet) -> Projectile {
    Projectile {
        pos: p.pos,
        radius: d.radius,
        owner: p.owner,
        lifetime: 0,
        salted: None,
        phasing: None,
        motion: d.motion,
        delayed: None,
    }
}

/// A projectile after one tick of `dt` microseconds, with the player at
/// `player`: its lifetime grows, then the stutter, normal, rotating, wave and
/// homing stages apply in this order.
pub open spec fn advanced(p: Projectile, dt: int, player: Vec2i) -> Projectile {
    let p1 = Projectile { lifetime: aged(p.lifetime as int, dt) as u64, ..p };
    homing_stage(wave_stage(rotating_stage(normal_stage(stutter_stage(p1)), dt)), dt, player)
}

/// What the tick deploys: for a carrier whose lifetime has reached its
/// delay, the carried projectile; otherwise nothing.
pub open spec fn deployment(p: Projectile, dt: int, player: Vec2i) -> Option<Projectile> {
    let q = advanced(p, dt, player);
    match q.delayed {
        Some(d) => if q.lifetime >= d.delay {
            Some(deployed_from(q, d))
        } else {
            None
        },
        None => None,
    }
}

fn stutter_step(p: Projectile) -> (r: Projectile)
    requires
        projectile_wf(p),
    ensures
        r == stutter_stage(p),
        projectile_wf(r),
{
    match p.motion.stutter {
        Some(s) => {
            if !s.has_started && p.lifetime >= s.wait_time {
                Projectile {
                    motion: Motion {
                        normal: Some(NormalBullet { velocity: s.initial_velocity }),
                        stutter: Some(StutterBullet { has_started: true, ..s }),
                        ..p.motion
                    },
                    ..p
                }
            } else {
                p
            }
        },
        None => p,
    }
}

fn normal_step(p: Projectile) -> (r: Projectile)
    requires
        projectile_wf(p),
    ensures
        r == normal_stage(p),
        projectile_wf(r),
{
    match p.motion.normal {
        Some(n) => {
            let waiting = match p.motion.stutter {
                Some(s) => !s.has_started,
                None => false,
            };
            if waiting {
                p
            } else {
                let d = polar(n.velocity.speed, n.velocity.angle);
                Projectile { pos: shift(p.pos, d), ..p }
            }
        },
        None => p,
    }
}

fn rotating_step(p: Projectile, dt: u64) -> (r: Projectile)
    requires
        projectile_wf(p),
        dt <= MAX_DELTA,
    ensures
        r == rotating_stage(p, dt as int),
        projectile_wf(r),
{
    match p.motion.rotation {
        Some(rot) => {
            let a = rate_per_tick(rot.rotation_speed, dt);
            let turn = add_angle(0, a);
            let pos = rotate_about(p.pos, rot.origin, turn);
            let normal = match p.motion.normal {
                Some(n) => Some(
                    NormalBullet {
                        velocity: Velocity { angle: add_angle(n.velocity.angle, a), ..n.velocity },
                    },
                ),
                None => None,
            };
            Projectile { pos, motion: Motion { normal, ..p.motion }, ..p }
        },
        None => p,
    }
}

fn wave_step(p: Projectile) -> (r: Projectile)
    requires
        projectile_wf(p),
    ensures
        r == wave_stage(p),
        projectile_wf(r),
{
    match p.motion.wave {
        Some(w) => {
            let m: u64 = MICROS_PER_SECOND;
            let phase: u64 = ((p.lifetime % m) * (TURN as u64)) / m;
            assert(phase < TURN) by {
                assert((p.lifetime % m) * (TURN as u64) < m * TURN) by (nonlinear_arith)
                    requires p.lifetime % m < m, m > 0;
                vstd::arithmetic::div_mod::lemma_div_is_ordered(
                    (p.lifetime % m) * (TURN as u64) as int, m * TURN - 1, m as int);
                vstd::arithmetic::div_mod::lemma_div_multiples_vanish(TURN as int, m as int);
                vstd::arithmetic::div_mod::lemma_div_is_ordered(
                    m * TURN - 1, m * TURN, m as int);
                vstd::arithmetic::div_mod::lemma_div_minus_one(m * TURN, m as int);
            }
            let sn = sine(phase as u32);
            let amp = w.sine_mod;
            assert(-MAX_LENGTH * 16384 <= amp * sn <= MAX_LENGTH * 16384) by (nonlinear_arith)
                requires is_length(amp as int), -16384 <= sn <= 16384;
            let prod: i64 = amp * sn;
            let swing: i64 = if prod >= 0 { prod / 16384 } else { -((-prod) / 16384) };
            let velocity = Velocity {
                angle: add_angle(w.true_velocity.angle, swing),
                ..w.true_velocity
            };
            Projectile { motion: Motion { normal: Some(NormalBullet { velocity }), ..p.motion }, ..p }
        },
        None => p,
    }
}

fn homing_step_exec(rate: u32, dt: u64) -> (r: u32)
    requires
        dt <= MAX_DELTA,
    ensures
        r == homing_step(rate as int, dt as int),
{
    assert(0 <= rate * dt <= 4294967296 * MAX_DELTA) by (nonlinear_arith)
        requires 0 <= rate < 4294967296, 0 <= dt <= MAX_DELTA;
    let s: u64 = (rate as u64 * dt) / MICROS_PER_SECOND;
    if s > TURN as u64 {
        TURN
    } else {
        s as u32
    }
}

fn homing_step_stage(p: Projectile, dt: u64, player: Vec2i) -> (r: Projectile)
    requires
        projectile_wf(p),
        in_world(player),
        dt <= MAX_DELTA,
    ensures
        r == homing_stage(p, dt as int, player),
        projectile_wf(r),
{
    match (p.motion.homing, p.motion.normal) {
        (Some(h), Some(n)) => {
            if p.lifetime < h.seeking_time {
                let to_player = Vec2i { x: player.x - p.pos.x, y: player.y - p.pos.y };
                let target = angle_toward(to_player);
                let step = homing_step_exec(h.rotation_speed, dt);
                let angle = steer(n.velocity.angle, target, step);
                Projectile {
                    motion: Motion {
                        normal: Some(NormalBullet { velocity: Velocity { angle, ..n.velocity } }),
                        ..p.motion
                    },
                    ..p
                }
            } else {
                p
            }
        },
        _ => p,
    }
}

/// Advances one projectile by a tick of `dt` microseconds, with the player
/// at `player`. Returns the projectile after the tick and, for a carrier
/// whose delay has passed, the projectile that replaces it.
pub fn advance(p: Projectile, dt: u64, player: Vec2i) -> (r: (Projectile, Option<Projectile>))
    requires
        projectile_wf(p),
        in_world(player),
        dt <= MAX_DELTA,
    ensures
        r.0 == advanced(p, dt as int, player),
        r.1 == deployment(p, dt as int, player),
        projectile_wf(r.0),
        r.1 matches Some(q) ==> projectile_wf(q),
{
    let lifetime: u64 = if p.lifetime > u64::MAX - dt { u64::MAX } else { p.lifetime + dt };
    let p1 = Projectile { lifetime, ..p };
    let p2 = stutter_step(p1);
    let p3 = normal_step(p2);
    let p4 = rotating_step(p3, dt);
    let p5 = wave_step(p4);
    let q = homing_step_stage(p5, dt, player);
    let deployed = match q.delayed {
        Some(d) => {
            if q.lifetime >= d.delay {
                Some(
                    Projectile {
                        pos: q.pos,
                        radius: d.radius,
                        owner: q.owner,
                        lifetime: 0,
                        salted: None,
                        phasing: None,
                        motion: d.motion,
                        delayed: None,
                    },
                )
            } else {
                None
            }
        },
        None => None,
    };
    (q, deployed)
}

/// Homing deadline: once a homing projectile's lifetime has reached its
/// seeking time, a tick no longer depends on where the player is, and a
/// projectile that only flies straight and homes keeps its velocity.
pub proof fn lemma_homing_deadline(p: Projectile, dt: int, a: Vec2i, b: Vec2i)
    requires
        p.motion.homing matches Some(h) && aged(p.lifetime as int, dt) >= h.seeking_time,
    ensures
        advanced(p, dt, a) == advanced(p, dt, b),
        p.motion.rotation is None && p.motion.wave is None && p.motion.stutter is None
            ==> advanced(p, dt, a).motion == p.motion,
{
}

/// Homing before the deadline: while a homing projectile is younger than
/// its seeking time and may turn this tick, its heading ends the tick
/// strictly closer, along the shorter arc, to the direction of the player
/// from where it has moved, unless it already points there.
pub proof fn lemma_homing_turns_toward_player(p: Projectile, dt: int, player: Vec2i)
    requires
        projectile_wf(p),
        in_world(player),
        0 <= dt,
        p.motion.homing matches Some(h) && aged(p.lifetime as int, dt) < h.seeking_time && homing_step(
            h.rotation_speed as int,
            dt,
        ) > 0,
        p.motion.normal is Some,
        p.motion.rotation is None,
        p.motion.wave is None,
        p.motion.stutter is None,
    ensures
        ({
            let q = normal_stage(Projectile { lifetime: aged(p.lifetime as int, dt) as u64, ..p });
            let target = direction_of(Vec2i { x: (player.x - q.pos.x) as i64, y: (player.y - q.pos.y) as i64 });
            let before = p.motion.normal.unwrap().velocity.angle as int;
            let after = advanced(p, dt, player).motion.normal.unwrap().velocity.angle as int;
            before != target ==> arc_gap(after, target) < arc_gap(before, target)
        }),
{
    let q = normal_stage(Projectile { lifetime: aged(p.lifetime as int, dt) as u64, ..p });
    let v = Vec2i { x: (player.x - q.pos.x) as i64, y: (player.y - q.pos.y) as i64 };
    let target = direction_of(v);
    lemma_direction_range(v);
    let before = p.motion.normal.unwrap().velocity.angle as int;
    let step = homing_step(p.motion.homing.unwrap().rotation_speed as int, dt);
    if before != target {
        lemma_steer_approaches(before, target, step);
    }
}

/// Delayed deployment: a carrier deploys exactly when its lifetime reaches
/// its delay, and then into one projectile that carries nothing more, at
/// the carrier's position; it takes part in no collision before.
pub proof fn lemma_delayed_deployment(p: Projectile, dt: int, player: Vec2i)
    requires
        p.delayed matches Some(d),
        0 <= dt,
    ensures
        is_carrier(p),
        (deployment(p, dt, player) is Some) == (aged(p.lifetime as int, dt) >= p.delayed.unwrap().delay),
        deployment(p, dt, player) matches Some(q) ==> q.delayed is None && q.pos == advanced(p, dt, player).pos
            && q.lifetime == 0,
{
}

} // verus!
