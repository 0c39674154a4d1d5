//! Emitters: timed spawners that lay out volleys of enemy projectiles after
//! a pattern.
use vstd::prelude::*;
use crate::bullet::{
    aged, motion_wf, per_tick, projectile_wf, rate_per_tick, velocity_wf, DelayedBullet,
    HomingBullet, Motion, NormalBullet, Owner, Projectile, RotatingBullet, StutterBullet, Velocity,
    WaveBullet, MAX_DELTA,
};
use crate::geometry::{
    add_angle, angle_toward, direction_of, in_world, is_length, polar, polar_of, shift, shifted,
    turn_add, Vec2i, HALF_TURN, MAX_LENGTH, PIXEL, QUARTER_TURN, TURN,
};

verus! {

/// The projectile template of an emitter: a collider radius, an offset from
/// the emitter, and the motion kinds that every spawned projectile carries.
#[derive(Clone, Copy, Debug, PartialEq, Eq, Structural)]
pub struct BulletSpawner {
    pub radius: i64,
    pub offset: Vec2i,
    pub motion: Motion,
    pub delayed: Option<DelayedBullet>,
}

pub open spec fn spawner_wf(t: BulletSpawner) -> bool {
    &&& 0 <= t.radius <= MAX_LENGTH
    &&& in_world(t.offset)
    &&& motion_wf(t.motion)
    &&& (t.delayed matches Some(d) ==> 0 <= d.radius <= MAX_LENGTH && motion_wf(d.motion))
}

/// `v` with its heading turned by `turn`.
pub open spec fn turned_velocity(v: Velocity, turn: int) -> Velocity {
    Velocity { angle: turn_add(v.angle as int, turn) as u32, ..v }
}

/// The template's motion for a projectile placed at angle `turn` by an
/// emitter at `anchor`: straight and wave velocities turn with it, and a
/// rotation circles about a point relative to the emitter.
pub open spec fn placed_motion(m: Motion, turn: int, anchor: Vec2i) -> Motion {
    Motion {
        normal: match m.normal {
            Some(n) => Some(NormalBullet { velocity: turned_velocity(n.velocity, turn) }),
            None => None,
        },
        rotation: match m.rotation {
            Some(r) => Some(RotatingBullet { origin: shifted(r.origin, anchor), ..r }),
            None => None,
        },
        wave: match m.wave {
            Some(w) => Some(WaveBullet { true_velocity: turned_velocity(w.true_velocity, turn), ..w }),
            None => None,
        },
        ..m
    }
}

/// The enemy projectile that template `t` gives at `pos`, turned by `turn`.
pub open spec fn spawned(t: BulletSpawner, pos: Vec2i, turn: int, anchor: Vec2i) -> Projectile {
    Projectile {
        pos,
        radius: t.radius,
        owner: Owner::Enemy,
        lifetime: 0,
        salted: None,
        phasing: None,
        motion: placed_motion(t.motion, turn, anchor),
        delayed: t.delayed,
    }
}

fn turn_velocity(v: Velocity, turn: u32) -> (r: Velocity)
    requires
        velocity_wf(v),
    ensures
        r == turned_velocity(v, turn as int),
        velocity_wf(r),
{
    Velocity { angle: add_angle(v.angle, turn as i64), ..v }
}

fn spawn_from(t: &BulletSpawner, pos: Vec2i, turn: u32, anchor: Vec2i) -> (r: Projectile)
    requires
        spawner_wf(*t),
        in_world(pos),
        in_world(anchor),
    ensures
        r == spawned(*t, pos, turn as int, anchor),
        projectile_wf(r),
{
    let m = t.motion;
    let normal = match m.normal {
        Some(n) => Some(NormalBullet { velocity: turn_velocity(n.velocity, turn) }),
        None => None,
    };
    let rotation = match m.rotation {
        Some(r) => Some(RotatingBullet { origin: shift(r.origin, anchor), ..r }),
        None => None,
    };
    let wave = match m.wave {
        Some(w) => Some(WaveBullet { true_velocity: turn_velocity(w.true_velocity, turn), ..w }),
        None => None,
    };
    Projectile {
        pos,
        radius: t.radius,
        owner: Owner::Enemy,
        lifetime: 0,
        salted: None,
        phasing: None,
        motion: Motion { normal, rotation, wave, ..m },
        delayed: t.delayed,
    }
}

impl BulletSpawner {
    /// A template of the given collider radius, with no motion kind.
    pub fn new(radius: i64) -> (r: BulletSpawner)
        ensures
            r == (BulletSpawner {
                radius,
                offset: Vec2i { x: 0, y: 0 },
                motion: Motion { normal: None, rotation: None, homing: None, stutter: None, wave: None },
                delayed: None,
            }),
    {
        BulletSpawner {
            radius,
            offset: Vec2i { x: 0, y: 0 },
            motion: Motion { normal: None, rotation: None, homing: None, stutter: None, wave: None },
            delayed: None,
        }
    }

    /// The template with straight flight at `velocity`.
    pub fn normal(self, velocity: Velocity) -> (r: BulletSpawner)
        ensures
            r == (BulletSpawner { motion: Motion { normal: Some(NormalBullet { velocity }), ..self.motion }, ..self }),
    {
        BulletSpawner { motion: Motion { normal: Some(NormalBullet { velocity }), ..self.motion }, ..self }
    }

    /// The template circling about `origin`, relative to the emitter.
    pub fn rotation(self, origin: Vec2i, rotation_speed: i64) -> (r: BulletSpawner)
        ensures
            r == (BulletSpawner {
                motion: Motion { rotation: Some(RotatingBullet { origin, rotation_speed }), ..self.motion },
                ..self
            }),
    {
        BulletSpawner {
            motion: Motion { rotation: Some(RotatingBullet { origin, rotation_speed }), ..self.motion },
            ..self
        }
    }

    /// The template seeking the player.
    pub fn homing(self, seeking_time: u64, rotation_speed: u32) -> (r: BulletSpawner)
        ensures
            r == (BulletSpawner {
                motion: Motion { homing: Some(HomingBullet { rotation_speed, seeking_time }), ..self.motion },
                ..self
            }),
    {
        BulletSpawner {
            motion: Motion { homing: Some(HomingBullet { rotation_speed, seeking_time }), ..self.motion },
            ..self
        }
    }

    /// The template standing still before it flies.
    pub fn stutter(self, wait_time: u64, initial_velocity: Velocity, has_started: bool) -> (r: BulletSpawner)
        ensures
            r == (BulletSpawner {
                motion: Motion {
                    stutter: Some(StutterBullet { wait_time, initial_velocity, has_started }),
                    ..self.motion
                },
                ..self
            }),
    {
        BulletSpawner {
            motion: Motion {
                stutter: Some(StutterBullet { wait_time, initial_velocity, has_started }),
                ..self.motion
            },
            ..self
        }
    }

    /// The template swinging about `true_velocity`.
    pub fn wave(self, sine_mod: i64, true_velocity: Velocity) -> (r: BulletSpawner)
        ensures
            r == (BulletSpawner {
                motion: Motion { wave: Some(WaveBullet { sine_mod, true_velocity }), ..self.motion },
                ..self
            }),
    {
        BulletSpawner {
            motion: Motion { wave: Some(WaveBullet { sine_mod, true_velocity }), ..self.motion },
            ..self
        }
    }

    /// The template as a carrier of a delayed projectile.
    pub fn delayed(self, delayed: DelayedBullet) -> (r: BulletSpawner)
        ensures
            r == (BulletSpawner { delayed: Some(delayed), ..self }),
    {
        BulletSpawner { delayed: Some(delayed), ..self }
    }
}

/// The angle of slot `k` of a ring of `n` evenly spaced slots: `k` turns
/// over `n`, reduced to one turn.
pub open spec fn ring_angle(k: int, n: int) -> int {
    (k * TURN / n) % (TURN as int)
}

fn ring_angle_exec(k: usize, n: usize) -> (r: u32)
    requires
        n > 0,
    ensures
        r == ring_angle(k as int, n as int),
        r < TURN,
{
    assert(0 <= k * TURN) by (nonlinear_arith) requires k >= 0;
    let a: u128 = (k as u128 * TURN as u128) / n as u128;
    (a % TURN as u128) as u32
}

/// The point at distance `radius` and angle `angle` from the emitter's
/// spawn point.
pub open spec fn ring_point(anchor: Vec2i, t: BulletSpawner, radius: int, angle: int) -> Vec2i {
    shifted(shifted(anchor, t.offset), polar_of(radius, angle))
}

fn ring_point_exec(anchor: Vec2i, t: &BulletSpawner, radius: i64, angle: u32) -> (r: Vec2i)
    requires
        in_world(anchor),
        spawner_wf(*t),
        is_length(radius as int),
    ensures
        r == ring_point(anchor, *t, radius as int, angle as int),
        in_world(r),
{
    shift(shift(anchor, t.offset), polar(radius, angle))
}

/// A ring of `count` projectiles at distance `offset` from the emitter.
#[derive(Clone, Copy, Debug, PartialEq, Eq, Structural)]
pub struct CircularAimedEmitter {
    pub offset: i64,
    pub count: usize,
}

/// A ring that fires one slot per volley, in round-robin order.
#[derive(Clone, Copy, Debug, PartialEq, Eq, Structural)]
pub struct CircularHomingEmitter {
    pub offset: i64,
    pub count: usize,
    pub idx: usize,
}

/// A ring that turns by `rotation_speed` after each volley: a spiral.
#[derive(Clone, Copy, Debug, PartialEq, Eq, Structural)]
pub struct CircularWaveEmitter {
    pub offset: i64,
    pub count: usize,
    pub rotation: u32,
    pub rotation_speed: u32,
}

/// A ring whose projectiles each carry a delayed homing projectile.
#[derive(Clone, Copy, Debug, PartialEq, Eq, Structural)]
pub struct TentacleEmitter {
    pub offset: i64,
    pub count: usize,
}

/// The projectile of ring slot `k` of `count`.
pub open spec fn ring_bullet(t: BulletSpawner, anchor: Vec2i, radius: int, angle: int) -> Projectile {
    spawned(t, ring_point(anchor, t, radius, angle), angle, anchor)
}

/// A CircularAimed volley: projectile `k` of `count` sits at angle
/// `ring_angle(k, count)` on the ring, and its velocity is the template's
/// turned by that same angle.
pub fn circular_aimed_volley(t: &BulletSpawner, anchor: Vec2i, circ: &CircularAimedEmitter) -> (r: Vec<Projectile>)
    requires
        spawner_wf(*t),
        in_world(anchor),
        is_length(circ.offset as int),
    ensures
        r@.len() == circ.count,
        forall|k: int| 0 <= k < circ.count ==> #[trigger] r@[k] == ring_bullet(
            *t,
            anchor,
            circ.offset as int,
            ring_angle(k, circ.count as int),
        ),
        forall|k: int| 0 <= k < circ.count ==> projectile_wf(#[trigger] r@[k]),
{
    let mut out: Vec<Projectile> = Vec::new();
    let mut k: usize = 0;
    while k < circ.count
        invariant
            k <= circ.count,
            out@.len() == k,
            spawner_wf(*t),
            in_world(anchor),
            is_length(circ.offset as int),
            forall|j: int| 0 <= j < k ==> #[trigger] out@[j] == ring_bullet(
                *t,
                anchor,
                circ.offset as int,
                ring_angle(j, circ.count as int),
            ),
            forall|j: int| 0 <= j < k ==> projectile_wf(#[trigger] out@[j]),
        decreases circ.count - k,
    {
        let a = ring_angle_exec(k, circ.count);
        let pos = ring_point_exec(anchor, t, circ.offset, a);
        out.push(spawn_from(t, pos, a, anchor));
        k = k + 1;
    }
    out
}

/// The round-robin slot after `i`: the next one, wrapping at 4.
pub open spec fn next_slot(i: int) -> int {
    if i + 1 == 4 {
        0
    } else {
        i + 1
    }
}

/// A CircularHoming volley: the one projectile of the current slot; the
/// slot then moves on.
pub fn circular_homing_volley(t: &BulletSpawner, anchor: Vec2i, circ: &mut CircularHomingEmitter) -> (r: Projectile)
    requires
        spawner_wf(*t),
        in_world(anchor),
        is_length(old(circ).offset as int),
        old(circ).count > 0,
        old(circ).idx < 4,
    ensures
        r == ring_bullet(*t, anchor, old(circ).offset as int, ring_angle(old(circ).idx as int, old(circ).count as int)),
        projectile_wf(r),
        final(circ).idx == next_slot(old(circ).idx as int),
        final(circ).offset == old(circ).offset,
        final(circ).count == old(circ).count,
{
    let a = ring_angle_exec(circ.idx, circ.count);
    let pos = ring_point_exec(anchor, t, circ.offset, a);
    let b = spawn_from(t, pos, a, anchor);
    circ.idx = circ.idx + 1;
    if circ.idx == 4 {
        circ.idx = 0;
    }
    b
}

/// The angle of slot `k` of a wave ring turned by `rotation`.
pub open spec fn wave_angle(k: int, count: int, rotation: int) -> int {
    turn_add(ring_angle(k, count), rotation)
}

/// A CircularWave volley: the ring turned by the current rotation, which
/// then grows by the rotation speed.
pub fn circular_wave_volley(t: &BulletSpawner, anchor: Vec2i, circ: &mut CircularWaveEmitter) -> (r: Vec<Projectile>)
    requires
        spawner_wf(*t),
        in_world(anchor),
        is_length(old(circ).offset as int),
    ensures
        r@.len() == old(circ).count,
        forall|k: int| 0 <= k < old(circ).count ==> #[trigger] r@[k] == ring_bullet(
            *t,
            anchor,
            old(circ).offset as int,
            wave_angle(k, old(circ).count as int, old(circ).rotation as int),
        ),
        forall|k: int| 0 <= k < old(circ).count ==> projectile_wf(#[trigger] r@[k]),
        final(circ).rotation == turn_add(old(circ).rotation as int, old(circ).rotation_speed as int),
        final(circ).offset == old(circ).offset,
        final(circ).count == old(circ).count,
        final(circ).rotation_speed == old(circ).rotation_speed,
{
    let mut out: Vec<Projectile> = Vec::new();
    let mut k: usize = 0;
    while k < circ.count
        invariant
            k <= circ.count,
            out@.len() == k,
            *circ == *old(circ),
            spawner_wf(*t),
            in_world(anchor),
            is_length(circ.offset as int),
            forall|j: int| 0 <= j < k ==> #[trigger] out@[j] == ring_bullet(
                *t,
                anchor,
                circ.offset as int,
                wave_angle(j, circ.count as int, circ.rotation as int),
            ),
            forall|j: int| 0 <= j < k ==> projectile_wf(#[trigger] out@[j]),
        decreases circ.count - k,
    {
        let a = add_angle(ring_angle_exec(k, circ.count), circ.rotation as i64);
        let pos = ring_point_exec(anchor, t, circ.offset, a);
        out.push(spawn_from(t, pos, a, anchor));
        k = k + 1;
    }
    circ.rotation = add_angle(circ.rotation, circ.rotation_speed as i64);
    out
}

/// Round-robin coverage: from any slot below 4 the next slot is the one
/// after it, wrapping at 4; from slot 0 four volleys visit 0, 1, 2, 3 and
/// come back to 0.
pub proof fn lemma_round_robin(i: int)
    requires
        0 <= i < 4,
    ensures
        next_slot(i) == (i + 1) % 4,
        0 <= next_slot(i) < 4,
        next_slot(0) == 1 && next_slot(1) == 2 && next_slot(2) == 3 && next_slot(3) == 0,
{
}

/// Spiral accumulation: the volley after a CircularWave volley sits at
/// angles that differ from the previous ones by exactly the rotation speed,
/// modulo a turn.
pub proof fn lemma_spiral_accumulation(k: int, count: int, rotation: int, speed: int)
    requires
        0 <= k < count,
    ensures
        wave_angle(k, count, turn_add(rotation, speed)) == turn_add(wave_angle(k, count, rotation), speed),
{
    let t = TURN as int;
    let r = ring_angle(k, count);
    vstd::arithmetic::div_mod::lemma_add_mod_noop_right(r, rotation + speed, t);
    vstd::arithmetic::div_mod::lemma_add_mod_noop_right((r + rotation) % t, speed, t);
    vstd::arithmetic::div_mod::lemma_add_mod_noop(r + rotation, speed, t);
    vstd::arithmetic::div_mod::lemma_mod_twice(r + rotation, t);
    vstd::arithmetic::div_mod::lemma_mod_twice(speed, t);
}

/// Relies on `rand::Rng::random_range` with the thread-local generator of
/// `rand::rng`: an inclusive range yields a value inside it; an empty range
/// would panic, which `requires` rules out.
#[verifier::external_body]
fn random_between(lo: i64, hi: i64) -> (r: i64)
    requires
        lo <= hi,
    ensures
        lo <= r <= hi,
{
    rand::Rng::random_range(&mut rand::rng(), lo..=hi)
}

/// How long a tentacle carrier waits before it deploys.
pub const TENTACLE_DELAY: u64 = 1000000;

/// How long a deployed tentacle projectile seeks the player.
pub const TENTACLE_SEEKING: u64 = 2000000;

/// The collider radius of a deployed tentacle projectile.
pub const TENTACLE_RADIUS: i64 = 80;

/// The homing projectile that a tentacle carrier with velocity `v` deploys:
/// it keeps the velocity and seeks the player for two seconds, turning up to
/// a full turn per second.
pub open spec fn tentacle_payload(v: Option<NormalBullet>) -> DelayedBullet {
    DelayedBullet {
        radius: TENTACLE_RADIUS,
        motion: Motion {
            normal: v,
            rotation: None,
            homing: Some(HomingBullet { rotation_speed: TURN, seeking_time: TENTACLE_SEEKING }),
            stutter: None,
            wave: None,
        },
        delay: TENTACLE_DELAY,
    }
}

/// A tentacle projectile: the ring projectile, carrying the payload.
pub open spec fn tentacle_bullet(t: BulletSpawner, anchor: Vec2i, radius: int, angle: int) -> Projectile {
    let b = ring_bullet(t, anchor, radius, angle);
    Projectile { delayed: Some(tentacle_payload(b.motion.normal)), ..b }
}

/// A Tentacle volley: a CircularAimed ring in which every projectile
/// carries a delayed homing projectile.
pub fn tentacle_volley(t: &BulletSpawner, anchor: Vec2i, circ: &TentacleEmitter) -> (r: Vec<Projectile>)
    requires
        spawner_wf(*t),
        in_world(anchor),
        is_length(circ.offset as int),
    ensures
        r@.len() == circ.count,
        forall|k: int| 0 <= k < circ.count ==> #[trigger] r@[k] == tentacle_bullet(
            *t,
            anchor,
            circ.offset as int,
            ring_angle(k, circ.count as int),
        ),
        forall|k: int| 0 <= k < circ.count ==> projectile_wf(#[trigger] r@[k]),
{
    let mut out: Vec<Projectile> = Vec::new();
    let mut k: usize = 0;
    while k < circ.count
        invariant
            k <= circ.count,
            out@.len() == k,
            spawner_wf(*t),
            in_world(anchor),
            is_length(circ.offset as int),
            forall|j: int| 0 <= j < k ==> #[trigger] out@[j] == tentacle_bullet(
                *t,
                anchor,
                circ.offset as int,
                ring_angle(j, circ.count as int),
            ),
            forall|j: int| 0 <= j < k ==> projectile_wf(#[trigger] out@[j]),
        decreases circ.count - k,
    {
        let a = ring_angle_exec(k, circ.count);
        let pos = ring_point_exec(anchor, t, circ.offset, a);
        let b = spawn_from(t, pos, a, anchor);
        let payload = DelayedBullet {
            radius: TENTACLE_RADIUS,
            motion: Motion {
                normal: b.motion.normal,
                rotation: None,
                homing: Some(HomingBullet { rotation_speed: TURN, seeking_time: TENTACLE_SEEKING }),
                stutter: None,
                wave: None,
            },
            delay: TENTACLE_DELAY,
        };
        out.push(Projectile { delayed: Some(payload), ..b });
        k = k + 1;
    }
    out
}

/// Width of the arena, in sub-pixel units.
pub const ARENA_WIDTH: i64 = 1920 * PIXEL;

/// Height of the arena, in sub-pixel units.
pub const ARENA_HEIGHT: i64 = 1080 * PIXEL;

/// A wall of projectiles: a row along the top edge and a column along the
/// right edge.
#[derive(Clone, Copy, Debug, PartialEq, Eq, Structural)]
pub struct DivisiveEmitter {
    pub columns: usize,
    pub rows: usize,
}

/// Projectile `k` of the top row: evenly spaced over the arena's width,
/// flying a quarter turn clockwise of the template's heading.
pub open spec fn column_bullet(t: BulletSpawner, k: int, columns: int) -> Projectile {
    let gap = (ARENA_WIDTH as int) / (columns + 1);
    let at = Vec2i { x: (-960 * PIXEL + gap * (k + 1)) as i64, y: (600 * PIXEL) as i64 };
    spawned(t, shifted(t.offset, at), 3 * QUARTER_TURN, Vec2i { x: 0, y: 0 })
}

/// Projectile `k` of the right column: evenly spaced over the arena's
/// height, flying a half turn from the template's heading.
pub open spec fn row_bullet(t: BulletSpawner, k: int, rows: int) -> Projectile {
    let gap = (ARENA_HEIGHT as int) / (rows + 1);
    let at = Vec2i { x: (1000 * PIXEL) as i64, y: (-540 * PIXEL + gap * (k + 1)) as i64 };
    spawned(t, shifted(t.offset, at), HALF_TURN as int, Vec2i { x: 0, y: 0 })
}

fn gap_offset(span: i64, n: usize, k: usize) -> (r: i64)
    requires
        0 < span <= ARENA_WIDTH,
        k < n,
    ensures
        r == (span as int) / (n + 1) * (k + 1),
        0 <= r <= span,
{
    let gap: u128 = span as u128 / (n as u128 + 1);
    assert(gap * (n + 1) <= span) by {
        let d = n + 1;
        vstd::arithmetic::div_mod::lemma_fundamental_div_mod(span as int, d);
        vstd::arithmetic::div_mod::lemma_mod_pos_bound(span as int, d);
        assert(gap == (span as int) / d);
        assert(gap * d == d * ((span as int) / d)) by (nonlinear_arith) requires gap == (span as int) / d;
    }
    assert(0 <= gap * (k + 1) <= gap * (n + 1)) by (nonlinear_arith)
        requires gap >= 0, 0 <= k < n;
    (gap * (k as u128 + 1)) as i64
}

/// A Divisive volley: the top row, then the right column.
pub fn divisive_volley(t: &BulletSpawner, div: &DivisiveEmitter) -> (r: Vec<Projectile>)
    requires
        spawner_wf(*t),
        div.columns + div.rows <= usize::MAX,
    ensures
        r@.len() == div.columns + div.rows,
        forall|k: int| 0 <= k < div.columns ==> #[trigger] r@[k] == column_bullet(*t, k, div.columns as int),
        forall|k: int| 0 <= k < div.rows ==> #[trigger] r@[div.columns + k] == row_bullet(*t, k, div.rows as int),
        forall|k: int| 0 <= k < r@.len() ==> projectile_wf(#[trigger] r@[k]),
{
    let origin = Vec2i { x: 0, y: 0 };
    let mut out: Vec<Projectile> = Vec::new();
    let mut k: usize = 0;
    while k < div.columns
        invariant
            k <= div.columns,
            out@.len() == k,
            spawner_wf(*t),
            origin == (Vec2i { x: 0, y: 0 }),
            forall|j: int| 0 <= j < k ==> #[trigger] out@[j] == column_bullet(*t, j, div.columns as int),
            forall|j: int| 0 <= j < out@.len() ==> projectile_wf(#[trigger] out@[j]),
        decreases div.columns - k,
    {
        let x = -960 * PIXEL + gap_offset(ARENA_WIDTH, div.columns, k);
        let pos = shift(t.offset, Vec2i { x, y: 600 * PIXEL });
        out.push(spawn_from(t, pos, 3 * QUARTER_TURN, origin));
        k = k + 1;
    }
    let mut k: usize = 0;
    while k < div.rows
        invariant
            k <= div.rows,
            out@.len() == div.columns + k,
            spawner_wf(*t),
            origin == (Vec2i { x: 0, y: 0 }),
            forall|j: int| 0 <= j < div.columns ==> #[trigger] out@[j] == column_bullet(*t, j, div.columns as int),
            forall|j: int| 0 <= j < k ==> #[trigger] out@[div.columns + j] == row_bullet(*t, j, div.rows as int),
            forall|j: int| 0 <= j < out@.len() ==> projectile_wf(#[trigger] out@[j]),
        decreases div.rows - k,
    {
        let y = -540 * PIXEL + gap_offset(ARENA_HEIGHT, div.rows, k);
        let pos = shift(t.offset, Vec2i { x: 1000 * PIXEL, y });
        out.push(spawn_from(t, pos, HALF_TURN, origin));
        k = k + 1;
    }
    out
}

/// A stream of projectiles aimed at the player, each turned by a random
/// angle within `spray_width`, one every `firing_speed` microseconds while
/// the timer is below `firing_time`. `count` holds the time not yet spent.
#[derive(Clone, Copy, Debug, PartialEq, Eq, Structural)]
pub struct SprayEmitter {
    pub spray_width: u32,
    pub firing_time: u64,
    pub firing_speed: u64,
    pub count: u64,
}

/// `spray_count` sprays spread evenly over a turn, the whole turning at
/// `rotation_speed` turn units per second.
#[derive(Clone, Copy, Debug, PartialEq, Eq, Structural)]
pub struct RotatingSprayEmitter {
    pub spray_width: u32,
    pub firing_time: u64,
    pub firing_speed: u64,
    pub count: u64,
    pub rotation_speed: i64,
    pub rotation: u32,
    pub spray_count: usize,
}

/// One projectile per volley at a random height of the right edge, turned
/// by a random angle within `spray`.
#[derive(Clone, Copy, Debug, PartialEq, Eq, Structural)]
pub struct FloodEmitter {
    pub spray: u32,
}

/// A random turn within a cone of the given width: at most half the width
/// either way.
pub open spec fn within_cone(offset: int, width: int) -> bool {
    -(width / 2) <= offset <= width / 2
}

fn cone_offset(width: u32) -> (r: i64)
    ensures
        within_cone(r as int, width as int),
{
    let half: i64 = (width / 2) as i64;
    random_between(-half, half)
}

/// A spray projectile: at the emitter's spawn point, heading along `aim`
/// turned by `offset`.
pub open spec fn spray_bullet(t: BulletSpawner, anchor: Vec2i, aim: int, offset: int) -> Projectile {
    let turn = turn_add(aim, offset);
    spawned(t, shifted(anchor, t.offset), turn, anchor)
}

/// The spray projectile for a given aim and offset.
pub fn spray_shot(t: &BulletSpawner, anchor: Vec2i, aim: u32, offset: i64) -> (r: Projectile)
    requires
        spawner_wf(*t),
        in_world(anchor),
        offset > i64::MIN,
    ensures
        r == spray_bullet(*t, anchor, aim as int, offset as int),
        projectile_wf(r),
{
    let turn = add_angle(aim, offset);
    spawn_from(t, shift(anchor, t.offset), turn, anchor)
}

/// The number of projectiles a stream owes after `elapsed` more
/// microseconds, and the time carried over.
pub open spec fn shots_owed(carry: int, elapsed: int, period: int) -> (int, int) {
    ((carry + elapsed) / period, (carry + elapsed) % period)
}

fn owe_shots(carry: u64, elapsed: u64, period: u64) -> (r: (u64, u64))
    requires
        period > 0,
        carry + elapsed <= u64::MAX,
    ensures
        r.0 == shots_owed(carry as int, elapsed as int, period as int).0,
        r.1 == shots_owed(carry as int, elapsed as int, period as int).1,
{
    let total = carry + elapsed;
    (total / period, total % period)
}

/// The heading from `from` toward `to`.
pub open spec fn aim_at(from: Vec2i, to: Vec2i) -> int {
    direction_of(Vec2i { x: (to.x - from.x) as i64, y: (to.y - from.y) as i64 })
}

/// `b` is a spray projectile along `aim`, turned by some angle within the
/// cone of the given width.
pub open spec fn is_spray_shot(b: Projectile, t: BulletSpawner, anchor: Vec2i, aim: int, width: int) -> bool {
    exists|o: int| within_cone(o, width) && b == spray_bullet(t, anchor, aim, o)
}

fn spray_stream(t: &BulletSpawner, anchor: Vec2i, aim: u32, width: u32, n: u64) -> (r: Vec<Projectile>)
    requires
        spawner_wf(*t),
        in_world(anchor),
    ensures
        r@.len() == n,
        forall|k: int| 0 <= k < n ==> is_spray_shot(#[trigger] r@[k], *t, anchor, aim as int, width as int),
        forall|k: int| 0 <= k < r@.len() ==> projectile_wf(#[trigger] r@[k]),
{
    let mut out: Vec<Projectile> = Vec::new();
    let mut k: u64 = 0;
    while k < n
        invariant
            k <= n,
            out@.len() == k,
            spawner_wf(*t),
            in_world(anchor),
            forall|j: int| 0 <= j < k ==> is_spray_shot(#[trigger] out@[j], *t, anchor, aim as int, width as int),
            forall|j: int| 0 <= j < out@.len() ==> projectile_wf(#[trigger] out@[j]),
        decreases n - k,
    {
        let o = cone_offset(width);
        let b = spray_shot(t, anchor, aim, o);
        out.push(b);
        assert(is_spray_shot(out@[k as int], *t, anchor, aim as int, width as int)) by {
            assert(within_cone(o as int, width as int) && out@[k as int] == spray_bullet(*t, anchor, aim as int, o as int));
        }
        k = k + 1;
    }
    out
}

/// `b` is a projectile of one of the `lobes` sprays of a rotating spray
/// turned by `rotation`.
pub open spec fn is_lobe_shot(b: Projectile, t: BulletSpawner, anchor: Vec2i, rotation: int, lobes: int, width: int) -> bool {
    exists|l: int| 0 <= l < lobes && is_spray_shot(b, t, anchor, turn_add(rotation, ring_angle(l, lobes)), width)
}

/// The flood projectile: at height `y` of the right edge, turned by
/// `offset`.
pub open spec fn flood_bullet(t: BulletSpawner, offset: int, y: int) -> Projectile {
    let pos = Vec2i { x: (920 * PIXEL) as i64, y: y as i64 };
    spawned(t, pos, turn_add(0, offset), Vec2i { x: 0, y: 0 })
}

/// The flood projectile for a given turn and height.
pub fn flood_shot(t: &BulletSpawner, offset: i64, y: i64) -> (r: Projectile)
    requires
        spawner_wf(*t),
        offset > i64::MIN,
        -ARENA_HEIGHT <= y <= ARENA_HEIGHT,
    ensures
        r == flood_bullet(*t, offset as int, y as int),
        projectile_wf(r),
{
    let pos = Vec2i { x: 920 * PIXEL, y };
    spawn_from(t, pos, add_angle(0, offset), Vec2i { x: 0, y: 0 })
}

/// A repeating countdown, in microseconds.
#[derive(Clone, Copy, Debug, PartialEq, Eq, Structural)]
pub struct Timer {
    pub duration: u64,
    pub elapsed: u64,
}

/// The pattern of an emitter, with its own state.
#[derive(Clone, Copy, Debug, PartialEq, Eq, Structural)]
pub enum Pattern {
    CircularAimed(CircularAimedEmitter),
    CircularHoming(CircularHomingEmitter),
    CircularWave(CircularWaveEmitter),
    Tentacle(TentacleEmitter),
    Divisive(DivisiveEmitter),
    Spray(SprayEmitter),
    RotatingSpray(RotatingSprayEmitter),
    Flood(FloodEmitter),
}

/// A positioned, timed source of projectiles. `active` is set by the
/// spellcards of the encounter.
#[derive(Clone, Copy, Debug, PartialEq, Eq, Structural)]
pub struct Emitter {
    pub timer: Timer,
    pub spawner: BulletSpawner,
    pub pattern: Pattern,
    pub anchor: Vec2i,
    pub active: bool,
}

/// The configuration rules of a pattern: ring radii in range, no ring or
/// spray of zero slots, no stream of period zero, the round-robin slot
/// below 4.
pub open spec fn pattern_wf(p: Pattern) -> bool {
    match p {
        Pattern::CircularAimed(c) => is_length(c.offset as int),
        Pattern::CircularHoming(c) => is_length(c.offset as int) && c.count > 0 && c.idx < 4,
        Pattern::CircularWave(c) => is_length(c.offset as int),
        Pattern::Tentacle(c) => is_length(c.offset as int),
        Pattern::Divisive(d) => d.columns + d.rows <= usize::MAX,
        Pattern::Spray(s) => 0 < s.firing_speed <= MAX_DELTA && s.count < s.firing_speed,
        Pattern::RotatingSpray(s) => 0 < s.firing_speed <= MAX_DELTA && s.count < s.firing_speed && is_length(
            s.rotation_speed as int,
        ),
        Pattern::Flood(_) => true,
    }
}

pub open spec fn emitter_wf(e: Emitter) -> bool {
    spawner_wf(e.spawner) && in_world(e.anchor) && pattern_wf(e.pattern)
}

/// The emitter's timer after a tick of `dt` reaches its duration.
pub open spec fn fires(e: Emitter, dt: int) -> bool {
    aged(e.timer.elapsed as int, dt) >= e.timer.duration
}

/// The volley of a discrete pattern whose timer has just run out.
pub open spec fn volley_ok(p: Pattern, t: BulletSpawner, anchor: Vec2i, r: Seq<Projectile>, next: Pattern) -> bool {
    match p {
        Pattern::CircularAimed(c) => {
            &&& r.len() == c.count
            &&& forall|k: int| 0 <= k < c.count ==> #[trigger] r[k] == ring_bullet(t, anchor, c.offset as int, ring_angle(k, c.count as int))
            &&& next == p
        },
        Pattern::CircularHoming(c) => {
            &&& r.len() == 1
            &&& r[0] == ring_bullet(t, anchor, c.offset as int, ring_angle(c.idx as int, c.count as int))
            &&& next == Pattern::CircularHoming(CircularHomingEmitter { idx: next_slot(c.idx as int) as usize, ..c })
        },
        Pattern::CircularWave(c) => {
            &&& r.len() == c.count
            &&& forall|k: int| 0 <= k < c.count ==> #[trigger] r[k] == ring_bullet(t, anchor, c.offset as int, wave_angle(k, c.count as int, c.rotation as int))
            &&& next == Pattern::CircularWave(CircularWaveEmitter { rotation: turn_add(c.rotation as int, c.rotation_speed as int) as u32, ..c })
        },
        Pattern::Tentacle(c) => {
            &&& r.len() == c.count
            &&& forall|k: int| 0 <= k < c.count ==> #[trigger] r[k] == tentacle_bullet(t, anchor, c.offset as int, ring_angle(k, c.count as int))
            &&& next == p
        },
        Pattern::Divisive(d) => {
            &&& r.len() == d.columns + d.rows
            &&& forall|k: int| 0 <= k < d.columns ==> #[trigger] r[k] == column_bullet(t, k, d.columns as int)
            &&& forall|k: int| 0 <= k < d.rows ==> #[trigger] r[d.columns + k] == row_bullet(t, k, d.rows as int)
            &&& next == p
        },
        Pattern::Flood(f) => {
            &&& r.len() == 1
            &&& exists|o: int, y: int| within_cone(o, f.spray as int) && -540 * PIXEL <= y <= 540 * PIXEL && r[0] == flood_bullet(t, o, y)
            &&& next == p
        },
        _ => true,
    }
}

/// The pattern fires once, on a timer.
pub open spec fn is_discrete(p: Pattern) -> bool {
    !(p is Spray) && !(p is RotatingSpray)
}

fn discrete_volley(p: Pattern, t: &BulletSpawner, anchor: Vec2i) -> (r: (Vec<Projectile>, Pattern))
    requires
        is_discrete(p),
        pattern_wf(p),
        spawner_wf(*t),
        in_world(anchor),
    ensures
        volley_ok(p, *t, anchor, r.0@, r.1),
        pattern_wf(r.1),
        forall|k: int| 0 <= k < r.0@.len() ==> projectile_wf(#[trigger] r.0@[k]),
{
    match p {
        Pattern::CircularAimed(c) => (circular_aimed_volley(t, anchor, &c), p),
        Pattern::CircularHoming(c) => {
            let mut c2 = c;
            let b = circular_homing_volley(t, anchor, &mut c2);
            let mut v: Vec<Projectile> = Vec::new();
            v.push(b);
            (v, Pattern::CircularHoming(c2))
        },
        Pattern::CircularWave(c) => {
            let mut c2 = c;
            let v = circular_wave_volley(t, anchor, &mut c2);
            (v, Pattern::CircularWave(c2))
        },
        Pattern::Tentacle(c) => (tentacle_volley(t, anchor, &c), p),
        Pattern::Divisive(d) => (divisive_volley(t, &d), p),
        Pattern::Flood(f) => {
            let o = cone_offset(f.spray);
            let y = random_between(-540 * PIXEL, 540 * PIXEL);
            let b = flood_shot(t, o, y);
            let mut v: Vec<Projectile> = Vec::new();
            v.push(b);
            assert(within_cone(o as int, f.spray as int) && -540 * PIXEL <= y <= 540 * PIXEL && v@[0] == flood_bullet(*t, o as int, y as int));
            (v, p)
        },
        _ => (Vec::new(), p),
    }
}

proof fn lemma_carry_split(x: int, y: int, d: int)
    requires
        0 <= x,
        0 <= y,
        0 < d,
    ensures
        x / d + (x % d + y) / d == (x + y) / d,
        (x % d + y) % d == (x + y) % d,
{
    vstd::arithmetic::div_mod::lemma_fundamental_div_mod(x, d);
    vstd::arithmetic::div_mod::lemma_fundamental_div_mod(x % d + y, d);
    vstd::arithmetic::div_mod::lemma_mod_pos_bound(x, d);
    vstd::arithmetic::div_mod::lemma_mod_pos_bound(x % d + y, d);
    let q = x / d + (x % d + y) / d;
    let r = (x % d + y) % d;
    assert(x + y == q * d + r) by (nonlinear_arith)
        requires
            x == d * (x / d) + x % d,
            x % d + y == d * ((x % d + y) / d) + r,
            q == x / d + (x % d + y) / d,
    ;
    vstd::arithmetic::div_mod::lemma_fundamental_div_mod_converse(x + y, d, q, r);
}

fn rotating_spray_volley(t: &BulletSpawner, anchor: Vec2i, s: &mut RotatingSprayEmitter, dt: u64) -> (r: Vec<Projectile>)
    requires
        spawner_wf(*t),
        in_world(anchor),
        0 < old(s).firing_speed <= MAX_DELTA,
        old(s).count < old(s).firing_speed,
        dt <= MAX_DELTA,
    ensures
        final(s).count < final(s).firing_speed,
        *final(s) == (RotatingSprayEmitter { count: final(s).count, ..*old(s) }),
        r@.len() == (old(s).count + old(s).spray_count * dt) / (old(s).firing_speed as int),
        final(s).count == (old(s).count + old(s).spray_count * dt) % (old(s).firing_speed as int),
        forall|k: int| 0 <= k < r@.len() ==> projectile_wf(#[trigger] r@[k]),
        forall|k: int| 0 <= k < r@.len() ==> is_lobe_shot(#[trigger] r@[k], *t, anchor, old(s).rotation as int, old(s).spray_count as int, old(s).spray_width as int),
{
    let mut out: Vec<Projectile> = Vec::new();
    proof {
        vstd::arithmetic::div_mod::lemma_basic_div(s.count as int, s.firing_speed as int);
        vstd::arithmetic::div_mod::lemma_small_mod(s.count as nat, s.firing_speed as nat);
    }
    let mut lobe: usize = 0;
    while lobe < s.spray_count
        invariant
            spawner_wf(*t),
            in_world(anchor),
            dt <= MAX_DELTA,
            lobe <= s.spray_count,
            0 < s.firing_speed <= MAX_DELTA,
            s.count < s.firing_speed,
            *s == (RotatingSprayEmitter { count: s.count, ..*old(s) }),
            out@.len() == (old(s).count + lobe * dt) / (old(s).firing_speed as int),
            s.count == (old(s).count + lobe * dt) % (old(s).firing_speed as int),
            forall|k: int| 0 <= k < out@.len() ==> projectile_wf(#[trigger] out@[k]),
            forall|k: int| 0 <= k < out@.len() ==> is_lobe_shot(#[trigger] out@[k], *t, anchor, old(s).rotation as int, old(s).spray_count as int, old(s).spray_width as int),
        decreases s.spray_count - lobe,
    {
        let (n, carry) = owe_shots(s.count, dt, s.firing_speed);
        proof {
            vstd::arithmetic::div_mod::lemma_mod_pos_bound(s.count + dt, s.firing_speed as int);
            lemma_carry_split(old(s).count + lobe * dt, dt as int, s.firing_speed as int);
            assert(lobe * dt + dt == (lobe + 1) * dt) by (nonlinear_arith);
        }
        s.count = carry;
        let aim = add_angle(s.rotation, ring_angle_exec(lobe, s.spray_count) as i64);
        let mut v = spray_stream(t, anchor, aim, s.spray_width, n);
        let ghost before = out@;
        let ghost vs = v@;
        out.append(&mut v);
        proof {
            assert forall|k: int| 0 <= k < out@.len() implies is_lobe_shot(#[trigger] out@[k], *t, anchor, old(s).rotation as int, old(s).spray_count as int, old(s).spray_width as int) by {
                if k >= before.len() {
                    assert(out@[k] == vs[k - before.len()]);
                    assert(is_spray_shot(out@[k], *t, anchor, turn_add(old(s).rotation as int, ring_angle(lobe as int, old(s).spray_count as int)), old(s).spray_width as int));
                } else {
                    assert(out@[k] == before[k]);
                }
            }
        }
        lobe = lobe + 1;
    }
    out
}

/// One tick of an emitter, with the player at `player`, turns `pre` into
/// `post` and yields the projectiles `r`. An inactive emitter does nothing.
/// An active one advances its timer; a discrete pattern fires its volley
/// when the timer runs out, and the timer starts over; a spray pattern
/// streams its projectiles while the timer is below its firing time,
/// carrying the unspent time over, and its timer starts over when it runs
/// out.
pub open spec fn emitter_step(pre: Emitter, dt: int, player: Vec2i, r: Seq<Projectile>, post: Emitter) -> bool {
    let el = aged(pre.timer.elapsed as int, dt);
    &&& emitter_wf(post)
    &&& forall|k: int| 0 <= k < r.len() ==> projectile_wf(#[trigger] r[k])
    &&& !pre.active ==> r.len() == 0 && post == pre
    &&& post.spawner == pre.spawner
    &&& post.anchor == pre.anchor
    &&& post.active == pre.active
    &&& post.timer.duration == pre.timer.duration
    &&& pre.active ==> post.timer.elapsed == if fires(pre, dt) {
        0
    } else {
        el
    }
    &&& pre.active && is_discrete(pre.pattern) && !fires(pre, dt) ==> r.len() == 0 && post.pattern == pre.pattern
    &&& pre.active && is_discrete(pre.pattern) && fires(pre, dt) ==> volley_ok(pre.pattern, pre.spawner, pre.anchor, r, post.pattern)
    &&& pre.active ==> (pre.pattern matches Pattern::Spray(s) ==> {
        let owed = shots_owed(s.count as int, dt, s.firing_speed as int);
        &&& el >= s.firing_time ==> r.len() == 0 && post.pattern == pre.pattern
        &&& el < s.firing_time ==> r.len() == owed.0 && post.pattern == Pattern::Spray(SprayEmitter { count: owed.1 as u64, ..s })
        &&& forall|k: int| 0 <= k < r.len() ==> is_spray_shot(#[trigger] r[k], pre.spawner, pre.anchor, aim_at(pre.anchor, player), s.spray_width as int)
    })
    &&& pre.active ==> (pre.pattern matches Pattern::RotatingSpray(s) ==> {
        let rotation = turn_add(s.rotation as int, per_tick(s.rotation_speed as int, dt)) as u32;
        let total = s.count + s.spray_count * dt;
        &&& el >= s.firing_time ==> r.len() == 0 && post.pattern == Pattern::RotatingSpray(RotatingSprayEmitter { rotation, ..s })
        &&& el < s.firing_time ==> r.len() == total / (s.firing_speed as int) && post.pattern == Pattern::RotatingSpray(
            RotatingSprayEmitter { rotation, count: (total % (s.firing_speed as int)) as u64, ..s },
        )
        &&& forall|k: int| 0 <= k < r.len() ==> is_lobe_shot(#[trigger] r[k], pre.spawner, pre.anchor, rotation as int, s.spray_count as int, s.spray_width as int)
    })
}

/// One tick of an emitter, with the player at `player`, as `emitter_step`
/// describes it.
pub fn tick_emitter(e: &mut Emitter, dt: u64, player: Vec2i) -> (r: Vec<Projectile>)
    requires
        emitter_wf(*old(e)),
        in_world(player),
        dt <= MAX_DELTA,
    ensures
        emitter_step(*old(e), dt as int, player, r@, *final(e)),
{
    if !e.active {
        return Vec::new();
    }
    let elapsed: u64 = if e.timer.elapsed > u64::MAX - dt { u64::MAX } else { e.timer.elapsed + dt };
    let done = elapsed >= e.timer.duration;
    let next_elapsed: u64 = if done { 0 } else { elapsed };
    let out = match e.pattern {
        Pattern::Spray(s) => {
            let mut s2 = s;
            let mut v: Vec<Projectile> = Vec::new();
            if elapsed < s.firing_time {
                let (n, carry) = owe_shots(s.count, dt, s.firing_speed);
                proof {
            vstd::arithmetic::div_mod::lemma_mod_pos_bound(s.count + dt, s.firing_speed as int);
        }
                s2.count = carry;
                let to_player = Vec2i { x: player.x - e.anchor.x, y: player.y - e.anchor.y };
                let aim = angle_toward(to_player);
                v = spray_stream(&e.spawner, e.anchor, aim, s.spray_width, n);
            }
            e.pattern = Pattern::Spray(s2);
            v
        },
        Pattern::RotatingSpray(s) => {
            let mut s2 = s;
            let a = rate_per_tick(s.rotation_speed, dt);
            s2.rotation = add_angle(s.rotation, a);
            let mut v: Vec<Projectile> = Vec::new();
            if elapsed < s.firing_time {
                v = rotating_spray_volley(&e.spawner, e.anchor, &mut s2, dt);
            }
            e.pattern = Pattern::RotatingSpray(s2);
            v
        },
        _ => {
            if done {
                let (v, next) = discrete_volley(e.pattern, &e.spawner, e.anchor);
                e.pattern = next;
                v
            } else {
                Vec::new()
            }
        },
    };
    e.timer.elapsed = next_elapsed;
    out
}

} // verus!
