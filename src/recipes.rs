//! The configuration of each enemy's encounter, the player's ship and the
//! player's weapons.
use vstd::prelude::*;
use crate::bullet::{Motion, Velocity};
use crate::combat::{weapon_wf, Ammo, Health, Life, Player, Weapon};
use crate::emitter::{
    emitter_wf, BulletSpawner, CircularAimedEmitter, CircularHomingEmitter, CircularWaveEmitter,
    DivisiveEmitter, Emitter, FloodEmitter, Pattern, RotatingSprayEmitter, SprayEmitter,
    TentacleEmitter, Timer,
};
use crate::config::{cards_ok, emitter_ok};
use crate::encounter::Enemy;
use crate::geometry::{Vec2i, HALF_TURN, PIXEL, TURN};
use crate::spellcard::Spellcard;

verus! {

/// The enemies that a mission can send.
#[derive(Clone, Copy, Debug, PartialEq, Eq, Structural)]
pub enum Enemies {
    RedGirl,
    Lizard,
    Tentacle,
    MoonGirl,
}

/// An enemy with its emitters and the spellcards that drive them.
pub struct EnemySetup {
    pub enemy: Enemy,
    pub emitters: Vec<Emitter>,
    pub spellcards: Vec<Spellcard>,
}

/// Every emitter is well formed, every spellcard lists only emitters that
/// exist, and every window is non-empty.
pub open spec fn setup_wf(s: EnemySetup) -> bool {
    &&& forall|i: int| 0 <= i < s.emitters@.len() ==> emitter_wf(#[trigger] s.emitters@[i])
    &&& forall|c: int| 0 <= c < s.spellcards@.len() ==> (#[trigger] s.spellcards@[c]).start_time < s.spellcards@[c].end_time
    &&& forall|c: int, j: int| 0 <= c < s.spellcards@.len() && 0 <= j < s.spellcards@[c].emitters@.len()
        ==> #[trigger] s.spellcards@[c].emitters@[j] < s.emitters@.len()
}

/// The enemy's starting health.
pub open spec fn starting_health(e: Enemies) -> u32 {
    match e {
        Enemies::RedGirl => 2000,
        Enemies::Lizard => 2000,
        Enemies::Tentacle => 1500,
        Enemies::MoonGirl => 5000,
    }
}

/// One second, in microseconds.
pub const SECOND: u64 = 1000000;

/// Where every enemy and its emitters stand.
pub const ENEMY_X: i64 = 200 * PIXEL;

/// The collider radius of enemy bullets: 5 pixels.
pub const ENEMY_BULLET_RADIUS: i64 = 5 * PIXEL;

fn anchor() -> (r: Vec2i)
    ensures
        r == (Vec2i { x: ENEMY_X, y: 0 }),
{
    Vec2i { x: ENEMY_X, y: 0 }
}

fn make_emitter(period: u64, spawner: BulletSpawner, pattern: Pattern) -> (r: Emitter)
    ensures
        r == (Emitter {
            timer: Timer { duration: period, elapsed: 0 },
            spawner,
            pattern,
            anchor: Vec2i { x: ENEMY_X, y: 0 },
            active: false,
        }),
{
    Emitter { timer: Timer { duration: period, elapsed: 0 }, spawner, pattern, anchor: anchor(), active: false }
}

fn card(ids: Vec<usize>, start: u64, end: u64) -> (r: Spellcard)
    requires
        start < end <= 1000,
    ensures
        r.emitters@ == ids@,
        r.start_time == start * SECOND,
        r.end_time == end * SECOND,
        r.start_time < r.end_time,
{
    Spellcard { emitters: ids, start_time: start * SECOND, end_time: end * SECOND }
}

fn ids(a: usize, b: Option<usize>) -> (r: Vec<usize>)
    ensures
        r@ == (match b {
            Some(b) => seq![a, b],
            None => seq![a],
        }),
{
    let mut v: Vec<usize> = Vec::new();
    v.push(a);
    match b {
        Some(b) => v.push(b),
        None => {},
    }
    proof {
        match b {
            Some(bb) => assert(v@ =~= seq![a, bb]),
            None => assert(v@ =~= seq![a]),
        }
    }
    v
}

fn speed(pixels: i64, angle: u32) -> (r: Velocity)
    requires
        0 <= pixels <= 100,
    ensures
        r == (Velocity { speed: (pixels * PIXEL) as i64, angle }),
{
    Velocity { speed: pixels * PIXEL, angle }
}

/// Each enemy's emitter patterns, in order. Lengths are in sub-pixel
/// units (16 to a pixel), angles in turn units.
pub open spec fn recipe_patterns(e: Enemies) -> Seq<Pattern> {
    match e {
        Enemies::RedGirl => seq![
            Pattern::CircularAimed(CircularAimedEmitter { offset: 0, count: 8 }),
            Pattern::CircularHoming(CircularHomingEmitter { offset: 2400, count: 4, idx: 0 }),
            Pattern::CircularAimed(CircularAimedEmitter { offset: 320, count: 48 }),
            Pattern::CircularAimed(CircularAimedEmitter { offset: 320, count: 48 }),
            Pattern::CircularWave(CircularWaveEmitter { offset: 2400, count: 6, rotation: 0, rotation_speed: 1043 }),
        ],
        Enemies::Tentacle => seq![
            Pattern::Spray(SprayEmitter { spray_width: 65536, firing_time: 5000000, firing_speed: 50000, count: 0 }),
            Pattern::Tentacle(TentacleEmitter { offset: 1600, count: 4 }),
            Pattern::Spray(SprayEmitter { spray_width: 4172, firing_time: 1000000, firing_speed: 10000, count: 0 }),
        ],
        Enemies::Lizard => seq![
            Pattern::Spray(SprayEmitter { spray_width: 16384, firing_time: 500000, firing_speed: 20000, count: 0 }),
            Pattern::RotatingSpray(RotatingSprayEmitter {
                spray_width: 16384,
                firing_time: 1000000,
                firing_speed: 10000,
                count: 0,
                rotation_speed: 8192,
                rotation: 0,
                spray_count: 2,
            }),
            Pattern::Spray(SprayEmitter { spray_width: 65536, firing_time: 5000000, firing_speed: 10000, count: 0 }),
        ],
        Enemies::MoonGirl => seq![
            Pattern::Divisive(DivisiveEmitter { columns: 19, rows: 11 }),
            Pattern::Flood(FloodEmitter { spray: 4096 }),
            Pattern::CircularAimed(CircularAimedEmitter { offset: 17920, count: 64 }),
            Pattern::RotatingSpray(RotatingSprayEmitter {
                spray_width: 16384,
                firing_time: 1000000,
                firing_speed: 10000,
                count: 0,
                rotation_speed: 8192,
                rotation: 0,
                spray_count: 2,
            }),
            Pattern::CircularAimed(CircularAimedEmitter { offset: 800, count: 24 }),
            Pattern::CircularAimed(CircularAimedEmitter { offset: 800, count: 24 }),
            Pattern::CircularAimed(CircularAimedEmitter { offset: 2400, count: 32 }),
        ],
    }
}

/// Each enemy's emitter timer periods, in microseconds, in order.
pub open spec fn recipe_periods(e: Enemies) -> Seq<u64> {
    match e {
        Enemies::RedGirl => seq![50000u64, 250000, 1500000, 1500000, 100000],
        Enemies::Tentacle => seq![5000000u64, 50000, 1400000],
        Enemies::Lizard => seq![1000000u64, 1000000, 5000000],
        Enemies::MoonGirl => seq![50000u64, 10000, 1500000, 1000000, 50000, 50000, 4000000],
    }
}

/// Each enemy's spellcards: window start and end in microseconds, and the
/// emitters each drives.
pub open spec fn recipe_cards(e: Enemies) -> Seq<(u64, u64, Seq<usize>)> {
    match e {
        Enemies::RedGirl => seq![
            (0u64, 25000000u64, seq![0usize, 1]),
            (25000000u64, 45000000u64, seq![2usize, 3]),
            (45000000u64, 70000000u64, seq![4usize]),
        ],
        Enemies::Tentacle | Enemies::Lizard => seq![
            (0u64, 25000000u64, seq![0usize]),
            (25000000u64, 45000000u64, seq![1usize]),
            (45000000u64, 70000000u64, seq![2usize]),
        ],
        Enemies::MoonGirl => seq![
            (0u64, 25000000u64, seq![0usize]),
            (25000000u64, 45000000u64, seq![1usize]),
            (45000000u64, 70000000u64, seq![3usize]),
            (70000000u64, 100000000u64, seq![4usize, 5]),
            (0u64, 45000000u64, seq![2usize]),
            (45000000u64, 100000000u64, seq![6usize]),
        ],
    }
}

/// The patterns of a list of emitters.
pub open spec fn patterns_of(es: Seq<Emitter>) -> Seq<Pattern> {
    es.map_values(|e: Emitter| e.pattern)
}

/// The timer periods of a list of emitters.
pub open spec fn periods_of(es: Seq<Emitter>) -> Seq<u64> {
    es.map_values(|e: Emitter| e.timer.duration)
}

/// The windows and members of a list of spellcards.
pub open spec fn windows_of(cs: Seq<Spellcard>) -> Seq<(u64, u64, Seq<usize>)> {
    cs.map_values(|c: Spellcard| (c.start_time, c.end_time, c.emitters@))
}

/// Sets up the encounter with `enemy`: the enemy at its starting health,
/// its emitters (all inactive at first) and its spellcards, which loop
/// over 70 seconds, or 100 for the moon girl.
pub fn spawn_enemy(enemy: Enemies) -> (r: EnemySetup)
    ensures
        setup_wf(r),
        r.enemy.health == Health(starting_health(enemy)),
        r.enemy.pos == (Vec2i { x: ENEMY_X, y: 0 }),
        forall|i: int| 0 <= i < r.emitters@.len() ==> !(#[trigger] r.emitters@[i]).active,
        forall|i: int| 0 <= i < r.emitters@.len() ==> emitter_ok(#[trigger] r.emitters@[i]),
        forall|i: int| 0 <= i < r.emitters@.len() ==> (#[trigger] r.emitters@[i]).timer.duration > 0,
        cards_ok(r.spellcards@, r.emitters@.len() as int),
        patterns_of(r.emitters@) == recipe_patterns(enemy),
        periods_of(r.emitters@) == recipe_periods(enemy),
        windows_of(r.spellcards@) == recipe_cards(enemy),
        r.spellcards@.len() == (if enemy == Enemies::MoonGirl { 6int } else { 3 }),
        r.emitters@.len() == (match enemy {
            Enemies::RedGirl => 5int,
            Enemies::Lizard => 3,
            Enemies::Tentacle => 3,
            Enemies::MoonGirl => 7,
        }),
{
    let bullet = BulletSpawner::new(ENEMY_BULLET_RADIUS);
    let mut emitters: Vec<Emitter> = Vec::new();
    let mut cards: Vec<Spellcard> = Vec::new();
    let health: u32 = match enemy {
        Enemies::RedGirl => {
            emitters.push(make_emitter(SECOND / 20, bullet.normal(speed(4, 0)).rotation(Vec2i { x: 0, y: 0 }, 0),
                Pattern::CircularAimed(CircularAimedEmitter { offset: 0, count: 8 })));
            emitters.push(make_emitter(SECOND / 4, bullet.normal(speed(2, 0)).homing(4 * SECOND, TURN / 8),
                Pattern::CircularHoming(CircularHomingEmitter { offset: 150 * PIXEL, count: 4, idx: 0 })));
            emitters.push(make_emitter(3 * SECOND / 2, bullet.normal(speed(2, 0)).rotation(Vec2i { x: 0, y: 0 }, 1024),
                Pattern::CircularAimed(CircularAimedEmitter { offset: 20 * PIXEL, count: 48 })));
            emitters.push(make_emitter(3 * SECOND / 2, bullet.normal(speed(2, 0)).rotation(Vec2i { x: 0, y: 0 }, -1024),
                Pattern::CircularAimed(CircularAimedEmitter { offset: 20 * PIXEL, count: 48 })));
            emitters.push(make_emitter(SECOND / 10, bullet.normal(speed(2, 0)).wave(10430, speed(2, 0)),
                Pattern::CircularWave(CircularWaveEmitter { offset: 150 * PIXEL, count: 6, rotation: 0, rotation_speed: 1043 })));
            cards.push(card(ids(0, Some(1)), 0, 25));
            cards.push(card(ids(2, Some(3)), 25, 45));
            cards.push(card(ids(4, None), 45, 70));
            proof {
                assert(patterns_of(emitters@) =~= recipe_patterns(enemy));
                assert(periods_of(emitters@) =~= recipe_periods(enemy));
                assert(windows_of(cards@) =~= recipe_cards(enemy));
            }
            2000
        },
        Enemies::Tentacle => {
            emitters.push(make_emitter(5 * SECOND, bullet.normal(speed(4, 0)),
                Pattern::Spray(SprayEmitter { spray_width: TURN, firing_time: 5 * SECOND, firing_speed: SECOND / 20, count: 0 })));
            emitters.push(make_emitter(SECOND / 20, bullet.normal(speed(4, 0)),
                Pattern::Tentacle(TentacleEmitter { offset: 100 * PIXEL, count: 4 })));
            emitters.push(make_emitter(7 * SECOND / 5, bullet.normal(speed(4, 0)),
                Pattern::Spray(SprayEmitter { spray_width: 4172, firing_time: SECOND, firing_speed: SECOND / 100, count: 0 })));
            cards.push(card(ids(0, None), 0, 25));
            cards.push(card(ids(1, None), 25, 45));
            cards.push(card(ids(2, None), 45, 70));
            proof {
                assert(patterns_of(emitters@) =~= recipe_patterns(enemy));
                assert(periods_of(emitters@) =~= recipe_periods(enemy));
                assert(windows_of(cards@) =~= recipe_cards(enemy));
            }
            1500
        },
        Enemies::Lizard => {
            emitters.push(make_emitter(SECOND, bullet.normal(speed(4, 0)),
                Pattern::Spray(SprayEmitter { spray_width: TURN / 4, firing_time: SECOND / 2, firing_speed: SECOND / 50, count: 0 })));
            emitters.push(make_emitter(SECOND, bullet.normal(speed(4, 0)),
                Pattern::RotatingSpray(RotatingSprayEmitter {
                    spray_width: TURN / 4,
                    firing_time: SECOND,
                    firing_speed: SECOND / 100,
                    count: 0,
                    rotation_speed: 8192,
                    rotation: 0,
                    spray_count: 2,
                })));
            emitters.push(make_emitter(5 * SECOND, bullet.normal(speed(4, 0)).rotation(Vec2i { x: ENEMY_X, y: 0 }, 4096),
                Pattern::Spray(SprayEmitter { spray_width: TURN, firing_time: 5 * SECOND, firing_speed: SECOND / 100, count: 0 })));
            cards.push(card(ids(0, None), 0, 25));
            cards.push(card(ids(1, None), 25, 45));
            cards.push(card(ids(2, None), 45, 70));
            proof {
                assert(patterns_of(emitters@) =~= recipe_patterns(enemy));
                assert(periods_of(emitters@) =~= recipe_periods(enemy));
                assert(windows_of(cards@) =~= recipe_cards(enemy));
            }
            2000
        },
        Enemies::MoonGirl => {
            emitters.push(make_emitter(SECOND / 20, bullet.normal(speed(5, 0)),
                Pattern::Divisive(DivisiveEmitter { columns: 19, rows: 11 })));
            emitters.push(make_emitter(SECOND / 100, bullet.normal(speed(5, HALF_TURN)),
                Pattern::Flood(FloodEmitter { spray: TURN / 16 })));
            emitters.push(make_emitter(3 * SECOND / 2, bullet.normal(speed(2, HALF_TURN)).rotation(Vec2i { x: 0, y: 0 }, 1024),
                Pattern::CircularAimed(CircularAimedEmitter { offset: 1120 * PIXEL, count: 64 })));
            emitters.push(make_emitter(SECOND, bullet.normal(speed(4, 0)),
                Pattern::RotatingSpray(RotatingSprayEmitter {
                    spray_width: TURN / 4,
                    firing_time: SECOND,
                    firing_speed: SECOND / 100,
                    count: 0,
                    rotation_speed: 8192,
                    rotation: 0,
                    spray_count: 2,
                })));
            emitters.push(make_emitter(SECOND / 20, bullet.normal(speed(4, 0)).rotation(Vec2i { x: 0, y: 0 }, 4096),
                Pattern::CircularAimed(CircularAimedEmitter { offset: 50 * PIXEL, count: 24 })));
            emitters.push(make_emitter(SECOND / 20, bullet.normal(speed(4, 0)).rotation(Vec2i { x: 0, y: 0 }, -4096),
                Pattern::CircularAimed(CircularAimedEmitter { offset: 50 * PIXEL, count: 24 })));
            emitters.push(make_emitter(4 * SECOND, bullet.normal(speed(4, 0)).stutter(SECOND, speed(4, 0), false).homing(3 * SECOND, TURN / 3),
                Pattern::CircularAimed(CircularAimedEmitter { offset: 150 * PIXEL, count: 32 })));
            cards.push(card(ids(0, None), 0, 25));
            cards.push(card(ids(1, None), 25, 45));
            cards.push(card(ids(3, None), 45, 70));
            cards.push(card(ids(4, Some(5)), 70, 100));
            cards.push(card(ids(2, None), 0, 45));
            cards.push(card(ids(6, None), 45, 100));
            proof {
                assert(patterns_of(emitters@) =~= recipe_patterns(enemy));
                assert(periods_of(emitters@) =~= recipe_periods(enemy));
                assert(windows_of(cards@) =~= recipe_cards(enemy));
            }
            5000
        },
    };
    EnemySetup {
        enemy: Enemy { pos: anchor(), radius: 150 * PIXEL, health: Health(health) },
        emitters,
        spellcards: cards,
    }
}

/// The player's ship at the start of an encounter: three lives, a
/// collider of 7.5 pixels, 6.5 pixels per tick.
pub fn spawn_player() -> (r: Player)
    ensures
        r == (Player {
            pos: Vec2i { x: 6400, y: 4800 },
            radius: 120,
            lives: Life(3),
            ammo: Ammo(1000),
            speed: 104,
            invulnerability: None,
        }),
{
    Player {
        pos: Vec2i { x: 400 * PIXEL, y: 300 * PIXEL },
        radius: 120,
        lives: Life(3),
        ammo: Ammo(1000),
        speed: 104,
        invulnerability: None,
    }
}

fn player_gun(period: u64, radius: i64, alt: bool) -> (r: Weapon)
    requires
        0 <= radius <= 100 * PIXEL,
    ensures
        weapon_wf(r),
        r.timer == (Timer { duration: period, elapsed: 0 }),
        r.radius == radius,
        r.alt == alt,
        r.salted,
        r.motion.normal == Some(crate::bullet::NormalBullet { velocity: Velocity { speed: 320, angle: HALF_TURN } }),
{
    Weapon {
        timer: Timer { duration: period, elapsed: 0 },
        ammo_cost: 0,
        radius,
        offset: Vec2i { x: 0, y: 0 },
        motion: Motion {
            normal: Some(crate::bullet::NormalBullet { velocity: speed(20, HALF_TURN) }),
            rotation: None,
            homing: None,
            stutter: None,
            wave: None,
        },
        salted: true,
        alt,
    }
}

/// The main gun: a small salted bullet every twentieth of a second.
pub fn make_cannon() -> (r: Weapon)
    ensures
        weapon_wf(r),
        r.timer == (Timer { duration: SECOND / 20, elapsed: 0 }),
        r.radius == 6 * PIXEL,
        !r.alt,
        r.salted,
{
    player_gun(SECOND / 20, 6 * PIXEL, false)
}

/// The alternative gun: a large salted bullet every half second.
pub fn make_cannon2() -> (r: Weapon)
    ensures
        weapon_wf(r),
        r.timer == (Timer { duration: SECOND / 2, elapsed: 0 }),
        r.radius == 100 * PIXEL,
        r.alt,
        r.salted,
{
    player_gun(SECOND / 2, 100 * PIXEL, true)
}

} // verus!
