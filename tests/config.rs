use danmaku::bullet::Velocity;
use danmaku::config::{validate_encounter, ConfigError};
use danmaku::emitter::{
    BulletSpawner, CircularAimedEmitter, CircularHomingEmitter, Emitter, FloodEmitter, Pattern, Timer,
};
use danmaku::geometry::{Vec2i, TURN};
use danmaku::recipes::{spawn_enemy, Enemies};
use danmaku::spellcard::Spellcard;

fn emitter(pattern: Pattern) -> Emitter {
    Emitter {
        timer: Timer { duration: 50_000, elapsed: 0 },
        spawner: BulletSpawner::new(80).normal(Velocity { speed: 64, angle: 0 }),
        pattern,
        anchor: Vec2i { x: 0, y: 0 },
        active: false,
    }
}

fn card(ids: Vec<usize>) -> Spellcard {
    Spellcard { emitters: ids, start_time: 0, end_time: 1_000_000 }
}

#[test]
fn recipes_pass_validation() {
    for e in [Enemies::RedGirl, Enemies::Lizard, Enemies::Tentacle, Enemies::MoonGirl] {
        let s = spawn_enemy(e);
        assert_eq!(validate_encounter(&s.emitters, &s.spellcards), Ok(()));
    }
}

#[test]
fn a_ring_of_zero_is_refused() {
    let es = vec![
        emitter(Pattern::Flood(FloodEmitter { spray: 10 })),
        emitter(Pattern::CircularAimed(CircularAimedEmitter { offset: 10, count: 0 })),
    ];
    assert_eq!(validate_encounter(&es, &vec![]), Err(ConfigError::EmptyRing(1)));
}

#[test]
fn an_out_of_range_emitter_is_refused() {
    let mut bad = emitter(Pattern::Flood(FloodEmitter { spray: 10 }));
    bad.spawner = bad.spawner.normal(Velocity { speed: 64, angle: TURN });
    let es = vec![emitter(Pattern::Flood(FloodEmitter { spray: 10 })), bad];
    assert_eq!(validate_encounter(&es, &vec![]), Err(ConfigError::BadEmitter(1)));
    let homing = emitter(Pattern::CircularHoming(CircularHomingEmitter { offset: 0, count: 4, idx: 4 }));
    assert_eq!(validate_encounter(&vec![homing], &vec![]), Err(ConfigError::BadEmitter(0)));
}

#[test]
fn a_dangling_spellcard_entry_is_refused() {
    let es = vec![emitter(Pattern::Flood(FloodEmitter { spray: 10 }))];
    let cards = vec![card(vec![0]), card(vec![0, 3])];
    assert_eq!(
        validate_encounter(&es, &cards),
        Err(ConfigError::DanglingEmitter { card: 1, id: 3 })
    );
    assert_eq!(validate_encounter(&es, &vec![card(vec![0])]), Ok(()));
}
