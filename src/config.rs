//! Checks of an encounter's configuration, made once before its first
//! tick.
use vstd::prelude::*;
use crate::bullet::{motion_wf, velocity_wf, Motion, Velocity};
use crate::emitter::{emitter_wf, pattern_wf, spawner_wf, BulletSpawner, Emitter, Pattern};
use crate::geometry::{in_world, Vec2i, MAX_LENGTH, TURN, WORLD_LIMIT};
use crate::spellcard::Spellcard;

verus! {

/// Why a configuration is refused.
#[derive(Clone, Copy, Debug, PartialEq, Eq, Structural)]
pub enum ConfigError {
    /// The emitter at this index has a value out of range.
    BadEmitter(usize),
    /// The emitter at this index lays out a ring or spray of zero slots.
    EmptyRing(usize),
    /// The spellcard at index `card` lists an emitter that does not exist.
    DanglingEmitter { card: usize, id: usize },
}

/// The pattern divides a turn by its slot count.
pub open spec fn ring_slots(p: Pattern) -> Option<usize> {
    match p {
        Pattern::CircularAimed(c) => Some(c.count),
        Pattern::CircularHoming(c) => Some(c.count),
        Pattern::CircularWave(c) => Some(c.count),
        Pattern::Tentacle(c) => Some(c.count),
        Pattern::RotatingSpray(s) => Some(s.spray_count),
        _ => None,
    }
}

/// An emitter that a configuration may hold: well formed, and no ring of
/// zero slots.
pub open spec fn emitter_ok(e: Emitter) -> bool {
    emitter_wf(e) && !(ring_slots(e.pattern) == Some(0usize))
}

/// Every listed emitter of every spellcard exists.
pub open spec fn cards_ok(cards: Seq<Spellcard>, n: int) -> bool {
    forall|c: int, j: int| 0 <= c < cards.len() && 0 <= j < cards[c].emitters@.len()
        ==> #[trigger] cards[c].emitters@[j] < n
}

fn point_ok(v: Vec2i) -> (r: bool)
    ensures
        r == in_world(v),
{
    -WORLD_LIMIT <= v.x && v.x <= WORLD_LIMIT && -WORLD_LIMIT <= v.y && v.y <= WORLD_LIMIT
}

fn length_ok(len: i64) -> (r: bool)
    ensures
        r == (-MAX_LENGTH <= len <= MAX_LENGTH),
{
    -MAX_LENGTH <= len && len <= MAX_LENGTH
}

fn velocity_ok(v: Velocity) -> (r: bool)
    ensures
        r == velocity_wf(v),
{
    0 <= v.speed && v.speed <= MAX_LENGTH && v.angle < TURN
}

fn motion_ok(m: Motion) -> (r: bool)
    ensures
        r == motion_wf(m),
{
    let normal = match m.normal {
        Some(n) => velocity_ok(n.velocity),
        None => true,
    };
    let rotation = match m.rotation {
        Some(r) => point_ok(r.origin) && length_ok(r.rotation_speed),
        None => true,
    };
    let stutter = match m.stutter {
        Some(s) => velocity_ok(s.initial_velocity),
        None => true,
    };
    let wave = match m.wave {
        Some(w) => velocity_ok(w.true_velocity) && length_ok(w.sine_mod),
        None => true,
    };
    normal && rotation && stutter && wave
}

fn spawner_ok(t: &BulletSpawner) -> (r: bool)
    ensures
        r == spawner_wf(*t),
{
    let delayed = match t.delayed {
        Some(d) => 0 <= d.radius && d.radius <= MAX_LENGTH && motion_ok(d.motion),
        None => true,
    };
    0 <= t.radius && t.radius <= MAX_LENGTH && point_ok(t.offset) && motion_ok(t.motion) && delayed
}

fn pattern_ok(p: Pattern) -> (r: bool)
    ensures
        r == pattern_wf(p),
{
    match p {
        Pattern::CircularAimed(c) => length_ok(c.offset),
        Pattern::CircularHoming(c) => length_ok(c.offset) && c.count > 0 && c.idx < 4,
        Pattern::CircularWave(c) => length_ok(c.offset),
        Pattern::Tentacle(c) => length_ok(c.offset),
        Pattern::Divisive(d) => d.columns <= usize::MAX - d.rows,
        Pattern::Spray(s) => 0 < s.firing_speed && s.firing_speed <= crate::bullet::MAX_DELTA
            && s.count < s.firing_speed,
        Pattern::RotatingSpray(s) => 0 < s.firing_speed && s.firing_speed <= crate::bullet::MAX_DELTA
            && s.count < s.firing_speed && length_ok(s.rotation_speed),
        Pattern::Flood(_) => true,
    }
}

fn slots(p: Pattern) -> (r: Option<usize>)
    ensures
        r == ring_slots(p),
{
    match p {
        Pattern::CircularAimed(c) => Some(c.count),
        Pattern::CircularHoming(c) => Some(c.count),
        Pattern::CircularWave(c) => Some(c.count),
        Pattern::Tentacle(c) => Some(c.count),
        Pattern::RotatingSpray(s) => Some(s.spray_count),
        _ => None,
    }
}

/// Checks an encounter's emitters and spellcards. The first emitter that
/// is out of range or has an empty ring is reported; else the first
/// spellcard entry that names no emitter; else the configuration is
/// accepted.
pub fn validate_encounter(emitters: &Vec<Emitter>, cards: &Vec<Spellcard>) -> (r: Result<(), ConfigError>)
    ensures
        r is Ok <==> (forall|i: int| 0 <= i < emitters@.len() ==> emitter_ok(#[trigger] emitters@[i]))
            && cards_ok(cards@, emitters@.len() as int),
        r matches Err(ConfigError::BadEmitter(i)) ==> i < emitters@.len() && !emitter_wf(emitters@[i as int])
            && forall|k: int| 0 <= k < i ==> emitter_ok(#[trigger] emitters@[k]),
        r matches Err(ConfigError::EmptyRing(i)) ==> i < emitters@.len() && emitter_wf(emitters@[i as int])
            && ring_slots(emitters@[i as int].pattern) == Some(0usize)
            && forall|k: int| 0 <= k < i ==> emitter_ok(#[trigger] emitters@[k]),
        r matches Err(ConfigError::DanglingEmitter { card, id }) ==> card < cards@.len()
            && cards@[card as int].emitters@.contains(id) && id >= emitters@.len()
            && forall|i: int| 0 <= i < emitters@.len() ==> emitter_ok(#[trigger] emitters@[i]),
{
    let mut i: usize = 0;
    while i < emitters.len()
        invariant
            i <= emitters@.len(),
            forall|k: int| 0 <= k < i ==> emitter_ok(#[trigger] emitters@[k]),
        decreases emitters@.len() - i,
    {
        let e = &emitters[i];
        if !(spawner_ok(&e.spawner) && point_ok(e.anchor) && pattern_ok(e.pattern)) {
            return Err(ConfigError::BadEmitter(i));
        }
        match slots(e.pattern) {
            Some(n) => {
                if n == 0 {
                    return Err(ConfigError::EmptyRing(i));
                }
            },
            None => {},
        }
        i = i + 1;
    }
    let mut c: usize = 0;
    while c < cards.len()
        invariant
            c <= cards@.len(),
            forall|k: int| 0 <= k < emitters@.len() ==> emitter_ok(#[trigger] emitters@[k]),
            forall|a: int, j: int| 0 <= a < c && 0 <= j < cards@[a].emitters@.len()
                ==> #[trigger] cards@[a].emitters@[j] < emitters@.len(),
        decreases cards@.len() - c,
    {
        let card = &cards[c];
        let mut j: usize = 0;
        while j < card.emitters.len()
            invariant
                c < cards@.len(),
                *card == cards@[c as int],
                j <= card.emitters@.len(),
                forall|k: int| 0 <= k < emitters@.len() ==> emitter_ok(#[trigger] emitters@[k]),
                forall|a: int, b: int| 0 <= a < c && 0 <= b < cards@[a].emitters@.len()
                    ==> #[trigger] cards@[a].emitters@[b] < emitters@.len(),
                forall|b: int| 0 <= b < j ==> #[trigger] card.emitters@[b] < emitters@.len(),
            decreases card.emitters@.len() - j,
        {
            let id = card.emitters[j];
            if id >= emitters.len() {
                assert(card.emitters@[j as int] == id);
                return Err(ConfigError::DanglingEmitter { card: c, id });
            }
            j = j + 1;
        }
        c = c + 1;
    }
    Ok(())
}

} // verus!
