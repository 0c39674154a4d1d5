//! The player and enemies: lives and health, invulnerability after a hit,
//! movement inside the arena, the player's weapons, and the mission outcome.
use vstd::prelude::*;
use crate::bullet::{aged, motion_wf, projectile_wf, Motion, Owner, Projectile, Salted};
use crate::emitter::Timer;
use crate::geometry::{
    angle_toward, direction_of, in_world, polar, polar_of, shift, shifted, Rect, Vec2i,
    MAX_LENGTH, PIXEL,
};
use crate::store::{lookup, without, BulletStore, Entry, PlayerHit};

verus! {

/// How long the player cannot be hurt after a hit, in microseconds.
pub const INVULNERABLE_TIME: u64 = 3000000;

/// The player's remaining lives.
#[derive(Clone, Copy, Debug, PartialEq, Eq, Structural)]
pub struct Life(pub usize);

impl Default for Life {
    fn default() -> (r: Life)
        ensures
            r == Life(1),
    {
        Life(1)
    }
}

/// The player's ammunition.
#[derive(Clone, Copy, Debug, PartialEq, Eq, Structural)]
pub struct Ammo(pub u32);

/// An enemy's remaining health.
#[derive(Clone, Copy, Debug, PartialEq, Eq, Structural)]
pub struct Health(pub u32);

/// How the current mission stands.
#[derive(Clone, Copy, Debug, PartialEq, Eq, Structural)]
pub enum MissionState {
    Ongoing,
    Success,
    Fail,
}

/// The time left before the player can be hurt again, in microseconds.
#[derive(Clone, Copy, Debug, PartialEq, Eq, Structural)]
pub struct Invulnerability(pub u64);

/// The player's ship.
#[derive(Clone, Copy, Debug, PartialEq, Eq, Structural)]
pub struct Player {
    pub pos: Vec2i,
    pub radius: i64,
    pub lives: Life,
    pub ammo: Ammo,
    pub speed: i64,
    pub invulnerability: Option<Invulnerability>,
}

pub open spec fn player_wf(p: Player) -> bool {
    in_world(p.pos) && 0 <= p.radius <= MAX_LENGTH && 0 <= p.speed <= MAX_LENGTH
}

/// The player after a hit: unless invulnerable or already dead, one life
/// goes and invulnerability begins.
pub open spec fn after_hit(p: Player) -> Player {
    if p.invulnerability is None && p.lives.0 > 0 {
        Player { lives: Life((p.lives.0 - 1) as usize), invulnerability: Some(Invulnerability(INVULNERABLE_TIME)), ..p }
    } else {
        p
    }
}

/// The player after `dt` microseconds: invulnerability counts down and ends
/// when it runs out.
pub open spec fn after_invulnerability(p: Player, dt: int) -> Player {
    match p.invulnerability {
        Some(Invulnerability(left)) => if left <= dt {
            Player { invulnerability: None, ..p }
        } else {
            Player { invulnerability: Some(Invulnerability((left - dt) as u64)), ..p }
        },
        None => p,
    }
}

impl Player {
    /// Takes one hit.
    pub fn take_hit(&mut self)
        ensures
            *final(self) == after_hit(*old(self)),
    {
        if self.invulnerability.is_none() && self.lives.0 > 0 {
            self.lives = Life(self.lives.0 - 1);
            self.invulnerability = Some(Invulnerability(INVULNERABLE_TIME));
        }
    }

    /// Counts invulnerability down by `dt` microseconds.
    pub fn update_invulnerability(&mut self, dt: u64)
        ensures
            *final(self) == after_invulnerability(*old(self), dt as int),
    {
        match self.invulnerability {
            Some(Invulnerability(left)) => {
                if left <= dt {
                    self.invulnerability = None;
                } else {
                    self.invulnerability = Some(Invulnerability(left - dt));
                }
            },
            None => {},
        }
    }

    /// Whether the player has no lives left.
    pub fn player_dead(&self) -> (r: bool)
        ensures
            r == (self.lives.0 == 0),
    {
        self.lives.0 == 0
    }
}

/// Half the arena's width: 960 pixels.
pub const ARENA_HALF_WIDTH: i64 = 960 * PIXEL;

/// Half the arena's height: 540 pixels.
pub const ARENA_HALF_HEIGHT: i64 = 540 * PIXEL;

/// The arena: 1920 by 1080 pixels centred on the origin.
pub fn create_gameplay_rect() -> (r: Rect)
    ensures
        r.min.x == -ARENA_HALF_WIDTH,
        r.min.y == -ARENA_HALF_HEIGHT,
        r.max.x == ARENA_HALF_WIDTH,
        r.max.y == ARENA_HALF_HEIGHT,
{
    Rect {
        min: Vec2i { x: -ARENA_HALF_WIDTH, y: -ARENA_HALF_HEIGHT },
        max: Vec2i { x: ARENA_HALF_WIDTH, y: ARENA_HALF_HEIGHT },
    }
}

/// `v` held within `[lo, hi]`.
pub open spec fn clamp_to(v: int, lo: int, hi: int) -> int {
    if v < lo {
        lo
    } else if v > hi {
        hi
    } else {
        v
    }
}

/// The direction keys as a vector: right minus left, up minus down.
pub open spec fn key_vector(up: bool, down: bool, left: bool, right: bool) -> Vec2i {
    Vec2i {
        x: ((if right { 1int } else { 0 }) - (if left { 1int } else { 0 })) as i64,
        y: ((if up { 1int } else { 0 }) - (if down { 1int } else { 0 })) as i64,
    }
}

/// Where the player goes for the pressed keys: a step of its speed toward
/// the keys' direction (none when they cancel out), kept inside `area` by
/// the player's radius.
pub open spec fn moved_player(p: Player, up: bool, down: bool, left: bool, right: bool, area: Rect) -> Vec2i {
    let k = key_vector(up, down, left, right);
    let target = if k == (Vec2i { x: 0, y: 0 }) {
        p.pos
    } else {
        shifted(p.pos, polar_of(p.speed as int, direction_of(k)))
    };
    Vec2i {
        x: clamp_to(target.x as int, area.min.x + p.radius, area.max.x - p.radius) as i64,
        y: clamp_to(target.y as int, area.min.y + p.radius, area.max.y - p.radius) as i64,
    }
}

fn clamp_coord_to(v: i64, lo: i64, hi: i64) -> (r: i64)
    ensures
        r == clamp_to(v as int, lo as int, hi as int),
{
    if v < lo {
        lo
    } else if v > hi {
        hi
    } else {
        v
    }
}

impl Player {
    /// Moves the player by one step for the pressed direction keys, staying
    /// inside `area`.
    pub fn do_movement(&mut self, up: bool, down: bool, left: bool, right: bool, area: Rect)
        requires
            player_wf(*old(self)),
            in_world(area.min),
            in_world(area.max),
            area.min.x + old(self).radius <= area.max.x - old(self).radius,
            area.min.y + old(self).radius <= area.max.y - old(self).radius,
        ensures
            player_wf(*final(self)),
            *final(self) == (Player { pos: moved_player(*old(self), up, down, left, right, area), ..*old(self) }),
    {
        let dx: i64 = (if right { 1i64 } else { 0 }) - (if left { 1i64 } else { 0 });
        let dy: i64 = (if up { 1i64 } else { 0 }) - (if down { 1i64 } else { 0 });
        let k = Vec2i { x: dx, y: dy };
        let target = if dx == 0 && dy == 0 {
            self.pos
        } else {
            shift(self.pos, polar(self.speed, angle_toward(k)))
        };
        let x = clamp_coord_to(target.x, area.min.x + self.radius, area.max.x - self.radius);
        let y = clamp_coord_to(target.y, area.min.y + self.radius, area.max.y - self.radius);
        self.pos = Vec2i { x, y };
    }
}

/// Atlas frames of the ship for each vertical direction.
pub const N_SHIP_TEXTURES: usize = 3;

/// The ship's atlas frame: 0 climbing, 1 level, 2 diving; the second row of
/// frames while a flicker shows.
pub fn ship_frame(up: bool, down: bool, inverted: bool) -> (r: usize)
    ensures
        r == (if up && !down { 0int } else if up == down { 1 } else { 2 }) + (if inverted { N_SHIP_TEXTURES as int } else { 0 }),
{
    let base: usize = if up && !down {
        0
    } else if up == down {
        1
    } else {
        2
    };
    if inverted {
        base + N_SHIP_TEXTURES
    } else {
        base
    }
}

/// The next frame of a looping sprite animation over `[min_index, max_index)`.
pub fn next_frame(index: usize, min_index: usize, max_index: usize) -> (r: usize)
    requires
        min_index < max_index,
        index < usize::MAX,
    ensures
        r == (index + 1) % ((max_index - min_index) as int) + min_index,
        min_index <= r < max_index,
{
    let span = max_index - min_index;
    ((index + 1) % span) + min_index
}

/// How the mission stands: failed once the player has no lives left;
/// otherwise won once every enemy is down to zero health.
pub open spec fn outcome(lives: usize, enemies: Seq<Health>) -> MissionState {
    if lives == 0 {
        MissionState::Fail
    } else if forall|i: int| 0 <= i < enemies.len() ==> (#[trigger] enemies[i]).0 == 0 {
        MissionState::Success
    } else {
        MissionState::Ongoing
    }
}

/// How the mission stands, from the player's lives and the enemies' health.
pub fn mission_outcome(player: &Player, enemies: &Vec<Health>) -> (r: MissionState)
    ensures
        r == outcome(player.lives.0, enemies@),
{
    if player.lives.0 == 0 {
        return MissionState::Fail;
    }
    let mut i: usize = 0;
    while i < enemies.len()
        invariant
            i <= enemies@.len(),
            player.lives.0 != 0,
            forall|k: int| 0 <= k < i ==> (#[trigger] enemies@[k]).0 == 0,
        decreases enemies@.len() - i,
    {
        if enemies[i].0 != 0 {
            assert(!(forall|k: int| 0 <= k < enemies@.len() ==> (#[trigger] enemies@[k]).0 == 0)) by {
                assert(enemies@[i as int].0 != 0);
            }

            return MissionState::Ongoing;
        }
        i = i + 1;
    }
    MissionState::Success
}

/// The state after the player hits, in order: each hit whose bullet is
/// still live removes that bullet and hurts the player.
pub open spec fn hits_applied(s: Seq<Entry>, p: Player, hits: Seq<PlayerHit>) -> (Seq<Entry>, Player)
    decreases hits.len(),
{
    if hits.len() == 0 {
        (s, p)
    } else {
        let prev = hits_applied(s, p, hits.drop_last());
        let h = hits.last().0;
        if lookup(prev.0, h) is Some {
            (without(prev.0, h), after_hit(prev.1))
        } else {
            prev
        }
    }
}

/// Consumes the player hits: each bullet that is still live goes, and the
/// player takes a hit for it.
pub fn player_hits(store: &mut BulletStore, hits: &Vec<PlayerHit>, player: &mut Player)
    requires
        old(store).wf(),
    ensures
        final(store).wf(),
        final(store).next_handle == old(store).next_handle,
        (final(store).entries@, *final(player)) == hits_applied(old(store).entries@, *old(player), hits@),
        final(player).pos == old(player).pos,
        final(player).radius == old(player).radius,
        final(player).speed == old(player).speed,
{
    let mut i: usize = 0;
    while i < hits.len()
        invariant
            i <= hits@.len(),
            store.wf(),
            store.next_handle == old(store).next_handle,
            (store.entries@, *player) == hits_applied(old(store).entries@, *old(player), hits@.subrange(0, i as int)),
            player.pos == old(player).pos,
            player.radius == old(player).radius,
            player.speed == old(player).speed,
        decreases hits@.len() - i,
    {
        proof {
            crate::store::lemma_prefix_step(hits@, i as int);
        }
        let h = hits[i].0;
        if store.contains(h) {
            store.destroy(h);
            player.take_hit();
        }
        i = i + 1;
    }
    assert(hits@.subrange(0, hits@.len() as int) =~= hits@);
}

/// A player weapon: it fires a bullet from the player's position on each
/// run of its timer, while its group (main or alternative fire) is chosen.
#[derive(Clone, Copy, Debug, PartialEq, Eq, Structural)]
pub struct Weapon {
    pub timer: Timer,
    pub ammo_cost: u32,
    pub radius: i64,
    pub offset: Vec2i,
    pub motion: Motion,
    pub salted: bool,
    pub alt: bool,
}

pub open spec fn weapon_wf(w: Weapon) -> bool {
    0 <= w.radius <= MAX_LENGTH && in_world(w.offset) && motion_wf(w.motion)
}

/// The bullet that `w` fires with the player at `pos`.
pub open spec fn player_bullet(w: Weapon, pos: Vec2i) -> Projectile {
    Projectile {
        pos: shifted(pos, w.offset),
        radius: w.radius,
        owner: Owner::Player,
        lifetime: 0,
        salted: if w.salted { Some(Salted) } else { None },
        phasing: None,
        motion: w.motion,
        delayed: None,
    }
}

impl Weapon {
    /// Fires one bullet and starts the timer over.
    pub fn spawn_bullet(&mut self, player_pos: Vec2i) -> (r: Projectile)
        requires
            weapon_wf(*old(self)),
            in_world(player_pos),
        ensures
            r == player_bullet(*old(self), player_pos),
            projectile_wf(r),
            *final(self) == (Weapon { timer: Timer { elapsed: 0, ..old(self).timer }, ..*old(self) }),
    {
        self.timer.elapsed = 0;
        Projectile {
            pos: shift(player_pos, self.offset),
            radius: self.radius,
            owner: Owner::Player,
            lifetime: 0,
            salted: if self.salted { Some(Salted) } else { None },
            phasing: None,
            motion: self.motion,
            delayed: None,
        }
    }
}

/// The weapon after a tick, and whether it fired.
pub open spec fn weapon_after(w: Weapon, dt: int, alt_fire: bool) -> (Weapon, bool) {
    if w.alt != alt_fire {
        (w, false)
    } else {
        let el = aged(w.timer.elapsed as int, dt);
        if el >= w.timer.duration {
            (Weapon { timer: Timer { elapsed: 0, ..w.timer }, ..w }, true)
        } else {
            (Weapon { timer: Timer { elapsed: el as u64, ..w.timer }, ..w }, false)
        }
    }
}

/// The bullets that the weapons fire in a tick, in order.
pub open spec fn fired_bullets(ws: Seq<Weapon>, dt: int, alt_fire: bool, pos: Vec2i) -> Seq<Projectile>
    decreases ws.len(),
{
    if ws.len() == 0 {
        Seq::empty()
    } else {
        let prev = fired_bullets(ws.drop_last(), dt, alt_fire, pos);
        if weapon_after(ws.last(), dt, alt_fire).1 {
            prev.push(player_bullet(ws.last(), pos))
        } else {
            prev
        }
    }
}

/// One tick of the player's weapons: those of the chosen group advance
/// their timers, and each whose timer runs out fires.
pub fn fire_weapons(weapons: &mut Vec<Weapon>, dt: u64, alt_fire: bool, player_pos: Vec2i) -> (r: Vec<Projectile>)
    requires
        forall|i: int| 0 <= i < old(weapons)@.len() ==> weapon_wf(#[trigger] old(weapons)@[i]),
        in_world(player_pos),
    ensures
        final(weapons)@.len() == old(weapons)@.len(),
        forall|i: int| 0 <= i < old(weapons)@.len() ==> #[trigger] final(weapons)@[i] == weapon_after(old(weapons)@[i], dt as int, alt_fire).0,
        r@ == fired_bullets(old(weapons)@, dt as int, alt_fire, player_pos),
        forall|i: int| 0 <= i < r@.len() ==> projectile_wf(#[trigger] r@[i]),
{
    let ghost start = weapons@;
    let mut out: Vec<Projectile> = Vec::new();
    let mut i: usize = 0;
    while i < weapons.len()
        invariant
            i <= weapons@.len(),
            weapons@.len() == start.len(),
            start == old(weapons)@,
            in_world(player_pos),
            forall|k: int| 0 <= k < start.len() ==> weapon_wf(#[trigger] start[k]),
            forall|k: int| 0 <= k < i ==> #[trigger] weapons@[k] == weapon_after(start[k], dt as int, alt_fire).0,
            forall|k: int| i <= k < start.len() ==> #[trigger] weapons@[k] == start[k],
            out@ == fired_bullets(start.subrange(0, i as int), dt as int, alt_fire, player_pos),
            forall|k: int| 0 <= k < out@.len() ==> projectile_wf(#[trigger] out@[k]),
        decreases start.len() - i,
    {
        proof {
            crate::store::lemma_prefix_step(start, i as int);
        }
        let mut w = weapons[i];
        if w.alt == alt_fire {
            w.timer.elapsed = if w.timer.elapsed > u64::MAX - dt { u64::MAX } else { w.timer.elapsed + dt };
            if w.timer.elapsed >= w.timer.duration {
                let b = w.spawn_bullet(player_pos);
                out.push(b);
            }
        }
        weapons.set(i, w);
        i = i + 1;
    }
    assert(start.subrange(0, start.len() as int) =~= start);
    out
}

/// The weapons with every timer started over when `changed` holds.
pub open spec fn weapons_reset(ws: Seq<Weapon>, changed: bool) -> Seq<Weapon> {
    if changed {
        ws.map_values(|w: Weapon| Weapon { timer: Timer { elapsed: 0, ..w.timer }, ..w })
    } else {
        ws
    }
}

/// When the alternative-fire key has just been pressed or released, every
/// weapon's timer starts over.
pub fn set_alt_fire(weapons: &mut Vec<Weapon>, changed: bool)
    ensures
        final(weapons)@ == weapons_reset(old(weapons)@, changed),
        final(weapons)@.len() == old(weapons)@.len(),
        forall|i: int| 0 <= i < old(weapons)@.len() ==> #[trigger] final(weapons)@[i] == (if changed {
            Weapon { timer: Timer { elapsed: 0, ..old(weapons)@[i].timer }, ..old(weapons)@[i] }
        } else {
            old(weapons)@[i]
        }),
{
    if !changed {
        return;
    }
    let ghost start = weapons@;
    let mut i: usize = 0;
    while i < weapons.len()
        invariant
            i <= weapons@.len(),
            weapons@.len() == start.len(),
            start == old(weapons)@,
            forall|k: int| 0 <= k < i ==> #[trigger] weapons@[k] == (Weapon { timer: Timer { elapsed: 0, ..start[k].timer }, ..start[k] }),
            forall|k: int| i <= k < start.len() ==> #[trigger] weapons@[k] == start[k],
        decreases start.len() - i,
    {
        let mut w = weapons[i];
        w.timer.elapsed = 0;
        weapons.set(i, w);
        i = i + 1;
    }
    assert(weapons@ =~= weapons_reset(start, changed));
}

} // verus!
