//! One enemy encounter and its fixed-order simulation tick: spellcards,
//! emitters, the player's weapons, motion, collisions and the boundary.
use vstd::prelude::*;
use crate::bullet::{Projectile, MAX_DELTA};
use crate::combat::{
    after_invulnerability, create_gameplay_rect, fire_weapons, fired_bullets, hits_applied,
    mission_outcome, outcome, player_hits, player_wf, set_alt_fire, weapon_after, weapon_wf,
    weapons_reset, Health, MissionState, Player, Weapon,
};
use crate::emitter::{emitter_step, emitter_wf, tick_emitter, Emitter};
use crate::geometry::{in_world, Circle, Rect, Vec2i, PIXEL};
use crate::spellcard::{advance_encounter_time, clock_after, is_active, process_spellcards, Spellcard};
use crate::store::{
    bullet_hit_list, deployed, inside, moved, player_hit_list, resolved_bullet_hits, with_handles,
    BulletStore, Entry,
};

verus! {

/// How far from the centre enemy bullets may go: 1000 pixels each way.
pub const DESPAWN_REACH: i64 = 1000 * PIXEL;

/// The lower edge of the boundary on each axis.
pub const DESPAWN_MIN: i64 = -DESPAWN_REACH;

/// The boundary outside which enemy bullets are removed.
pub open spec fn despawn_area() -> Rect {
    Rect { min: Vec2i { x: DESPAWN_MIN, y: DESPAWN_MIN }, max: Vec2i { x: DESPAWN_REACH, y: DESPAWN_REACH } }
}

/// The boundary outside which enemy bullets are removed, as a value.
pub fn despawn_area_exec() -> (r: Rect)
    ensures
        r == despawn_area(),
{
    Rect { min: Vec2i { x: DESPAWN_MIN, y: DESPAWN_MIN }, max: Vec2i { x: DESPAWN_REACH, y: DESPAWN_REACH } }
}

/// An enemy of the encounter.
#[derive(Clone, Copy, Debug, PartialEq, Eq, Structural)]
pub struct Enemy {
    pub pos: Vec2i,
    pub radius: i64,
    pub health: Health,
}

/// What the player does during one tick.
#[derive(Clone, Copy, Debug, PartialEq, Eq, Structural)]
pub struct TickInput {
    pub dt: u64,
    pub up: bool,
    pub down: bool,
    pub left: bool,
    pub right: bool,
    pub alt_fire: bool,
    pub alt_changed: bool,
}

/// A running encounter.
pub struct Encounter {
    pub bullets: BulletStore,
    pub emitters: Vec<Emitter>,
    pub spellcards: Vec<Spellcard>,
    pub elapsed: u64,
    pub player: Player,
    pub weapons: Vec<Weapon>,
    pub enemies: Vec<Enemy>,
    pub state: MissionState,
    pub area: Rect,
}

/// The player's collider.
pub open spec fn player_circle(p: Player) -> Circle {
    Circle { pos: p.pos, radius: p.radius }
}

/// The store and player after the collision passes: both hit lists are
/// taken from the same state, then the player hits are consumed, then the
/// bullet-bullet hits.
pub open spec fn collided(s: Seq<Entry>, p: Player) -> (Seq<Entry>, Player) {
    let after_player = hits_applied(s, p, player_hit_list(s, player_circle(p)));
    (resolved_bullet_hits(after_player.0, bullet_hit_list(s, s)), after_player.1)
}

impl Encounter {
    /// The invariant: the store, emitters, weapons and player are well
    /// formed, and the player fits in the arena.
    pub open spec fn wf(&self) -> bool {
        &&& self.bullets.wf()
        &&& forall|i: int| 0 <= i < self.emitters@.len() ==> emitter_wf(#[trigger] self.emitters@[i])
        &&& forall|i: int| 0 <= i < self.weapons@.len() ==> weapon_wf(#[trigger] self.weapons@[i])
        &&& player_wf(self.player)
        &&& in_world(self.area.min)
        &&& in_world(self.area.max)
        &&& self.area.min.x + self.player.radius <= self.area.max.x - self.player.radius
        &&& self.area.min.y + self.player.radius <= self.area.max.y - self.player.radius
    }

    /// Room for the handles that a tick may issue.
    pub open spec fn has_room(&self, extra: int) -> bool {
        self.bullets.next_handle + 2 * (self.bullets.entries@.len() + extra) <= u64::MAX
    }
}

/// The store and player after the bullet systems of one tick, from the
/// store `s` with next handle `next`, the weapons and the player: the
/// weapons fire, every projectile moves, hits are found and consumed, and
/// enemy bullets past the boundary go.
pub open spec fn bullet_phase(s: Seq<Entry>, next: int, weapons: Seq<Weapon>, p: Player, input: TickInput) -> (Seq<Entry>, Player) {
    let fired = fired_bullets(weapons_reset(weapons, input.alt_changed), input.dt as int, input.alt_fire, p.pos);
    let s1 = s + with_handles(fired, next);
    let n1 = next + fired.len();
    let s2 = moved(s1, input.dt as int, p.pos) + with_handles(deployed(s1, input.dt as int, p.pos), n1);
    let c = collided(s2, p);
    (inside(c.0, despawn_area()), c.1)
}

/// The store and next handle after the emitters' volleys are added in
/// order; a volley that would leave too few handles for the rest of the
/// tick (with `extra` weapons still to fire) is dropped.
pub open spec fn spawned_volleys(s: Seq<Entry>, next: int, vols: Seq<Seq<Projectile>>, extra: int) -> (Seq<Entry>, int)
    decreases vols.len(),
{
    if vols.len() == 0 {
        (s, next)
    } else {
        let prev = spawned_volleys(s, next, vols.drop_last(), extra);
        let v = vols.last();
        if prev.1 + 3 * (prev.0.len() + v.len() + extra) <= u64::MAX {
            (prev.0 + with_handles(v, prev.1), prev.1 + v.len())
        } else {
            prev
        }
    }
}

/// The player after a tick's invulnerability count-down and movement.
pub open spec fn player_after_input(p: Player, input: TickInput, area: Rect) -> Player {
    let q = after_invulnerability(p, input.dt as int);
    Player { pos: crate::combat::moved_player(q, input.up, input.down, input.left, input.right, area), ..q }
}

/// Emitter `i` of `pre` with its activity set from the spellcards at the
/// encounter time `t`.
pub open spec fn activated(pre: Encounter, i: int, t: int) -> Emitter {
    Emitter { active: is_active(pre.spellcards@, t, i), ..pre.emitters@[i] }
}

/// One tick turns `pre` into `post`, the emitters having yielded the
/// volleys `vols`: the clock advances (and loops), every emitter's activity
/// is recomputed and it ticks with the moved player, the volleys are added
/// to the store in emitter order, and then the bullet systems run.
pub open spec fn tick_ok(pre: Encounter, post: Encounter, input: TickInput, vols: Seq<Seq<Projectile>>) -> bool {
    let t = clock_after(pre.spellcards@, pre.elapsed as int, input.dt as int);
    let p1 = player_after_input(pre.player, input, pre.area);
    let n = pre.emitters@.len();
    let s1 = spawned_volleys(pre.bullets.entries@, pre.bullets.next_handle as int, vols, pre.weapons@.len() as int);
    let c = bullet_phase(s1.0, s1.1, pre.weapons@, p1, input);
    &&& post.elapsed == t
    &&& vols.len() == n
    &&& post.emitters@.len() == n
    &&& forall|i: int| 0 <= i < n ==> emitter_step(activated(pre, i, t), input.dt as int, p1.pos, vols[i], #[trigger] post.emitters@[i])
    &&& post.bullets.entries@ == c.0
    &&& post.player == c.1
}

/// The bullet systems of one tick, in order: the player's weapons fire,
/// every projectile moves, hits are found and consumed, and enemy bullets
/// past the boundary go.
pub fn bullet_plugin(enc: &mut Encounter, input: TickInput)
    requires
        old(enc).wf(),
        input.dt <= MAX_DELTA,
        old(enc).has_room(old(enc).weapons@.len() as int),
    ensures
        final(enc).wf(),
        final(enc).emitters@ == old(enc).emitters@,
        final(enc).elapsed == old(enc).elapsed,
        final(enc).enemies@ == old(enc).enemies@,
        final(enc).area == old(enc).area,
        final(enc).player.pos == old(enc).player.pos,
        final(enc).weapons@.len() == old(enc).weapons@.len(),
        forall|i: int| 0 <= i < old(enc).weapons@.len() ==> #[trigger] final(enc).weapons@[i] == weapon_after(
            weapons_reset(old(enc).weapons@, input.alt_changed)[i],
            input.dt as int,
            input.alt_fire,
        ).0,
        ({
            let c = bullet_phase(
                old(enc).bullets.entries@,
                old(enc).bullets.next_handle as int,
                old(enc).weapons@,
                old(enc).player,
                input,
            );
            &&& final(enc).bullets.entries@ == c.0
            &&& final(enc).player == c.1
        }),
{
    let ghost start = enc.weapons@;
    set_alt_fire(&mut enc.weapons, input.alt_changed);
    assert forall|i: int| 0 <= i < enc.weapons@.len() implies weapon_wf(#[trigger] enc.weapons@[i]) by {
        assert(weapon_wf(start[i]));
    }
    let pos = enc.player.pos;
    let fired = fire_weapons(&mut enc.weapons, input.dt, input.alt_fire, pos);
    assert forall|i: int| 0 <= i < enc.weapons@.len() implies weapon_wf(#[trigger] enc.weapons@[i]) by {
        assert(weapon_wf(weapons_reset(start, input.alt_changed)[i]));
    }
    proof {
        lemma_fired_len(weapons_reset(start, input.alt_changed), input.dt as int, input.alt_fire, pos);
    }
    enc.bullets.spawn_all(fired);
    proof {
        lemma_deployed_len(enc.bullets.entries@, input.dt as int, pos);
    }
    enc.bullets.move_bullets(input.dt, pos);
    let ghost s2 = enc.bullets.entries@;
    let pc = Circle::new(enc.player.radius, enc.player.pos);
    let ph = enc.bullets.check_enemy_bullets(pc);
    let bh = enc.bullets.check_bullet_bullet();
    player_hits(&mut enc.bullets, &ph, &mut enc.player);
    enc.bullets.bullet_bullet_hit(&bh);
    enc.bullets.despawn_bullets(despawn_area_exec());
}

/// The healths of the enemies.
pub open spec fn healths(es: Seq<Enemy>) -> Seq<Health> {
    es.map_values(|e: Enemy| e.health)
}

impl Encounter {
    /// One fixed simulation tick. The player's invulnerability counts down
    /// and the player moves; the encounter clock advances and every
    /// emitter's activity is recomputed from the spellcards; active
    /// emitters fire; then the bullet systems run; last, the mission's
    /// outcome is decided. A volley that would run the store out of handles
    /// is dropped.
    pub fn tick(&mut self, input: TickInput)
        requires
            old(self).wf(),
            input.dt <= MAX_DELTA,
            old(self).elapsed + input.dt <= u64::MAX,
            old(self).has_room(old(self).weapons@.len() as int),
        ensures
            final(self).wf(),
            final(self).elapsed == clock_after(old(self).spellcards@, old(self).elapsed as int, input.dt as int),
            final(self).emitters@.len() == old(self).emitters@.len(),
            forall|i: int| 0 <= i < final(self).emitters@.len() ==> (#[trigger] final(self).emitters@[i]).active
                == is_active(old(self).spellcards@, final(self).elapsed as int, i),
            final(self).enemies@ == old(self).enemies@,
            final(self).player.pos == crate::combat::moved_player(
                after_invulnerability(old(self).player, input.dt as int),
                input.up,
                input.down,
                input.left,
                input.right,
                old(self).area,
            ),
            final(self).state == outcome(final(self).player.lives.0, healths(final(self).enemies@)),
            exists|vols: Seq<Seq<Projectile>>| #[trigger] tick_ok(*old(self), *final(self), input, vols),
    {
        self.player.update_invulnerability(input.dt);
        self.player.do_movement(input.up, input.down, input.left, input.right, self.area);
        advance_encounter_time(&mut self.elapsed, input.dt, &self.spellcards);
        let active = process_spellcards(self.elapsed, &self.spellcards, self.emitters.len());
        let n = self.emitters.len();
        let ghost t = self.elapsed as int;
        let ghost p1 = self.player;
        let ghost mut vols: Seq<Seq<Projectile>> = Seq::empty();
        assert(p1 == player_after_input(old(self).player, input, old(self).area));
        let mut i: usize = 0;
        while i < n
            invariant
                n == self.emitters@.len(),
                n == old(self).emitters@.len(),
                vols.len() == i,
                t == self.elapsed,
                self.player == p1,
                p1 == player_after_input(old(self).player, input, old(self).area),
                self.weapons@ == old(self).weapons@,
                forall|k: int| 0 <= k < i ==> emitter_step(activated(*old(self), k, t), input.dt as int, p1.pos, vols[k], #[trigger] self.emitters@[k]),
                forall|k: int| i <= k < n ==> #[trigger] self.emitters@[k] == old(self).emitters@[k],
                (self.bullets.entries@, self.bullets.next_handle as int) == spawned_volleys(
                    old(self).bullets.entries@,
                    old(self).bullets.next_handle as int,
                    vols,
                    old(self).weapons@.len() as int,
                ),
                i <= n,
                active@.len() == n,
                self.wf(),
                input.dt <= MAX_DELTA,
                self.has_room(self.weapons@.len() as int),
                forall|k: int| 0 <= k < n ==> #[trigger] active@[k] == is_active(self.spellcards@, self.elapsed as int, k),
                forall|k: int| 0 <= k < i ==> (#[trigger] self.emitters@[k]).active == active@[k],
                self.spellcards@ == old(self).spellcards@,
                self.enemies@ == old(self).enemies@,
                self.elapsed == clock_after(old(self).spellcards@, old(self).elapsed as int, input.dt as int),
                self.area == old(self).area,
                self.player.pos == crate::combat::moved_player(
                    after_invulnerability(old(self).player, input.dt as int),
                    input.up,
                    input.down,
                    input.left,
                    input.right,
                    old(self).area,
                ),
            decreases n - i,
        {
            let mut em = self.emitters[i];
            em.active = active[i];
            let ghost em_before = em;
            let volley = tick_emitter(&mut em, input.dt, self.player.pos);
            self.emitters.set(i, em);
            let room: u128 = u64::MAX as u128 - self.bullets.next_handle as u128;
            let need: u128 = 3 * (self.bullets.entries.len() as u128 + volley.len() as u128 + self.weapons.len() as u128);
            assert(activated(*old(self), i as int, t) == em_before);
            let ghost v = volley@;
            proof {
                assert(vols.push(v).drop_last() =~= vols);
                vols = vols.push(v);
            }
            if need <= room {
                self.bullets.spawn_all(volley);
            }
            i = i + 1;
        }
        bullet_plugin(self, input);
        let mut hs: Vec<Health> = Vec::new();
        let mut j: usize = 0;
        while j < self.enemies.len()
            invariant
                j <= self.enemies@.len(),
                hs@ == healths(self.enemies@).subrange(0, j as int),
            decreases self.enemies@.len() - j,
        {
            hs.push(self.enemies[j].health);
            assert(hs@ =~= healths(self.enemies@).subrange(0, j + 1));
            j = j + 1;
        }
        assert(hs@ =~= healths(self.enemies@));
        self.state = mission_outcome(&self.player, &hs);
        assert(tick_ok(*old(self), *self, input, vols));
    }
}

impl Encounter {
    /// Starts an encounter: no projectiles, the clock at zero, the mission
    /// ongoing, the player inside the arena.
    pub fn new(enemy: Enemy, emitters: Vec<Emitter>, spellcards: Vec<Spellcard>, player: Player, weapons: Vec<Weapon>) -> (r: Encounter)
        requires
            forall|i: int| 0 <= i < emitters@.len() ==> emitter_wf(#[trigger] emitters@[i]),
            forall|i: int| 0 <= i < weapons@.len() ==> weapon_wf(#[trigger] weapons@[i]),
            player_wf(player),
            player.radius <= 540 * PIXEL,
        ensures
            r.wf(),
            r.bullets.entries@.len() == 0,
            r.bullets.next_handle == 0,
            r.elapsed == 0,
            r.state == MissionState::Ongoing,
            r.emitters@ == emitters@,
            r.spellcards@ == spellcards@,
            r.player == player,
            r.weapons@ == weapons@,
            r.enemies@ == seq![enemy],
    {
        let mut enemies: Vec<Enemy> = Vec::new();
        enemies.push(enemy);
        proof {
            assert(enemies@ =~= seq![enemy]);
        }
        Encounter {
            bullets: BulletStore::new(),
            emitters,
            spellcards,
            elapsed: 0,
            player,
            weapons,
            enemies,
            state: MissionState::Ongoing,
            area: create_gameplay_rect(),
        }
    }

    /// Ends the encounter: every projectile, emitter, spellcard and enemy
    /// goes at once.
    pub fn nuke_touhou(&mut self)
        requires
            old(self).wf(),
        ensures
            final(self).wf(),
            final(self).bullets.entries@.len() == 0,
            final(self).emitters@.len() == 0,
            final(self).spellcards@.len() == 0,
            final(self).enemies@.len() == 0,
    {
        self.bullets.entries = Vec::new();
        self.emitters = Vec::new();
        self.spellcards = Vec::new();
        self.enemies = Vec::new();
    }
}

proof fn lemma_fired_len(ws: Seq<crate::combat::Weapon>, dt: int, alt: bool, pos: Vec2i)
    ensures
        fired_bullets(ws, dt, alt, pos).len() <= ws.len(),
    decreases ws.len(),
{
    if ws.len() > 0 {
        lemma_fired_len(ws.drop_last(), dt, alt, pos);
    }
}

proof fn lemma_deployed_len(s: Seq<Entry>, dt: int, pos: Vec2i)
    ensures
        deployed(s, dt, pos).len() <= s.len(),
    decreases s.len(),
{
    if s.len() > 0 {
        lemma_deployed_len(s.drop_last(), dt, pos);
    }
}

} // verus!
