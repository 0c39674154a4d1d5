//! The projectile store: live projectiles under stable handles, and the
//! passes of a tick that move, test and remove them.
use vstd::prelude::*;
use crate::bullet::{
    advance, advanced, deployment, is_carrier, projectile_wf, Owner, Projectile, MAX_DELTA,
};
use crate::geometry::{
    circles_overlap, in_world, polar_of, rect_contains, shifted, Circle, Rect, Vec2i, WORLD_LIMIT,
};

verus! {

/// A live projectile and its handle.
#[derive(Clone, Copy, Debug, PartialEq, Eq, Structural)]
pub struct Entry {
    pub handle: u64,
    pub bullet: Projectile,
}

/// A hit of the player by the enemy bullet with this handle.
#[derive(Clone, Copy, Debug, PartialEq, Eq, Structural)]
pub struct PlayerHit(pub u64);

/// A meeting of a player bullet and an enemy bullet.
#[derive(Clone, Copy, Debug, PartialEq, Eq, Structural)]
pub struct BulletHit {
    pub player: u64,
    pub enemy: u64,
}

/// All live projectiles, in the order of their spawning. Handles are issued
/// in increasing order and never reused.
pub struct BulletStore {
    pub entries: Vec<Entry>,
    pub next_handle: u64,
}

pub(crate) proof fn lemma_prefix_step<T>(s: Seq<T>, i: int)
    requires
        0 <= i < s.len(),
    ensures
        s.subrange(0, i + 1).drop_last() == s.subrange(0, i),
        s.subrange(0, i + 1).last() == s[i],
{
    assert(s.subrange(0, i + 1).drop_last() =~= s.subrange(0, i));
}

/// The entries of `s` but those with handle `h`.
pub open spec fn without(s: Seq<Entry>, h: u64) -> Seq<Entry>
    decreases s.len(),
{
    if s.len() == 0 {
        s
    } else {
        let prev = without(s.drop_last(), h);
        if s.last().handle == h {
            prev
        } else {
            prev.push(s.last())
        }
    }
}

/// The first projectile of `s` with handle `h`.
pub open spec fn lookup(s: Seq<Entry>, h: u64) -> Option<Projectile>
    decreases s.len(),
{
    if s.len() == 0 {
        None
    } else {
        match lookup(s.drop_last(), h) {
            Some(p) => Some(p),
            None => if s.last().handle == h {
                Some(s.last().bullet)
            } else {
                None
            },
        }
    }
}

/// The projectiles `ps` under the handles `start`, `start + 1`, ...
pub open spec fn with_handles(ps: Seq<Projectile>, start: int) -> Seq<Entry> {
    Seq::new(ps.len(), |k: int| Entry { handle: (start + k) as u64, bullet: ps[k] })
}

/// The entries that stay after the motion pass, each advanced by a tick.
pub open spec fn moved(s: Seq<Entry>, dt: int, player: Vec2i) -> Seq<Entry>
    decreases s.len(),
{
    if s.len() == 0 {
        s
    } else {
        let prev = moved(s.drop_last(), dt, player);
        let e = s.last();
        if deployment(e.bullet, dt, player) is None {
            prev.push(Entry { handle: e.handle, bullet: advanced(e.bullet, dt, player) })
        } else {
            prev
        }
    }
}

/// The projectiles that carriers of `s` deploy in this tick, in order.
pub open spec fn deployed(s: Seq<Entry>, dt: int, player: Vec2i) -> Seq<Projectile>
    decreases s.len(),
{
    if s.len() == 0 {
        Seq::empty()
    } else {
        let prev = deployed(s.drop_last(), dt, player);
        match deployment(s.last().bullet, dt, player) {
            Some(q) => prev.push(q),
            None => prev,
        }
    }
}

/// A projectile that the boundary pass keeps: a player bullet, or one
/// inside the rectangle.
pub open spec fn kept_by(r: Rect, p: Projectile) -> bool {
    p.owner == Owner::Player || rect_contains(r, p.pos)
}

/// The entries that the boundary pass keeps.
pub open spec fn inside(s: Seq<Entry>, r: Rect) -> Seq<Entry>
    decreases s.len(),
{
    if s.len() == 0 {
        s
    } else {
        let prev = inside(s.drop_last(), r);
        if kept_by(r, s.last().bullet) {
            prev.push(s.last())
        } else {
            prev
        }
    }
}

/// The collider of a projectile.
pub open spec fn circle_of(p: Projectile) -> Circle {
    Circle { pos: p.pos, radius: p.radius }
}

/// Takes part in collisions: neither phasing nor a carrier.
pub open spec fn is_solid(p: Projectile) -> bool {
    p.phasing is None && !is_carrier(p)
}

/// An enemy bullet that hits the player's circle.
pub open spec fn hits_player(p: Projectile, player: Circle) -> bool {
    p.owner == Owner::Enemy && is_solid(p) && circles_overlap(circle_of(p), player)
}

/// The player hits of `s`, in order.
pub open spec fn player_hit_list(s: Seq<Entry>, player: Circle) -> Seq<PlayerHit>
    decreases s.len(),
{
    if s.len() == 0 {
        Seq::empty()
    } else {
        let prev = player_hit_list(s.drop_last(), player);
        if hits_player(s.last().bullet, player) {
            prev.push(PlayerHit(s.last().handle))
        } else {
            prev
        }
    }
}

/// The enemy bullets of `s` that the player bullet `p` meets.
pub open spec fn hit_row(p: Entry, s: Seq<Entry>) -> Seq<BulletHit>
    decreases s.len(),
{
    if s.len() == 0 {
        Seq::empty()
    } else {
        let prev = hit_row(p, s.drop_last());
        let e = s.last();
        if e.bullet.owner == Owner::Enemy && is_solid(e.bullet) && circles_overlap(
            circle_of(p.bullet),
            circle_of(e.bullet),
        ) {
            prev.push(BulletHit { player: p.handle, enemy: e.handle })
        } else {
            prev
        }
    }
}

/// The meetings of the player bullets of `ps` with the enemy bullets of
/// `all`, by player bullet and then by enemy bullet.
pub open spec fn bullet_hit_list(ps: Seq<Entry>, all: Seq<Entry>) -> Seq<BulletHit>
    decreases ps.len(),
{
    if ps.len() == 0 {
        Seq::empty()
    } else {
        let prev = bullet_hit_list(ps.drop_last(), all);
        let p = ps.last();
        if p.bullet.owner == Owner::Player && is_solid(p.bullet) {
            prev + hit_row(p, all)
        } else {
            prev
        }
    }
}

/// The store after one bullet-bullet hit: when both handles are live, the
/// first a player bullet and the second an enemy bullet, the player bullet
/// goes, and the enemy bullet too when the player bullet is salted.
/// Otherwise nothing changes.
pub open spec fn resolved_bullet_hit(s: Seq<Entry>, hit: BulletHit) -> Seq<Entry> {
    match (lookup(s, hit.player), lookup(s, hit.enemy)) {
        (Some(p), Some(e)) => if p.owner == Owner::Player && e.owner == Owner::Enemy {
            if p.salted is Some {
                without(without(s, hit.player), hit.enemy)
            } else {
                without(s, hit.player)
            }
        } else {
            s
        },
        _ => s,
    }
}

/// The store after the hits, in order.
pub open spec fn resolved_bullet_hits(s: Seq<Entry>, hits: Seq<BulletHit>) -> Seq<Entry>
    decreases hits.len(),
{
    if hits.len() == 0 {
        s
    } else {
        resolved_bullet_hit(resolved_bullet_hits(s, hits.drop_last()), hits.last())
    }
}

pub open spec fn entries_wf(s: Seq<Entry>, next: u64) -> bool {
    forall|i: int| 0 <= i < s.len() ==> projectile_wf(#[trigger] s[i].bullet) && s[i].handle < next
}

impl BulletStore {
    /// The invariant: every projectile is well formed and every handle was
    /// issued before.
    pub open spec fn wf(&self) -> bool {
        entries_wf(self.entries@, self.next_handle)
    }

    /// An empty store.
    pub fn new() -> (r: BulletStore)
        ensures
            r.wf(),
            r.entries@.len() == 0,
            r.next_handle == 0,
    {
        BulletStore { entries: Vec::new(), next_handle: 0 }
    }

    /// The number of live projectiles.
    pub fn len(&self) -> (r: usize)
        ensures
            r == self.entries@.len(),
    {
        self.entries.len()
    }

    /// Adds a projectile and returns its handle.
    pub fn spawn(&mut self, b: Projectile) -> (r: u64)
        requires
            old(self).wf(),
            projectile_wf(b),
            old(self).next_handle < u64::MAX,
        ensures
            final(self).wf(),
            r == old(self).next_handle,
            final(self).next_handle == old(self).next_handle + 1,
            final(self).entries@ == old(self).entries@.push(Entry { handle: r, bullet: b }),
    {
        let h = self.next_handle;
        self.entries.push(Entry { handle: h, bullet: b });
        self.next_handle = h + 1;
        h
    }

    /// Adds the projectiles, in order, under consecutive handles.
    pub fn spawn_all(&mut self, bs: Vec<Projectile>)
        requires
            old(self).wf(),
            forall|k: int| 0 <= k < bs@.len() ==> projectile_wf(#[trigger] bs@[k]),
            old(self).next_handle + bs@.len() <= u64::MAX,
        ensures
            final(self).wf(),
            final(self).next_handle == old(self).next_handle + bs@.len(),
            final(self).entries@ == old(self).entries@ + with_handles(
                bs@,
                old(self).next_handle as int,
            ),
    {
        let ghost start = self.entries@;
        let ghost first = self.next_handle;
        let mut i: usize = 0;
        while i < bs.len()
            invariant
                i <= bs@.len(),
                self.wf(),
                forall|k: int| 0 <= k < bs@.len() ==> projectile_wf(#[trigger] bs@[k]),
                first + bs@.len() <= u64::MAX,
                self.next_handle == first + i,
                self.entries@ == start + with_handles(bs@.subrange(0, i as int), first as int),
            decreases bs@.len() - i,
        {
            self.spawn(bs[i]);
            assert(with_handles(bs@.subrange(0, i + 1), first as int) =~= with_handles(
                bs@.subrange(0, i as int),
                first as int,
            ).push(Entry { handle: (first + i) as u64, bullet: bs@[i as int] }));
            i = i + 1;
        }
        assert(bs@.subrange(0, bs@.len() as int) =~= bs@);
    }

    /// Whether a projectile with handle `h` is live.
    pub fn contains(&self, h: u64) -> (r: bool)
        ensures
            r == (lookup(self.entries@, h) is Some),
    {
        let mut i: usize = 0;
        while i < self.entries.len()
            invariant
                i <= self.entries@.len(),
                lookup(self.entries@.subrange(0, i as int), h) is None,
            decreases self.entries@.len() - i,
        {
            proof {
                lemma_prefix_step(self.entries@, i as int);
            }
            if self.entries[i].handle == h {
                proof {
                    lemma_lookup_prefix(self.entries@, i + 1, h);
                }
                return true;
            }
            i = i + 1;
        }
        assert(self.entries@.subrange(0, self.entries@.len() as int) =~= self.entries@);
        false
    }

    /// Removes the projectile with handle `h`; nothing happens when there is
    /// none.
    pub fn destroy(&mut self, h: u64)
        requires
            old(self).wf(),
        ensures
            final(self).wf(),
            final(self).next_handle == old(self).next_handle,
            final(self).entries@ == without(old(self).entries@, h),
    {
        let mut out: Vec<Entry> = Vec::new();
        let mut i: usize = 0;
        while i < self.entries.len()
            invariant
                i <= self.entries@.len(),
                self.wf(),
                entries_wf(out@, self.next_handle),
                out@ == without(self.entries@.subrange(0, i as int), h),
            decreases self.entries@.len() - i,
        {
            proof {
                lemma_prefix_step(self.entries@, i as int);
            }
            let e = self.entries[i];
            if e.handle != h {
                out.push(e);
            }
            i = i + 1;
        }
        assert(self.entries@.subrange(0, self.entries@.len() as int) =~= self.entries@);
        self.entries = out;
    }
}

/// A lookup that finds `h` in a prefix finds the same in the whole.
proof fn lemma_lookup_prefix(s: Seq<Entry>, n: int, h: u64)
    requires
        0 <= n <= s.len(),
        lookup(s.subrange(0, n), h) is Some,
    ensures
        lookup(s, h) == lookup(s.subrange(0, n), h),
    decreases s.len() - n,
{
    if n < s.len() {
        lemma_prefix_step(s, n);
        lemma_lookup_prefix(s, n + 1, h);
    } else {
        assert(s.subrange(0, n) =~= s);
    }
}

impl BulletStore {
    /// The motion pass: every projectile advances by a tick of `dt`
    /// microseconds; each carrier whose delay has passed is replaced by the
    /// projectile it carries, under a new handle.
    pub fn move_bullets(&mut self, dt: u64, player: Vec2i)
        requires
            old(self).wf(),
            in_world(player),
            dt <= MAX_DELTA,
            old(self).next_handle + old(self).entries@.len() <= u64::MAX,
        ensures
            final(self).wf(),
            final(self).entries@ == moved(old(self).entries@, dt as int, player) + with_handles(
                deployed(old(self).entries@, dt as int, player),
                old(self).next_handle as int,
            ),
            final(self).next_handle == old(self).next_handle + deployed(
                old(self).entries@,
                dt as int,
                player,
            ).len(),
    {
        let mut out: Vec<Entry> = Vec::new();
        let mut fresh: Vec<Projectile> = Vec::new();
        let mut i: usize = 0;
        while i < self.entries.len()
            invariant
                i <= self.entries@.len(),
                self.wf(),
                in_world(player),
                dt <= MAX_DELTA,
                entries_wf(out@, self.next_handle),
                forall|k: int| 0 <= k < fresh@.len() ==> projectile_wf(#[trigger] fresh@[k]),
                fresh@.len() <= i,
                out@ == moved(self.entries@.subrange(0, i as int), dt as int, player),
                fresh@ == deployed(self.entries@.subrange(0, i as int), dt as int, player),
            decreases self.entries@.len() - i,
        {
            proof {
                lemma_prefix_step(self.entries@, i as int);
            }
            let e = self.entries[i];
            let (b, d) = advance(e.bullet, dt, player);
            match d {
                Some(q) => fresh.push(q),
                None => out.push(Entry { handle: e.handle, bullet: b }),
            }
            i = i + 1;
        }
        assert(self.entries@.subrange(0, self.entries@.len() as int) =~= self.entries@);
        self.entries = out;
        self.spawn_all(fresh);
    }

    /// The boundary pass: removes every enemy bullet outside `area`.
    pub fn despawn_bullets(&mut self, area: Rect)
        requires
            old(self).wf(),
        ensures
            final(self).wf(),
            final(self).next_handle == old(self).next_handle,
            final(self).entries@ == inside(old(self).entries@, area),
    {
        let mut out: Vec<Entry> = Vec::new();
        let mut i: usize = 0;
        while i < self.entries.len()
            invariant
                i <= self.entries@.len(),
                self.wf(),
                entries_wf(out@, self.next_handle),
                out@ == inside(self.entries@.subrange(0, i as int), area),
            decreases self.entries@.len() - i,
        {
            proof {
                lemma_prefix_step(self.entries@, i as int);
            }
            let e = self.entries[i];
            let keep = match e.bullet.owner {
                Owner::Player => true,
                Owner::Enemy => area.contains(e.bullet.pos),
            };
            if keep {
                out.push(e);
            }
            i = i + 1;
        }
        assert(self.entries@.subrange(0, self.entries@.len() as int) =~= self.entries@);
        self.entries = out;
    }

    /// Tests every solid enemy bullet against the player's circle.
    pub fn check_enemy_bullets(&self, player: Circle) -> (r: Vec<PlayerHit>)
        requires
            self.wf(),
            in_world(player.pos),
            0 <= player.radius <= crate::geometry::MAX_LENGTH,
        ensures
            r@ == player_hit_list(self.entries@, player),
    {
        let mut out: Vec<PlayerHit> = Vec::new();
        let mut i: usize = 0;
        while i < self.entries.len()
            invariant
                i <= self.entries@.len(),
                self.wf(),
                in_world(player.pos),
                0 <= player.radius <= crate::geometry::MAX_LENGTH,
                out@ == player_hit_list(self.entries@.subrange(0, i as int), player),
            decreases self.entries@.len() - i,
        {
            proof {
                lemma_prefix_step(self.entries@, i as int);
            }
            let e = self.entries[i];
            let b = e.bullet;
            if matches!(b.owner, Owner::Enemy) && b.phasing.is_none() && b.delayed.is_none() {
                let c = Circle::new(b.radius, b.pos);
                if c.hits(player) {
                    proof {
                        assert(circles_overlap(c, player) == circles_overlap(circle_of(b), player));
                    }
                    out.push(PlayerHit(e.handle));
                }
            }
            i = i + 1;
        }
        assert(self.entries@.subrange(0, self.entries@.len() as int) =~= self.entries@);
        out
    }

    fn hit_row_exec(&self, p: Entry) -> (r: Vec<BulletHit>)
        requires
            self.wf(),
            projectile_wf(p.bullet),
        ensures
            r@ == hit_row(p, self.entries@),
    {
        let mut out: Vec<BulletHit> = Vec::new();
        let mut j: usize = 0;
        let pc = Circle::new(p.bullet.radius, p.bullet.pos);
        while j < self.entries.len()
            invariant
                j <= self.entries@.len(),
                self.wf(),
                projectile_wf(p.bullet),
                pc == circle_of(p.bullet),
                out@ == hit_row(p, self.entries@.subrange(0, j as int)),
            decreases self.entries@.len() - j,
        {
            proof {
                lemma_prefix_step(self.entries@, j as int);
            }
            let e = self.entries[j];
            let b = e.bullet;
            if matches!(b.owner, Owner::Enemy) && b.phasing.is_none() && b.delayed.is_none() {
                if pc.hits(Circle::new(b.radius, b.pos)) {
                    out.push(BulletHit { player: p.handle, enemy: e.handle });
                }
            }
            j = j + 1;
        }
        assert(self.entries@.subrange(0, self.entries@.len() as int) =~= self.entries@);
        out
    }

    /// Tests every solid player bullet against every solid enemy bullet.
    pub fn check_bullet_bullet(&self) -> (r: Vec<BulletHit>)
        requires
            self.wf(),
        ensures
            r@ == bullet_hit_list(self.entries@, self.entries@),
    {
        let mut out: Vec<BulletHit> = Vec::new();
        let mut i: usize = 0;
        while i < self.entries.len()
            invariant
                i <= self.entries@.len(),
                self.wf(),
                out@ == bullet_hit_list(self.entries@.subrange(0, i as int), self.entries@),
            decreases self.entries@.len() - i,
        {
            proof {
                lemma_prefix_step(self.entries@, i as int);
            }
            let e = self.entries[i];
            let b = e.bullet;
            if matches!(b.owner, Owner::Player) && b.phasing.is_none() && b.delayed.is_none() {
                let mut row = self.hit_row_exec(e);
                out.append(&mut row);
            }
            i = i + 1;
        }
        assert(self.entries@.subrange(0, self.entries@.len() as int) =~= self.entries@);
        out
    }

    /// The projectile with handle `h`, if it is live.
    pub fn get(&self, h: u64) -> (r: Option<Projectile>)
        ensures
            r == lookup(self.entries@, h),
    {
        let mut i: usize = 0;
        while i < self.entries.len()
            invariant
                i <= self.entries@.len(),
                lookup(self.entries@.subrange(0, i as int), h) is None,
            decreases self.entries@.len() - i,
        {
            proof {
                lemma_prefix_step(self.entries@, i as int);
            }
            if self.entries[i].handle == h {
                proof {
                    lemma_lookup_prefix(self.entries@, i + 1, h);
                }
                return Some(self.entries[i].bullet);
            }
            i = i + 1;
        }
        assert(self.entries@.subrange(0, self.entries@.len() as int) =~= self.entries@);
        None
    }

    /// Resolves one bullet-bullet hit.
    pub fn apply_bullet_hit(&mut self, hit: BulletHit)
        requires
            old(self).wf(),
        ensures
            final(self).wf(),
            final(self).next_handle == old(self).next_handle,
            final(self).entries@ == resolved_bullet_hit(old(self).entries@, hit),
    {
        let p = self.get(hit.player);
        let e = self.get(hit.enemy);
        match (p, e) {
            (Some(p), Some(e)) => {
                if matches!(p.owner, Owner::Player) && matches!(e.owner, Owner::Enemy) {
                    self.destroy(hit.player);
                    if p.salted.is_some() {
                        self.destroy(hit.enemy);
                    }
                }
            },
            _ => {},
        }
    }

    /// Resolves the bullet-bullet hits in order: each player bullet goes;
    /// the enemy bullet goes too when the player bullet is salted.
    pub fn bullet_bullet_hit(&mut self, hits: &Vec<BulletHit>)
        requires
            old(self).wf(),
        ensures
            final(self).wf(),
            final(self).next_handle == old(self).next_handle,
            final(self).entries@ == resolved_bullet_hits(old(self).entries@, hits@),
    {
        let ghost start = self.entries@;
        let mut i: usize = 0;
        while i < hits.len()
            invariant
                i <= hits@.len(),
                self.wf(),
                self.next_handle == old(self).next_handle,
                start == old(self).entries@,
                self.entries@ == resolved_bullet_hits(start, hits@.subrange(0, i as int)),
            decreases hits@.len() - i,
        {
            proof {
                lemma_prefix_step(hits@, i as int);
            }
            self.apply_bullet_hit(hits[i]);
            i = i + 1;
        }
        assert(hits@.subrange(0, hits@.len() as int) =~= hits@);
    }
}

/// The entries of `s` that are not phasing.
pub open spec fn unphased(s: Seq<Entry>) -> Seq<Entry>
    decreases s.len(),
{
    if s.len() == 0 {
        s
    } else {
        let prev = unphased(s.drop_last());
        if s.last().bullet.phasing is None {
            prev.push(s.last())
        } else {
            prev
        }
    }
}

proof fn lemma_player_hits_unphased(s: Seq<Entry>, c: Circle)
    ensures
        player_hit_list(s, c) == player_hit_list(unphased(s), c),
    decreases s.len(),
{
    if s.len() > 0 {
        lemma_player_hits_unphased(s.drop_last(), c);
        if s.last().bullet.phasing is None {
            assert(unphased(s).drop_last() =~= unphased(s.drop_last()));
        }
    }
}

proof fn lemma_row_unphased(p: Entry, s: Seq<Entry>)
    ensures
        hit_row(p, s) == hit_row(p, unphased(s)),
    decreases s.len(),
{
    if s.len() > 0 {
        lemma_row_unphased(p, s.drop_last());
        if s.last().bullet.phasing is None {
            assert(unphased(s).drop_last() =~= unphased(s.drop_last()));
        }
    }
}

proof fn lemma_bullet_hits_unphased(ps: Seq<Entry>, all: Seq<Entry>)
    ensures
        bullet_hit_list(ps, all) == bullet_hit_list(unphased(ps), unphased(all)),
    decreases ps.len(),
{
    if ps.len() > 0 {
        lemma_bullet_hits_unphased(ps.drop_last(), all);
        lemma_row_unphased(ps.last(), all);
        if ps.last().bullet.phasing is None {
            assert(unphased(ps).drop_last() =~= unphased(ps.drop_last()));
        }
    }
}

/// Phasing bullets take part in no collision: whatever their positions and
/// radii, taking every phasing bullet out of the store changes neither the
/// player hits nor the bullet-bullet hits that the store yields.
pub proof fn lemma_phasing_never_hits(s: Seq<Entry>, player: Circle)
    ensures
        player_hit_list(s, player) == player_hit_list(unphased(s), player),
        bullet_hit_list(s, s) == bullet_hit_list(unphased(s), unphased(s)),
        forall|k: int|
            0 <= k < unphased(s).len() ==> (#[trigger] unphased(s)[k]).bullet.phasing is None,
{
    lemma_player_hits_unphased(s, player);
    lemma_bullet_hits_unphased(s, s);
    lemma_unphased_has_no_phasing(s);
}

proof fn lemma_unphased_has_no_phasing(s: Seq<Entry>)
    ensures
        forall|k: int|
            0 <= k < unphased(s).len() ==> (#[trigger] unphased(s)[k]).bullet.phasing is None,
    decreases s.len(),
{
    if s.len() > 0 {
        lemma_unphased_has_no_phasing(s.drop_last());
    }
}

/// Removing handle `h` makes `h` absent and leaves every other handle's
/// projectile as it was.
pub proof fn lemma_lookup_without(s: Seq<Entry>, h: u64, g: u64)
    ensures
        lookup(without(s, h), g) == if g == h {
            None
        } else {
            lookup(s, g)
        },
    decreases s.len(),
{
    if s.len() > 0 {
        lemma_lookup_without(s.drop_last(), h, g);
        if s.last().handle != h {
            assert(without(s, h).drop_last() =~= without(s.drop_last(), h));
        }
    }
}

/// Removal is idempotent: removing a handle a second time changes nothing.
pub proof fn lemma_destroy_idempotent(s: Seq<Entry>, h: u64)
    ensures
        without(without(s, h), h) == without(s, h),
    decreases s.len(),
{
    if s.len() > 0 {
        lemma_destroy_idempotent(s.drop_last(), h);
        if s.last().handle != h {
            assert(without(s, h).drop_last() =~= without(s.drop_last(), h));
        }
    }
}

/// A bullet-bullet hit between a live player bullet and a live enemy bullet
/// always removes the player bullet, and removes the enemy bullet exactly
/// when the player bullet is salted.
pub proof fn lemma_salted_semantics(s: Seq<Entry>, hit: BulletHit)
    requires
        lookup(s, hit.player) matches Some(p) && p.owner == Owner::Player,
        lookup(s, hit.enemy) matches Some(e) && e.owner == Owner::Enemy,
    ensures
        lookup(resolved_bullet_hit(s, hit), hit.player) is None,
        (lookup(resolved_bullet_hit(s, hit), hit.enemy) is Some) <==> (lookup(
            s,
            hit.player,
        ).unwrap().salted is None),
{
    assert(hit.player != hit.enemy);
    lemma_lookup_without(s, hit.player, hit.player);
    lemma_lookup_without(s, hit.player, hit.enemy);
    lemma_lookup_without(without(s, hit.player), hit.enemy, hit.player);
    lemma_lookup_without(without(s, hit.player), hit.enemy, hit.enemy);
}

/// A carrier is never hit and never hits, and the motion pass replaces it
/// by exactly one projectile on the tick its delay passes, keeping it
/// otherwise.
pub proof fn lemma_carrier_replaced_once(e: Entry, dt: int, player: Vec2i, c: Circle)
    requires
        e.bullet.delayed is Some,
    ensures
        !hits_player(e.bullet, c),
        !is_solid(e.bullet),
        moved(seq![e], dt, player).len() + deployed(seq![e], dt, player).len() == 1,
        (deployed(seq![e], dt, player).len() == 1) == (deployment(e.bullet, dt, player) is Some),
{
    let s = seq![e];
    assert(s.drop_last() =~= Seq::<Entry>::empty());
    assert(s.last() == e);
    assert(moved(Seq::<Entry>::empty(), dt, player).len() == 0);
    assert(deployed(Seq::<Entry>::empty(), dt, player).len() == 0);
}

/// A projectile after `k` ticks of `dt` with the player at `player`.
pub open spec fn flown(p: Projectile, dt: int, player: Vec2i, k: nat) -> Projectile
    decreases k,
{
    if k == 0 {
        p
    } else {
        advanced(flown(p, dt, player, (k - 1) as nat), dt, player)
    }
}

/// A store without carriers after `k` ticks of the motion pass followed by
/// the boundary pass.
pub open spec fn boundary_run(s: Seq<Entry>, dt: int, player: Vec2i, area: Rect, k: nat) -> Seq<Entry>
    decreases k,
{
    if k == 0 {
        s
    } else {
        inside(moved(boundary_run(s, dt, player, area, (k - 1) as nat), dt, player), area)
    }
}

/// The projectile is inside `area` after each of the first `k` ticks.
pub open spec fn stays_inside(p: Projectile, dt: int, player: Vec2i, area: Rect, k: nat) -> bool {
    forall|j: nat| 1 <= j <= k ==> rect_contains(area, #[trigger] flown(p, dt, player, j).pos)
}

proof fn lemma_flown_keeps_kind(p: Projectile, dt: int, player: Vec2i, k: nat)
    requires
        p.delayed is None,
    ensures
        flown(p, dt, player, k).delayed is None,
        flown(p, dt, player, k).owner == p.owner,
    decreases k,
{
    if k > 0 {
        lemma_flown_keeps_kind(p, dt, player, (k - 1) as nat);
    }
}

/// Boundary despawn over many ticks: an enemy bullet that carries nothing
/// is still in the store after `k` ticks of motion and boundary passes
/// exactly when it was inside the boundary after every one of them, and
/// then it is the bullet flown `k` ticks; otherwise it is gone.
pub proof fn lemma_boundary_despawn(e: Entry, dt: int, player: Vec2i, area: Rect, k: nat)
    requires
        e.bullet.owner == Owner::Enemy,
        e.bullet.delayed is None,
    ensures
        deployed(seq![e], dt, player).len() == 0,
        boundary_run(seq![e], dt, player, area, k) == if stays_inside(e.bullet, dt, player, area, k) {
            seq![Entry { handle: e.handle, bullet: flown(e.bullet, dt, player, k) }]
        } else {
            Seq::<Entry>::empty()
        },
    decreases k,
{
    assert(seq![e].drop_last() =~= Seq::<Entry>::empty());
    assert(deployed(Seq::<Entry>::empty(), dt, player).len() == 0);
    if k > 0 {
        let k1 = (k - 1) as nat;
        lemma_boundary_despawn(e, dt, player, area, k1);
        lemma_flown_keeps_kind(e.bullet, dt, player, k1);
        lemma_flown_keeps_kind(e.bullet, dt, player, k);
        let prev = boundary_run(seq![e], dt, player, area, k1);
        let fk = flown(e.bullet, dt, player, k);
        assert(moved(Seq::<Entry>::empty(), dt, player) =~= Seq::<Entry>::empty());
        assert(inside(Seq::<Entry>::empty(), area) =~= Seq::<Entry>::empty());
        if stays_inside(e.bullet, dt, player, area, k1) {
            let one = seq![Entry { handle: e.handle, bullet: flown(e.bullet, dt, player, k1) }];
            assert(one.drop_last() =~= Seq::<Entry>::empty());
            let m = seq![Entry { handle: e.handle, bullet: fk }];
            assert(moved(one, dt, player) =~= m);
            assert(m.drop_last() =~= Seq::<Entry>::empty());
            if rect_contains(area, fk.pos) {
                assert(inside(m, area) =~= m);
                assert forall|j: nat| 1 <= j <= k implies rect_contains(area, #[trigger] flown(e.bullet, dt, player, j).pos) by {
                    if j < k {
                        assert(stays_inside(e.bullet, dt, player, area, k1));
                    }
                }
            } else {
                assert(inside(m, area) =~= Seq::<Entry>::empty());
                assert(!stays_inside(e.bullet, dt, player, area, k));
            }
        } else {
            assert(!stays_inside(e.bullet, dt, player, area, k)) by {
                let j = choose|j: nat| 1 <= j <= k1 && !rect_contains(area, #[trigger] flown(e.bullet, dt, player, j).pos);
                assert(1 <= j <= k && !rect_contains(area, flown(e.bullet, dt, player, j).pos));
            }
        }
    }
}

/// The displacement of one tick of straight flight.
pub open spec fn straight_step(p: Projectile) -> Vec2i {
    polar_of(p.motion.normal.unwrap().velocity.speed as int, p.motion.normal.unwrap().velocity.angle as int)
}

/// The point `j` steps along the line of flight lies in the world.
pub open spec fn line_point_in_world(p: Projectile, j: int) -> bool {
    let d = straight_step(p);
    &&& -WORLD_LIMIT <= p.pos.x + j * d.x <= WORLD_LIMIT
    &&& -WORLD_LIMIT <= p.pos.y + j * d.y <= WORLD_LIMIT
}

/// Straight flight: a bullet that only flies straight is at its start plus
/// `k` times its step after `k` ticks, while every point on the way lies in
/// the world.
pub proof fn lemma_straight_flight(p: Projectile, dt: int, player: Vec2i, k: nat)
    requires
        p.motion.normal is Some,
        p.motion.rotation is None,
        p.motion.homing is None,
        p.motion.stutter is None,
        p.motion.wave is None,
        forall|j: int| 0 <= j <= k ==> #[trigger] line_point_in_world(p, j),
    ensures
        ({
            let d = straight_step(p);
            &&& flown(p, dt, player, k).pos.x == p.pos.x + k * d.x
            &&& flown(p, dt, player, k).pos.y == p.pos.y + k * d.y
            &&& flown(p, dt, player, k).motion == p.motion
        }),
    decreases k,
{
    if k > 0 {
        let k1 = (k - 1) as nat;
        let d = straight_step(p);
        lemma_straight_flight(p, dt, player, k1);
        assert(line_point_in_world(p, k as int));
        assert(p.pos.x + k1 * d.x + d.x == p.pos.x + k * d.x) by (nonlinear_arith)
            requires k1 == k - 1;
        assert(p.pos.y + k1 * d.y + d.y == p.pos.y + k * d.y) by (nonlinear_arith)
            requires k1 == k - 1;
    }
}

} // verus!
