use danmaku::bullet::{Motion, NormalBullet, Owner, Phasing, Projectile, Salted, Velocity};
use danmaku::encounter::despawn_area_exec;
use danmaku::geometry::{Circle, Vec2i};
use danmaku::store::{BulletHit, BulletStore, PlayerHit};

fn still() -> Motion {
    Motion { normal: None, rotation: None, homing: None, stutter: None, wave: None }
}

fn bullet(owner: Owner, x: i64, y: i64, radius: i64) -> Projectile {
    Projectile {
        pos: Vec2i { x, y },
        radius,
        owner,
        lifetime: 0,
        salted: None,
        phasing: None,
        motion: still(),
        delayed: None,
    }
}

fn handles(s: &BulletStore) -> Vec<u64> {
    s.entries.iter().map(|e| e.handle).collect()
}

#[test]
fn spawn_issues_increasing_handles() {
    let mut s = BulletStore::new();
    assert_eq!(s.spawn(bullet(Owner::Enemy, 0, 0, 5)), 0);
    assert_eq!(s.spawn(bullet(Owner::Enemy, 1, 0, 5)), 1);
    assert_eq!(s.spawn(bullet(Owner::Player, 2, 0, 5)), 2);
    assert_eq!(s.len(), 3);
    assert_eq!(s.next_handle, 3);
}

#[test]
fn destroy_twice_is_a_no_op() {
    let mut s = BulletStore::new();
    s.spawn(bullet(Owner::Enemy, 0, 0, 5));
    s.spawn(bullet(Owner::Enemy, 1, 0, 5));
    s.destroy(0);
    assert_eq!(handles(&s), vec![1]);
    s.destroy(0);
    assert_eq!(handles(&s), vec![1]);
    s.destroy(7);
    assert_eq!(handles(&s), vec![1]);
    assert!(!s.contains(0));
    assert!(s.contains(1));
    assert_eq!(s.get(1).map(|b| b.pos.x), Some(1));
    assert_eq!(s.get(0), None);
}

#[test]
fn player_hits_skip_phasing_player_owned_and_far_bullets() {
    let mut s = BulletStore::new();
    s.spawn(bullet(Owner::Enemy, 10, 0, 5));
    let mut ghost = bullet(Owner::Enemy, 0, 0, 50);
    ghost.phasing = Some(Phasing);
    s.spawn(ghost);
    s.spawn(bullet(Owner::Player, 0, 0, 5));
    s.spawn(bullet(Owner::Enemy, 100, 0, 5));
    s.spawn(bullet(Owner::Enemy, 0, -12, 5));
    let hits = s.check_enemy_bullets(Circle::new(8, Vec2i { x: 0, y: 0 }));
    assert_eq!(hits, vec![PlayerHit(0), PlayerHit(4)]);
}

#[test]
fn phasing_bullets_never_meet_bullets() {
    let mut s = BulletStore::new();
    let mut p = bullet(Owner::Player, 0, 0, 10);
    p.phasing = Some(Phasing);
    s.spawn(p);
    s.spawn(bullet(Owner::Enemy, 1, 0, 10));
    let mut e = bullet(Owner::Enemy, 2, 0, 10);
    e.phasing = Some(Phasing);
    s.spawn(e);
    s.spawn(bullet(Owner::Player, 3, 0, 10));
    assert_eq!(s.check_bullet_bullet(), vec![BulletHit { player: 3, enemy: 1 }]);
}

#[test]
fn bullet_hits_are_listed_by_player_bullet_then_enemy_bullet() {
    let mut s = BulletStore::new();
    s.spawn(bullet(Owner::Enemy, 0, 0, 5));
    s.spawn(bullet(Owner::Player, 0, 0, 5));
    s.spawn(bullet(Owner::Enemy, 4, 0, 5));
    s.spawn(bullet(Owner::Player, 1000, 0, 5));
    s.spawn(bullet(Owner::Player, 2, 0, 5));
    assert_eq!(
        s.check_bullet_bullet(),
        vec![
            BulletHit { player: 1, enemy: 0 },
            BulletHit { player: 1, enemy: 2 },
            BulletHit { player: 4, enemy: 0 },
            BulletHit { player: 4, enemy: 2 },
        ]
    );
}

#[test]
fn unsalted_player_bullet_is_consumed_alone() {
    let mut s = BulletStore::new();
    s.spawn(bullet(Owner::Player, 0, 0, 5));
    s.spawn(bullet(Owner::Enemy, 0, 0, 5));
    s.apply_bullet_hit(BulletHit { player: 0, enemy: 1 });
    assert_eq!(handles(&s), vec![1]);
}

#[test]
fn salted_player_bullet_takes_the_enemy_bullet_along() {
    let mut s = BulletStore::new();
    let mut p = bullet(Owner::Player, 0, 0, 5);
    p.salted = Some(Salted);
    s.spawn(p);
    s.spawn(bullet(Owner::Enemy, 0, 0, 5));
    s.spawn(bullet(Owner::Enemy, 50, 0, 5));
    s.apply_bullet_hit(BulletHit { player: 0, enemy: 1 });
    assert_eq!(handles(&s), vec![2]);
}

#[test]
fn stale_or_mismatched_bullet_hits_change_nothing() {
    let mut s = BulletStore::new();
    s.spawn(bullet(Owner::Player, 0, 0, 5));
    s.spawn(bullet(Owner::Enemy, 0, 0, 5));
    s.apply_bullet_hit(BulletHit { player: 1, enemy: 0 });
    assert_eq!(handles(&s), vec![0, 1]);
    s.apply_bullet_hit(BulletHit { player: 0, enemy: 9 });
    assert_eq!(handles(&s), vec![0, 1]);
}

#[test]
fn a_second_hit_on_a_consumed_bullet_is_skipped() {
    let mut s = BulletStore::new();
    s.spawn(bullet(Owner::Player, 0, 0, 5));
    s.spawn(bullet(Owner::Enemy, 0, 0, 5));
    s.spawn(bullet(Owner::Enemy, 3, 0, 5));
    let hits = s.check_bullet_bullet();
    assert_eq!(hits.len(), 2);
    s.bullet_bullet_hit(&hits);
    assert_eq!(handles(&s), vec![1, 2]);
}

#[test]
fn boundary_despawn_happens_when_the_bullet_first_leaves() {
    let mut s = BulletStore::new();
    let mut b = bullet(Owner::Enemy, 0, 0, 5);
    b.motion.normal = Some(NormalBullet { velocity: Velocity { speed: 100, angle: 0 } });
    s.spawn(b);
    let area = despawn_area_exec();
    let player = Vec2i { x: 0, y: -5000 };
    for tick in 1..=160 {
        s.move_bullets(15625, player);
        s.despawn_bullets(area);
        assert_eq!(s.len(), 1, "tick {}", tick);
        assert_eq!(s.entries[0].bullet.pos.x, 100 * tick);
    }
    s.move_bullets(15625, player);
    s.despawn_bullets(area);
    assert_eq!(s.len(), 0);
}

#[test]
fn boundary_keeps_player_bullets() {
    let mut s = BulletStore::new();
    s.spawn(bullet(Owner::Player, 50000, 0, 5));
    s.spawn(bullet(Owner::Enemy, 50000, 0, 5));
    s.spawn(bullet(Owner::Enemy, -16000, 16000, 5));
    s.despawn_bullets(despawn_area_exec());
    assert_eq!(handles(&s), vec![0, 2]);
}
