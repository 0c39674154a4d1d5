use danmaku::bullet::{Owner, Projectile};
use danmaku::combat::{
    create_gameplay_rect, fire_weapons, mission_outcome, next_frame, player_hits, set_alt_fire,
    ship_frame, Ammo, Health, Invulnerability, Life, MissionState, Player, INVULNERABLE_TIME,
};
use danmaku::encounter::{Encounter, TickInput};
use danmaku::geometry::{Vec2i, HALF_TURN};
use danmaku::recipes::{make_cannon, make_cannon2, spawn_enemy, spawn_player, Enemies};
use danmaku::store::{BulletStore, PlayerHit};

fn player() -> Player {
    Player {
        pos: Vec2i { x: 0, y: 0 },
        radius: 120,
        lives: Life(3),
        ammo: Ammo(1000),
        speed: 104,
        invulnerability: None,
    }
}

#[test]
fn life_defaults_to_one() {
    assert_eq!(Life::default(), Life(1));
}

#[test]
fn a_hit_costs_a_life_then_grants_invulnerability() {
    let mut p = player();
    p.take_hit();
    assert_eq!(p.lives, Life(2));
    assert_eq!(p.invulnerability, Some(Invulnerability(INVULNERABLE_TIME)));
    p.take_hit();
    assert_eq!(p.lives, Life(2));
    p.update_invulnerability(2_000_000);
    assert_eq!(p.invulnerability, Some(Invulnerability(1_000_000)));
    p.update_invulnerability(1_000_000);
    assert_eq!(p.invulnerability, None);
    p.take_hit();
    assert_eq!(p.lives, Life(1));
}

#[test]
fn the_last_life_ends_the_mission() {
    let mut p = player();
    p.lives = Life(1);
    assert!(!p.player_dead());
    p.take_hit();
    assert!(p.player_dead());
    p.invulnerability = None;
    p.take_hit();
    assert_eq!(p.lives, Life(0));
    assert_eq!(mission_outcome(&p, &vec![Health(10)]), MissionState::Fail);
}

#[test]
fn mission_outcome_cases() {
    let p = player();
    assert_eq!(mission_outcome(&p, &vec![Health(0), Health(3)]), MissionState::Ongoing);
    assert_eq!(mission_outcome(&p, &vec![Health(0), Health(0)]), MissionState::Success);
    assert_eq!(mission_outcome(&p, &vec![]), MissionState::Success);
}

#[test]
fn movement_follows_the_keys() {
    let area = create_gameplay_rect();
    let mut p = player();
    p.do_movement(false, false, false, true, area);
    assert_eq!(p.pos, Vec2i { x: 104, y: 0 });
    p.do_movement(true, false, false, true, area);
    assert_eq!(p.pos, Vec2i { x: 177, y: 73 });
    p.do_movement(true, true, true, true, area);
    assert_eq!(p.pos, Vec2i { x: 177, y: 73 });
    p.do_movement(false, true, false, false, area);
    assert_eq!(p.pos, Vec2i { x: 177, y: -31 });
}

#[test]
fn movement_stays_inside_the_arena() {
    let area = create_gameplay_rect();
    assert_eq!(area.min, Vec2i { x: -15360, y: -8640 });
    assert_eq!(area.max, Vec2i { x: 15360, y: 8640 });
    let mut p = player();
    p.pos = Vec2i { x: 15200, y: 8500 };
    p.do_movement(true, false, false, true, area);
    assert_eq!(p.pos, Vec2i { x: 15240, y: 8520 });
}

#[test]
fn ship_frames() {
    assert_eq!(ship_frame(true, false, false), 0);
    assert_eq!(ship_frame(false, false, false), 1);
    assert_eq!(ship_frame(true, true, false), 1);
    assert_eq!(ship_frame(false, true, false), 2);
    assert_eq!(ship_frame(false, true, true), 5);
}

#[test]
fn animation_frames_loop() {
    assert_eq!(next_frame(0, 0, 2), 1);
    assert_eq!(next_frame(1, 0, 2), 0);
    assert_eq!(next_frame(4, 0, 5), 0);
    assert_eq!(next_frame(3, 2, 5), 3);
}

#[test]
fn player_hits_consume_bullets_and_respect_invulnerability() {
    let mut s = BulletStore::new();
    let b = Projectile {
        pos: Vec2i { x: 0, y: 0 },
        radius: 80,
        owner: Owner::Enemy,
        lifetime: 0,
        salted: None,
        phasing: None,
        motion: danmaku::bullet::Motion { normal: None, rotation: None, homing: None, stutter: None, wave: None },
        delayed: None,
    };
    s.spawn(b);
    s.spawn(b);
    s.spawn(b);
    let mut p = player();
    player_hits(&mut s, &vec![PlayerHit(0), PlayerHit(1), PlayerHit(0), PlayerHit(9)], &mut p);
    assert_eq!(s.len(), 1);
    assert_eq!(s.entries[0].handle, 2);
    assert_eq!(p.lives, Life(2));
}

#[test]
fn weapons_fire_in_their_group() {
    let mut ws = vec![make_cannon(), make_cannon2()];
    let pos = Vec2i { x: 6400, y: 4800 };
    assert!(fire_weapons(&mut ws, 30_000, false, pos).is_empty());
    assert_eq!(ws[0].timer.elapsed, 30_000);
    assert_eq!(ws[1].timer.elapsed, 0);
    let shots = fire_weapons(&mut ws, 30_000, false, pos);
    assert_eq!(shots.len(), 1);
    assert_eq!(shots[0].pos, pos);
    assert_eq!(shots[0].owner, Owner::Player);
    assert!(shots[0].salted.is_some());
    assert_eq!(shots[0].motion.normal.unwrap().velocity.angle, HALF_TURN);
    assert_eq!(ws[0].timer.elapsed, 0);
    let alt = fire_weapons(&mut ws, 500_000, true, pos);
    assert_eq!(alt.len(), 1);
    assert_eq!(alt[0].radius, 1600);
    fire_weapons(&mut ws, 20_000, false, pos);
    set_alt_fire(&mut ws, true);
    assert_eq!(ws[0].timer.elapsed, 0);
    fire_weapons(&mut ws, 20_000, false, pos);
    set_alt_fire(&mut ws, false);
    assert_eq!(ws[0].timer.elapsed, 20_000);
}

#[test]
fn every_enemy_has_a_valid_recipe() {
    for (e, health, emitters, cards) in [
        (Enemies::RedGirl, 2000, 5, 3),
        (Enemies::Lizard, 2000, 3, 3),
        (Enemies::Tentacle, 1500, 3, 3),
        (Enemies::MoonGirl, 5000, 7, 6),
    ] {
        let s = spawn_enemy(e);
        assert_eq!(s.enemy.health, Health(health));
        assert_eq!(s.emitters.len(), emitters);
        assert_eq!(s.spellcards.len(), cards);
        for c in &s.spellcards {
            assert!(c.start_time < c.end_time);
            assert!(c.emitters.iter().all(|&i| i < emitters));
        }
    }
}

fn idle(dt: u64) -> TickInput {
    TickInput { dt, up: false, down: false, left: false, right: false, alt_fire: false, alt_changed: false }
}

#[test]
fn an_encounter_runs_and_ends() {
    let setup = spawn_enemy(Enemies::RedGirl);
    let mut enc = Encounter::new(
        setup.enemy,
        setup.emitters,
        setup.spellcards,
        spawn_player(),
        vec![make_cannon(), make_cannon2()],
    );
    assert_eq!(enc.state, MissionState::Ongoing);
    for _ in 0..64 {
        enc.tick(idle(15_625));
    }
    assert_eq!(enc.elapsed, 1_000_000);
    assert!(enc.emitters[0].active && enc.emitters[1].active);
    assert!(!enc.emitters[2].active && !enc.emitters[4].active);
    assert!(enc.bullets.len() > 0);
    assert!(enc.bullets.entries.iter().any(|e| e.bullet.owner == Owner::Player));
    assert!(enc.bullets.entries.iter().any(|e| e.bullet.owner == Owner::Enemy));
    enc.nuke_touhou();
    assert_eq!(enc.bullets.len(), 0);
    assert!(enc.emitters.is_empty() && enc.spellcards.is_empty() && enc.enemies.is_empty());
}

#[test]
fn an_encounter_is_won_when_the_enemy_falls() {
    let setup = spawn_enemy(Enemies::Tentacle);
    let mut enemy = setup.enemy;
    enemy.health = Health(0);
    let mut enc = Encounter::new(enemy, setup.emitters, setup.spellcards, spawn_player(), vec![]);
    enc.tick(idle(15_625));
    assert_eq!(enc.state, MissionState::Success);
}

#[test]
fn red_girl_spellcard_table() {
    let s = spawn_enemy(Enemies::RedGirl);
    let windows: Vec<(u64, u64, Vec<usize>)> =
        s.spellcards.iter().map(|c| (c.start_time, c.end_time, c.emitters.clone())).collect();
    assert_eq!(
        windows,
        vec![
            (0, 25_000_000, vec![0, 1]),
            (25_000_000, 45_000_000, vec![2, 3]),
            (45_000_000, 70_000_000, vec![4]),
        ]
    );
    let durations: Vec<u64> = s.emitters.iter().map(|e| e.timer.duration).collect();
    assert_eq!(durations, vec![50_000, 250_000, 1_500_000, 1_500_000, 100_000]);
    assert!(matches!(
        s.emitters[1].pattern,
        danmaku::emitter::Pattern::CircularHoming(danmaku::emitter::CircularHomingEmitter { count: 4, idx: 0, .. })
    ));
    assert!(matches!(
        s.emitters[4].pattern,
        danmaku::emitter::Pattern::CircularWave(danmaku::emitter::CircularWaveEmitter { count: 6, rotation: 0, .. })
    ));
}
