use danmaku::bullet::{Motion, NormalBullet, Velocity, WaveBullet};
use danmaku::emitter::{
    circular_aimed_volley, circular_homing_volley, circular_wave_volley, divisive_volley, flood_shot,
    spray_shot, tentacle_volley, tick_emitter, BulletSpawner, CircularAimedEmitter,
    CircularHomingEmitter, CircularWaveEmitter, DivisiveEmitter, Emitter, FloodEmitter, Pattern,
    RotatingSprayEmitter, SprayEmitter, TentacleEmitter, Timer, TENTACLE_DELAY,
};
use danmaku::geometry::{angle_toward, polar, Vec2i, HALF_TURN, QUARTER_TURN, TURN};
use danmaku::spellcard::{advance_encounter_time, process_spellcards, Spellcard};

const SECOND: u64 = 1_000_000;

fn template(speed: i64) -> BulletSpawner {
    BulletSpawner::new(80).normal(Velocity { speed, angle: 0 })
}

fn v(x: i64, y: i64) -> Vec2i {
    Vec2i { x, y }
}

fn heading(b: &danmaku::bullet::Projectile) -> u32 {
    b.motion.normal.unwrap().velocity.angle
}

#[test]
fn ring_of_eight_is_evenly_spaced() {
    let anchor = v(3200, 0);
    let t = template(64);
    let r = circular_aimed_volley(&t, anchor, &CircularAimedEmitter { offset: 1000, count: 8 });
    assert_eq!(r.len(), 8);
    for (k, b) in r.iter().enumerate() {
        let angle = (k as u32) * TURN / 8;
        assert_eq!(heading(b), angle);
        assert_eq!(b.motion.normal.unwrap().velocity.speed, 64);
        let d = polar(1000, angle);
        assert_eq!(b.pos, v(3200 + d.x, d.y));
    }
    assert_eq!(r[2].pos, v(3200, 1000));
    assert_eq!(r[4].pos, v(2200, 0));
}

#[test]
fn ring_of_three_uses_floor_angles() {
    let t = template(10).normal(Velocity { speed: 10, angle: 100 });
    let r = circular_aimed_volley(&t, v(0, 0), &CircularAimedEmitter { offset: 0, count: 3 });
    let angles: Vec<u32> = r.iter().map(heading).collect();
    assert_eq!(angles, vec![100, 21945, 43790]);
    assert!(r.iter().all(|b| b.pos == v(0, 0)));
}

#[test]
fn rotation_origin_follows_the_emitter() {
    let t = template(10).rotation(v(5, 5), 1024);
    let r = circular_aimed_volley(&t, v(100, 200), &CircularAimedEmitter { offset: 0, count: 1 });
    let rot = r[0].motion.rotation.unwrap();
    assert_eq!(rot.origin, v(105, 205));
    assert_eq!(rot.rotation_speed, 1024);
}

#[test]
fn homing_ring_visits_slots_round_robin() {
    let t = template(32).homing(4 * SECOND, TURN / 8);
    let mut circ = CircularHomingEmitter { offset: 100, count: 4, idx: 0 };
    let mut slots = Vec::new();
    let mut angles = Vec::new();
    for _ in 0..5 {
        slots.push(circ.idx);
        let b = circular_homing_volley(&t, v(0, 0), &mut circ);
        angles.push(heading(&b));
        assert!(b.motion.homing.is_some());
    }
    assert_eq!(slots, vec![0, 1, 2, 3, 0]);
    assert_eq!(angles, vec![0, QUARTER_TURN, HALF_TURN, 3 * QUARTER_TURN, 0]);
    assert_eq!(circ.idx, 1);
}

#[test]
fn wave_rings_spiral_by_the_rotation_speed() {
    let t = template(32).wave(10430, Velocity { speed: 32, angle: 0 });
    let mut circ = CircularWaveEmitter { offset: 100, count: 6, rotation: 65000, rotation_speed: 1043 };
    let first = circular_wave_volley(&t, v(0, 0), &mut circ);
    assert_eq!(circ.rotation, (65000 + 1043) % TURN);
    let second = circular_wave_volley(&t, v(0, 0), &mut circ);
    for k in 0..6 {
        assert_eq!(heading(&second[k]), (heading(&first[k]) + 1043) % TURN);
        let w: WaveBullet = second[k].motion.wave.unwrap();
        assert_eq!(w.true_velocity.angle, heading(&second[k]));
    }
    assert_eq!(heading(&first[0]), 65000);
    assert_eq!(heading(&first[1]), (65000 + 10922) % TURN);
}

#[test]
fn tentacle_ring_carries_delayed_homing() {
    let t = template(64);
    let r = tentacle_volley(&t, v(0, 0), &TentacleEmitter { offset: 1600, count: 4 });
    assert_eq!(r.len(), 4);
    for (k, b) in r.iter().enumerate() {
        let d = b.delayed.unwrap();
        assert_eq!(d.delay, TENTACLE_DELAY);
        assert_eq!(d.radius, 80);
        assert_eq!(d.motion.homing.unwrap().seeking_time, 2 * SECOND);
        assert_eq!(d.motion.homing.unwrap().rotation_speed, TURN);
        assert_eq!(d.motion.normal.unwrap().velocity.angle, k as u32 * QUARTER_TURN);
    }
}

#[test]
fn divisive_wall_spacing() {
    let t = template(80);
    let r = divisive_volley(&t, &DivisiveEmitter { columns: 1, rows: 1 });
    assert_eq!(r.len(), 2);
    assert_eq!(r[0].pos, v(0, 9600));
    assert_eq!(heading(&r[0]), 3 * QUARTER_TURN);
    assert_eq!(r[1].pos, v(16000, 0));
    assert_eq!(heading(&r[1]), HALF_TURN);
    let r = divisive_volley(&t, &DivisiveEmitter { columns: 3, rows: 0 });
    let xs: Vec<i64> = r.iter().map(|b| b.pos.x).collect();
    assert_eq!(xs, vec![-7680, 0, 7680]);
}

#[test]
fn spray_and_flood_shots_are_exact() {
    let t = template(64);
    let b = spray_shot(&t, v(10, 20), 1000, -1500);
    assert_eq!(b.pos, v(10, 20));
    assert_eq!(heading(&b), TURN - 500);
    let f = flood_shot(&t, 300, -4000);
    assert_eq!(f.pos, v(14720, -4000));
    assert_eq!(heading(&f), 300);
}

fn emitter(pattern: Pattern, duration: u64, active: bool) -> Emitter {
    Emitter {
        timer: Timer { duration, elapsed: 0 },
        spawner: template(64),
        pattern,
        anchor: v(0, 0),
        active,
    }
}

#[test]
fn inactive_emitters_do_nothing() {
    let mut e = emitter(Pattern::CircularAimed(CircularAimedEmitter { offset: 0, count: 8 }), 10, false);
    let before = e;
    assert!(tick_emitter(&mut e, 1000, v(0, 0)).is_empty());
    assert_eq!(e, before);
}

#[test]
fn discrete_emitters_fire_when_the_timer_runs_out() {
    let mut e = emitter(Pattern::CircularAimed(CircularAimedEmitter { offset: 0, count: 8 }), 50_000, true);
    assert!(tick_emitter(&mut e, 20_000, v(0, 0)).is_empty());
    assert_eq!(e.timer.elapsed, 20_000);
    assert!(tick_emitter(&mut e, 20_000, v(0, 0)).is_empty());
    assert_eq!(tick_emitter(&mut e, 20_000, v(0, 0)).len(), 8);
    assert_eq!(e.timer.elapsed, 0);
}

#[test]
fn spray_streams_aimed_within_its_cone() {
    let width: u32 = 4000;
    let mut e = emitter(
        Pattern::Spray(SprayEmitter { spray_width: width, firing_time: SECOND, firing_speed: 10_000, count: 0 }),
        2 * SECOND,
        true,
    );
    let player = v(0, 5000);
    let aim = angle_toward(player);
    assert_eq!(aim, QUARTER_TURN);
    let r = tick_emitter(&mut e, 25_000, player);
    assert_eq!(r.len(), 2);
    match e.pattern {
        Pattern::Spray(s) => assert_eq!(s.count, 5_000),
        _ => panic!("pattern changed"),
    }
    let mut seen = std::collections::HashSet::new();
    for _ in 0..40 {
        for b in tick_emitter(&mut e, 10_000, player) {
            let h = heading(&b) as i64;
            assert!((h - aim as i64).abs() <= (width / 2) as i64, "heading {}", h);
            seen.insert(h);
        }
    }
    assert!(seen.len() > 1);
}

#[test]
fn flood_places_one_bullet_on_the_right_edge() {
    let mut e = emitter(Pattern::Flood(FloodEmitter { spray: TURN / 16 }), 10_000, true);
    for _ in 0..20 {
        let r = tick_emitter(&mut e, 10_000, v(0, 0));
        assert_eq!(r.len(), 1);
        assert_eq!(r[0].pos.x, 920 * 16);
        assert!(r[0].pos.y.abs() <= 540 * 16);
        let h = heading(&r[0]);
        assert!(h <= TURN / 32 || h >= TURN - TURN / 32);
    }
}

fn cards() -> Vec<Spellcard> {
    vec![
        Spellcard { emitters: vec![0], start_time: 0, end_time: 25 * SECOND },
        Spellcard { emitters: vec![1], start_time: 25 * SECOND, end_time: 45 * SECOND },
        Spellcard { emitters: vec![2, 9], start_time: 45 * SECOND, end_time: 70 * SECOND },
    ]
}

#[test]
fn spellcards_activate_their_windows() {
    let c = cards();
    assert_eq!(process_spellcards(0, &c, 3), vec![true, false, false]);
    assert_eq!(process_spellcards(25 * SECOND, &c, 3), vec![false, true, false]);
    assert_eq!(process_spellcards(50 * SECOND, &c, 3), vec![false, false, true]);
    assert_eq!(process_spellcards(70 * SECOND, &c, 3), vec![false, false, false]);
}

#[test]
fn overlapping_spellcards_or_their_emitters() {
    let c = vec![
        Spellcard { emitters: vec![0, 1], start_time: 0, end_time: 10 },
        Spellcard { emitters: vec![1, 2], start_time: 5, end_time: 20 },
    ];
    assert_eq!(process_spellcards(7, &c, 4), vec![true, true, true, false]);
    assert_eq!(process_spellcards(12, &c, 4), vec![false, true, true, false]);
}

#[test]
fn spellcard_clock_loops_after_the_last_window() {
    let c = cards();
    let start = process_spellcards(0, &c, 3);
    let mut t: u64 = 69 * SECOND;
    advance_encounter_time(&mut t, SECOND, &c);
    assert_eq!(t, 70 * SECOND);
    advance_encounter_time(&mut t, 15_625, &c);
    assert_eq!(t, 0);
    assert_eq!(process_spellcards(t, &c, 3), start);
    advance_encounter_time(&mut t, 15_625, &c);
    assert_eq!(t, 15_625);
}

#[test]
fn wave_template_keeps_its_amplitude() {
    let t = template(10).wave(500, Velocity { speed: 10, angle: 7 });
    let m: Motion = t.motion;
    assert_eq!(m.wave.unwrap().sine_mod, 500);
    assert_eq!(m.normal, Some(NormalBullet { velocity: Velocity { speed: 10, angle: 0 } }));
}

#[test]
fn rotating_spray_lobes_share_one_stream() {
    let mut e = emitter(
        Pattern::RotatingSpray(RotatingSprayEmitter {
            spray_width: 2000,
            firing_time: SECOND,
            firing_speed: 10_000,
            count: 3_000,
            rotation_speed: 8192,
            rotation: 5_000,
            spray_count: 2,
        }),
        SECOND,
        true,
    );
    let r = tick_emitter(&mut e, 25_000, v(0, 0));
    assert_eq!(r.len(), 5);
    match e.pattern {
        Pattern::RotatingSpray(s) => {
            assert_eq!(s.count, 3_000);
            assert_eq!(s.rotation, 5_204);
        }
        _ => panic!("pattern changed"),
    }
    for b in &r {
        let h = heading(b) as i64;
        let near_first = (h - 5_204).abs() <= 1000;
        let near_second = (h - (5_204 + HALF_TURN as i64)).abs() <= 1000;
        assert!(near_first || near_second, "heading {}", h);
    }
}
