//! Whole-scene scenarios: spawning, motion, collisions, the player lifecycle
//! and the explosion pipeline.

use spade_invaders::formation::WinSize;
use spade_invaders::formation::Formation;
use spade_invaders::geom::div_trunc;
use spade_invaders::geom::isqrt;
use spade_invaders::trig::cos_milli;
use spade_invaders::trig::sin_milli;
use spade_invaders::trig::PI_MICRO;
use spade_invaders::trig::TWO_PI_MICRO;
use spade_invaders::motion::path_step;
use spade_invaders::geom::Vec2;
use spade_invaders::player::PlayerState;
use spade_invaders::world::Body;
use spade_invaders::world::Owner;
use spade_invaders::world::Shot;
use spade_invaders::world::Velocity;
use spade_invaders::world::World;
use spade_invaders::EXPLOSION_FRAMES;
use spade_invaders::EXPLOSION_FRAME_MS;
use spade_invaders::PLAYER_INVINCIBLE_MS;
use spade_invaders::PLAYER_LASER_WIDTH_MILLI;
use spade_invaders::PLAYER_LASER_HEIGHT_MILLI;
use spade_invaders::ENEMY_LASER_WIDTH_MILLI;
use spade_invaders::ENEMY_LASER_HEIGHT_MILLI;

fn win() -> WinSize {
    WinSize { w: 1_920_000, h: 1_080_000 }
}

fn player_shot_over(pos: Vec2) -> Shot {
    Shot {
        body: Body {
            pos,
            size: Vec2 { x: PLAYER_LASER_WIDTH_MILLI, y: PLAYER_LASER_HEIGHT_MILLI },
        },
        vel: Velocity { x: 0, y: 1000 },
        owner: Owner::FromPlayer,
        auto_despawn: true,
        alive: true,
    }
}

fn enemy_shot_over(pos: Vec2) -> Shot {
    Shot {
        body: Body {
            pos,
            size: Vec2 { x: ENEMY_LASER_WIDTH_MILLI, y: ENEMY_LASER_HEIGHT_MILLI },
        },
        vel: Velocity { x: 0, y: -1000 },
        owner: Owner::FromEnemy,
        auto_despawn: true,
        alive: true,
    }
}

#[test]
fn two_spawned_enemies_share_one_template() {
    let mut w = World::new(win());
    w.enemy_spawn_tick();
    w.enemy_spawn_tick();
    assert_eq!(w.enemy_count, 2);
    assert_eq!(w.enemies.len(), 2);
    // FORMATION_MEMBERS_MAX is two: both members fly the identical path.
    assert_eq!(w.enemies[0].path, w.enemies[1].path);
    assert_eq!(w.enemies[0].body.pos, w.enemies[0].path.start);
    // The cap suppresses a third spawn.
    w.enemy_spawn_tick();
    assert_eq!(w.enemy_count, 2);
    assert_eq!(w.enemies.len(), 2);
}

#[test]
fn laser_kills_enemy_once_and_scores_once() {
    let mut w = World::new(win());
    w.enemy_spawn_tick();
    w.enemy_spawn_tick();
    let target = w.enemies[0].body.pos;
    w.player_shots.push(player_shot_over(target));
    w.player_shots_hit_enemies();
    assert_eq!(w.enemy_count, 1);
    assert_eq!(w.score, 1);
    assert!(!w.enemies[0].alive);
    assert!(!w.player_shots[0].alive);
    assert_eq!(w.pending_explosions.len(), 1);
    assert_eq!(w.pending_explosions[0], target);
}

#[test]
fn many_lasers_on_one_enemy_destroy_it_exactly_once() {
    let mut w = World::new(win());
    w.enemy_spawn_tick();
    // Only one live enemy: remove the second spawn opportunity by leaving the
    // count below the cap but the world with a single ship.
    let target = w.enemies[0].body.pos;
    w.player_shots.push(player_shot_over(target));
    w.player_shots.push(player_shot_over(target));
    w.player_shots.push(player_shot_over(target));
    w.player_shots_hit_enemies();
    // The enemy dies once, the count falls by one, not three.
    assert_eq!(w.enemy_count, 0);
    assert_eq!(w.score, 1);
    assert_eq!(w.pending_explosions.len(), 1);
    // Exactly one laser was consumed: the first; the others stay live.
    assert!(!w.player_shots[0].alive);
    assert!(w.player_shots[1].alive);
    assert!(w.player_shots[2].alive);
}

#[test]
fn invincibility_spares_the_player_and_expires() {
    let mut w = World::new(win());
    w.player_spawn_tick(0);
    let p = w.player.expect("player spawns into an empty world");
    assert_eq!(p.invincible, Some(PLAYER_INVINCIBLE_MS));
    // A hit during the window removes only the projectile.
    w.enemy_shots.push(enemy_shot_over(p.body.pos));
    w.enemy_shots_hit_player(100);
    assert!(w.player.is_some());
    assert!(w.player_state.on);
    assert!(!w.enemy_shots[0].alive);
    assert_eq!(w.pending_explosions.len(), 0);
    // The window counts down past zero and disappears.
    w.invincibility_tick(PLAYER_INVINCIBLE_MS + 1);
    assert_eq!(w.player.unwrap().invincible, None);
    // An identical hit now destroys the player.
    w.enemy_shots.push(enemy_shot_over(p.body.pos));
    w.enemy_shots_hit_player(700);
    assert!(w.player.is_none());
    assert!(!w.player_state.on);
    assert_eq!(w.player_state.last_destroyed, Some(700));
    assert_eq!(w.pending_explosions.len(), 1);
    assert_eq!(w.pending_explosions[0], p.body.pos);
}

#[test]
fn first_hit_wins_and_later_lasers_wait() {
    let mut w = World::new(win());
    w.player_spawn_tick(0);
    w.invincibility_tick(PLAYER_INVINCIBLE_MS);
    let p = w.player.unwrap();
    assert_eq!(p.invincible, None);
    w.enemy_shots.push(enemy_shot_over(p.body.pos));
    w.enemy_shots.push(enemy_shot_over(p.body.pos));
    w.enemy_shots_hit_player(42);
    // Only the first overlapping laser is consumed this tick.
    assert!(!w.enemy_shots[0].alive);
    assert!(w.enemy_shots[1].alive);
    assert!(w.player.is_none());
    assert_eq!(w.pending_explosions.len(), 1);
}

#[test]
fn respawn_waits_for_the_full_delay() {
    let mut w = World::new(win());
    w.player_spawn_tick(0);
    assert!(w.player.is_some());
    // Destroy the player at time 1000.
    let p = w.player.unwrap();
    w.invincibility_tick(PLAYER_INVINCIBLE_MS);
    w.enemy_shots.push(enemy_shot_over(p.body.pos));
    w.enemy_shots_hit_player(1_000);
    assert!(w.player.is_none());
    // One millisecond early: no respawn.
    w.player_spawn_tick(2_999);
    assert!(w.player.is_none());
    // At the boundary: exactly one respawn, with a fresh window, centered
    // just above the bottom edge.
    w.player_spawn_tick(3_000);
    let back = w.player.expect("respawn at the first eligible tick");
    assert_eq!(back.invincible, Some(PLAYER_INVINCIBLE_MS));
    assert_eq!(back.body.pos, Vec2 { x: 0, y: -(win().h / 2) + 23_750 });
    assert!(w.player_state.on);
    assert_eq!(w.player_state.last_destroyed, None);
}

#[test]
fn explosion_plays_sixteen_frames_and_leaves() {
    let mut w = World::new(win());
    w.pending_explosions.push(Vec2 { x: 7_000, y: -3_000 });
    w.explosion_spawn_tick();
    assert_eq!(w.pending_explosions.len(), 0);
    assert_eq!(w.explosions.len(), 1);
    assert_eq!(w.explosions[0].frame_index, 0);
    assert!(w.explosions[0].alive);
    // Each full frame time advances the animation one frame; the sixteenth
    // completion removes it, and a live animation never shows frame sixteen.
    for step in 0..EXPLOSION_FRAMES {
        assert!(w.explosions[0].alive);
        assert_eq!(w.explosions[0].frame_index, step);
        w.explosion_anim_tick(EXPLOSION_FRAME_MS);
    }
    assert!(!w.explosions[0].alive);
    assert_eq!(w.explosions[0].frame_index, EXPLOSION_FRAMES);
    w.flush_removals();
    assert_eq!(w.explosions.len(), 0);
}

#[test]
fn movers_advance_and_reaper_takes_the_strays() {
    let mut w = World::new(win());
    // A laser well inside the area merely advances by one tick of its speed.
    w.player_shots.push(player_shot_over(Vec2 { x: 0, y: 0 }));
    // A laser already at the margin leaves the area and is reaped.
    let near_edge = win().h / 2 + 200_000;
    w.player_shots.push(player_shot_over(Vec2 { x: 0, y: near_edge }));
    w.movable_tick();
    assert!(w.player_shots[0].alive);
    assert_eq!(w.player_shots[0].body.pos, Vec2 { x: 0, y: 8_333 });
    assert!(!w.player_shots[1].alive);
    assert_eq!(w.player_shots[1].body.pos, Vec2 { x: 0, y: near_edge + 8_333 });
    w.flush_removals();
    assert_eq!(w.player_shots.len(), 1);
}

#[test]
fn player_volley_spawns_a_symmetric_pair() {
    let mut w = World::new(win());
    w.player_spawn_tick(0);
    let p = w.player.unwrap();
    w.player_fire_tick();
    assert_eq!(w.player_shots.len(), 2);
    assert_eq!(
        w.player_shots[0].body.pos,
        Vec2 { x: p.body.pos.x + 31_000, y: p.body.pos.y + 15_000 }
    );
    assert_eq!(
        w.player_shots[1].body.pos,
        Vec2 { x: p.body.pos.x - 31_000, y: p.body.pos.y + 15_000 }
    );
    assert_eq!(w.player_shots[0].vel, Velocity { x: 0, y: 1000 });
    assert!(matches!(w.player_shots[0].owner, Owner::FromPlayer));
}

#[test]
fn enemy_volley_fires_from_every_live_ship() {
    let mut w = World::new(win());
    w.enemy_spawn_tick();
    w.enemy_spawn_tick();
    w.enemy_fire_tick();
    assert_eq!(w.enemy_shots.len(), 2);
    for j in 0..2 {
        let e = &w.enemies[j];
        let s = &w.enemy_shots[j];
        assert_eq!(s.body.pos, Vec2 { x: e.body.pos.x, y: e.body.pos.y - 15_000 });
        assert_eq!(s.vel, Velocity { x: 0, y: -1000 });
        assert!(matches!(s.owner, Owner::FromEnemy));
    }
}

#[test]
fn keyboard_maps_keys_to_axis_fractions() {
    let mut w = World::new(win());
    w.player_spawn_tick(0);
    w.player_keyboard_tick(true, false, true, false);
    assert_eq!(w.player.unwrap().vel, Velocity { x: -800, y: 500 });
    w.player_keyboard_tick(false, true, false, true);
    assert_eq!(w.player.unwrap().vel, Velocity { x: 800, y: -500 });
    w.player_keyboard_tick(false, false, false, false);
    assert_eq!(w.player.unwrap().vel, Velocity { x: 0, y: 0 });
}

#[test]
fn path_motion_keeps_enemies_within_the_region() {
    let mut w = World::new(win());
    w.enemy_spawn_tick();
    w.enemy_spawn_tick();
    for _ in 0..600 {
        w.enemy_movement_tick();
    }
    for e in &w.enemies {
        assert!(e.body.pos.x.abs() <= 1_000_000_000);
        assert!(e.body.pos.y.abs() <= 1_000_000_000);
        // Lock-step: both members still share one path and one position.
        assert_eq!(e.path, w.enemies[0].path);
        assert_eq!(e.body.pos, w.enemies[0].body.pos);
    }
}

#[test]
fn lifecycle_record_transitions() {
    let mut s = PlayerState::default();
    assert!(!s.on);
    assert_eq!(s.last_destroyed, None);
    s.spawned();
    assert!(s.on);
    s.shot(123);
    assert!(!s.on);
    assert_eq!(s.last_destroyed, Some(123));
    s.spawned();
    assert!(s.on);
    assert_eq!(s.last_destroyed, None);
}

#[test]
fn full_ticks_keep_the_world_consistent() {
    let mut w = World::new(win());
    let mut now: i64 = 0;
    for t in 0..240 {
        w.world_tick(now, 16, t % 3 == 0, false, false, false, t % 5 == 0);
        now += 16;
        assert!(w.enemy_count <= 2);
        assert_eq!(w.enemy_count as usize, w.enemies.len());
        for e in &w.enemies {
            assert!(e.alive);
        }
        for x in &w.explosions {
            assert!(x.frame_index < EXPLOSION_FRAMES || !x.alive);
        }
        assert_eq!(w.player_state.on, w.player.is_some());
    }
}

#[test]
fn dead_entities_survive_until_the_flush() {
    let mut w = World::new(win());
    w.enemy_spawn_tick();
    let target = w.enemies[0].body.pos;
    w.player_shots.push(player_shot_over(target));
    w.player_shots_hit_enemies();
    // The destroyed enemy is still queryable, only flagged.
    assert_eq!(w.enemies.len(), 1);
    assert!(!w.enemies[0].alive);
    w.flush_removals();
    assert_eq!(w.enemies.len(), 0);
    assert_eq!(w.player_shots.len(), 0);
}

#[test]
fn pending_explosion_consumed_at_most_once() {
    let mut w = World::new(win());
    w.pending_explosions.push(Vec2 { x: 1, y: 2 });
    w.explosion_spawn_tick();
    assert_eq!(w.explosions.len(), 1);
    // A second pass finds nothing left to consume.
    w.explosion_spawn_tick();
    assert_eq!(w.explosions.len(), 1);
    assert_eq!(w.explosions[0].pos, Vec2 { x: 1, y: 2 });
}

#[test]
fn path_step_follows_the_ellipse_formula() {
    let mut path = Formation {
        start: Vec2 { x: -1_060_000, y: 0 },
        radius: Vec2 { x: 100_000, y: 100_000 },
        pivot: Vec2 { x: 0, y: 200_000 },
        speed: 500_000,
        angle: 0,
    };
    let pos = Vec2 { x: -500_000, y: 0 };

    // Recompute the tick by hand from the published pieces.
    let max_step = div_trunc(path.speed, 60);
    let inc = div_trunc(2 * max_step * 1_000_000_000_000, 100_000 * PI_MICRO);
    let mut next_angle = path.angle + inc; // entering from the left: phase grows
    if next_angle >= TWO_PI_MICRO {
        next_angle -= TWO_PI_MICRO;
    }
    let tx = path.pivot.x + div_trunc(path.radius.x * cos_milli(next_angle), 1000);
    let ty = path.pivot.y + div_trunc(path.radius.y * sin_milli(next_angle), 1000);
    let (dx, dy) = (pos.x - tx, pos.y - ty);
    let dist = isqrt((dx * dx + dy * dy) as u64) as i64;
    let step_x = div_trunc(dx * max_step, dist);
    let step_y = div_trunc(dy * max_step, dist);
    let expect_x = if dx > 0 { (pos.x - step_x).max(tx) } else { (pos.x - step_x).min(tx) };
    let expect_y = if dy > 0 { (pos.y - step_y).max(ty) } else { (pos.y - step_y).min(ty) };

    let before = path;
    let next = path_step(pos, &mut path);
    assert_eq!(next, Vec2 { x: expect_x, y: expect_y });
    // Never further from the target than before, on either axis.
    assert!((next.x - tx).abs() <= (pos.x - tx).abs());
    assert!((next.y - ty).abs() <= (pos.y - ty).abs());
    // Far from the target, the phase is not yet committed.
    let threshold = div_trunc(max_step * before.speed, 20_000);
    assert!(dist >= threshold);
    assert_eq!(path.angle, before.angle);
    // Walking the pursuit curve keeps the phase inside one cycle and, once
    // the ship closes in, commits the proposed phase.
    let mut p = pos;
    let mut committed = false;
    for _ in 0..2_000 {
        let old_angle = path.angle;
        p = path_step(p, &mut path);
        assert!(path.angle >= 0 && path.angle < TWO_PI_MICRO);
        if path.angle != old_angle {
            committed = true;
        }
    }
    assert!(committed);
}
