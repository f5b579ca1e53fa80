//! The player lifecycle: the singleton state record, spawning with its
//! invincibility window after the respawn delay, the keyboard-driven
//! velocity, firing, and the invincibility countdown.

use vstd::prelude::*;
use crate::geom::Vec2;
use crate::geom::POS_LIMIT;
use crate::geom::clamp_spec;
use crate::geom::clamp_i64;
use crate::geom::div_trunc;
use crate::world::Body;
use crate::world::Owner;
use crate::world::PlayerShip;
use crate::world::Shot;
use crate::world::Velocity;
use crate::world::World;
use crate::formation::WinSize;
use crate::PLAYER_RESPAWN_DELAY_MS;
use crate::PLAYER_INVINCIBLE_MS;
use crate::PLAYER_WIDTH_MILLI;
use crate::PLAYER_HEIGHT_MILLI;
use crate::PLAYER_LASER_WIDTH_MILLI;
use crate::PLAYER_LASER_HEIGHT_MILLI;
use crate::TIME_LIMIT_MS;

verus! {

/// Lifecycle record of the single player: whether a player entity exists, and
/// when it was last destroyed.
#[derive(Clone, Copy, PartialEq, Eq, Structural, Debug)]
pub struct PlayerState {
    /// A player entity currently exists.
    pub on: bool,
    /// When the player was last destroyed, if ever.
    pub last_destroyed: Option<i64>,
}

impl Default for PlayerState {
    /// Before the first spawn: absent, never destroyed.
    fn default() -> (s: PlayerState)
        ensures
            !s.on,
            s.last_destroyed is None,
    {
        PlayerState { on: false, last_destroyed: None }
    }
}

impl PlayerState {
    /// Any recorded destruction time is a representable timestamp.
    pub open spec fn wf(self) -> bool {
        match self.last_destroyed {
            Some(t) => 0 <= t <= crate::TIME_LIMIT_MS,
            None => true,
        }
    }

    /// Record a lethal hit at `time`: the player entity is gone.
    pub fn shot(&mut self, time: i64)
        ensures
            !final(self).on,
            final(self).last_destroyed == Some(time),
    {
        self.on = false;
        self.last_destroyed = Some(time);
    }

    /// Record a fresh spawn: the player entity exists again.
    pub fn spawned(&mut self)
        ensures
            final(self).on,
            final(self).last_destroyed is None,
    {
        self.on = true;
        self.last_destroyed = None;
    }
}

/// The respawn rule: no player exists, and either none was ever destroyed or
/// the delay since the last destruction has fully elapsed.
pub open spec fn spawn_eligible(s: PlayerState, now: int) -> bool {
    &&& !s.on
    &&& match s.last_destroyed {
        None => true,
        Some(t) => now >= t + PLAYER_RESPAWN_DELAY_MS,
    }
}

/// The ship a spawn produces: horizontal center, just above the bottom edge,
/// not moving, with a fresh invincibility window.
pub open spec fn spawned_player(win: WinSize) -> PlayerShip {
    PlayerShip {
        body: Body {
            pos: Vec2 { x: 0, y: (-(win.h as int / 2) + 23_750) as i64 },
            size: Vec2 { x: PLAYER_WIDTH_MILLI, y: PLAYER_HEIGHT_MILLI },
        },
        vel: Velocity { x: 0, y: 0 },
        invincible: Some(PLAYER_INVINCIBLE_MS),
    }
}

/// The velocity the keyboard mapping selects: each axis at a fixed fraction
/// of full speed, the first pressed key of a pair winning.
pub open spec fn keyboard_velocity(left: bool, right: bool, up: bool, down: bool) -> Velocity {
    Velocity {
        x: if left {
            -800i64
        } else if right {
            800i64
        } else {
            0
        },
        y: if up {
            500i64
        } else if down {
            -500i64
        } else {
            0
        },
    }
}

/// One of the pair of lasers a player volley produces, offset horizontally by
/// `dx` and spawned just above the ship.
pub open spec fn player_shot_at(p: PlayerShip, dx: int) -> Shot {
    Shot {
        body: Body {
            pos: Vec2 {
                x: clamp_spec(p.body.pos.x + dx, -POS_LIMIT as int, POS_LIMIT as int) as i64,
                y: clamp_spec(p.body.pos.y + 15_000, -POS_LIMIT as int, POS_LIMIT as int) as i64,
            },
            size: Vec2 { x: PLAYER_LASER_WIDTH_MILLI, y: PLAYER_LASER_HEIGHT_MILLI },
        },
        vel: Velocity { x: 0, y: 1000 },
        owner: Owner::FromPlayer,
        auto_despawn: true,
        alive: true,
    }
}

/// After a destruction at `t0` the respawn rule denies every tick before
/// `t0 + PLAYER_RESPAWN_DELAY_MS` and grants every tick from it on.
pub proof fn lemma_respawn_window(s: PlayerState, t0: i64, now: i64)
    requires
        !s.on,
        s.last_destroyed == Some(t0),
    ensures
        spawn_eligible(s, now as int) <==> now >= t0 + PLAYER_RESPAWN_DELAY_MS,
{
}

/// While a player entity exists the respawn rule stays off, so at most one
/// respawn can happen per destruction.
pub proof fn lemma_single_spawn(s: PlayerState, now: i64)
    requires
        s.on,
    ensures
        !spawn_eligible(s, now as int),
{
}

/// The respawn decision at `now_ms`: a fresh ship exactly when the rule allows.
pub open spec fn player_spawn_rel(pre: World, post: World, now_ms: i64) -> bool {
    &&& (post.wf())
    &&& (post.win == pre.win)
    &&& (post.maker == pre.maker)
    &&& (post.enemies@ == pre.enemies@)
    &&& (post.enemy_count == pre.enemy_count)
    &&& (post.player_shots@ == pre.player_shots@)
    &&& (post.enemy_shots@ == pre.enemy_shots@)
    &&& (post.pending_explosions@ == pre.pending_explosions@)
    &&& (post.explosions@ == pre.explosions@)
    &&& (post.score == pre.score)
    &&& (if spawn_eligible(pre.player_state, now_ms as int) {
                &&& post.player == Some(spawned_player(pre.win))
                &&& post.player_state.on
                &&& post.player_state.last_destroyed is None
            } else {
                &&& post.player == pre.player
                &&& post.player_state == pre.player_state
            })
}

/// The keyboard mapping applied to the player velocity.
pub open spec fn player_keyboard_rel(pre: World, post: World, left: bool, right: bool, up: bool, down: bool) -> bool {
    &&& (post.wf())
    &&& (post.win == pre.win)
    &&& (post.maker == pre.maker)
    &&& (post.enemies@ == pre.enemies@)
    &&& (post.enemy_count == pre.enemy_count)
    &&& (post.player_state == pre.player_state)
    &&& (post.player_shots@ == pre.player_shots@)
    &&& (post.enemy_shots@ == pre.enemy_shots@)
    &&& (post.pending_explosions@ == pre.pending_explosions@)
    &&& (post.explosions@ == pre.explosions@)
    &&& (post.score == pre.score)
    &&& (post.player == match pre.player {
                Some(p) => Some(
                    PlayerShip {
                        body: p.body,
                        vel: keyboard_velocity(left, right, up, down),
                        invincible: p.invincible,
                    },
                ),
                None => None,
            })
}

/// A player volley: the symmetric pair of lasers, when a player exists.
pub open spec fn player_fire_rel(pre: World, post: World) -> bool {
    &&& (post.wf())
    &&& (post.win == pre.win)
    &&& (post.maker == pre.maker)
    &&& (post.enemies@ == pre.enemies@)
    &&& (post.enemy_count == pre.enemy_count)
    &&& (post.player == pre.player)
    &&& (post.player_state == pre.player_state)
    &&& (post.enemy_shots@ == pre.enemy_shots@)
    &&& (post.pending_explosions@ == pre.pending_explosions@)
    &&& (post.explosions@ == pre.explosions@)
    &&& (post.score == pre.score)
    &&& (post.player_shots@ == match pre.player {
                Some(p) => pre.player_shots@.push(player_shot_at(p, 31_000)).push(
                    player_shot_at(p, -31_000),
                ),
                None => pre.player_shots@,
            })
}

/// The invincibility countdown by `dt_ms`, removing a window that reaches zero.
pub open spec fn invincibility_rel(pre: World, post: World, dt_ms: i64) -> bool {
    &&& (post.wf())
    &&& (post.win == pre.win)
    &&& (post.maker == pre.maker)
    &&& (post.enemies@ == pre.enemies@)
    &&& (post.enemy_count == pre.enemy_count)
    &&& (post.player_state == pre.player_state)
    &&& (post.player_shots@ == pre.player_shots@)
    &&& (post.enemy_shots@ == pre.enemy_shots@)
    &&& (post.pending_explosions@ == pre.pending_explosions@)
    &&& (post.explosions@ == pre.explosions@)
    &&& (post.score == pre.score)
    &&& (post.player == match pre.player {
                Some(p) => Some(
                    PlayerShip {
                        body: p.body,
                        vel: p.vel,
                        invincible: match p.invincible {
                            Some(t) => if t - dt_ms > 0 {
                                Some((t - dt_ms) as i64)
                            } else {
                                None
                            },
                            None => None,
                        },
                    },
                ),
                None => None,
            })
}

impl World {
    /// Spawn the player when the respawn rule allows it: exactly once, at the
    /// first tick at which the delay has elapsed, never earlier.
    pub fn player_spawn_tick(&mut self, now_ms: i64)
        requires
            old(self).wf(),
            0 <= now_ms <= TIME_LIMIT_MS,
        ensures
            player_spawn_rel(*old(self), *final(self), now_ms),
    {
        let eligible = !self.player_state.on && (match self.player_state.last_destroyed {
            None => true,
            Some(t) => now_ms >= t + PLAYER_RESPAWN_DELAY_MS,
        });
        if eligible {
            let bottom = -div_trunc(self.win.h, 2);
            self.player = Some(
                PlayerShip {
                    body: Body {
                        pos: Vec2 { x: 0, y: bottom + 23_750 },
                        size: Vec2 { x: PLAYER_WIDTH_MILLI, y: PLAYER_HEIGHT_MILLI },
                    },
                    vel: Velocity { x: 0, y: 0 },
                    invincible: Some(PLAYER_INVINCIBLE_MS),
                },
            );
            self.player_state.spawned();
        }
    }

    /// Map the pressed movement keys onto the player's velocity.
    pub fn player_keyboard_tick(&mut self, left: bool, right: bool, up: bool, down: bool)
        requires
            old(self).wf(),
        ensures
            player_keyboard_rel(*old(self), *final(self), left, right, up, down),
    {
        if let Some(p) = self.player {
            let vx: i64 = if left {
                -800
            } else if right {
                800i64
            } else {
                0
            };
            let vy: i64 = if up {
                500
            } else if down {
                -500i64
            } else {
                0
            };
            self.player = Some(
                PlayerShip {
                    body: p.body,
                    vel: Velocity { x: vx, y: vy },
                    invincible: p.invincible,
                },
            );
        }
    }

    /// The player fires: a pair of lasers, one to each side of the ship.
    pub fn player_fire_tick(&mut self)
        requires
            old(self).wf(),
        ensures
            player_fire_rel(*old(self), *final(self)),
    {
        if let Some(p) = self.player {
            let right = Shot {
                body: Body {
                    pos: Vec2 {
                        x: clamp_i64(p.body.pos.x + 31_000, -POS_LIMIT, POS_LIMIT),
                        y: clamp_i64(p.body.pos.y + 15_000, -POS_LIMIT, POS_LIMIT),
                    },
                    size: Vec2 { x: PLAYER_LASER_WIDTH_MILLI, y: PLAYER_LASER_HEIGHT_MILLI },
                },
                vel: Velocity { x: 0, y: 1000 },
                owner: Owner::FromPlayer,
                auto_despawn: true,
                alive: true,
            };
            let left = Shot {
                body: Body {
                    pos: Vec2 {
                        x: clamp_i64(p.body.pos.x - 31_000, -POS_LIMIT, POS_LIMIT),
                        y: clamp_i64(p.body.pos.y + 15_000, -POS_LIMIT, POS_LIMIT),
                    },
                    size: Vec2 { x: PLAYER_LASER_WIDTH_MILLI, y: PLAYER_LASER_HEIGHT_MILLI },
                },
                vel: Velocity { x: 0, y: 1000 },
                owner: Owner::FromPlayer,
                auto_despawn: true,
                alive: true,
            };
            self.player_shots.push(right);
            self.player_shots.push(left);
        }
    }

    /// Count the invincibility window down by the elapsed time, and remove it
    /// the moment it reaches zero — a window that expires this tick is
    /// already inactive for this tick's hits.
    pub fn invincibility_tick(&mut self, dt_ms: i64)
        requires
            old(self).wf(),
            0 <= dt_ms <= TIME_LIMIT_MS,
        ensures
            invincibility_rel(*old(self), *final(self), dt_ms),
    {
        if let Some(p) = self.player {
            if let Some(t) = p.invincible {
                let left = t - dt_ms;
                self.player = Some(
                    PlayerShip {
                        body: p.body,
                        vel: p.vel,
                        invincible: if left > 0 {
                            Some(left)
                        } else {
                            None
                        },
                    },
                );
            }
        }
    }
}

} // verus!
