//! The enemy systems: spawning new ships onto formation paths, firing
//! volleys, and advancing every ship along its path each tick.

use vstd::prelude::*;
use crate::geom::Vec2;
use crate::motion::path_next_pos;
use crate::motion::path_next_path;
use crate::motion::path_step;
use crate::world::Body;
use crate::world::Enemy;
use crate::world::Owner;
use crate::world::Shot;
use crate::world::Velocity;
use crate::world::World;
use crate::world::lemma_count_alive_push;
use crate::world::lemma_count_alive_flags;
use crate::formation::fresh_template;
use crate::ENEMY_MAX;
use crate::ENEMY_WIDTH_MILLI;
use crate::ENEMY_HEIGHT_MILLI;
use crate::ENEMY_LASER_WIDTH_MILLI;
use crate::ENEMY_LASER_HEIGHT_MILLI;
use crate::FORMATION_MEMBERS_MAX;

verus! {

/// The laser fired by the enemy `e`: straight down, from just under the ship.
pub open spec fn shot_from_enemy(e: Enemy) -> Shot {
    Shot {
        body: Body {
            pos: Vec2 { x: e.body.pos.x, y: (e.body.pos.y - 15_000) as i64 },
            size: Vec2 { x: ENEMY_LASER_WIDTH_MILLI, y: ENEMY_LASER_HEIGHT_MILLI },
        },
        vel: Velocity { x: 0, y: -1000i64 },
        owner: Owner::FromEnemy,
        auto_despawn: true,
        alive: true,
    }
}

/// One tick's volley: one laser per live enemy, in slot order.
pub open spec fn volley_of(s: Seq<Enemy>) -> Seq<Shot>
    decreases s.len(),
{
    if s.len() == 0 {
        Seq::empty()
    } else {
        volley_of(s.drop_last()) + if s.last().alive {
            seq![shot_from_enemy(s.last())]
        } else {
            Seq::empty()
        }
    }
}

/// One enemy after one tick of motion: live ships pursue their path, dead
/// slots stay as they are until the flush.
pub open spec fn moved_enemy(e: Enemy) -> Enemy {
    if e.alive {
        Enemy {
            body: Body { pos: path_next_pos(e.body.pos, e.path), size: e.body.size },
            path: path_next_path(e.body.pos, e.path),
            alive: true,
        }
    } else {
        e
    }
}

/// One enemy spawned onto the next formation path, unless the cap holds it back.
pub open spec fn enemy_spawn_rel(pre: World, post: World) -> bool {
    &&& (post.wf())
    &&& (post.win == pre.win)
    &&& (post.player == pre.player)
    &&& (post.player_state == pre.player_state)
    &&& (post.player_shots@ == pre.player_shots@)
    &&& (post.enemy_shots@ == pre.enemy_shots@)
    &&& (post.pending_explosions@ == pre.pending_explosions@)
    &&& (post.explosions@ == pre.explosions@)
    &&& (post.score == pre.score)
    &&& (if pre.enemy_count < ENEMY_MAX {
                &&& post.enemy_count == pre.enemy_count + 1
                &&& post.enemies@.len() == pre.enemies@.len() + 1
                &&& post.enemies@.drop_last() == pre.enemies@
                &&& ({
                    let e = post.enemies@.last();
                    &&& e.alive
                    &&& e.body.pos == e.path.start
                    &&& e.body.size == (Vec2 { x: ENEMY_WIDTH_MILLI, y: ENEMY_HEIGHT_MILLI })
                    &&& fresh_template(e.path, pre.win)
                    &&& post.maker.current_template == Some(e.path)
                    &&& if pre.maker.current_template is Some && pre.maker.current_members < FORMATION_MEMBERS_MAX {
                        &&& e.path == pre.maker.current_template->Some_0
                        &&& post.maker.current_members == pre.maker.current_members
                            + 1
                    } else {
                        &&& fresh_template(e.path, pre.win)
                        &&& post.maker.current_members == 1
                    }
                })
            } else {
                &&& post.enemy_count == pre.enemy_count
                &&& post.enemies@ == pre.enemies@
                &&& post.maker == pre.maker
            })
}

/// One volley: a laser appended per live enemy, in slot order.
pub open spec fn enemy_fire_rel(pre: World, post: World) -> bool {
    &&& (post.wf())
    &&& (post.win == pre.win)
    &&& (post.maker == pre.maker)
    &&& (post.enemies@ == pre.enemies@)
    &&& (post.enemy_count == pre.enemy_count)
    &&& (post.player == pre.player)
    &&& (post.player_state == pre.player_state)
    &&& (post.player_shots@ == pre.player_shots@)
    &&& (post.pending_explosions@ == pre.pending_explosions@)
    &&& (post.explosions@ == pre.explosions@)
    &&& (post.score == pre.score)
    &&& (post.enemy_shots@ == pre.enemy_shots@ + volley_of(pre.enemies@))
}

/// Every live enemy advanced one tick along its path.
pub open spec fn enemy_movement_rel(pre: World, post: World) -> bool {
    &&& (post.wf())
    &&& (post.win == pre.win)
    &&& (post.maker == pre.maker)
    &&& (post.enemy_count == pre.enemy_count)
    &&& (post.player == pre.player)
    &&& (post.player_state == pre.player_state)
    &&& (post.player_shots@ == pre.player_shots@)
    &&& (post.enemy_shots@ == pre.enemy_shots@)
    &&& (post.pending_explosions@ == pre.pending_explosions@)
    &&& (post.explosions@ == pre.explosions@)
    &&& (post.score == pre.score)
    &&& (post.enemies@.len() == pre.enemies@.len())
    &&& (forall|k: int|
                0 <= k < pre.enemies@.len() ==> post.enemies@[k] == moved_enemy(
                    #[trigger] pre.enemies@[k],
                ))
}

impl World {
    /// Spawn one enemy on the next formation path, unless the cap is reached.
    /// The new ship enters exactly at its path's start point.
    pub fn enemy_spawn_tick(&mut self)
        requires
            old(self).wf(),
        ensures
            enemy_spawn_rel(*old(self), *final(self)),
    {
        if self.enemy_count < ENEMY_MAX {
            let f = self.maker.make(&self.win);
            let e = Enemy {
                body: Body {
                    pos: f.start,
                    size: Vec2 { x: ENEMY_WIDTH_MILLI, y: ENEMY_HEIGHT_MILLI },
                },
                path: f,
                alive: true,
            };
            proof {
                lemma_count_alive_push(self.enemies@, e);
            }
            self.enemies.push(e);
            self.enemy_count = self.enemy_count + 1;
        }
        proof {
            if old(self).enemy_count < ENEMY_MAX {
                assert(self.enemies@.drop_last() == old(self).enemies@);
            }
            assert(enemy_spawn_rel(*old(self), *self));
        }
    }

    /// Every live enemy fires one laser straight down.
    pub fn enemy_fire_tick(&mut self)
        requires
            old(self).wf(),
        ensures
            enemy_fire_rel(*old(self), *final(self)),
    {
        let n = self.enemies.len();
        let mut j: usize = 0;
        while j < n
            invariant
                self.wf(),
                n == self.enemies@.len(),
                0 <= j <= n,
                self.win == old(self).win,
                self.maker == old(self).maker,
                self.enemies@ == old(self).enemies@,
                self.enemy_count == old(self).enemy_count,
                self.player == old(self).player,
                self.player_state == old(self).player_state,
                self.player_shots@ == old(self).player_shots@,
                self.pending_explosions@ == old(self).pending_explosions@,
                self.explosions@ == old(self).explosions@,
                self.score == old(self).score,
                self.enemy_shots@ == old(self).enemy_shots@ + volley_of(
                    old(self).enemies@.take(j as int),
                ),
            decreases n - j,
        {
            let e = self.enemies[j];
            proof {
                assert(old(self).enemies@.take(j + 1int).drop_last() =~= old(self).enemies@.take(
                    j as int,
                ));
            }
            if e.alive {
                let shot = Shot {
                    body: Body {
                        pos: Vec2 { x: e.body.pos.x, y: e.body.pos.y - 15_000 },
                        size: Vec2 { x: ENEMY_LASER_WIDTH_MILLI, y: ENEMY_LASER_HEIGHT_MILLI },
                    },
                    vel: Velocity { x: 0, y: -1000 },
                    owner: Owner::FromEnemy,
                    auto_despawn: true,
                    alive: true,
                };
                self.enemy_shots.push(shot);
            }
            j = j + 1;
        }
        proof {
            assert(old(self).enemies@.take(n as int) =~= old(self).enemies@);
        }
    }

    /// Advance every live enemy one tick along its path.
    pub fn enemy_movement_tick(&mut self)
        requires
            old(self).wf(),
        ensures
            enemy_movement_rel(*old(self), *final(self)),
    {
        let n = self.enemies.len();
        let mut j: usize = 0;
        while j < n
            invariant
                n == self.enemies@.len(),
                n == old(self).enemies@.len(),
                0 <= j <= n,
                self.win == old(self).win,
                self.maker == old(self).maker,
                self.enemy_count == old(self).enemy_count,
                self.player == old(self).player,
                self.player_state == old(self).player_state,
                self.player_shots@ == old(self).player_shots@,
                self.enemy_shots@ == old(self).enemy_shots@,
                self.pending_explosions@ == old(self).pending_explosions@,
                self.explosions@ == old(self).explosions@,
                self.score == old(self).score,
                self.win.wf(),
                self.maker.wf(),
                old(self).wf(),
                forall|k: int| 0 <= k < n ==> (#[trigger] self.enemies@[k]).wf(),
                forall|k: int|
                    0 <= k < j ==> self.enemies@[k] == moved_enemy(
                        #[trigger] old(self).enemies@[k],
                    ),
                forall|k: int| j <= k < n ==> self.enemies@[k] == old(self).enemies@[k],
                forall|k: int|
                    0 <= k < n ==> self.enemies@[k].alive == (#[trigger] old(self).enemies@[k]).alive,
            decreases n - j,
        {
            let e = self.enemies[j];
            if e.alive {
                let mut path = e.path;
                let np = path_step(e.body.pos, &mut path);
                self.enemies[j] = Enemy {
                    body: Body { pos: np, size: e.body.size },
                    path,
                    alive: true,
                };
            }
            j = j + 1;
        }
        proof {
            lemma_count_alive_flags(self.enemies@, old(self).enemies@);
        }
    }
}

} // verus!
