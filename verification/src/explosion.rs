//! Explosion animations: time-boxed entities that step through a fixed frame
//! sequence and remove themselves when it completes.

use vstd::prelude::*;
use crate::geom::Vec2;
use crate::geom::POS_LIMIT;
use crate::geom::rem_pos;
use crate::world::World;
use crate::EXPLOSION_FRAMES;
use crate::EXPLOSION_FRAME_MS;
use crate::TIME_LIMIT_MS;

verus! {

/// One running explosion animation.
#[derive(Clone, Copy, PartialEq, Eq, Structural, Debug)]
pub struct ExplosionAnim {
    /// Where the destruction happened.
    pub pos: Vec2,
    /// Current frame of the sprite sheet.
    pub frame_index: usize,
    /// Time accumulated toward the next frame, in milliseconds.
    pub frame_timer_ms: i64,
    /// Cleared once the frame sequence completes.
    pub alive: bool,
}

impl ExplosionAnim {
    /// A live animation never shows a frame past the sheet, and its timer
    /// stays within one frame.
    pub open spec fn wf(self) -> bool {
        &&& self.pos.bounded(POS_LIMIT as int)
        &&& self.alive ==> self.frame_index < EXPLOSION_FRAMES
        &&& 0 <= self.frame_timer_ms < EXPLOSION_FRAME_MS
    }
}

/// The animation a destruction at `p` starts: first frame, timer at zero.
pub open spec fn anim_at(p: Vec2) -> ExplosionAnim {
    ExplosionAnim { pos: p, frame_index: 0, frame_timer_ms: 0, alive: true }
}

/// One animation after one tick: the timer accumulates the elapsed time; on
/// completion the frame advances once and the timer keeps the remainder; the
/// animation removes itself when the frame sequence completes.
pub open spec fn ticked_anim(a: ExplosionAnim, dt: int) -> ExplosionAnim {
    if !a.alive {
        a
    } else {
        let t = a.frame_timer_ms + dt;
        if t >= EXPLOSION_FRAME_MS {
            ExplosionAnim {
                pos: a.pos,
                frame_index: (a.frame_index + 1) as usize,
                frame_timer_ms: (t % EXPLOSION_FRAME_MS as int) as i64,
                alive: a.frame_index + 1 < EXPLOSION_FRAMES,
            }
        } else {
            ExplosionAnim {
                pos: a.pos,
                frame_index: a.frame_index,
                frame_timer_ms: t as i64,
                alive: a.alive,
            }
        }
    }
}

/// A live animation never reaches the sheet's frame count: the completion
/// that would show that frame removes the animation instead, and any earlier
/// state stays strictly below it.
pub proof fn lemma_explosion_lifecycle(a: ExplosionAnim, dt: int)
    requires
        a.wf(),
        0 <= dt,
    ensures
        ticked_anim(a, dt).alive ==> ticked_anim(a, dt).frame_index < EXPLOSION_FRAMES,
        a.alive && a.frame_index + 1 == EXPLOSION_FRAMES && a.frame_timer_ms + dt
            >= EXPLOSION_FRAME_MS ==> !ticked_anim(a, dt).alive,
{
}

/// Every pending explosion consumed into a fresh animation.
pub open spec fn explosion_spawn_rel(pre: World, post: World) -> bool {
    &&& (post.wf())
    &&& (post.win == pre.win)
    &&& (post.maker == pre.maker)
    &&& (post.enemies@ == pre.enemies@)
    &&& (post.enemy_count == pre.enemy_count)
    &&& (post.player == pre.player)
    &&& (post.player_state == pre.player_state)
    &&& (post.player_shots@ == pre.player_shots@)
    &&& (post.enemy_shots@ == pre.enemy_shots@)
    &&& (post.score == pre.score)
    &&& (post.pending_explosions@.len() == 0)
    &&& (post.explosions@ == pre.explosions@ + pre.pending_explosions@.map_values(|p: Vec2| anim_at(p)))
}

/// Every animation advanced by `dt_ms`.
pub open spec fn explosion_anim_rel(pre: World, post: World, dt_ms: i64) -> bool {
    &&& (post.wf())
    &&& (post.win == pre.win)
    &&& (post.maker == pre.maker)
    &&& (post.enemies@ == pre.enemies@)
    &&& (post.enemy_count == pre.enemy_count)
    &&& (post.player == pre.player)
    &&& (post.player_state == pre.player_state)
    &&& (post.player_shots@ == pre.player_shots@)
    &&& (post.enemy_shots@ == pre.enemy_shots@)
    &&& (post.pending_explosions@ == pre.pending_explosions@)
    &&& (post.score == pre.score)
    &&& (post.explosions@.len() == pre.explosions@.len())
    &&& (forall|k: int|
                0 <= k < pre.explosions@.len() ==> post.explosions@[k] == ticked_anim(
                    #[trigger] pre.explosions@[k],
                    dt_ms as int,
                ))
}

impl World {
    /// Consume every pending explosion, exactly once each: each becomes a
    /// fresh animation at its position, and the buffer is emptied.
    pub fn explosion_spawn_tick(&mut self)
        requires
            old(self).wf(),
        ensures
            explosion_spawn_rel(*old(self), *final(self)),
    {
        let n = self.pending_explosions.len();
        let mut j: usize = 0;
        while j < n
            invariant
                n == self.pending_explosions@.len(),
                self.pending_explosions@ == old(self).pending_explosions@,
                0 <= j <= n,
                self.win == old(self).win,
                self.maker == old(self).maker,
                self.enemies@ == old(self).enemies@,
                self.enemy_count == old(self).enemy_count,
                self.player == old(self).player,
                self.player_state == old(self).player_state,
                self.player_shots@ == old(self).player_shots@,
                self.enemy_shots@ == old(self).enemy_shots@,
                self.score == old(self).score,
                old(self).wf(),
                forall|k: int| 0 <= k < self.explosions@.len() ==> (#[trigger] self.explosions@[k]).wf(),
                self.explosions@ == old(self).explosions@ + old(self).pending_explosions@.take(
                    j as int,
                ).map_values(|p: Vec2| anim_at(p)),
            decreases n - j,
        {
            let p = self.pending_explosions[j];
            self.explosions.push(
                ExplosionAnim { pos: p, frame_index: 0, frame_timer_ms: 0, alive: true },
            );
            proof {
                assert(self.explosions@ =~= old(self).explosions@ + old(
                    self,
                ).pending_explosions@.take(j + 1int).map_values(|q: Vec2| anim_at(q)));
            }
            j = j + 1;
        }
        self.pending_explosions = Vec::new();
        proof {
            assert(old(self).pending_explosions@.take(n as int) =~= old(
                self,
            ).pending_explosions@);
        }
    }

    /// Advance every animation's timer by the elapsed time.
    pub fn explosion_anim_tick(&mut self, dt_ms: i64)
        requires
            old(self).wf(),
            0 <= dt_ms <= TIME_LIMIT_MS,
        ensures
            explosion_anim_rel(*old(self), *final(self), dt_ms),
    {
        let n = self.explosions.len();
        let mut j: usize = 0;
        while j < n
            invariant
                n == self.explosions@.len(),
                n == old(self).explosions@.len(),
                0 <= j <= n,
                0 <= dt_ms <= TIME_LIMIT_MS,
                self.win == old(self).win,
                self.maker == old(self).maker,
                self.enemies@ == old(self).enemies@,
                self.enemy_count == old(self).enemy_count,
                self.player == old(self).player,
                self.player_state == old(self).player_state,
                self.player_shots@ == old(self).player_shots@,
                self.enemy_shots@ == old(self).enemy_shots@,
                self.pending_explosions@ == old(self).pending_explosions@,
                self.score == old(self).score,
                old(self).wf(),
                forall|k: int| 0 <= k < n ==> (#[trigger] self.explosions@[k]).wf(),
                forall|k: int|
                    0 <= k < j ==> self.explosions@[k] == ticked_anim(
                        #[trigger] old(self).explosions@[k],
                        dt_ms as int,
                    ),
                forall|k: int| j <= k < n ==> self.explosions@[k] == old(self).explosions@[k],
            decreases n - j,
        {
            let a = self.explosions[j];
            if a.alive {
                let t = a.frame_timer_ms + dt_ms;
                if t >= EXPLOSION_FRAME_MS {
                    let fi = a.frame_index + 1;
                    self.explosions[j] = ExplosionAnim {
                        pos: a.pos,
                        frame_index: fi,
                        frame_timer_ms: rem_pos(t, EXPLOSION_FRAME_MS),
                        alive: fi < EXPLOSION_FRAMES,
                    };
                } else {
                    self.explosions[j] = ExplosionAnim {
                        pos: a.pos,
                        frame_index: a.frame_index,
                        frame_timer_ms: t,
                        alive: a.alive,
                    };
                }
            }
            j = j + 1;
        }
    }
}

} // verus!
