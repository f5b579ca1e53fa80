//! The shared world state: every entity of the scene as plain fixed-point
//! data, the global counters, and the well-formedness invariant that each
//! per-tick pass preserves. Destroyed entities keep their slot, flagged dead,
//! until `flush_removals` applies all removals at the end of the tick, so no
//! pass ever observes a partially mutated world.

use vstd::prelude::*;
use crate::geom::Vec2;
use crate::geom::POS_LIMIT;
use crate::geom::PATH_POS_LIMIT;
use crate::geom::SIZE_LIMIT;
use crate::geom::clamp_spec;
use crate::geom::clamp_i64;
use crate::geom::div_trunc;
use crate::geom::div_trunc_spec;
use crate::BASE_STEP_MILLI;
use crate::DESPAWN_MARGIN_MILLI;
use crate::formation::Formation;
use crate::formation::FormationMaker;
use crate::formation::WinSize;
use crate::formation::fresh_template;
use crate::player::PlayerState;
use crate::player::player_spawn_rel;
use crate::player::player_keyboard_rel;
use crate::player::player_fire_rel;
use crate::player::invincibility_rel;
use crate::enemy::enemy_spawn_rel;
use crate::enemy::enemy_fire_rel;
use crate::enemy::enemy_movement_rel;
use crate::collision::laser_hits_rel;
use crate::collision::player_hit_rel;
use crate::explosion::ExplosionAnim;
use crate::explosion::explosion_anim_rel;
use crate::explosion::explosion_spawn_rel;
use crate::ENEMY_MAX;

verus! {

/// A unit-normalized direction in milli-units: 1000 stands for full speed
/// along an axis. Scaled by the base speed and the tick length when motion is
/// integrated.
#[derive(Clone, Copy, PartialEq, Eq, Structural, Debug)]
pub struct Velocity {
    pub x: i64,
    pub y: i64,
}

impl Velocity {
    /// No component beyond full speed.
    pub open spec fn wf(self) -> bool {
        -1000 <= self.x <= 1000 && -1000 <= self.y <= 1000
    }
}

/// Center position and extents of an entity's bounding box, in milli-units.
/// The extents already carry the render scale.
#[derive(Clone, Copy, PartialEq, Eq, Structural, Debug)]
pub struct Body {
    pub pos: Vec2,
    pub size: Vec2,
}

impl Body {
    /// Position storable, extents non-negative and sane.
    pub open spec fn wf(self) -> bool {
        &&& self.pos.bounded(POS_LIMIT as int)
        &&& 0 <= self.size.x <= SIZE_LIMIT
        &&& 0 <= self.size.y <= SIZE_LIMIT
    }
}

/// Whose collision pairing a projectile takes part in.
#[derive(Clone, Copy, PartialEq, Eq, Structural, Debug)]
pub enum Owner {
    FromPlayer,
    FromEnemy,
}

/// A laser in flight. `auto_despawn` marks it for removal once it leaves the
/// play area by the margin.
#[derive(Clone, Copy, PartialEq, Eq, Structural, Debug)]
pub struct Shot {
    pub body: Body,
    pub vel: Velocity,
    pub owner: Owner,
    pub auto_despawn: bool,
    pub alive: bool,
}

impl Shot {
    pub open spec fn wf(self) -> bool {
        self.body.wf() && self.vel.wf()
    }
}

/// An enemy ship, flying along its own copy of a formation path.
#[derive(Clone, Copy, PartialEq, Eq, Structural, Debug)]
pub struct Enemy {
    pub body: Body,
    pub path: Formation,
    pub alive: bool,
}

impl Enemy {
    /// Enemies stay within the region where path motion is defined.
    pub open spec fn wf(self) -> bool {
        &&& self.body.wf()
        &&& self.body.pos.bounded(PATH_POS_LIMIT as int)
        &&& self.path.wf()
    }
}

/// The single player ship. `invincible` carries the milliseconds left of the
/// spawn-protection window while one is active.
#[derive(Clone, Copy, PartialEq, Eq, Structural, Debug)]
pub struct PlayerShip {
    pub body: Body,
    pub vel: Velocity,
    pub invincible: Option<i64>,
}

impl PlayerShip {
    pub open spec fn wf(self) -> bool {
        &&& self.body.wf()
        &&& self.vel.wf()
        &&& match self.invincible {
            Some(t) => 0 < t <= crate::PLAYER_INVINCIBLE_MS,
            None => true,
        }
    }
}

/// How many of the enemies in `s` are still alive.
pub open spec fn count_alive(s: Seq<Enemy>) -> int
    decreases s.len(),
{
    if s.len() == 0 {
        0
    } else {
        count_alive(s.drop_last()) + if s.last().alive {
            1int
        } else {
            0int
        }
    }
}

/// The alive count of a sequence stays within its length.
pub proof fn lemma_count_alive_bounds(s: Seq<Enemy>)
    ensures
        0 <= count_alive(s) <= s.len(),
    decreases s.len(),
{
    if s.len() > 0 {
        lemma_count_alive_bounds(s.drop_last());
    }
}

/// Killing one live enemy lowers the alive count by exactly one.
pub proof fn lemma_count_alive_kill(s: Seq<Enemy>, j: int, e: Enemy)
    requires
        0 <= j < s.len(),
        s[j].alive,
        !e.alive,
    ensures
        count_alive(s.update(j, e)) == count_alive(s) - 1,
    decreases s.len(),
{
    let t = s.update(j, e);
    if j == s.len() - 1 {
        assert(t.drop_last() =~= s.drop_last());
    } else {
        assert(t.drop_last() =~= s.drop_last().update(j, e));
        lemma_count_alive_kill(s.drop_last(), j, e);
    }
}

/// Appending one enemy adds its flag to the alive count.
pub proof fn lemma_count_alive_push(s: Seq<Enemy>, e: Enemy)
    ensures
        count_alive(s.push(e)) == count_alive(s) + if e.alive {
            1int
        } else {
            0int
        },
{
    assert(s.push(e).drop_last() =~= s);
}

/// How many of the shots in `s` are still alive.
pub open spec fn count_live_shots(s: Seq<Shot>) -> int
    decreases s.len(),
{
    if s.len() == 0 {
        0
    } else {
        count_live_shots(s.drop_last()) + if s.last().alive {
            1int
        } else {
            0int
        }
    }
}

/// Consuming one live shot lowers the live-shot count by exactly one.
pub proof fn lemma_count_live_shots_kill(s: Seq<Shot>, j: int, e: Shot)
    requires
        0 <= j < s.len(),
        s[j].alive,
        !e.alive,
    ensures
        count_live_shots(s.update(j, e)) == count_live_shots(s) - 1,
    decreases s.len(),
{
    let t = s.update(j, e);
    if j == s.len() - 1 {
        assert(t.drop_last() =~= s.drop_last());
    } else {
        assert(t.drop_last() =~= s.drop_last().update(j, e));
        lemma_count_live_shots_kill(s.drop_last(), j, e);
    }
}

/// The alive count reads nothing but the flags.
pub proof fn lemma_count_alive_flags(s: Seq<Enemy>, t: Seq<Enemy>)
    requires
        s.len() == t.len(),
        forall|i: int| 0 <= i < s.len() ==> s[i].alive == #[trigger] t[i].alive,
    ensures
        count_alive(s) == count_alive(t),
    decreases s.len(),
{
    if s.len() > 0 {
        lemma_count_alive_flags(s.drop_last(), t.drop_last());
    }
}

/// One axis of one tick of velocity motion, in milli-units: the direction
/// share scaled by the base step.
pub open spec fn step_component(v: int) -> int {
    div_trunc_spec(v * BASE_STEP_MILLI, 1000)
}

/// A point after one tick of velocity motion, saturating at the representable
/// playfield limit (far beyond the despawn margin, so the cap never shapes
/// visible motion).
pub open spec fn moved_point(p: Vec2, v: Velocity) -> Vec2 {
    Vec2 {
        x: clamp_spec(p.x + step_component(v.x as int), -POS_LIMIT as int, POS_LIMIT as int) as i64,
        y: clamp_spec(p.y + step_component(v.y as int), -POS_LIMIT as int, POS_LIMIT as int) as i64,
    }
}

/// Whether a point left the play area by more than the despawn margin on some
/// axis.
pub open spec fn out_of_bounds(win: WinSize, p: Vec2) -> bool {
    ||| p.y > win.h as int / 2 + DESPAWN_MARGIN_MILLI
    ||| p.y < -(win.h as int / 2) - DESPAWN_MARGIN_MILLI
    ||| p.x > win.w as int / 2 + DESPAWN_MARGIN_MILLI
    ||| p.x < -(win.w as int / 2) - DESPAWN_MARGIN_MILLI
}

/// A live laser after one tick: moved by its velocity, and reaped when an
/// auto-despawning one has drifted out of bounds.
pub open spec fn moved_shot(s: Shot, win: WinSize) -> Shot {
    if !s.alive {
        s
    } else {
        let np = moved_point(s.body.pos, s.vel);
        Shot {
            body: Body { pos: np, size: s.body.size },
            vel: s.vel,
            owner: s.owner,
            auto_despawn: s.auto_despawn,
            alive: !(s.auto_despawn && out_of_bounds(win, np)),
        }
    }
}

/// Advance a point one tick of velocity motion.
fn move_point(p: Vec2, v: Velocity) -> (r: Vec2)
    requires
        p.bounded(POS_LIMIT as int),
        v.wf(),
    ensures
        r == moved_point(p, v),
        r.bounded(POS_LIMIT as int),
{
    let sx = div_trunc(v.x * BASE_STEP_MILLI, 1000);
    let sy = div_trunc(v.y * BASE_STEP_MILLI, 1000);
    Vec2 {
        x: clamp_i64(p.x + sx, -POS_LIMIT, POS_LIMIT),
        y: clamp_i64(p.y + sy, -POS_LIMIT, POS_LIMIT),
    }
}

/// Out-of-bounds test against the window plus margin.
fn point_out_of_bounds(win: &WinSize, p: Vec2) -> (r: bool)
    requires
        win.wf(),
        p.bounded(POS_LIMIT as int),
    ensures
        r == out_of_bounds(*win, p),
{
    let half_w = div_trunc(win.w, 2);
    let half_h = div_trunc(win.h, 2);
    p.y > half_h + DESPAWN_MARGIN_MILLI || p.y < -half_h - DESPAWN_MARGIN_MILLI || p.x > half_w
        + DESPAWN_MARGIN_MILLI || p.x < -half_w - DESPAWN_MARGIN_MILLI
}

/// The live entries of a sequence of enemies, in order.
pub open spec fn live_enemies(s: Seq<Enemy>) -> Seq<Enemy>
    decreases s.len(),
{
    if s.len() == 0 {
        Seq::empty()
    } else {
        live_enemies(s.drop_last()) + if s.last().alive {
            seq![s.last()]
        } else {
            Seq::empty()
        }
    }
}

/// The live entries of a sequence of shots, in order.
pub open spec fn live_shots(s: Seq<Shot>) -> Seq<Shot>
    decreases s.len(),
{
    if s.len() == 0 {
        Seq::empty()
    } else {
        live_shots(s.drop_last()) + if s.last().alive {
            seq![s.last()]
        } else {
            Seq::empty()
        }
    }
}

/// The live entries of a sequence of explosion animations, in order.
pub open spec fn live_explosions(s: Seq<ExplosionAnim>) -> Seq<ExplosionAnim>
    decreases s.len(),
{
    if s.len() == 0 {
        Seq::empty()
    } else {
        live_explosions(s.drop_last()) + if s.last().alive {
            seq![s.last()]
        } else {
            Seq::empty()
        }
    }
}

/// Keeping exactly the live enemies keeps the alive count.
pub proof fn lemma_live_enemies_count(s: Seq<Enemy>)
    ensures
        live_enemies(s).len() == count_alive(s),
        forall|i: int| 0 <= i < live_enemies(s).len() ==> (#[trigger] live_enemies(s)[i]).alive,
        forall|i: int|
            0 <= i < live_enemies(s).len() ==> exists|k: int|
                0 <= k < s.len() && #[trigger] live_enemies(s)[i] == s[k],
    decreases s.len(),
{
    if s.len() > 0 {
        lemma_live_enemies_count(s.drop_last());
        assert forall|i: int| 0 <= i < live_enemies(s).len() implies exists|k: int|
            0 <= k < s.len() && #[trigger] live_enemies(s)[i] == s[k] by {
            if i < live_enemies(s.drop_last()).len() {
                let k = choose|k: int|
                    0 <= k < s.drop_last().len() && live_enemies(s.drop_last())[i] == s.drop_last(
                    )[k];
                assert(live_enemies(s)[i] == s[k]);
            } else {
                assert(live_enemies(s)[i] == s[s.len() - 1]);
            }
        }
    }
}

/// Every live entry kept comes from the original sequence.
pub proof fn lemma_live_shots_from(s: Seq<Shot>)
    ensures
        forall|i: int| 0 <= i < live_shots(s).len() ==> (#[trigger] live_shots(s)[i]).alive,
        forall|i: int|
            0 <= i < live_shots(s).len() ==> exists|k: int|
                0 <= k < s.len() && #[trigger] live_shots(s)[i] == s[k],
    decreases s.len(),
{
    if s.len() > 0 {
        lemma_live_shots_from(s.drop_last());
        assert forall|i: int| 0 <= i < live_shots(s).len() implies exists|k: int|
            0 <= k < s.len() && #[trigger] live_shots(s)[i] == s[k] by {
            if i < live_shots(s.drop_last()).len() {
                let k = choose|k: int|
                    0 <= k < s.drop_last().len() && live_shots(s.drop_last())[i] == s.drop_last(
                    )[k];
                assert(live_shots(s)[i] == s[k]);
            } else {
                assert(live_shots(s)[i] == s[s.len() - 1]);
            }
        }
    }
}

/// Every live animation kept comes from the original sequence.
pub proof fn lemma_live_explosions_from(s: Seq<ExplosionAnim>)
    ensures
        forall|i: int|
            0 <= i < live_explosions(s).len() ==> (#[trigger] live_explosions(s)[i]).alive,
        forall|i: int|
            0 <= i < live_explosions(s).len() ==> exists|k: int|
                0 <= k < s.len() && #[trigger] live_explosions(s)[i] == s[k],
    decreases s.len(),
{
    if s.len() > 0 {
        lemma_live_explosions_from(s.drop_last());
        assert forall|i: int| 0 <= i < live_explosions(s).len() implies exists|k: int|
            0 <= k < s.len() && #[trigger] live_explosions(s)[i] == s[k] by {
            if i < live_explosions(s.drop_last()).len() {
                let k = choose|k: int|
                    0 <= k < s.drop_last().len() && live_explosions(s.drop_last())[i]
                        == s.drop_last()[k];
                assert(live_explosions(s)[i] == s[k]);
            } else {
                assert(live_explosions(s)[i] == s[s.len() - 1]);
            }
        }
    }
}

/// Copy of the live enemies, in order.
fn filter_enemies(v: &Vec<Enemy>) -> (r: Vec<Enemy>)
    ensures
        r@ == live_enemies(v@),
{
    let mut r: Vec<Enemy> = Vec::new();
    let mut j: usize = 0;
    while j < v.len()
        invariant
            0 <= j <= v@.len(),
            r@ == live_enemies(v@.take(j as int)),
        decreases v@.len() - j,
    {
        proof {
            assert(v@.take(j + 1int).drop_last() =~= v@.take(j as int));
        }
        if v[j].alive {
            r.push(v[j]);
        }
        j = j + 1;
    }
    proof {
        assert(v@.take(v@.len() as int) =~= v@);
    }
    r
}

/// Copy of the live shots, in order.
fn filter_shots(v: &Vec<Shot>) -> (r: Vec<Shot>)
    ensures
        r@ == live_shots(v@),
{
    let mut r: Vec<Shot> = Vec::new();
    let mut j: usize = 0;
    while j < v.len()
        invariant
            0 <= j <= v@.len(),
            r@ == live_shots(v@.take(j as int)),
        decreases v@.len() - j,
    {
        proof {
            assert(v@.take(j + 1int).drop_last() =~= v@.take(j as int));
        }
        if v[j].alive {
            r.push(v[j]);
        }
        j = j + 1;
    }
    proof {
        assert(v@.take(v@.len() as int) =~= v@);
    }
    r
}

/// Copy of the live explosion animations, in order.
fn filter_explosions(v: &Vec<ExplosionAnim>) -> (r: Vec<ExplosionAnim>)
    ensures
        r@ == live_explosions(v@),
{
    let mut r: Vec<ExplosionAnim> = Vec::new();
    let mut j: usize = 0;
    while j < v.len()
        invariant
            0 <= j <= v@.len(),
            r@ == live_explosions(v@.take(j as int)),
        decreases v@.len() - j,
    {
        proof {
            assert(v@.take(j + 1int).drop_last() =~= v@.take(j as int));
        }
        if v[j].alive {
            r.push(v[j]);
        }
        j = j + 1;
    }
    proof {
        assert(v@.take(v@.len() as int) =~= v@);
    }
    r
}

/// The whole scene.
pub struct World {
    /// The playable area.
    pub win: WinSize,
    /// Batches formation templates for newly spawned enemies.
    pub maker: FormationMaker,
    /// Enemy ships; destroyed ones stay flagged until the flush.
    pub enemies: Vec<Enemy>,
    /// Always equals the number of live enemies.
    pub enemy_count: u32,
    /// The single player ship, if one exists.
    pub player: Option<PlayerShip>,
    /// The player lifecycle record.
    pub player_state: PlayerState,
    /// Lasers fired by the player.
    pub player_shots: Vec<Shot>,
    /// Lasers fired by enemies.
    pub enemy_shots: Vec<Shot>,
    /// Destruction positions waiting to become explosion animations.
    pub pending_explosions: Vec<Vec2>,
    /// Running explosion animations.
    pub explosions: Vec<ExplosionAnim>,
    /// One point per enemy destroyed by a player laser.
    pub score: u32,
}

/// One tick of velocity motion and bounds reaping, as `movable_tick` performs it.
pub open spec fn movable_rel(pre: World, post: World) -> bool {
    &&& (post.wf())
    &&& (post.win == pre.win)
    &&& (post.maker == pre.maker)
    &&& (post.enemies@ == pre.enemies@)
    &&& (post.enemy_count == pre.enemy_count)
    &&& (post.player_state == pre.player_state)
    &&& (post.pending_explosions@ == pre.pending_explosions@)
    &&& (post.explosions@ == pre.explosions@)
    &&& (post.score == pre.score)
    &&& (post.player_shots@.len() == pre.player_shots@.len())
    &&& (forall|k: int|
                0 <= k < pre.player_shots@.len() ==> post.player_shots@[k]
                    == moved_shot(#[trigger] pre.player_shots@[k], pre.win))
    &&& (post.enemy_shots@.len() == pre.enemy_shots@.len())
    &&& (forall|k: int|
                0 <= k < pre.enemy_shots@.len() ==> post.enemy_shots@[k] == moved_shot(
                    #[trigger] pre.enemy_shots@[k],
                    pre.win,
                ))
    &&& (post.player == match pre.player {
                Some(p) => Some(
                    PlayerShip {
                        body: Body { pos: moved_point(p.body.pos, p.vel), size: p.body.size },
                        vel: p.vel,
                        invincible: p.invincible,
                    },
                ),
                None => None,
            })
}

/// The end-of-tick flush: every vector keeps exactly its live entries.
pub open spec fn flush_rel(pre: World, post: World) -> bool {
    &&& (post.wf())
    &&& (post.win == pre.win)
    &&& (post.maker == pre.maker)
    &&& (post.player == pre.player)
    &&& (post.player_state == pre.player_state)
    &&& (post.pending_explosions@ == pre.pending_explosions@)
    &&& (post.score == pre.score)
    &&& (post.enemy_count == pre.enemy_count)
    &&& (post.enemies@ == live_enemies(pre.enemies@))
    &&& (post.player_shots@ == live_shots(pre.player_shots@))
    &&& (post.enemy_shots@ == live_shots(pre.enemy_shots@))
    &&& (post.explosions@ == live_explosions(pre.explosions@))
    &&& (forall|k: int|
                0 <= k < post.enemies@.len() ==> (#[trigger] post.enemies@[k]).alive)
}

impl World {
    /// The global invariant every pass preserves: well-formed entities, the
    /// enemy counter transactionally equal to the number of live enemies and
    /// under the cap, the player record agreeing with the player entity, and
    /// every buffered explosion position storable.
    pub open spec fn wf(self) -> bool {
        &&& self.win.wf()
        &&& self.maker.wf()
        &&& match self.maker.current_template {
            Some(t) => fresh_template(t, self.win),
            None => true,
        }
        &&& forall|i: int| 0 <= i < self.enemies@.len() ==> (#[trigger] self.enemies@[i]).wf()
        &&& self.enemy_count == count_alive(self.enemies@)
        &&& self.enemy_count <= ENEMY_MAX
        &&& forall|i: int|
            0 <= i < self.player_shots@.len() ==> (#[trigger] self.player_shots@[i]).wf()
        &&& forall|i: int|
            0 <= i < self.enemy_shots@.len() ==> (#[trigger] self.enemy_shots@[i]).wf()
        &&& match self.player {
            Some(p) => p.wf() && self.player_state.on,
            None => !self.player_state.on,
        }
        &&& self.player_state.wf()
        &&& forall|i: int|
            0 <= i < self.pending_explosions@.len() ==> (
            #[trigger] self.pending_explosions@[i]).bounded(POS_LIMIT as int)
        &&& forall|i: int| 0 <= i < self.explosions@.len() ==> (#[trigger] self.explosions@[i]).wf()
    }

    /// A fresh scene: nothing spawned, counters at zero.
    pub fn new(win: WinSize) -> (w: World)
        requires
            win.wf(),
        ensures
            w.wf(),
            w.win == win,
            w.enemies@.len() == 0,
            w.enemy_count == 0,
            w.player is None,
            !w.player_state.on,
            w.player_state.last_destroyed is None,
            w.player_shots@.len() == 0,
            w.enemy_shots@.len() == 0,
            w.pending_explosions@.len() == 0,
            w.explosions@.len() == 0,
            w.score == 0,
            w.maker.current_template is None,
            w.maker.current_members == 0,
    {
        World {
            win,
            maker: FormationMaker { current_template: None, current_members: 0 },
            enemies: Vec::new(),
            enemy_count: 0,
            player: None,
            player_state: PlayerState { on: false, last_destroyed: None },
            player_shots: Vec::new(),
            enemy_shots: Vec::new(),
            pending_explosions: Vec::new(),
            explosions: Vec::new(),
            score: 0,
        }
    }

    /// One tick of velocity motion for every mover, then the bounds reaper:
    /// auto-despawning entities that left the play area by the margin are
    /// flagged for removal, so off-screen lasers never reach a collision test.
    pub fn movable_tick(&mut self)
        requires
            old(self).wf(),
        ensures
            movable_rel(*old(self), *final(self)),
    {
        let np = self.player_shots.len();
        let mut j: usize = 0;
        while j < np
            invariant
                np == self.player_shots@.len(),
                np == old(self).player_shots@.len(),
                0 <= j <= np,
                self.win == old(self).win,
                self.win.wf(),
                self.maker == old(self).maker,
                self.enemies@ == old(self).enemies@,
                self.enemy_count == old(self).enemy_count,
                self.player == old(self).player,
                self.player_state == old(self).player_state,
                self.enemy_shots@ == old(self).enemy_shots@,
                self.pending_explosions@ == old(self).pending_explosions@,
                self.explosions@ == old(self).explosions@,
                self.score == old(self).score,
                forall|k: int|
                    0 <= k < j ==> self.player_shots@[k] == moved_shot(
                        #[trigger] old(self).player_shots@[k],
                        old(self).win,
                    ),
                forall|k: int| j <= k < np ==> self.player_shots@[k] == old(self).player_shots@[k],
                forall|k: int| 0 <= k < np ==> (#[trigger] self.player_shots@[k]).wf(),
            decreases np - j,
        {
            let s = self.player_shots[j];
            if s.alive {
                let npos = move_point(s.body.pos, s.vel);
                let gone = s.auto_despawn && point_out_of_bounds(&self.win, npos);
                self.player_shots[j] = Shot {
                    body: Body { pos: npos, size: s.body.size },
                    vel: s.vel,
                    owner: s.owner,
                    auto_despawn: s.auto_despawn,
                    alive: !gone,
                };
            }
            j = j + 1;
        }
        let ne = self.enemy_shots.len();
        let mut j2: usize = 0;
        while j2 < ne
            invariant
                ne == self.enemy_shots@.len(),
                ne == old(self).enemy_shots@.len(),
                0 <= j2 <= ne,
                self.win == old(self).win,
                self.win.wf(),
                self.maker == old(self).maker,
                self.enemies@ == old(self).enemies@,
                self.enemy_count == old(self).enemy_count,
                self.player == old(self).player,
                self.player_state == old(self).player_state,
                self.pending_explosions@ == old(self).pending_explosions@,
                self.explosions@ == old(self).explosions@,
                self.score == old(self).score,
                self.player_shots@.len() == np,
                np == old(self).player_shots@.len(),
                forall|k: int|
                    0 <= k < np ==> self.player_shots@[k] == moved_shot(
                        #[trigger] old(self).player_shots@[k],
                        old(self).win,
                    ),
                forall|k: int| 0 <= k < np ==> (#[trigger] self.player_shots@[k]).wf(),
                forall|k: int|
                    0 <= k < j2 ==> self.enemy_shots@[k] == moved_shot(
                        #[trigger] old(self).enemy_shots@[k],
                        old(self).win,
                    ),
                forall|k: int| j2 <= k < ne ==> self.enemy_shots@[k] == old(self).enemy_shots@[k],
                forall|k: int| 0 <= k < ne ==> (#[trigger] self.enemy_shots@[k]).wf(),
            decreases ne - j2,
        {
            let s = self.enemy_shots[j2];
            if s.alive {
                let npos = move_point(s.body.pos, s.vel);
                let gone = s.auto_despawn && point_out_of_bounds(&self.win, npos);
                self.enemy_shots[j2] = Shot {
                    body: Body { pos: npos, size: s.body.size },
                    vel: s.vel,
                    owner: s.owner,
                    auto_despawn: s.auto_despawn,
                    alive: !gone,
                };
            }
            j2 = j2 + 1;
        }
        if let Some(p) = self.player {
            let npos = move_point(p.body.pos, p.vel);
            self.player = Some(
                PlayerShip {
                    body: Body { pos: npos, size: p.body.size },
                    vel: p.vel,
                    invincible: p.invincible,
                },
            );
        }
    }

    /// End-of-tick synchronization point: apply every buffered removal at
    /// once. No entity disappears before this, so no pass observed a
    /// partially mutated world.
    pub fn flush_removals(&mut self)
        requires
            old(self).wf(),
        ensures
            flush_rel(*old(self), *final(self)),
    {
        proof {
            lemma_live_enemies_count(self.enemies@);
            lemma_live_shots_from(self.player_shots@);
            lemma_live_shots_from(self.enemy_shots@);
            lemma_live_explosions_from(self.explosions@);
        }
        let enemies = filter_enemies(&self.enemies);
        let player_shots = filter_shots(&self.player_shots);
        let enemy_shots = filter_shots(&self.enemy_shots);
        let explosions = filter_explosions(&self.explosions);
        self.enemies = enemies;
        self.player_shots = player_shots;
        self.enemy_shots = enemy_shots;
        self.explosions = explosions;
        proof {
            lemma_count_alive_all_alive(self.enemies@);
        }
    }
}

/// One whole tick decomposed into its phases: the final state is reached from
/// the initial one through intermediate worlds, each pair related by one
/// phase's contract, in the fixed order of the tick. `fire` is the player's
/// trigger; `enemy_volley` stands for the tick's random fire gate, so the
/// decomposition holds whichever way that draw went.
pub open spec fn tick_phases(
    pre: World,
    w1: World,
    w2: World,
    w3: World,
    w4: World,
    w5: World,
    w6: World,
    w7: World,
    w8: World,
    w9: World,
    w10: World,
    w11: World,
    w12: World,
    post: World,
    now_ms: i64,
    dt_ms: i64,
    left: bool,
    right: bool,
    up: bool,
    down: bool,
    fire: bool,
    enemy_volley: bool,
) -> bool {
    &&& enemy_spawn_rel(pre, w1)
    &&& player_spawn_rel(w1, w2, now_ms)
    &&& player_keyboard_rel(w2, w3, left, right, up, down)
    &&& movable_rel(w3, w4)
    &&& enemy_movement_rel(w4, w5)
    &&& invincibility_rel(w5, w6, dt_ms)
    &&& laser_hits_rel(w6, w7)
    &&& player_hit_rel(w7, w8, now_ms)
    &&& explosion_anim_rel(w8, w9, dt_ms)
    &&& explosion_spawn_rel(w9, w10)
    &&& if fire {
        player_fire_rel(w10, w11)
    } else {
        w11 == w10
    }
    &&& if enemy_volley {
        enemy_fire_rel(w11, w12)
    } else {
        w12 == w11
    }
    &&& flush_rel(w12, post)
}

impl World {
    /// One whole simulation tick, in the fixed order every component agrees
    /// on: spawning, input, motion integration with bounds reaping, collision
    /// resolution (invincibility counted down first), then the explosion
    /// pipeline. Phases that create entities run last, so nothing this tick
    /// observes what they made, and buffered removals are applied at the very
    /// end: no entity disappears mid-tick.
    pub fn world_tick(
        &mut self,
        now_ms: i64,
        dt_ms: i64,
        left: bool,
        right: bool,
        up: bool,
        down: bool,
        fire: bool,
    )
        requires
            old(self).wf(),
            0 <= now_ms <= crate::TIME_LIMIT_MS,
            0 <= dt_ms <= crate::TIME_LIMIT_MS,
            old(self).score + ENEMY_MAX <= u32::MAX,
        ensures
            final(self).wf(),
            final(self).win == old(self).win,
            old(self).score <= final(self).score <= old(self).score + ENEMY_MAX,
            forall|k: int|
                0 <= k < final(self).enemies@.len() ==> (#[trigger] final(self).enemies@[k]).alive,
            // The tick is exactly its phases, whichever way the random fire
            // gate fell.
            exists|
                w1: World,
                w2: World,
                w3: World,
                w4: World,
                w5: World,
                w6: World,
                w7: World,
                w8: World,
                w9: World,
                w10: World,
                w11: World,
                w12: World,
                enemy_volley: bool,
            |
                tick_phases(
                    *old(self),
                    w1,
                    w2,
                    w3,
                    w4,
                    w5,
                    w6,
                    w7,
                    w8,
                    w9,
                    w10,
                    w11,
                    w12,
                    *final(self),
                    now_ms,
                    dt_ms,
                    left,
                    right,
                    up,
                    down,
                    fire,
                    enemy_volley,
                ),
    {
        self.enemy_spawn_tick();
        let ghost w1 = *self;
        self.player_spawn_tick(now_ms);
        let ghost w2 = *self;
        self.player_keyboard_tick(left, right, up, down);
        let ghost w3 = *self;
        self.movable_tick();
        let ghost w4 = *self;
        self.enemy_movement_tick();
        let ghost w5 = *self;
        proof {
            lemma_count_alive_bounds(self.enemies@);
        }
        self.invincibility_tick(dt_ms);
        let ghost w6 = *self;
        self.player_shots_hit_enemies();
        let ghost w7 = *self;
        self.enemy_shots_hit_player(now_ms);
        let ghost w8 = *self;
        self.explosion_anim_tick(dt_ms);
        let ghost w9 = *self;
        self.explosion_spawn_tick();
        let ghost w10 = *self;
        if fire {
            self.player_fire_tick();
        }
        let ghost w11 = *self;
        let enemy_volley = crate::rng::chance(1, 60);
        if enemy_volley {
            self.enemy_fire_tick();
        }
        let ghost w12 = *self;
        self.flush_removals();
        proof {
            assert(tick_phases(
                *old(self),
                w1,
                w2,
                w3,
                w4,
                w5,
                w6,
                w7,
                w8,
                w9,
                w10,
                w11,
                w12,
                *self,
                now_ms,
                dt_ms,
                left,
                right,
                up,
                down,
                fire,
                enemy_volley,
            ));
        }
    }
}

/// A sequence of only-live enemies counts its own length.
pub proof fn lemma_count_alive_all_alive(s: Seq<Enemy>)
    requires
        forall|i: int| 0 <= i < s.len() ==> (#[trigger] s[i]).alive,
    ensures
        count_alive(s) == s.len(),
    decreases s.len(),
{
    if s.len() > 0 {
        lemma_count_alive_all_alive(s.drop_last());
    }
}

} // verus!
