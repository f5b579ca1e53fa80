//! The collision resolution pass: player lasers against enemies, then enemy
//! lasers against the player. Within one tick each entity is resolved at most
//! once — a destroyed entity keeps its slot, flagged dead, and never takes
//! part in a later test of the same tick.

use vstd::prelude::*;
use crate::geom::Vec2;
use crate::geom::boxes_overlap;
use crate::geom::collide;
use crate::world::Enemy;
use crate::world::PlayerShip;
use crate::world::Shot;
use crate::world::World;
use crate::world::count_alive;
use crate::world::count_live_shots;
use crate::world::lemma_count_alive_kill;
use crate::world::lemma_count_live_shots_kill;
use crate::world::lemma_count_alive_bounds;
use crate::TIME_LIMIT_MS;

verus! {

/// The same shot, consumed.
pub open spec fn killed_shot(s: Shot) -> Shot {
    Shot { alive: false, ..s }
}

/// The same enemy, destroyed.
pub open spec fn killed_enemy(e: Enemy) -> Enemy {
    Enemy { alive: false, ..e }
}

/// A live shot whose box overlaps the player's.
pub open spec fn hits_player(s: Shot, p: PlayerShip) -> bool {
    s.alive && boxes_overlap(s.body.pos, s.body.size, p.body.pos, p.body.size)
}

/// The position `p` is that of an enemy destroyed by this pass: alive in
/// `before`, dead in `after`.
pub open spec fn pending_has_source(p: Vec2, before: Seq<Enemy>, after: Seq<Enemy>) -> bool {
    before.len() == after.len() && exists|k: int|
        0 <= k < before.len() && (#[trigger] before[k]).alive && !after[k].alive && p
            == before[k].body.pos
}

/// The shot `s` was consumed for cause: some enemy it overlapped was alive in
/// `before` and destroyed in `after`.
pub open spec fn consumed_on_kill(s: Shot, before: Seq<Enemy>, after: Seq<Enemy>) -> bool {
    before.len() == after.len() && exists|k: int|
        0 <= k < before.len() && (#[trigger] before[k]).alive && !after[k].alive && boxes_overlap(
            s.body.pos,
            s.body.size,
            before[k].body.pos,
            before[k].body.size,
        )
}

/// A one-to-one pairing between the enemies a pass destroyed and the lasers
/// it consumed: each destroyed enemy is matched with a distinct consumed
/// laser that overlapped it, and every consumed laser is some destroyed
/// enemy's partner — one kill per laser, one laser per kill.
#[verifier::opaque]
pub open spec fn kill_pairing(
    ps_before: Seq<Shot>,
    ps_after: Seq<Shot>,
    es_before: Seq<Enemy>,
    es_after: Seq<Enemy>,
    pairs: Map<int, int>,
) -> bool {
    &&& es_before.len() == es_after.len()
    &&& ps_before.len() == ps_after.len()
    &&& forall|k: int| #[trigger] pairs.dom().contains(k) ==> 0 <= k < es_before.len()
    &&& forall|k: int|
        0 <= k < es_before.len() ==> (pairs.dom().contains(k) <==> ((
        #[trigger] es_before[k]).alive && !es_after[k].alive))
    &&& forall|k: int|
        #[trigger] pairs.dom().contains(k) ==> {
            &&& 0 <= pairs[k] < ps_before.len()
            &&& ps_before[pairs[k]].alive
            &&& !ps_after[pairs[k]].alive
            &&& boxes_overlap(
                ps_before[pairs[k]].body.pos,
                ps_before[pairs[k]].body.size,
                es_before[k].body.pos,
                es_before[k].body.size,
            )
        }
    &&& forall|k1: int, k2: int|
        #[trigger] pairs.dom().contains(k1) && #[trigger] pairs.dom().contains(k2) && k1 != k2
            ==> pairs[k1] != pairs[k2]
    &&& forall|i: int|
        0 <= i < ps_before.len() && (#[trigger] ps_before[i]).alive && !ps_after[i].alive
            ==> exists|k: int| #[trigger] pairs.dom().contains(k) && pairs[k] == i
}

/// Destroying the live enemy `e` at slot `k` with the live laser `s` at slot
/// `i` extends a kill pairing by the pair `k -> i`.
pub proof fn lemma_kill_pairing_extend(
    ps_old: Seq<Shot>,
    ps_pre: Seq<Shot>,
    es_old: Seq<Enemy>,
    es_pre: Seq<Enemy>,
    pr0: Map<int, int>,
    i: int,
    k: int,
    s: Shot,
    e: Enemy,
)
    requires
        kill_pairing(ps_old, ps_pre, es_old, es_pre, pr0),
        0 <= i < ps_pre.len(),
        0 <= k < es_pre.len(),
        ps_pre[i] == s,
        s.alive,
        es_pre[k] == e,
        e.alive,
        ps_old[i] == s,
        es_old[k] == e,
        boxes_overlap(s.body.pos, s.body.size, e.body.pos, e.body.size),
    ensures
        kill_pairing(
            ps_old,
            ps_pre.update(i, killed_shot(s)),
            es_old,
            es_pre.update(k, killed_enemy(e)),
            pr0.insert(k, i),
        ),
{
    reveal(kill_pairing);
    let ps_new = ps_pre.update(i, killed_shot(s));
    let es_new = es_pre.update(k, killed_enemy(e));
    let pairs = pr0.insert(k, i);
    assert(!pr0.dom().contains(k));
    assert forall|k2: int|
        0 <= k2 < es_old.len() implies (pairs.dom().contains(k2) <==> ((
    #[trigger] es_old[k2]).alive && !es_new[k2].alive)) by {
        if k2 != k {
            assert(es_new[k2] == es_pre[k2]);
            assert(pairs.dom().contains(k2) == pr0.dom().contains(k2));
        }
    }
    assert forall|k2: int| #[trigger] pairs.dom().contains(k2) implies {
        &&& 0 <= pairs[k2] < ps_old.len()
        &&& ps_old[pairs[k2]].alive
        &&& !ps_new[pairs[k2]].alive
        &&& boxes_overlap(
            ps_old[pairs[k2]].body.pos,
            ps_old[pairs[k2]].body.size,
            es_old[k2].body.pos,
            es_old[k2].body.size,
        )
    } by {
        if k2 == k {
            assert(pairs[k2] == i);
        } else {
            assert(pr0.dom().contains(k2));
            assert(pairs[k2] == pr0[k2]);
            assert(!ps_pre[pr0[k2]].alive);
            assert(pr0[k2] != i);
            assert(ps_new[pr0[k2]] == ps_pre[pr0[k2]]);
        }
    }
    assert forall|k1: int, k2: int|
        #[trigger] pairs.dom().contains(k1) && #[trigger] pairs.dom().contains(k2) && k1
            != k2 implies pairs[k1] != pairs[k2] by {
        if k1 == k {
            assert(!ps_pre[pr0[k2]].alive && ps_pre[i].alive);
        } else if k2 == k {
            assert(!ps_pre[pr0[k1]].alive && ps_pre[i].alive);
        }
    }
    assert forall|i2: int|
        0 <= i2 < ps_old.len() && (#[trigger] ps_old[i2]).alive && !ps_new[i2].alive implies exists|
        k2: int,
    | #[trigger] pairs.dom().contains(k2) && pairs[k2] == i2 by {
        if i2 == i {
            assert(pairs.dom().contains(k) && pairs[k] == i2);
        } else {
            assert(ps_new[i2] == ps_pre[i2]);
            let k2 = choose|k2: int| #[trigger] pr0.dom().contains(k2) && pr0[k2] == i2;
            assert(pairs.dom().contains(k2) && pairs[k2] == i2);
        }
    }
}

/// The player-laser pass: destructions, score, pending explosions and the kill pairing.
pub open spec fn laser_hits_rel(pre: World, post: World) -> bool {
    &&& (post.wf())
    &&& (post.win == pre.win)
    &&& (post.maker == pre.maker)
    &&& (post.player == pre.player)
    &&& (post.player_state == pre.player_state)
    &&& (post.enemy_shots@ == pre.enemy_shots@)
    &&& (post.explosions@ == pre.explosions@)
    &&& (post.enemies@.len() == pre.enemies@.len())
    &&& (post.player_shots@.len() == pre.player_shots@.len())
    &&& (
    // Entities only lose their alive flag, never change otherwise.
    forall|k: int|
        0 <= k < pre.enemies@.len() ==> post.enemies@[k] == (#[trigger] pre.enemies@[k])
            || post.enemies@[k] == killed_enemy(pre.enemies@[k]))
    &&& (forall|i: int|
                0 <= i < pre.player_shots@.len() ==> post.player_shots@[i] == (
                #[trigger] pre.player_shots@[i]) || post.player_shots@[i]
                    == killed_shot(pre.player_shots@[i]))
    &&& (forall|k: int|
                0 <= k < pre.enemies@.len() && (#[trigger] post.enemies@[k]).alive
                    ==> pre.enemies@[k].alive)
    &&& (forall|i: int|
                0 <= i < pre.player_shots@.len() && (#[trigger] post.player_shots@[i]).alive ==> pre.player_shots@[i].alive)
    &&& (// One point and one pending explosion per destroyed enemy.
            0 <= count_alive(post.enemies@) <= count_alive(pre.enemies@))
    &&& (post.score == pre.score + (count_alive(pre.enemies@) - count_alive(
                post.enemies@,
            )))
    &&& (post.pending_explosions@.len() == pre.pending_explosions@.len() + (
            count_alive(pre.enemies@) - count_alive(post.enemies@)))
    &&& (post.pending_explosions@.take(pre.pending_explosions@.len() as int) == pre.pending_explosions@)
    &&& (forall|m: int|
                pre.pending_explosions@.len() <= m < post.pending_explosions@.len()
                    ==> pending_has_source(
                    #[trigger] post.pending_explosions@[m],
                    pre.enemies@,
                    post.enemies@,
                ))
    &&& (// Every destruction has an overlapping consumed laser as cause.
            forall|k: int|
                0 <= k < pre.enemies@.len() && (#[trigger] pre.enemies@[k]).alive
                    && !post.enemies@[k].alive ==> exists|i: int|
                    0 <= i < pre.player_shots@.len() && pre.player_shots@[i].alive
                        && !post.player_shots@[i].alive && boxes_overlap(
                        pre.player_shots@[i].body.pos,
                        pre.player_shots@[i].body.size,
                        pre.enemies@[k].body.pos,
                        pre.enemies@[k].body.size,
                    ))
    &&& (// Every consumed laser destroyed an enemy it overlapped.
            forall|i: int|
                0 <= i < pre.player_shots@.len() && (#[trigger] pre.player_shots@[i]).alive && !post.player_shots@[i].alive
                    ==> consumed_on_kill(
                    pre.player_shots@[i],
                    pre.enemies@,
                    post.enemies@,
                ))
    &&& (
    // As many lasers were consumed as enemies destroyed, and a one-to-one
    // pairing links them.
    count_live_shots(pre.player_shots@) - count_live_shots(post.player_shots@) == count_alive(
        pre.enemies@,
    ) - count_alive(post.enemies@))
    &&& (exists|pairs: Map<int, int>|
        kill_pairing(pre.player_shots@, post.player_shots@, pre.enemies@, post.enemies@, pairs))
    &&& (
    // Afterwards no live pair still overlaps: every overlap was resolved.
    forall|i: int, k: int|
        0 <= i < post.player_shots@.len() && 0 <= k < post.enemies@.len() && (
        #[trigger] post.player_shots@[i]).alive && (#[trigger] post.enemies@[k]).alive
            ==> !boxes_overlap(
            post.player_shots@[i].body.pos,
            post.player_shots@[i].body.size,
            post.enemies@[k].body.pos,
            post.enemies@[k].body.size,
        ))
}

/// The enemy-laser pass against the player at `now_ms`.
pub open spec fn player_hit_rel(pre: World, post: World, now_ms: i64) -> bool {
    &&& (post.wf())
    &&& (post.win == pre.win)
    &&& (post.maker == pre.maker)
    &&& (post.enemies@ == pre.enemies@)
    &&& (post.enemy_count == pre.enemy_count)
    &&& (post.player_shots@ == pre.player_shots@)
    &&& (post.explosions@ == pre.explosions@)
    &&& (post.score == pre.score)
    &&& (match pre.player {
                None => {
                    &&& post.player is None
                    &&& post.player_state == pre.player_state
                    &&& post.enemy_shots@ == pre.enemy_shots@
                    &&& post.pending_explosions@ == pre.pending_explosions@
                },
                Some(p) => {
                    if p.invincible is Some {
                        &&& post.player == pre.player
                        &&& post.player_state == pre.player_state
                        &&& post.pending_explosions@ == pre.pending_explosions@
                        &&& post.enemy_shots@.len() == pre.enemy_shots@.len()
                        &&& forall|j: int|
                            0 <= j < pre.enemy_shots@.len() ==> post.enemy_shots@[j]
                                == if hits_player(#[trigger] pre.enemy_shots@[j], p) {
                                killed_shot(pre.enemy_shots@[j])
                            } else {
                                pre.enemy_shots@[j]
                            }
                    } else {
                        if exists|j: int|
                            0 <= j < pre.enemy_shots@.len() && hits_player(
                                #[trigger] pre.enemy_shots@[j],
                                p,
                            ) {
                            &&& post.player is None
                            &&& !post.player_state.on
                            &&& post.player_state.last_destroyed == Some(now_ms)
                            &&& post.pending_explosions@ == pre.pending_explosions@.push(p.body.pos)
                            &&& exists|j0: int|
                                0 <= j0 < pre.enemy_shots@.len() && hits_player(
                                    #[trigger] pre.enemy_shots@[j0],
                                    p,
                                ) && (forall|j: int|
                                    0 <= j < j0 ==> !hits_player(
                                        #[trigger] pre.enemy_shots@[j],
                                        p,
                                    )) && post.enemy_shots@ == pre.enemy_shots@.update(j0, killed_shot(pre.enemy_shots@[j0]))
                        } else {
                            &&& post.player == pre.player
                            &&& post.player_state == pre.player_state
                            &&& post.enemy_shots@ == pre.enemy_shots@
                            &&& post.pending_explosions@ == pre.pending_explosions@
                        }
                    }
                },
            })
}

impl World {
    /// Resolve every player laser against every enemy. A laser consumes at
    /// most one enemy and an enemy falls to at most one laser: the first
    /// overlapping live pair, in slot order, destroys both, lowers the live
    /// count by exactly one, scores one point and leaves one pending
    /// explosion at the enemy's position. Afterwards no live player laser
    /// overlaps a live enemy.
    #[verifier::rlimit(100)]
    pub fn player_shots_hit_enemies(&mut self)
        requires
            old(self).wf(),
            old(self).score + count_alive(old(self).enemies@) <= u32::MAX,
        ensures
            laser_hits_rel(*old(self), *final(self)),
    {
        let np = self.player_shots.len();
        let ne = self.enemies.len();
        let mut i: usize = 0;
        let ghost mut pairs: Map<int, int> = Map::empty();
        proof {
            reveal(kill_pairing);
            assert(kill_pairing(
                old(self).player_shots@,
                self.player_shots@,
                old(self).enemies@,
                self.enemies@,
                pairs,
            ));
        }
        while i < np
            invariant
                np == self.player_shots@.len(),
                np == old(self).player_shots@.len(),
                ne == self.enemies@.len(),
                ne == old(self).enemies@.len(),
                0 <= i <= np,
                old(self).wf(),
                old(self).score + count_alive(old(self).enemies@) <= u32::MAX,
                self.win == old(self).win,
                self.maker == old(self).maker,
                self.player == old(self).player,
                self.player_state == old(self).player_state,
                self.enemy_shots@ == old(self).enemy_shots@,
                self.explosions@ == old(self).explosions@,
                self.wf(),
                forall|k: int|
                    0 <= k < ne ==> self.enemies@[k] == (#[trigger] old(self).enemies@[k])
                        || self.enemies@[k] == killed_enemy(old(self).enemies@[k]),
                forall|q: int|
                    0 <= q < np ==> self.player_shots@[q] == (#[trigger] old(self).player_shots@[q]) || self.player_shots@[q] == killed_shot(
                        old(self).player_shots@[q],
                    ),
                0 <= count_alive(self.enemies@) <= count_alive(old(self).enemies@),
                self.score == old(self).score + (count_alive(old(self).enemies@) - count_alive(
                    self.enemies@,
                )),
                self.pending_explosions@.len() == old(self).pending_explosions@.len() + (
                count_alive(old(self).enemies@) - count_alive(self.enemies@)),
                self.pending_explosions@.take(old(self).pending_explosions@.len() as int) == old(self).pending_explosions@,
                forall|m: int|
                    old(self).pending_explosions@.len() <= m < self.pending_explosions@.len()
                        ==> pending_has_source(
                        #[trigger] self.pending_explosions@[m],
                        old(self).enemies@,
                        self.enemies@,
                    ),
                forall|k: int|
                    0 <= k < ne && (#[trigger] old(self).enemies@[k]).alive
                        && !self.enemies@[k].alive ==> exists|q: int|
                        0 <= q < np && old(self).player_shots@[q].alive
                            && !self.player_shots@[q].alive && boxes_overlap(
                            old(self).player_shots@[q].body.pos,
                            old(self).player_shots@[q].body.size,
                            old(self).enemies@[k].body.pos,
                            old(self).enemies@[k].body.size,
                        ),
                forall|q: int|
                    0 <= q < np && (#[trigger] old(self).player_shots@[q]).alive
                        && !self.player_shots@[q].alive ==> consumed_on_kill(
                        old(self).player_shots@[q],
                        old(self).enemies@,
                        self.enemies@,
                    ),
                count_live_shots(old(self).player_shots@) - count_live_shots(
                    self.player_shots@,
                ) == count_alive(old(self).enemies@) - count_alive(self.enemies@),
                kill_pairing(
                    old(self).player_shots@,
                    self.player_shots@,
                    old(self).enemies@,
                    self.enemies@,
                    pairs,
                ),
                forall|q: int, k: int|
                    0 <= q < i && 0 <= k < ne && (#[trigger] self.player_shots@[q]).alive && (
                    #[trigger] self.enemies@[k]).alive ==> !boxes_overlap(
                        self.player_shots@[q].body.pos,
                        self.player_shots@[q].body.size,
                        self.enemies@[k].body.pos,
                        self.enemies@[k].body.size,
                    ),
            decreases np - i,
        {
            let mut k: usize = 0;
            while k < ne
                invariant
                    np == self.player_shots@.len(),
                    np == old(self).player_shots@.len(),
                    ne == self.enemies@.len(),
                    ne == old(self).enemies@.len(),
                    0 <= i < np,
                    0 <= k <= ne,
                    old(self).wf(),
                    old(self).score + count_alive(old(self).enemies@) <= u32::MAX,
                    self.win == old(self).win,
                    self.maker == old(self).maker,
                    self.player == old(self).player,
                    self.player_state == old(self).player_state,
                    self.enemy_shots@ == old(self).enemy_shots@,
                    self.explosions@ == old(self).explosions@,
                    self.wf(),
                    forall|q: int|
                        0 <= q < ne ==> self.enemies@[q] == (#[trigger] old(self).enemies@[q])
                            || self.enemies@[q] == killed_enemy(old(self).enemies@[q]),
                    forall|q: int|
                        0 <= q < np ==> self.player_shots@[q] == (#[trigger] old(self).player_shots@[q]) || self.player_shots@[q] == killed_shot(
                            old(self).player_shots@[q],
                        ),
                    0 <= count_alive(self.enemies@) <= count_alive(old(self).enemies@),
                    self.score == old(self).score + (count_alive(old(self).enemies@) - count_alive(
                        self.enemies@,
                    )),
                    self.pending_explosions@.len() == old(self).pending_explosions@.len() + (
                    count_alive(old(self).enemies@) - count_alive(self.enemies@)),
                    self.pending_explosions@.take(old(self).pending_explosions@.len() as int)
                        == old(self).pending_explosions@,
                    forall|m: int|
                        old(self).pending_explosions@.len() <= m < self.pending_explosions@.len()
                            ==> pending_has_source(
                            #[trigger] self.pending_explosions@[m],
                            old(self).enemies@,
                            self.enemies@,
                        ),
                    forall|q: int|
                        0 <= q < ne && (#[trigger] old(self).enemies@[q]).alive
                            && !self.enemies@[q].alive ==> exists|r: int|
                            0 <= r < np && old(self).player_shots@[r].alive
                                && !self.player_shots@[r].alive && boxes_overlap(
                                old(self).player_shots@[r].body.pos,
                                old(self).player_shots@[r].body.size,
                                old(self).enemies@[q].body.pos,
                                old(self).enemies@[q].body.size,
                            ),
                    forall|q: int|
                        0 <= q < np && (#[trigger] old(self).player_shots@[q]).alive
                            && !self.player_shots@[q].alive ==> consumed_on_kill(
                            old(self).player_shots@[q],
                            old(self).enemies@,
                            self.enemies@,
                        ),
                    count_live_shots(old(self).player_shots@) - count_live_shots(
                        self.player_shots@,
                    ) == count_alive(old(self).enemies@) - count_alive(self.enemies@),
                    kill_pairing(
                        old(self).player_shots@,
                        self.player_shots@,
                        old(self).enemies@,
                        self.enemies@,
                        pairs,
                    ),
                    forall|q: int, r: int|
                        0 <= q < i && 0 <= r < ne && (#[trigger] self.player_shots@[q]).alive && (
                        #[trigger] self.enemies@[r]).alive ==> !boxes_overlap(
                            self.player_shots@[q].body.pos,
                            self.player_shots@[q].body.size,
                            self.enemies@[r].body.pos,
                            self.enemies@[r].body.size,
                        ),
                    forall|r: int|
                        0 <= r < k && (#[trigger] self.player_shots@[i as int]).alive && (
                        #[trigger] self.enemies@[r]).alive ==> !boxes_overlap(
                            self.player_shots@[i as int].body.pos,
                            self.player_shots@[i as int].body.size,
                            self.enemies@[r].body.pos,
                            self.enemies@[r].body.size,
                        ),
                decreases ne - k,
            {
                let s = self.player_shots[i];
                if s.alive {
                    let e = self.enemies[k];
                    if e.alive && collide(s.body.pos, s.body.size, e.body.pos, e.body.size) {
                        let ghost pend0 = self.pending_explosions@;
                        let ghost en0 = self.enemies@;
                        let ghost ps0 = self.player_shots@;
                        proof {
                            lemma_count_alive_kill(self.enemies@, k as int, killed_enemy(e));
                            lemma_count_alive_bounds(self.enemies@.update(
                                k as int,
                                killed_enemy(e),
                            ));
                            lemma_count_live_shots_kill(
                                self.player_shots@,
                                i as int,
                                killed_shot(s),
                            );
                        }
                        let mut dead_e = e;
                        dead_e.alive = false;
                        self.enemies[k] = dead_e;
                        self.enemy_count = self.enemy_count - 1;
                        self.score = self.score + 1;
                        self.pending_explosions.push(e.body.pos);
                        let mut dead_s = s;
                        dead_s.alive = false;
                        self.player_shots[i] = dead_s;
                        proof {
                            let oldlen = old(self).pending_explosions@.len() as int;
                            assert(dead_e == killed_enemy(e));
                            assert(self.pending_explosions@ == pend0.push(e.body.pos));
                            assert(self.pending_explosions@.take(oldlen) =~= old(
                                self,
                            ).pending_explosions@);
                            assert forall|m: int|
                                oldlen <= m < self.pending_explosions@.len() implies pending_has_source(
                                #[trigger] self.pending_explosions@[m],
                                old(self).enemies@,
                                self.enemies@,
                            ) by {
                                if m < pend0.len() {
                                    assert(pending_has_source(pend0[m], old(self).enemies@, en0));
                                    let k2 = choose|k2: int|
                                        0 <= k2 < ne && (#[trigger] old(self).enemies@[k2]).alive
                                            && !en0[k2].alive && pend0[m] == old(
                                            self,
                                        ).enemies@[k2].body.pos;
                                    assert(k2 != k as int);
                                    assert(self.pending_explosions@[m] == pend0[m]);
                                    assert(old(self).enemies@[k2].alive && !self.enemies@[k2].alive
                                        && self.pending_explosions@[m] == old(
                                        self,
                                    ).enemies@[k2].body.pos);
                                } else {
                                    assert(m == pend0.len());
                                    assert(en0[k as int] == old(self).enemies@[k as int]);
                                    assert(self.enemies@[k as int] == killed_enemy(en0[k as int]));
                                    assert(old(self).enemies@[k as int].alive
                                        && !self.enemies@[k as int].alive
                                        && self.pending_explosions@[m] == old(
                                        self,
                                    ).enemies@[k as int].body.pos);
                                }
                            }
                            assert forall|q: int|
                                0 <= q < np && (#[trigger] old(self).player_shots@[q]).alive
                                    && !self.player_shots@[q].alive implies consumed_on_kill(
                                old(self).player_shots@[q],
                                old(self).enemies@,
                                self.enemies@,
                            ) by {
                                if q == i as int {
                                    assert(s.body == old(self).player_shots@[q].body);
                                    assert(old(self).enemies@[k as int].alive
                                        && !self.enemies@[k as int].alive);
                                } else {
                                    if old(self).player_shots@[q].alive
                                        && !ps0[q].alive {
                                        assert(consumed_on_kill(
                                            old(self).player_shots@[q],
                                            old(self).enemies@,
                                            en0,
                                        ));
                                        let k2 = choose|k2: int|
                                            0 <= k2 < ne && (#[trigger] old(
                                                self,
                                            ).enemies@[k2]).alive && !en0[k2].alive
                                                && boxes_overlap(
                                                old(self).player_shots@[q].body.pos,
                                                old(self).player_shots@[q].body.size,
                                                old(self).enemies@[k2].body.pos,
                                                old(self).enemies@[k2].body.size,
                                            );
                                        assert(k2 != k as int);
                                        assert(!self.enemies@[k2].alive);
                                    }
                                }
                            }
                            assert(old(self).enemies@[k as int] == en0[k as int]);
                            assert(old(self).player_shots@[i as int] == ps0[i as int]);
                            assert(self.player_shots@ == ps0.update(i as int, killed_shot(s)));
                            assert(self.enemies@ == en0.update(k as int, killed_enemy(e)));
                            lemma_kill_pairing_extend(
                                old(self).player_shots@,
                                ps0,
                                old(self).enemies@,
                                en0,
                                pairs,
                                i as int,
                                k as int,
                                s,
                                e,
                            );
                            pairs = pairs.insert(k as int, i as int);
                        }
                    }
                }
                k = k + 1;
            }
            i = i + 1;
        }
        proof {
            assert(kill_pairing(
                old(self).player_shots@,
                self.player_shots@,
                old(self).enemies@,
                self.enemies@,
                pairs,
            ));
        }
    }

    /// Resolve enemy lasers against the player, if one exists. While the
    /// invincibility window is active every overlapping laser is consumed and
    /// the player is untouched; otherwise the first overlapping laser, in
    /// slot order, destroys the player, records the destruction time, and
    /// leaves one pending explosion at the player's position — later lasers
    /// are not evaluated this tick.
    pub fn enemy_shots_hit_player(&mut self, now_ms: i64)
        requires
            old(self).wf(),
            0 <= now_ms <= TIME_LIMIT_MS,
        ensures
            player_hit_rel(*old(self), *final(self), now_ms),
    {
        let p = match self.player {
            Some(p) => p,
            None => {
                return ;
            },
        };
        let invincible = match p.invincible {
            Some(_) => true,
            None => false,
        };
        let n = self.enemy_shots.len();
        let mut j: usize = 0;
        let mut destroyed = false;
        let ghost mut hit_at: int = 0;
        while j < n && !destroyed
            invariant
                n == self.enemy_shots@.len(),
                n == old(self).enemy_shots@.len(),
                0 <= j <= n,
                old(self).wf(),
                0 <= now_ms <= TIME_LIMIT_MS,
                old(self).player == Some(p),
                invincible == (p.invincible is Some),
                self.win == old(self).win,
                self.maker == old(self).maker,
                self.enemies@ == old(self).enemies@,
                self.enemy_count == old(self).enemy_count,
                self.player_shots@ == old(self).player_shots@,
                self.explosions@ == old(self).explosions@,
                self.score == old(self).score,
                self.wf(),
                !destroyed ==> {
                    &&& self.player == old(self).player
                    &&& self.player_state == old(self).player_state
                    &&& self.pending_explosions@ == old(self).pending_explosions@
                },
                invincible ==> !destroyed,
                invincible ==> forall|q: int|
                    0 <= q < j ==> self.enemy_shots@[q] == if hits_player(
                        #[trigger] old(self).enemy_shots@[q],
                        p,
                    ) {
                        killed_shot(old(self).enemy_shots@[q])
                    } else {
                        old(self).enemy_shots@[q]
                    },
                invincible ==> forall|q: int|
                    j <= q < n ==> self.enemy_shots@[q] == old(self).enemy_shots@[q],
                !invincible && !destroyed ==> self.enemy_shots@ == old(self).enemy_shots@,
                !invincible && !destroyed ==> forall|q: int|
                    0 <= q < j ==> !hits_player(#[trigger] old(self).enemy_shots@[q], p),
                destroyed ==> {
                    &&& !invincible
                    &&& self.player is None
                    &&& !self.player_state.on
                    &&& self.player_state.last_destroyed == Some(now_ms)
                    &&& self.pending_explosions@ == old(self).pending_explosions@.push(p.body.pos)
                    &&& 0 <= hit_at < n
                    &&& hits_player(old(self).enemy_shots@[hit_at], p)
                    &&& forall|q: int|
                        0 <= q < hit_at ==> !hits_player(#[trigger] old(self).enemy_shots@[q], p)
                    &&& self.enemy_shots@ == old(self).enemy_shots@.update(
                        hit_at,
                        killed_shot(old(self).enemy_shots@[hit_at]),
                    )
                },
            decreases n - j,
        {
            let s = self.enemy_shots[j];
            if s.alive && collide(s.body.pos, s.body.size, p.body.pos, p.body.size) {
                let mut dead_s = s;
                dead_s.alive = false;
                self.enemy_shots[j] = dead_s;
                if !invincible {
                    self.player = None;
                    self.player_state.shot(now_ms);
                    self.pending_explosions.push(p.body.pos);
                    destroyed = true;
                    proof {
                        hit_at = j as int;
                    }
                }
            }
            j = j + 1;
        }
    }
}

} // verus!
