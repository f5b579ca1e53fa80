//! The per-tick motion integrator for path-driven enemies: a pursuit-curve
//! approximation of uniform motion along an ellipse. Each tick the phase is
//! tentatively advanced, the point of the ellipse at the new phase becomes the
//! target, and the position steps toward the target by at most one tick's
//! travel, clamped per axis so it never overshoots.

use vstd::prelude::*;
use vstd::arithmetic::div_mod::lemma_div_is_ordered;
use vstd::arithmetic::div_mod::lemma_div_is_ordered_by_denominator;
use vstd::arithmetic::div_mod::lemma_div_pos_is_pos;
use crate::geom::Vec2;
use crate::geom::PATH_POS_LIMIT;
use crate::geom::abs_diff;
use crate::geom::div_trunc;
use crate::geom::div_trunc_spec;
use crate::geom::isqrt;
use crate::geom::sqrt_floor;
use crate::trig::cos_milli;
use crate::trig::cos_milli_spec;
use crate::trig::sin_milli;
use crate::trig::sin_milli_spec;
use crate::trig::PI_MICRO;
use crate::trig::TWO_PI_MICRO;
use crate::formation::Formation;
use crate::TICKS_PER_SECOND;

verus! {

/// How far the entity may travel in one tick, in milli-units.
pub open spec fn max_step_of(f: Formation) -> int {
    f.speed as int / TICKS_PER_SECOND as int
}

/// Orbit direction: formations entering from the left edge turn one way,
/// those from the right the other.
pub open spec fn dir_of(f: Formation) -> int {
    if f.start.x < 0 {
        1
    } else {
        -1
    }
}

/// The smaller semi-axis.
pub open spec fn min_radius_of(f: Formation) -> int {
    if f.radius.x <= f.radius.y {
        f.radius.x as int
    } else {
        f.radius.y as int
    }
}

/// Phase advance per tick, in micro-radians: one tick's travel divided by a
/// quarter turn of the tighter semi-axis.
pub open spec fn angle_inc_of(f: Formation) -> int {
    2 * max_step_of(f) * 1_000_000_000_000 / (min_radius_of(f) * PI_MICRO as int)
}

/// Fold an angle that drifted at most one cycle out of range back into
/// `[0, TWO_PI_MICRO)`.
pub open spec fn wrap_cycle(a: int) -> int {
    if a < 0 {
        a + TWO_PI_MICRO
    } else if a >= TWO_PI_MICRO {
        a - TWO_PI_MICRO
    } else {
        a
    }
}

/// The phase proposed for this tick.
pub open spec fn next_angle_of(f: Formation) -> int {
    wrap_cycle(f.angle + dir_of(f) * angle_inc_of(f))
}

/// The point of the ellipse at the proposed phase.
pub open spec fn target_x_of(f: Formation) -> int {
    f.pivot.x + div_trunc_spec(f.radius.x * cos_milli_spec(next_angle_of(f)), 1000)
}

/// The point of the ellipse at the proposed phase.
pub open spec fn target_y_of(f: Formation) -> int {
    f.pivot.y + div_trunc_spec(f.radius.y * sin_milli_spec(next_angle_of(f)), 1000)
}

/// Distance from the current position to this tick's target.
pub open spec fn dist_to_target(pos: Vec2, f: Formation) -> int {
    let dx = pos.x - target_x_of(f);
    let dy = pos.y - target_y_of(f);
    sqrt_floor(dx * dx + dy * dy)
}

/// One axis of the clamped step: move the share of one tick's travel that
/// falls on this axis, but never past the target.
pub open spec fn axis_step(p: int, t: int, max_step: int, dist: int) -> int {
    let s = if dist == 0 {
        0
    } else {
        div_trunc_spec((p - t) * max_step, dist)
    };
    let raw = p - s;
    if p - t > 0 {
        if raw > t {
            raw
        } else {
            t
        }
    } else {
        if raw < t {
            raw
        } else {
            t
        }
    }
}

/// The phase is committed only when the entity has nearly reached this tick's
/// target. The threshold scales with the speed a second time beyond the step
/// itself; that is dimensionally odd but deliberate, kept exactly as the
/// steering behaves on screen.
pub open spec fn commits_angle(pos: Vec2, f: Formation) -> bool {
    dist_to_target(pos, f) < max_step_of(f) * f.speed / 20_000
}

/// The position one tick of path motion reaches.
pub open spec fn path_next_pos(pos: Vec2, f: Formation) -> Vec2 {
    Vec2 {
        x: axis_step(pos.x as int, target_x_of(f), max_step_of(f), dist_to_target(pos, f)) as i64,
        y: axis_step(pos.y as int, target_y_of(f), max_step_of(f), dist_to_target(pos, f)) as i64,
    }
}

/// The descriptor after one tick: the phase moves only on commit.
pub open spec fn path_next_path(pos: Vec2, f: Formation) -> Formation {
    if commits_angle(pos, f) {
        Formation { angle: next_angle_of(f) as i64, ..f }
    } else {
        f
    }
}

/// Advance one path-driven entity by one tick: returns the new position and
/// commits the proposed phase into `path.angle` when the target was nearly
/// reached. The new position never moves away from the target on either axis.
pub fn path_step(pos: Vec2, path: &mut Formation) -> (next: Vec2)
    requires
        old(path).wf(),
        pos.bounded(PATH_POS_LIMIT as int),
    ensures
        final(path).wf(),
        next.bounded(PATH_POS_LIMIT as int),
        next.x == axis_step(
            pos.x as int,
            target_x_of(*old(path)),
            max_step_of(*old(path)),
            dist_to_target(pos, *old(path)),
        ),
        next.y == axis_step(
            pos.y as int,
            target_y_of(*old(path)),
            max_step_of(*old(path)),
            dist_to_target(pos, *old(path)),
        ),
        final(path).angle == if commits_angle(pos, *old(path)) {
            next_angle_of(*old(path))
        } else {
            old(path).angle as int
        },
        final(path).start == old(path).start,
        final(path).radius == old(path).radius,
        final(path).pivot == old(path).pivot,
        final(path).speed == old(path).speed,
        abs_diff(next.x as int, target_x_of(*old(path))) <= abs_diff(
            pos.x as int,
            target_x_of(*old(path)),
        ),
        abs_diff(next.y as int, target_y_of(*old(path))) <= abs_diff(
            pos.y as int,
            target_y_of(*old(path)),
        ),
        next == path_next_pos(pos, *old(path)),
        *final(path) == path_next_path(pos, *old(path)),
{
    let ghost f0 = *path;
    let max_step = div_trunc(path.speed, TICKS_PER_SECOND);
    proof {
        lemma_div_pos_is_pos(f0.speed as int, TICKS_PER_SECOND as int);
        lemma_div_is_ordered(f0.speed as int, 1_000_000, TICKS_PER_SECOND as int);
        assert(max_step == max_step_of(f0));
        assert(0 <= max_step <= 16_666);
    }
    let min_r = if path.radius.x <= path.radius.y {
        path.radius.x
    } else {
        path.radius.y
    };
    let denom = min_r * PI_MICRO;
    let inc = div_trunc(2 * max_step * 1_000_000_000_000, denom);
    proof {
        lemma_div_pos_is_pos(2 * max_step * 1_000_000_000_000, denom as int);
        lemma_div_is_ordered_by_denominator(
            2 * max_step * 1_000_000_000_000,
            10_000 * PI_MICRO as int,
            denom as int,
        );
        lemma_div_is_ordered(
            2 * max_step * 1_000_000_000_000,
            33_332_000_000_000_000int,
            10_000 * PI_MICRO as int,
        );
        assert(0 <= inc < TWO_PI_MICRO);
        assert(inc == angle_inc_of(f0));
    }
    let raw_angle = if path.start.x < 0 {
        path.angle + inc
    } else {
        path.angle - inc
    };
    let next_angle = if raw_angle < 0 {
        raw_angle + TWO_PI_MICRO
    } else if raw_angle >= TWO_PI_MICRO {
        raw_angle - TWO_PI_MICRO
    } else {
        raw_angle
    };
    proof {
        if f0.start.x < 0 {
            assert(dir_of(f0) == 1);
            assert(raw_angle == f0.angle + dir_of(f0) * angle_inc_of(f0));
        } else {
            assert(dir_of(f0) == -1);
            assert(raw_angle == f0.angle + dir_of(f0) * angle_inc_of(f0));
        }
        assert(next_angle == next_angle_of(f0));
        assert(0 <= next_angle < TWO_PI_MICRO);
    }
    let c = cos_milli(next_angle);
    let s = sin_milli(next_angle);
    proof {
        assert(-1_000_000_000 <= f0.radius.x as int * c <= 1_000_000_000) by (nonlinear_arith)
            requires
                0 <= f0.radius.x <= 1_000_000 && -1000 <= c <= 1000,
        ;
        assert(-1_000_000_000 <= f0.radius.y as int * s <= 1_000_000_000) by (nonlinear_arith)
            requires
                0 <= f0.radius.y <= 1_000_000 && -1000 <= s <= 1000,
        ;
        assert(-1_000_000 <= div_trunc_spec(f0.radius.x as int * c, 1000) <= 1_000_000) by {
            if f0.radius.x as int * c >= 0 {
                lemma_div_is_ordered(f0.radius.x as int * c, 1_000_000_000, 1000);
            } else {
                lemma_div_is_ordered(-(f0.radius.x as int * c), 1_000_000_000, 1000);
            }
        }
        assert(-1_000_000 <= div_trunc_spec(f0.radius.y as int * s, 1000) <= 1_000_000) by {
            if f0.radius.y as int * s >= 0 {
                lemma_div_is_ordered(f0.radius.y as int * s, 1_000_000_000, 1000);
            } else {
                lemma_div_is_ordered(-(f0.radius.y as int * s), 1_000_000_000, 1000);
            }
        }
    }
    let tx = path.pivot.x + div_trunc(path.radius.x * c, 1000);
    let ty = path.pivot.y + div_trunc(path.radius.y * s, 1000);
    proof {
        assert(tx == target_x_of(f0) && ty == target_y_of(f0));
        assert(-501_000_000 <= tx <= 501_000_000 && -501_000_000 <= ty <= 501_000_000);
    }
    let dx = pos.x - tx;
    let dy = pos.y - ty;
    proof {
        assert(0 <= dx * dx <= 1_501_000_000 * 1_501_000_000 && 0 <= dy * dy <= 1_501_000_000
            * 1_501_000_000) by (nonlinear_arith)
            requires
                -1_501_000_000 <= dx <= 1_501_000_000 && -1_501_000_000 <= dy <= 1_501_000_000,
        ;
    }
    let d2 = dx * dx + dy * dy;
    let dist = isqrt(d2 as u64) as i64;
    proof {
        assert(dist == dist_to_target(pos, f0));
    }
    proof {
        assert(-26_000_000_000_000 <= dx * max_step <= 26_000_000_000_000 && -26_000_000_000_000
            <= dy * max_step <= 26_000_000_000_000) by (nonlinear_arith)
            requires
                -1_501_000_000 <= dx <= 1_501_000_000,
                -1_501_000_000 <= dy <= 1_501_000_000,
                0 <= max_step <= 16_666,
        ;
    }
    let sx = if dist == 0 {
        0
    } else {
        div_trunc(dx * max_step, dist)
    };
    let sy = if dist == 0 {
        0
    } else {
        div_trunc(dy * max_step, dist)
    };
    proof {
        let ax = dx as int * max_step;
        let ay = dy as int * max_step;
        assert((dx >= 0 ==> ax >= 0) && (dx < 0 ==> ax <= 0) && (dy >= 0 ==> ay >= 0) && (dy < 0
            ==> ay <= 0)) by (nonlinear_arith)
            requires
                max_step >= 0,
                ax == dx as int * max_step,
                ay == dy as int * max_step,
        ;
        if dist != 0 {
            if ax >= 0 {
                lemma_div_pos_is_pos(ax, dist as int);
            } else {
                lemma_div_pos_is_pos(-ax, dist as int);
            }
            if ay >= 0 {
                lemma_div_pos_is_pos(ay, dist as int);
            } else {
                lemma_div_pos_is_pos(-ay, dist as int);
            }
        }
        assert(dx > 0 ==> sx >= 0);
        assert(dx < 0 ==> sx <= 0);
        assert(dy > 0 ==> sy >= 0);
        assert(dy < 0 ==> sy <= 0);
        assert(dx == 0 ==> ax == 0) by (nonlinear_arith)
            requires
                ax == dx as int * max_step,
        ;
        assert(dy == 0 ==> ay == 0) by (nonlinear_arith)
            requires
                ay == dy as int * max_step,
        ;
        if dist != 0 {
            vstd::arithmetic::div_mod::lemma_div_of0(dist as int);
        }
        assert(dx == 0 ==> sx == 0);
        assert(dy == 0 ==> sy == 0);
    }
    let raw_x = pos.x - sx;
    let raw_y = pos.y - sy;
    let nx = if dx > 0 {
        if raw_x > tx {
            raw_x
        } else {
            tx
        }
    } else {
        if raw_x < tx {
            raw_x
        } else {
            tx
        }
    };
    let ny = if dy > 0 {
        if raw_y > ty {
            raw_y
        } else {
            ty
        }
    } else {
        if raw_y < ty {
            raw_y
        } else {
            ty
        }
    };
    proof {
        assert(0 <= max_step * f0.speed <= 16_666_000_000_000) by (nonlinear_arith)
            requires
                0 <= max_step <= 16_666 && 0 < f0.speed <= 1_000_000,
        ;
    }
    let threshold = div_trunc(max_step * path.speed, 20_000);
    proof {
        assert(threshold == max_step_of(f0) * f0.speed / 20_000);
    }
    proof {
        if dx > 0 {
            assert(tx <= nx <= pos.x);
        } else if dx == 0 {
            assert(nx == tx && nx == pos.x);
        } else {
            assert(pos.x <= nx <= tx);
        }
        if dy > 0 {
            assert(ty <= ny <= pos.y);
        } else if dy == 0 {
            assert(ny == ty && ny == pos.y);
        } else {
            assert(pos.y <= ny <= ty);
        }
    }
    if dist < threshold {
        path.angle = next_angle;
    }
    Vec2 { x: nx, y: ny }
}

} // verus!
