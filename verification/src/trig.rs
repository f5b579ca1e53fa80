//! Fixed-point circular functions. Angles are in micro-radians; sines and
//! cosines are in milli-units (1000 stands for 1.0). The curves are piecewise
//! linear approximations: exact enough for steering a pursuit curve, and every
//! value is pinned exactly by the spec functions below.

use vstd::prelude::*;
use crate::geom::clamp_spec;
use crate::geom::clamp_i64;
use crate::geom::div_trunc;

verus! {

/// An eighth of a turn, in micro-radians.
pub const QUARTER_PI_MICRO: i64 = 785_398;

/// A quarter turn, in micro-radians.
pub const HALF_PI_MICRO: i64 = 1_570_796;

/// Half a turn, in micro-radians.
pub const PI_MICRO: i64 = 3_141_592;

/// A full turn, in micro-radians.
pub const TWO_PI_MICRO: i64 = 6_283_184;

/// Magnitude of an integer.
pub open spec fn abs_i(a: int) -> int {
    if a >= 0 {
        a
    } else {
        -a
    }
}

/// Rising-then-falling wave over `[0, PI_MICRO]`, from 0 up to 1000 and back.
pub open spec fn tri_wave(a: int) -> int {
    if a <= HALF_PI_MICRO {
        clamp_spec(a * 1000 / (HALF_PI_MICRO as int), 0, 1000)
    } else {
        clamp_spec((PI_MICRO - a) * 1000 / (HALF_PI_MICRO as int), 0, 1000)
    }
}

/// Piecewise-linear sine over one cycle, in milli-units.
pub open spec fn sin_milli_spec(a: int) -> int {
    if a < PI_MICRO {
        tri_wave(a)
    } else {
        -tri_wave(a - PI_MICRO)
    }
}

/// Piecewise-linear cosine over one cycle: the sine a quarter turn ahead.
pub open spec fn cos_milli_spec(a: int) -> int {
    if a + HALF_PI_MICRO < TWO_PI_MICRO {
        sin_milli_spec(a + HALF_PI_MICRO)
    } else {
        sin_milli_spec(a + HALF_PI_MICRO - TWO_PI_MICRO)
    }
}

/// Sine of an angle within one cycle, in milli-units.
pub fn sin_milli(a: i64) -> (r: i64)
    requires
        0 <= a < TWO_PI_MICRO,
    ensures
        r == sin_milli_spec(a as int),
        -1000 <= r <= 1000,
{
    if a < PI_MICRO {
        if a <= HALF_PI_MICRO {
            clamp_i64(div_trunc(a * 1000, HALF_PI_MICRO), 0, 1000)
        } else {
            clamp_i64(div_trunc((PI_MICRO - a) * 1000, HALF_PI_MICRO), 0, 1000)
        }
    } else {
        let b = a - PI_MICRO;
        if b <= HALF_PI_MICRO {
            -clamp_i64(div_trunc(b * 1000, HALF_PI_MICRO), 0, 1000)
        } else {
            -clamp_i64(div_trunc((PI_MICRO - b) * 1000, HALF_PI_MICRO), 0, 1000)
        }
    }
}

/// Cosine of an angle within one cycle, in milli-units.
pub fn cos_milli(a: i64) -> (r: i64)
    requires
        0 <= a < TWO_PI_MICRO,
    ensures
        r == cos_milli_spec(a as int),
        -1000 <= r <= 1000,
{
    let b = if a + HALF_PI_MICRO < TWO_PI_MICRO {
        a + HALF_PI_MICRO
    } else {
        a + HALF_PI_MICRO - TWO_PI_MICRO
    };
    sin_milli(b)
}

/// Octant-linear approximation of the angle of the vector `(x, y)`, in
/// micro-radians within `[-PI_MICRO, PI_MICRO]`.
pub open spec fn atan2_micro_spec(y: int, x: int) -> int {
    if x == 0 && y == 0 {
        0
    } else {
        let ax = abs_i(x);
        let ay = abs_i(y);
        let base = if ax >= ay {
            clamp_spec(ay * (QUARTER_PI_MICRO as int) / ax, 0, QUARTER_PI_MICRO as int)
        } else {
            (HALF_PI_MICRO as int) - clamp_spec(
                ax * (QUARTER_PI_MICRO as int) / ay,
                0,
                QUARTER_PI_MICRO as int,
            )
        };
        if x >= 0 && y >= 0 {
            base
        } else if x < 0 && y >= 0 {
            (PI_MICRO as int) - base
        } else if x >= 0 {
            -base
        } else {
            base - PI_MICRO
        }
    }
}

/// Approximate angle of the vector `(x, y)`.
pub fn atan2_micro(y: i64, x: i64) -> (r: i64)
    requires
        -2_000_000_000 <= y <= 2_000_000_000,
        -2_000_000_000 <= x <= 2_000_000_000,
    ensures
        r == atan2_micro_spec(y as int, x as int),
        -PI_MICRO <= r <= PI_MICRO,
{
    if x == 0 && y == 0 {
        return 0;
    }
    let ax = if x >= 0 { x } else { -x };
    let ay = if y >= 0 { y } else { -y };
    let base = if ax >= ay {
        clamp_i64(div_trunc(ay * QUARTER_PI_MICRO, ax), 0, QUARTER_PI_MICRO)
    } else {
        HALF_PI_MICRO - clamp_i64(div_trunc(ax * QUARTER_PI_MICRO, ay), 0, QUARTER_PI_MICRO)
    };
    if x >= 0 && y >= 0 {
        base
    } else if x < 0 && y >= 0 {
        PI_MICRO - base
    } else if x >= 0 {
        -base
    } else {
        base - PI_MICRO
    }
}

/// Fold an angle of `[-PI_MICRO, PI_MICRO]` into the stored cycle
/// `[0, TWO_PI_MICRO)`.
pub open spec fn cycle_of(a: int) -> int {
    if a < 0 {
        a + TWO_PI_MICRO
    } else {
        a
    }
}

/// Fold an angle into the stored cycle.
pub fn into_cycle(a: i64) -> (r: i64)
    requires
        -PI_MICRO <= a <= PI_MICRO,
    ensures
        r == cycle_of(a as int),
        0 <= r < TWO_PI_MICRO,
{
    if a < 0 {
        a + TWO_PI_MICRO
    } else {
        a
    }
}

} // verus!
