//! Procedural generation of the elliptical paths that enemy formations fly.
//! A template is drawn at random once and then handed out unchanged to
//! `FORMATION_MEMBERS_MAX` consecutive members, so a whole formation moves in
//! lock-step.

use vstd::prelude::*;
use crate::geom::Vec2;
use crate::geom::div_trunc;
use crate::trig::atan2_micro;
use crate::trig::atan2_micro_spec;
use crate::trig::cycle_of;
use crate::trig::into_cycle;
use crate::trig::TWO_PI_MICRO;
use crate::rng::chance;
use crate::rng::sample_range;
use crate::BASE_SPEED_MILLI;
use crate::FORMATION_MEMBERS_MAX;

verus! {

/// The playable area, in milli-units.
#[derive(Clone, Copy, PartialEq, Eq, Structural, Debug)]
pub struct WinSize {
    pub w: i64,
    pub h: i64,
}

impl WinSize {
    /// A window of a sane, representable size.
    pub open spec fn wf(self) -> bool {
        4_000 <= self.w <= 1_000_000_000 && 4_000 <= self.h <= 1_000_000_000
    }
}

/// One enemy's elliptical trajectory: where it enters, the ellipse it orbits,
/// and the current phase. Immutable after creation except for `angle`.
#[derive(Clone, Copy, PartialEq, Eq, Structural, Debug)]
pub struct Formation {
    /// Entry point, at a screen edge.
    pub start: Vec2,
    /// Semi-axes of the ellipse, both positive.
    pub radius: Vec2,
    /// Center of the ellipse.
    pub pivot: Vec2,
    /// Constant speed along the path, in milli-units per second.
    pub speed: i64,
    /// Current phase on the ellipse, in micro-radians within one cycle.
    pub angle: i64,
}

impl Formation {
    /// Every field within the bounds the motion integrator needs.
    pub open spec fn wf(self) -> bool {
        &&& self.start.bounded(600_000_000)
        &&& self.pivot.bounded(500_000_000)
        &&& 10_000 <= self.radius.x <= 1_000_000
        &&& 10_000 <= self.radius.y <= 1_000_000
        &&& 0 < self.speed <= 1_000_000
        &&& 0 <= self.angle < TWO_PI_MICRO
    }
}

/// What a template drawn for the window `ws` looks like: entry exactly one
/// margin beyond a side edge, pivot in the upper middle band, radii in the
/// fixed band, base speed, and the phase that puts the entry point on the
/// ellipse.
pub open spec fn fresh_template(f: Formation, ws: WinSize) -> bool {
    &&& (f.start.x == ws.w as int / 2 + 100_000 || f.start.x == -(ws.w as int / 2 + 100_000))
    &&& -(ws.h as int / 2 + 100_000) <= f.start.y < ws.h as int / 2 + 100_000
    &&& -(ws.w as int / 4) <= f.pivot.x < ws.w as int / 4
    &&& 0 <= f.pivot.y < ws.h as int / 3 + 50_000
    &&& 80_000 <= f.radius.x <= 150_000
    &&& f.radius.y == 100_000
    &&& f.speed == BASE_SPEED_MILLI
    &&& f.angle == cycle_of(
        atan2_micro_spec(f.start.y - f.pivot.y as int, f.start.x - f.pivot.x as int),
    )
}

/// Batches path templates for groups of enemies.
#[derive(Clone, Copy, PartialEq, Eq, Structural, Debug)]
pub struct FormationMaker {
    /// The template the current formation shares.
    pub current_template: Option<Formation>,
    /// How many members were already handed the current template.
    pub current_members: u32,
}

impl FormationMaker {
    /// The member counter never passes the cap, and a counted member implies
    /// a stored, well-formed template.
    pub open spec fn wf(self) -> bool {
        &&& self.current_members <= FORMATION_MEMBERS_MAX
        &&& match self.current_template {
            Some(t) => t.wf() && self.current_members >= 1,
            None => self.current_members == 0,
        }
    }
}

impl Default for FormationMaker {
    /// Starts with no template.
    fn default() -> (m: FormationMaker)
        ensures
            m.current_template is None,
            m.current_members == 0,
            m.wf(),
    {
        FormationMaker { current_template: None, current_members: 0 }
    }
}

impl FormationMaker {
    /// Hand out a path for one newly spawned enemy: a copy of the current
    /// template while the formation has room, else a freshly drawn template
    /// whose first member this enemy becomes.
    pub fn make(&mut self, ws: &WinSize) -> (f: Formation)
        requires
            old(self).wf(),
            ws.wf(),
        ensures
            final(self).wf(),
            f.wf(),
            if old(self).current_template is Some && old(self).current_members
                < FORMATION_MEMBERS_MAX {
                &&& f == old(self).current_template->Some_0
                &&& final(self).current_template == old(self).current_template
                &&& final(self).current_members == old(self).current_members + 1
            } else {
                &&& fresh_template(f, *ws)
                &&& final(self).current_template == Some(f)
                &&& final(self).current_members == 1
            },
    {
        if self.current_members < FORMATION_MEMBERS_MAX {
            if let Some(t) = self.current_template {
                self.current_members = self.current_members + 1;
                return t;
            }
        }
        let w_span = div_trunc(ws.w, 2) + 100_000;
        let h_span = div_trunc(ws.h, 2) + 100_000;
        let x = if chance(1, 2) { w_span } else { -w_span };
        let y = sample_range(-h_span, h_span);
        let pivot_span = div_trunc(ws.w, 4);
        let pivot_x = sample_range(-pivot_span, pivot_span);
        let pivot_y = sample_range(0, div_trunc(ws.h, 3) + 50_000);
        let radius_x = sample_range(80_000, 150_001);
        let angle = into_cycle(atan2_micro(y - pivot_y, x - pivot_x));
        let f = Formation {
            start: Vec2 { x, y },
            radius: Vec2 { x: radius_x, y: 100_000 },
            pivot: Vec2 { x: pivot_x, y: pivot_y },
            speed: BASE_SPEED_MILLI,
            angle,
        };
        self.current_template = Some(f);
        self.current_members = 1;
        f
    }
}

} // verus!
