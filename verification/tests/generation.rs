//! Formation generation, geometry and fixed-point trigonometry.

use spade_invaders::formation::FormationMaker;
use spade_invaders::formation::WinSize;
use spade_invaders::geom::clamp_i64;
use spade_invaders::geom::collide;
use spade_invaders::geom::div_trunc;
use spade_invaders::geom::isqrt;
use spade_invaders::geom::rem_pos;
use spade_invaders::geom::Vec2;
use spade_invaders::trig::atan2_micro;
use spade_invaders::trig::cos_milli;
use spade_invaders::trig::into_cycle;
use spade_invaders::trig::sin_milli;
use spade_invaders::trig::HALF_PI_MICRO;
use spade_invaders::trig::PI_MICRO;
use spade_invaders::trig::TWO_PI_MICRO;
use spade_invaders::BASE_SPEED_MILLI;

fn win() -> WinSize {
    WinSize { w: 1_920_000, h: 1_080_000 }
}

#[test]
fn generated_descriptor_stays_in_its_bands() {
    let mut maker = FormationMaker::default();
    for _ in 0..50 {
        // Exhaust the template each round so every second draw is fresh.
        let f = maker.make(&win());
        assert!(f.radius.y == 100_000);
        assert!(f.radius.x >= 80_000 && f.radius.x <= 150_000);
        // |start.x| is exactly half the width plus the margin.
        let expected = win().w / 2 + 100_000;
        assert!(f.start.x == expected || f.start.x == -expected);
        assert!(f.start.y >= -(win().h / 2 + 100_000) && f.start.y < win().h / 2 + 100_000);
        assert!(f.pivot.x >= -(win().w / 4) && f.pivot.x < win().w / 4);
        assert!(f.pivot.y >= 0 && f.pivot.y < win().h / 3 + 50_000);
        assert!(f.speed == BASE_SPEED_MILLI);
        assert!(f.angle >= 0 && f.angle < TWO_PI_MICRO);
    }
}

#[test]
fn template_reused_for_exactly_two_members() {
    let mut maker = FormationMaker::default();
    let first = maker.make(&win());
    assert_eq!(maker.current_members, 1);
    let second = maker.make(&win());
    assert_eq!(maker.current_members, 2);
    // Both members of one formation share the template exactly.
    assert_eq!(first, second);
    // The third draw starts a new formation: the counter resets to one and
    // the stored template is the value just returned.
    let third = maker.make(&win());
    assert_eq!(maker.current_members, 1);
    assert_eq!(maker.current_template, Some(third));
}

#[test]
fn overlap_is_strict_on_both_axes() {
    let size = Vec2 { x: 10_000, y: 10_000 };
    let a = Vec2 { x: 0, y: 0 };
    // Clearly overlapping.
    assert!(collide(a, size, Vec2 { x: 5_000, y: 5_000 }, size));
    // Touching edges do not collide.
    assert!(!collide(a, size, Vec2 { x: 10_000, y: 0 }, size));
    // One axis separated.
    assert!(!collide(a, size, Vec2 { x: 20_000, y: 0 }, size));
    assert!(!collide(a, size, Vec2 { x: 0, y: 20_000 }, size));
    // Just inside.
    assert!(collide(a, size, Vec2 { x: 9_999, y: 9_999 }, size));
}

#[test]
fn integer_square_root_brackets_its_argument() {
    assert_eq!(isqrt(0), 0);
    assert_eq!(isqrt(1), 1);
    assert_eq!(isqrt(15), 3);
    assert_eq!(isqrt(16), 4);
    assert_eq!(isqrt(1_000_000), 1_000);
    assert_eq!(isqrt(8_999_999_999_999_999_999), 2_999_999_999);
}

#[test]
fn division_truncates_toward_zero() {
    assert_eq!(div_trunc(7, 2), 3);
    assert_eq!(div_trunc(-7, 2), -3);
    assert_eq!(div_trunc(0, 5), 0);
    assert_eq!(rem_pos(7, 5), 2);
    assert_eq!(clamp_i64(12, 0, 10), 10);
    assert_eq!(clamp_i64(-2, 0, 10), 0);
    assert_eq!(clamp_i64(5, 0, 10), 5);
}

#[test]
fn sine_and_cosine_hit_the_cardinal_points() {
    assert_eq!(sin_milli(0), 0);
    assert_eq!(sin_milli(HALF_PI_MICRO), 1_000);
    assert_eq!(sin_milli(PI_MICRO), 0);
    assert_eq!(sin_milli(PI_MICRO + HALF_PI_MICRO), -1_000);
    assert_eq!(cos_milli(0), 1_000);
    assert_eq!(cos_milli(HALF_PI_MICRO), 0);
    assert_eq!(cos_milli(PI_MICRO), -1_000);
    for a in (0..TWO_PI_MICRO).step_by(10_007) {
        assert!(sin_milli(a) >= -1_000 && sin_milli(a) <= 1_000);
        assert!(cos_milli(a) >= -1_000 && cos_milli(a) <= 1_000);
    }
}

#[test]
fn angle_of_vector_lands_in_the_right_quadrant() {
    assert_eq!(atan2_micro(0, 100), 0);
    assert_eq!(atan2_micro(100, 0), HALF_PI_MICRO);
    assert_eq!(atan2_micro(0, -100), PI_MICRO);
    assert_eq!(atan2_micro(-100, 0), -HALF_PI_MICRO);
    // The diagonal of the first quadrant is an exact quarter of a half turn.
    assert_eq!(atan2_micro(100, 100), PI_MICRO / 4);
    // Folding keeps everything inside one cycle.
    let folded = into_cycle(atan2_micro(-100, 0));
    assert_eq!(folded, TWO_PI_MICRO - HALF_PI_MICRO);
}
