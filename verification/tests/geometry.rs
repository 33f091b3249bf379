use underbots::geom::trig::{cos_sin, FULL_TURN, HALF_TURN, QUARTER_TURN, UNIT};
use underbots::geom::{Angle, Point, Rectangle, Vector};
use underbots::math::isqrt;

#[test]
fn isqrt_of_small_numbers() {
    assert_eq!(isqrt(0), 0);
    assert_eq!(isqrt(1), 1);
    assert_eq!(isqrt(2), 1);
    assert_eq!(isqrt(3), 1);
    assert_eq!(isqrt(4), 2);
    assert_eq!(isqrt(24), 4);
    assert_eq!(isqrt(25), 5);
    assert_eq!(isqrt(26), 5);
}

#[test]
fn isqrt_of_large_numbers() {
    assert_eq!(isqrt(1_000_000_000_000), 1_000_000);
    assert_eq!(isqrt(999_999_999_999), 999_999);
    assert_eq!(isqrt(u128::MAX), u64::MAX);
    assert_eq!(isqrt(1u128 << 126), 1u64 << 63);
}

#[test]
fn cos_sin_at_the_quarter_turns() {
    assert_eq!(cos_sin(0), (UNIT, 0));
    assert_eq!(cos_sin(QUARTER_TURN), (0, UNIT));
    assert_eq!(cos_sin(HALF_TURN), (-UNIT, 0));
    assert_eq!(cos_sin(3 * QUARTER_TURN), (0, -UNIT));
    assert_eq!(cos_sin(FULL_TURN), (UNIT, 0));
}

#[test]
fn cos_sin_at_common_angles() {
    assert_eq!(cos_sin(30_000_000), (866_025, 500_000));
    assert_eq!(cos_sin(45_000_000), (707_107, 707_107));
    assert_eq!(cos_sin(60_000_000), (500_000, 866_025));
    assert_eq!(cos_sin(120_000_000), (-500_000, 866_025));
    assert_eq!(cos_sin(210_000_000), (-866_025, -500_000));
    assert_eq!(cos_sin(330_000_000), (866_025, -500_000));
    assert_eq!(cos_sin(1_000_000), (999_848, 17_452));
}

#[test]
fn cos_sin_of_negative_and_large_angles() {
    assert_eq!(cos_sin(-30_000_000), (866_025, -500_000));
    assert_eq!(cos_sin(-QUARTER_TURN), (0, -UNIT));
    assert_eq!(cos_sin(FULL_TURN * 1000 + 60_000_000), (500_000, 866_025));
    assert_eq!(cos_sin(i64::MIN), cos_sin(i64::MIN % FULL_TURN + FULL_TURN));
    assert_eq!(cos_sin(i64::MAX), cos_sin(i64::MAX % FULL_TURN));
}

#[test]
fn cos_sin_stays_close_to_the_unit_circle() {
    let mut a: i64 = -FULL_TURN;
    while a <= FULL_TURN {
        let (c, s) = cos_sin(a);
        let norm = (c as i128) * (c as i128) + (s as i128) * (s as i128);
        let one = (UNIT as i128) * (UNIT as i128);
        assert!((norm - one).abs() <= 3 * UNIT as i128, "angle {a}");
        let exact_c = ((a as f64) / 1.0e6).to_radians().cos() * 1.0e6;
        let exact_s = ((a as f64) / 1.0e6).to_radians().sin() * 1.0e6;
        assert!((c as f64 - exact_c).abs() <= 1.0, "cosine of {a}");
        assert!((s as f64 - exact_s).abs() <= 1.0, "sine of {a}");
        a += 1_234_567;
    }
}

#[test]
fn angle_constructors() {
    assert_eq!(Angle::new(), Angle::zero());
    assert_eq!(Angle::zero().microdegrees, 0);
    assert_eq!(Angle::half().microdegrees, 180_000_000);
    assert_eq!(Angle::full().microdegrees, 360_000_000);
    assert_eq!(Angle::from_degrees(90).microdegrees, 90_000_000);
    assert_eq!(Angle::from_degrees(-1).microdegrees, -1_000_000);
}

#[test]
fn angle_degrees_round_toward_zero() {
    assert_eq!(Angle { microdegrees: 1_999_999 }.degrees(), 1);
    assert_eq!(Angle { microdegrees: -1_999_999 }.degrees(), -1);
    assert_eq!(Angle::from_degrees(270).degrees(), 270);
}

#[test]
fn angle_sine_and_cosine() {
    assert_eq!(Angle::from_degrees(30).sin(), 500_000);
    assert_eq!(Angle::from_degrees(30).cos(), 866_025);
    assert_eq!(Angle::half().cos(), -1_000_000);
    assert_eq!(Angle::half().sin(), 0);
}

#[test]
fn angle_arithmetic() {
    assert_eq!(Angle::from_degrees(30) + Angle::from_degrees(60), Angle::from_degrees(90));
    assert_eq!(Angle::from_degrees(30) - Angle::from_degrees(60), Angle::from_degrees(-30));
    assert_eq!(-Angle::from_degrees(30), Angle::from_degrees(-30));
    assert_eq!(Angle::from_degrees(90) / 4, Angle { microdegrees: 22_500_000 });
    assert_eq!(Angle { microdegrees: -7 } / 2, Angle { microdegrees: -3 });
}

#[test]
fn angle_wraps_at_the_edges() {
    assert_eq!(Angle::full().clamp2pi(), Angle::zero());
    assert_eq!(Angle { microdegrees: -1 }.clamp2pi(), Angle { microdegrees: 359_999_999 });
    assert_eq!(Angle { microdegrees: i64::MIN }.clamp2pi().microdegrees, i64::MIN.rem_euclid(360_000_000));
    assert_eq!(Angle::half().clamp_pos_neg_pi(), Angle::half());
    assert_eq!(Angle { microdegrees: 180_000_001 }.clamp_pos_neg_pi(), Angle { microdegrees: -179_999_999 });
    assert_eq!(Angle::from_degrees(-180).clamp_pos_neg_pi(), Angle::half());
}

#[test]
fn point_arithmetic() {
    assert_eq!(Point::new(), Point { x: 0, y: 0 });
    let a = Point { x: 3, y: -4 };
    let b = Point { x: -1, y: 2 };
    assert_eq!(a - b, Vector { x: 4, y: -6 });
    assert_eq!(b + Vector { x: 4, y: -6 }, a);
    let low = Point { x: i32::MIN, y: i32::MIN };
    let high = Point { x: i32::MAX, y: i32::MAX };
    assert_eq!(high - low, Vector { x: 4_294_967_295, y: 4_294_967_295 });
}

#[test]
fn point_distance_comparisons_are_exact() {
    let origin = Point::new();
    let p = Point { x: 3, y: 4 };
    assert!(!origin.is_farther_than(&p, 5));
    assert!(origin.is_farther_than(&p, 4));
    assert!(!origin.is_closer_than(&p, 5));
    assert!(origin.is_closer_than(&p, 6));
    let q = Point { x: 100_000, y: 1 };
    assert!(origin.is_farther_than(&q, 100_000));
    assert!(!origin.is_closer_than(&q, 100_000));
    let low = Point { x: i32::MIN, y: i32::MIN };
    let high = Point { x: i32::MAX, y: i32::MAX };
    assert!(low.is_farther_than(&high, u32::MAX));
}

#[test]
fn vector_length_rounds_down() {
    assert_eq!(Vector::new(), Vector { x: 0, y: 0 });
    assert_eq!(Vector { x: 3, y: 4 }.length(), 5);
    assert_eq!(Vector { x: -3, y: -4 }.length(), 5);
    assert_eq!(Vector { x: 1, y: 1 }.length(), 1);
    assert_eq!(Vector { x: 1_000_000, y: 1_000_000 }.length(), 1_414_213);
    assert_eq!(Vector { x: i64::MIN, y: 0 }.length(), 1u64 << 63);
    assert_eq!(Vector { x: i64::MIN, y: i64::MIN }.length(), 13043817825332782212);
}

#[test]
fn vector_from_angle() {
    assert_eq!(Vector::from_angle(Angle::zero(), 1_000_000), Vector { x: 1_000_000, y: 0 });
    assert_eq!(Vector::from_angle(Angle::from_degrees(90), 2_000_000), Vector { x: 0, y: 2_000_000 });
    assert_eq!(Vector::from_angle(Angle::from_degrees(120), 1_000_000), Vector { x: -500_000, y: 866_025 });
    assert_eq!(Vector::from_angle(Angle::from_degrees(30), -10), Vector { x: -8, y: -5 });
    assert_eq!(Vector::from_angle(Angle::from_degrees(180), i64::MAX), Vector { x: -i64::MAX, y: 0 });
}

#[test]
fn vector_rotate() {
    let v = Vector { x: 1_000_000, y: 0 };
    assert_eq!(v.rotate(&Angle::from_degrees(90)), Vector { x: 0, y: 1_000_000 });
    assert_eq!(v.rotate(&Angle::from_degrees(-90)), Vector { x: 0, y: -1_000_000 });
    assert_eq!(v.rotate(&Angle::from_degrees(180)), Vector { x: -1_000_000, y: 0 });
    assert_eq!(v.rotate(&Angle::from_degrees(30)), Vector { x: 866_025, y: 500_000 });
    let w = Vector { x: 3, y: 4 };
    assert_eq!(w.rotate(&Angle::zero()), w);
    assert_eq!(w.rotate(&Angle::from_degrees(90)), Vector { x: -4, y: 3 });
}

#[test]
fn vector_norm() {
    assert_eq!(Vector { x: 3, y: 4 }.norm(10), Vector { x: 6, y: 8 });
    assert_eq!(Vector { x: -3, y: 4 }.norm(10), Vector { x: -6, y: 8 });
    assert_eq!(Vector { x: 5_000_000, y: 0 }.norm(3_000_000), Vector { x: 3_000_000, y: 0 });
    assert_eq!(Vector { x: 0, y: 0 }.norm(10), Vector { x: 0, y: 0 });
    assert_eq!(Vector { x: 1, y: 1 }.norm(7), Vector { x: 7, y: 7 });
    assert_eq!(Vector { x: 3, y: 4 }.norm(-10), Vector { x: -6, y: -8 });
}

#[test]
fn vector_division() {
    assert_eq!(Vector { x: 7, y: -7 } / 2, Vector { x: 3, y: -3 });
    assert_eq!(Vector { x: 10, y: 20 } / 10, Vector { x: 1, y: 2 });
}

#[test]
fn rectangle_orders_its_corners() {
    let r = Rectangle::new(Point { x: 5, y: -3 }, Point { x: -1, y: 7 });
    assert_eq!(r, Rectangle::new(Point { x: -1, y: -3 }, Point { x: 5, y: 7 }));
    assert_eq!(r.len_x(), 6);
    assert_eq!(r.len_y(), 10);
    assert_eq!(r.centre(), Point { x: 2, y: 2 });
}

#[test]
fn rectangle_of_extreme_corners() {
    let r = Rectangle::new(Point { x: i32::MAX, y: i32::MAX }, Point { x: i32::MIN, y: i32::MIN });
    assert_eq!(r.len_x(), 4_294_967_295);
    assert_eq!(r.len_y(), 4_294_967_295);
    assert_eq!(r.centre(), Point { x: -1, y: -1 });
}
