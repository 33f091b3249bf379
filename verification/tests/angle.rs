use underbots::geom::Angle;

#[test]
fn angle_clamp2pi_small_positive() {
    let result = Angle::half().clamp2pi();
    assert_eq!(result, Angle::half());
}

#[test]
fn angle_clamp2pi_large_positive() {
    let result = Angle::from_degrees(365).clamp2pi();
    assert_eq!(result, Angle::from_degrees(5));
}

#[test]
fn angle_clamp2pi_very_large_positive() {
    let result = Angle::from_degrees(731).clamp2pi();
    assert_eq!(result, Angle::from_degrees(11));
}

#[test]
fn angle_clamp2pi_zero() {
    let result = Angle::zero().clamp2pi();
    assert_eq!(result, Angle::zero());
}

#[test]
fn angle_clamp2pi_small_negative() {
    let result = Angle::from_degrees(-6).clamp2pi();
    assert_eq!(result, Angle::from_degrees(354));
}

#[test]
fn angle_clamp2pi_large_negative() {
    let result = Angle::from_degrees(-375).clamp2pi();
    assert_eq!(result, Angle::from_degrees(345));
}

#[test]
fn angle_clamp_large_negative() {
    let result = Angle::from_degrees(-199).clamp_pos_neg_pi();
    assert_eq!(result, Angle::from_degrees(161));
}

#[test]
fn angle_clamp_small_negative() {
    let result = Angle::from_degrees(-5).clamp_pos_neg_pi();
    assert_eq!(result, Angle::from_degrees(-5));
}

#[test]
fn angle_clamp_zero() {
    let result = Angle::from_degrees(0).clamp_pos_neg_pi();
    assert_eq!(result, Angle::from_degrees(0));
}

#[test]
fn angle_clamp_small_positive() {
    let result = Angle::from_degrees(6).clamp_pos_neg_pi();
    assert_eq!(result, Angle::from_degrees(6));
}

#[test]
fn angle_clamp_large_positive() {
    let result = Angle::from_degrees(370).clamp_pos_neg_pi();
    assert_eq!(result, Angle::from_degrees(10));
}
