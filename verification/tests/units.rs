use deimos::units::{lerp, saturate, saturating_sum, ALPHA_ONE, UNITS_PER_PIXEL};

#[test]
fn unit_constants() {
    assert_eq!(UNITS_PER_PIXEL, 1000);
    assert_eq!(ALPHA_ONE, 65536);
}

#[test]
fn saturate_keeps_what_fits() {
    assert_eq!(saturate(0), 0);
    assert_eq!(saturate(-5), -5);
    assert_eq!(saturate(i32::MAX as i64), i32::MAX);
    assert_eq!(saturate(i32::MIN as i64), i32::MIN);
}

#[test]
fn saturate_cuts_what_does_not_fit() {
    assert_eq!(saturate(i32::MAX as i64 + 1), i32::MAX);
    assert_eq!(saturate(i32::MIN as i64 - 1), i32::MIN);
    assert_eq!(saturate(i64::MAX), i32::MAX);
    assert_eq!(saturate(i64::MIN), i32::MIN);
}

#[test]
fn saturating_sum_adds_and_cuts() {
    assert_eq!(saturating_sum(2, 3), 5);
    assert_eq!(saturating_sum(-2, -3), -5);
    assert_eq!(saturating_sum(i32::MAX, 1), i32::MAX);
    assert_eq!(saturating_sum(i32::MIN, -1), i32::MIN);
    assert_eq!(saturating_sum(i32::MAX, i32::MIN), -1);
}

#[test]
fn lerp_at_zero_is_previous() {
    assert_eq!(lerp(10, 90, 0), 10);
    assert_eq!(lerp(90, 10, 0), 90);
    assert_eq!(lerp(i32::MIN, i32::MAX, 0), i32::MIN);
    assert_eq!(lerp(i32::MAX, i32::MIN, 0), i32::MAX);
}

#[test]
fn lerp_at_one_is_current() {
    assert_eq!(lerp(10, 90, ALPHA_ONE), 90);
    assert_eq!(lerp(90, 10, ALPHA_ONE), 10);
    assert_eq!(lerp(i32::MIN, i32::MAX, ALPHA_ONE), i32::MAX);
    assert_eq!(lerp(i32::MAX, i32::MIN, ALPHA_ONE), i32::MIN);
}

#[test]
fn lerp_beyond_one_is_current() {
    assert_eq!(lerp(10, 90, ALPHA_ONE + 1), 90);
    assert_eq!(lerp(90, 10, u32::MAX), 10);
}

#[test]
fn lerp_in_between_is_in_proportion() {
    assert_eq!(lerp(0, 1000, ALPHA_ONE / 2), 500);
    assert_eq!(lerp(1000, 0, ALPHA_ONE / 4), 750);
    assert_eq!(lerp(-1000, 1000, ALPHA_ONE / 4), -500);
    assert_eq!(lerp(7, 7, 12345), 7);
}

#[test]
fn lerp_rounds_towards_previous() {
    assert_eq!(lerp(0, 3, ALPHA_ONE / 2), 1);
    assert_eq!(lerp(3, 0, ALPHA_ONE / 2), 2);
    assert_eq!(lerp(0, 1, ALPHA_ONE - 1), 0);
    assert_eq!(lerp(1, 0, ALPHA_ONE - 1), 1);
}
