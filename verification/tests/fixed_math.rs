use memetics::math::{abs_i64, isqrt, mul_div, MilliVec2, MilliVec3};
use memetics::player::{cos_milli, forward_from_yaw, sin_milli, wrap_angle, TWO_PI_MILLI};

#[test]
fn isqrt_exact_squares_and_neighbours() {
    assert_eq!(isqrt(0), 0);
    assert_eq!(isqrt(1), 1);
    assert_eq!(isqrt(2), 1);
    assert_eq!(isqrt(3), 1);
    assert_eq!(isqrt(4), 2);
    assert_eq!(isqrt(15), 3);
    assert_eq!(isqrt(16), 4);
    assert_eq!(isqrt(999_999), 999);
    assert_eq!(isqrt(1_000_000), 1000);
    assert_eq!(isqrt(u64::MAX), 4_294_967_295);
}

#[test]
fn abs_i64_handles_both_signs() {
    assert_eq!(abs_i64(0), 0);
    assert_eq!(abs_i64(17), 17);
    assert_eq!(abs_i64(-17), 17);
    assert_eq!(abs_i64(i64::MIN + 1), (i64::MAX as u64));
}

#[test]
fn mul_div_truncates_toward_zero() {
    assert_eq!(mul_div(7, 1, 2), 3);
    assert_eq!(mul_div(-7, 1, 2), -3);
    assert_eq!(mul_div(999, 950, 1000), 949);
    assert_eq!(mul_div(-999, 950, 1000), -949);
    assert_eq!(mul_div(0, 12345, 7), 0);
}

#[test]
fn length_squared_sums_component_squares() {
    let v2 = MilliVec2 { x: -3000, y: 4000 };
    assert_eq!(v2.length_squared(), 25_000_000);
    let v3 = MilliVec3 { x: 1000, y: -2000, z: 2000 };
    assert_eq!(v3.length_squared(), 9_000_000);
}

#[test]
fn clamp_length_leaves_short_vectors_alone() {
    let v = MilliVec3 { x: 3000, y: 0, z: 4000 };
    let r = v.clamp_length_max(5000);
    assert_eq!((r.x, r.y, r.z), (3000, 0, 4000));
}

#[test]
fn clamp_length_shortens_to_the_limit() {
    let v = MilliVec3 { x: 3000, y: 0, z: 4000 };
    let r = v.clamp_length_max(2500);
    assert_eq!((r.x, r.y, r.z), (1500, 0, 2000));
    let m2 = r.x * r.x + r.y * r.y + r.z * r.z;
    assert!(m2 <= 2500 * 2500);
}

#[test]
fn clamp_length_zero_limit_gives_the_zero_vector() {
    let v = MilliVec3 { x: -70, y: 12, z: 9 };
    let r = v.clamp_length_max(0);
    assert_eq!((r.x, r.y, r.z), (0, 0, 0));
}

#[test]
fn wrap_angle_folds_into_one_turn() {
    assert_eq!(wrap_angle(0), 0);
    assert_eq!(wrap_angle(6283), 0);
    assert_eq!(wrap_angle(6284), 1);
    assert_eq!(wrap_angle(-1), 6282);
    assert_eq!(wrap_angle(-50_000), 264);
    assert_eq!(wrap_angle(12_566), 0);
}

#[test]
fn trig_matches_the_real_functions_closely() {
    for a in (0..TWO_PI_MILLI).step_by(37) {
        let c = cos_milli(a) as f64 / 1000.0;
        let s = sin_milli(a) as f64 / 1000.0;
        let x = a as f64 / 1000.0;
        assert!((c - x.cos()).abs() < 0.004, "cos off at {}", a);
        assert!((s - x.sin()).abs() < 0.004, "sin off at {}", a);
    }
}

#[test]
fn trig_anchor_values() {
    assert_eq!(cos_milli(0), 1000);
    assert_eq!(cos_milli(3142), -1000);
    assert_eq!(sin_milli(1571), 1000);
}

#[test]
fn forward_is_a_near_unit_vector_in_the_ground_plane() {
    for yaw in (0..TWO_PI_MILLI).step_by(97) {
        let f = forward_from_yaw(yaw);
        assert_eq!(f.y, 0);
        let m2 = f.x * f.x + f.z * f.z;
        assert!(m2 <= 1_004_000, "too long at {}", yaw);
        assert!(m2 >= 998_000, "too short at {}", yaw);
    }
    let ahead = forward_from_yaw(0);
    assert_eq!(ahead.z, -1000);
}
