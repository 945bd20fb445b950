use satview::angle::{
    correct_azimuth_quadrant, degrees_to_radians, floor_mod, neg_pos_pi, radians_to_degrees,
    to_local_sidereal_time, wrap_two_pi, PI_NANORAD, TAU_NANORAD, TURN_MICRODEG,
};

fn congruent_mod_tau(a: i64, b: i64) -> bool {
    let tau = TAU_NANORAD as i128;
    (a as i128 - b as i128).rem_euclid(tau) == 0
}

#[test]
fn floor_mod_matches_mathematical_modulo() {
    assert_eq!(floor_mod(7, 3), 1);
    assert_eq!(floor_mod(-7, 3), 2);
    assert_eq!(floor_mod(-9, 3), 0);
    assert_eq!(floor_mod(0, 5), 0);
    assert_eq!(floor_mod(i64::MIN, 2), 0);
    assert_eq!(floor_mod(i64::MIN + 1, 2), 1);
}

#[test]
fn wrap_two_pi_lands_in_range_and_keeps_congruence() {
    let inputs: [i64; 9] = [
        0,
        -1,
        1,
        TAU_NANORAD + 5,
        -TAU_NANORAD - 5,
        i64::MAX,
        i64::MIN,
        PI_NANORAD,
        -PI_NANORAD,
    ];
    for &x in inputs.iter() {
        let r = wrap_two_pi(x);
        assert!(0 <= r && r < TAU_NANORAD);
        assert!(congruent_mod_tau(r, x));
    }
}

#[test]
fn wrap_two_pi_exact_values() {
    assert_eq!(wrap_two_pi(-1), 6_283_185_305);
    assert_eq!(wrap_two_pi(TAU_NANORAD + 5), 5);
    assert_eq!(wrap_two_pi(-TAU_NANORAD - 5), 6_283_185_301);
    assert_eq!(wrap_two_pi(0), 0);
    assert_eq!(wrap_two_pi(TAU_NANORAD), 0);
}

#[test]
fn neg_pos_pi_lands_in_signed_range_and_keeps_congruence() {
    let inputs: [i64; 8] = [
        0,
        -1,
        1,
        TAU_NANORAD + 100,
        -TAU_NANORAD - 100,
        PI_NANORAD,
        -PI_NANORAD - 1,
        i64::MAX - PI_NANORAD,
    ];
    for &x in inputs.iter() {
        let r = neg_pos_pi(x);
        assert!(-PI_NANORAD <= r && r < PI_NANORAD);
        assert!(congruent_mod_tau(r, x));
    }
}

#[test]
fn neg_pos_pi_exact_values() {
    assert_eq!(neg_pos_pi(TAU_NANORAD + 100), 100);
    assert_eq!(neg_pos_pi(-PI_NANORAD - 1), PI_NANORAD - 1);
    // A half turn is the one congruence class that lands on the lower
    // bound of the signed range.
    assert_eq!(neg_pos_pi(PI_NANORAD), -PI_NANORAD);
    assert_eq!(neg_pos_pi(0), 0);
}

#[test]
fn local_sidereal_time_adds_longitude_and_wraps() {
    assert_eq!(to_local_sidereal_time(-10, 4), TAU_NANORAD - 6);
    assert_eq!(to_local_sidereal_time(10, 4), 14);
    assert_eq!(to_local_sidereal_time(0, TAU_NANORAD), 0);
    let r = to_local_sidereal_time(PI_NANORAD, PI_NANORAD + 3);
    assert_eq!(r, 3);
}

#[test]
fn degree_radian_conversions_exact_values() {
    assert_eq!(degrees_to_radians(180_000_000), PI_NANORAD);
    assert_eq!(degrees_to_radians(-90_000_000), -1_570_796_327);
    assert_eq!(degrees_to_radians(TURN_MICRODEG), TAU_NANORAD);
    assert_eq!(radians_to_degrees(TAU_NANORAD), TURN_MICRODEG);
    assert_eq!(radians_to_degrees(PI_NANORAD), 180_000_000);
    assert_eq!(radians_to_degrees(1), 0);
    assert_eq!(radians_to_degrees(-1), -1);
}

#[test]
fn degree_radian_round_trip_is_stable() {
    // Observer latitude of the Phoenix gateway site, in micro-degrees.
    let phoenix_lat: i64 = 33_448_400;
    let rad = degrees_to_radians(phoenix_lat);
    assert_eq!(rad, 583_784_709);
    let back = radians_to_degrees(rad);
    assert!(phoenix_lat - 1 <= back && back <= phoenix_lat);
    let phoenix_lon: i64 = -112_074_000;
    let rad = degrees_to_radians(phoenix_lon);
    assert_eq!(rad, -1_956_060_306);
    let back = radians_to_degrees(rad);
    assert!(phoenix_lon - 1 <= back && back <= phoenix_lon);
}

#[test]
fn azimuth_quadrant_correction_covers_all_quadrants() {
    // Southward-positive range vector: shift by half a turn.
    assert_eq!(correct_azimuth_quadrant(100, true), 100 + PI_NANORAD);
    assert_eq!(correct_azimuth_quadrant(-100, true), PI_NANORAD - 100);
    // Otherwise a negative arctangent wraps up by a full turn.
    assert_eq!(correct_azimuth_quadrant(-100, false), TAU_NANORAD - 100);
    // And a non-negative one is already in range.
    assert_eq!(correct_azimuth_quadrant(100, false), 100);
    let probes: [i64; 5] = [-PI_NANORAD + 1, -1, 0, 1, PI_NANORAD - 1];
    for &a in probes.iter() {
        for &s in [true, false].iter() {
            let r = correct_azimuth_quadrant(a, s);
            assert!(0 <= r && r < TAU_NANORAD);
        }
    }
}
