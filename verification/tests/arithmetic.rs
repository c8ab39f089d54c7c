use tank_movement::rotation::Rotation;
use tank_movement::units::{
    frame_time, integrate, quotient, remainder, turn, wrap_coordinate, DEGREE, QUARTER_TURN, TURN,
    UNIT,
};

#[test]
fn a_change_is_intent_times_rate_times_time() {
    assert_eq!(integrate(1, 180_000, 16_667), 3_000_060_000);
    assert_eq!(integrate(-1, 400, 25_000), -10_000_000);
    assert_eq!(integrate(0, 400, 25_000), 0);
    assert_eq!(integrate(1, 400, 0), 0);
    assert_eq!(integrate(1, 0, 25_000), 0);
}

#[test]
fn a_change_fits_at_the_largest_rate_and_time() {
    assert_eq!(integrate(1, u32::MAX, u32::MAX), 18_446_744_065_119_617_025);
    assert_eq!(integrate(-128, u32::MAX, u32::MAX), -2_361_183_240_335_310_979_200);
    assert_eq!(integrate(127, u32::MAX, u32::MAX), 127 * 18_446_744_065_119_617_025);
}

#[test]
fn doubling_the_time_doubles_the_change() {
    for dt in [0u32, 1, 8_000, 16_667, 1_000_000, 2_000_000_000] {
        for intent in [-1i8, 0, 1] {
            assert_eq!(integrate(intent, 180_000, 2 * dt), 2 * integrate(intent, 180_000, dt));
        }
    }
}

#[test]
fn changes_over_two_times_add_up() {
    assert_eq!(
        integrate(1, 90_000, 16_000 + 17_000),
        integrate(1, 90_000, 16_000) + integrate(1, 90_000, 17_000)
    );
}

#[test]
fn units_agree_with_each_other() {
    assert_eq!(UNIT, 1_000_000);
    assert_eq!(TURN, 360 * DEGREE);
    assert_eq!(4 * QUARTER_TURN, TURN);
}

#[test]
fn turning_stays_within_one_turn() {
    assert_eq!(turn(350 * DEGREE, 20 * DEGREE as i128), 10 * DEGREE);
    assert_eq!(turn(10 * DEGREE, -20 * (DEGREE as i128)), 350 * DEGREE);
    assert_eq!(turn(0, TURN as i128), 0);
    assert_eq!(turn(0, -(TURN as i128)), 0);
    assert_eq!(turn(0, -1), TURN - 1);
    assert_eq!(turn(TURN - 1, 1), 0);
    assert_eq!(turn(123, 0), 123);
    assert_eq!(turn(0, 7 * TURN as i128 + 5), 5);
    assert_eq!(turn(0, -7 * TURN as i128 - 5), TURN - 5);
}

#[test]
fn turning_brings_an_orientation_beyond_one_turn_back() {
    assert_eq!(turn(TURN + 5, 0), 5);
    assert_eq!(turn(u64::MAX, 0), u64::MAX % TURN);
    assert_eq!(turn(u64::MAX, 1), (u64::MAX % TURN + 1) % TURN);
}

#[test]
fn turning_in_two_goes_is_turning_through_the_sum() {
    let start = 350 * DEGREE;
    for (first, second) in [(20, 30), (-20, 30), (400, -800), (0, 0), (-1, 1)] {
        let (first, second) = (first * DEGREE as i128, second * DEGREE as i128);
        assert_eq!(turn(turn(start, first), second), turn(start, first + second));
    }
}

#[test]
fn turning_takes_the_extreme_deltas() {
    assert_eq!(turn(0, i128::MAX), 355_884_105_727);
    assert_eq!(turn(0, i128::MIN), 4_115_894_272);
}

#[test]
fn remainder_is_never_negative() {
    assert_eq!(remainder(7, 7), 0);
    assert_eq!(remainder(8, 7), 1);
    assert_eq!(remainder(-1, 7), 6);
    assert_eq!(remainder(-7, 7), 0);
    assert_eq!(remainder(-8, 7), 6);
    assert_eq!(remainder(0, 1), 0);
    assert_eq!(remainder(i128::MIN, u64::MAX), (i128::MIN).rem_euclid(u64::MAX as i128) as u64);
}

#[test]
fn quotient_rounds_toward_zero() {
    assert_eq!(quotient(0), 0);
    assert_eq!(quotient(999_999), 0);
    assert_eq!(quotient(-999_999), 0);
    assert_eq!(quotient(1_999_999), 1);
    assert_eq!(quotient(-1_999_999), -1);
    assert_eq!(quotient(-2_000_000), -2);
    assert_eq!(quotient(i128::MAX), i128::MAX / 1_000_000);
    assert_eq!(quotient(i128::MIN + 1), (i128::MIN + 1) / 1_000_000);
    assert_eq!(quotient(i128::MIN), i128::MIN / 1_000_000);
}

#[test]
fn wrapping_a_coordinate_past_the_edge() {
    assert_eq!(wrap_coordinate(415_000_000, 800_000_000), -385_000_000);
    assert_eq!(wrap_coordinate(-415_000_000, 800_000_000), 385_000_000);
    assert_eq!(wrap_coordinate(1_215_000_000, 800_000_000), -385_000_000);
}

#[test]
fn wrapping_keeps_what_is_inside() {
    assert_eq!(wrap_coordinate(0, 800_000_000), 0);
    assert_eq!(wrap_coordinate(399_999_999, 800_000_000), 399_999_999);
    assert_eq!(wrap_coordinate(-400_000_000, 800_000_000), -400_000_000);
}

#[test]
fn the_upper_edge_belongs_to_the_other_side() {
    assert_eq!(wrap_coordinate(400_000_000, 800_000_000), -400_000_000);
    assert_eq!(wrap_coordinate(-400_000_001, 800_000_000), 399_999_999);
}

#[test]
fn wrapping_into_a_domain_of_odd_size() {
    assert_eq!(wrap_coordinate(-1, 3), -1);
    assert_eq!(wrap_coordinate(0, 3), 0);
    assert_eq!(wrap_coordinate(1, 3), 1);
    assert_eq!(wrap_coordinate(2, 3), -1);
    assert_eq!(wrap_coordinate(-2, 3), 1);
    assert_eq!(wrap_coordinate(i64::MIN, 1), 0);
}

#[test]
fn wrapping_the_ends_of_the_coordinate_range() {
    assert_eq!(wrap_coordinate(i64::MAX, 800_000_000), 54_775_807);
    assert_eq!(wrap_coordinate(i64::MIN, 800_000_000), -54_775_808);
    assert_eq!(wrap_coordinate(i64::MAX, i64::MAX as u64), 0);
    assert_eq!(wrap_coordinate(i64::MIN, i64::MAX as u64), -1);
    assert_eq!(wrap_coordinate(i64::MAX, u64::MAX), i64::MAX);
    assert_eq!(wrap_coordinate(i64::MIN, u64::MAX), i64::MAX);
    assert_eq!(wrap_coordinate(i64::MIN + 1, u64::MAX), i64::MIN + 1);
}

#[test]
fn a_wrapped_coordinate_lies_in_the_domain() {
    let sizes = [1u64, 2, 3, 800_000_000, 1_056_000_000, i64::MAX as u64, u64::MAX - 1, u64::MAX];
    let positions = [i64::MIN, -1_000_000_007, -400_000_000, -1, 0, 1, 399_999_999, 400_000_000, i64::MAX];
    for size in sizes {
        for p in positions {
            let wrapped = wrap_coordinate(p, size) as i128;
            assert!(-(size as i128) <= 2 * wrapped && 2 * wrapped < size as i128);
            assert_eq!((wrapped - p as i128).rem_euclid(size as i128), 0);
        }
    }
}

#[test]
fn a_rotation_is_made_of_a_unit_vector_only() {
    assert!(Rotation::new(1_000_000, 0).is_some());
    assert!(Rotation::new(0, -1_000_000).is_some());
    assert!(Rotation::new(707_107, 707_107).is_some());
    assert!(Rotation::new(866_025, -500_000).is_some());
    assert!(Rotation::new(707_106, 707_106).is_some());
    assert!(Rotation::new(0, 0).is_none());
    assert!(Rotation::new(1_000_000, 1_000_000).is_none());
    assert!(Rotation::new(500_000, 500_000).is_none());
    assert!(Rotation::new(1_000_001, 0).is_none());
    assert!(Rotation::new(0, -1_000_001).is_none());
    assert!(Rotation::new(i32::MAX, i32::MIN).is_none());
}

#[test]
fn the_slack_of_a_unit_vector_is_exact() {
    // 1_000_000^2 - 3_000_000 <= cos^2 + sin^2 <= 1_000_000^2 + 3_000_000
    assert!(Rotation::new(999_999, 0).is_some());
    assert!(Rotation::new(999_998, 0).is_none());
    assert!(Rotation::new(1_000_000, 1_732).is_some());
    assert!(Rotation::new(1_000_000, 1_733).is_none());
}

#[test]
fn a_rotation_hands_back_its_parts() {
    let rotation = Rotation::new(866_025, -500_000).unwrap();
    assert_eq!(rotation.cos(), 866_025);
    assert_eq!(rotation.sin(), -500_000);
}

#[test]
fn forward_is_the_x_axis_turned() {
    assert_eq!(Rotation::new(1_000_000, 0).unwrap().forward(), (1_000_000, 0));
    assert_eq!(Rotation::new(0, 1_000_000).unwrap().forward(), (0, 1_000_000));
    assert_eq!(Rotation::new(-707_107, 707_107).unwrap().forward(), (-707_107, 707_107));
}

#[test]
fn a_frame_takes_no_longer_than_the_longest_frame() {
    assert_eq!(frame_time(0), 0);
    assert_eq!(frame_time(16_667), 16_667);
    assert_eq!(frame_time(u32::MAX as u128), u32::MAX);
    assert_eq!(frame_time(u32::MAX as u128 + 1), u32::MAX);
    assert_eq!(frame_time(u128::MAX), u32::MAX);
}
