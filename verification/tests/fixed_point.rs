use art_scenes::fixed::{clamped, div_scale, lerp, phase, pick_sine, scaled_mul, SCALE, TAU};

#[test]
fn one_is_a_million() {
    assert_eq!(SCALE, 1_000_000);
    assert_eq!(TAU, 6_283_185);
}

#[test]
fn phase_of_a_quarter_offset_after_a_quarter_cycle_is_a_half() {
    assert_eq!(phase(1_000_000, 4_000_000, 250_000), 500_000);
}

#[test]
fn phase_at_the_start_is_the_offset() {
    assert_eq!(phase(0, 4_000_000, 0), 0);
    assert_eq!(phase(0, 4_000_000, 250_000), 250_000);
    assert_eq!(phase(0, 4_000_000, 999_999), 999_999);
}

#[test]
fn phase_wraps_back_below_one() {
    assert_eq!(phase(3_000_000, 4_000_000, 500_000), 250_000);
    assert_eq!(phase(3_999_999, 4_000_000, 999_999), 999_998);
}

#[test]
fn phase_rounds_the_share_of_the_cycle_down() {
    assert_eq!(phase(1, 3, 0), 333_333);
    assert_eq!(phase(2, 3, 0), 666_666);
}

#[test]
fn phase_stays_in_the_unit_interval() {
    let times: [u64; 6] = [0, 1, 3_999_999, 4_000_000, 123_456_789_012, u64::MAX];
    let offsets: [u32; 4] = [0, 1, 500_000, 999_999];
    for &seconds in times.iter() {
        for &offset in offsets.iter() {
            assert!(phase(seconds, 4_000_000, offset) < SCALE);
        }
    }
}

#[test]
fn phase_is_the_same_after_whole_cycles() {
    let cycle: i32 = 4_000_000;
    for &seconds in [0u64, 1, 999_999, 2_500_000, 3_999_999, 77_777_777].iter() {
        let first = phase(seconds, cycle, 250_000);
        assert_eq!(phase(seconds + 4_000_000, cycle, 250_000), first);
        assert_eq!(phase(seconds + 3 * 4_000_000, cycle, 250_000), first);
    }
}

#[test]
fn phase_without_a_cycle_is_the_offset() {
    assert_eq!(phase(123_456, 0, 250_000), 250_000);
    assert_eq!(phase(123_456, -4_000_000, 250_000), 250_000);
}

#[test]
fn phase_takes_any_offset() {
    assert_eq!(phase(0, 4_000_000, 1_250_000), 250_000);
    assert_eq!(phase(0, 4_000_000, u32::MAX), 967_295);
}

#[test]
fn lerp_starts_at_the_first_bound_and_ends_at_the_second() {
    assert_eq!(lerp(400_000, 500_000, 0), 400_000);
    assert_eq!(lerp(400_000, 500_000, 1_000_000), 500_000);
}

#[test]
fn lerp_at_a_half_is_midway() {
    assert_eq!(lerp(400_000, 500_000, 500_000), 450_000);
    assert_eq!(lerp(-12_000_000, 12_000_000, 500_000), 0);
    assert_eq!(lerp(-7_000_000, 7_000_000, 250_000), -3_500_000);
}

#[test]
fn lerp_rounds_down() {
    assert_eq!(lerp(0, 1, 999_999), 0);
    assert_eq!(lerp(-1, 0, 999_999), -1);
    assert_eq!(lerp(0, 3, 500_000), 1);
}

#[test]
fn lerp_of_a_reversed_pair_is_the_first_bound() {
    assert_eq!(lerp(500_000, 400_000, 0), 500_000);
    assert_eq!(lerp(500_000, 400_000, 700_000), 500_000);
    assert_eq!(lerp(500_000, 400_000, 1_000_000), 500_000);
}

#[test]
fn lerp_holds_the_fraction_to_one() {
    assert_eq!(lerp(0, 10, 2_000_000), 10);
    assert_eq!(lerp(0, 10, u32::MAX), 10);
}

#[test]
fn lerp_spans_the_whole_range_of_numbers() {
    assert_eq!(lerp(i64::MIN, i64::MAX, 0), i64::MIN);
    assert_eq!(lerp(i64::MIN, i64::MAX, 1_000_000), i64::MAX);
}

#[test]
fn division_by_one_rounds_down_on_both_sides_of_zero() {
    assert_eq!(div_scale(1_999_999), 1);
    assert_eq!(div_scale(0), 0);
    assert_eq!(div_scale(-1), -1);
    assert_eq!(div_scale(-1_000_000), -1);
    assert_eq!(div_scale(-1_000_001), -2);
}

#[test]
fn product_of_fixed_point_values() {
    assert_eq!(scaled_mul(1_500_000, 2_000_000), 3_000_000);
    assert_eq!(scaled_mul(500_000, 500_000), 250_000);
    assert_eq!(scaled_mul(-1_500_000, 2_000_000), -3_000_000);
    assert_eq!(scaled_mul(-1, 1), -1);
    assert_eq!(scaled_mul(1, 1), 0);
}

#[test]
fn product_of_the_largest_values_is_not_cut_short() {
    assert_eq!(
        scaled_mul(i64::MIN, i64::MIN),
        (i64::MIN as i128) * (i64::MIN as i128) / 1_000_000
    );
}

#[test]
fn clamped_holds_a_value_within_its_range() {
    assert_eq!(clamped(5, 10, 20), 10);
    assert_eq!(clamped(15, 10, 20), 15);
    assert_eq!(clamped(25, 10, 20), 20);
    assert_eq!(clamped(10, 10, 10), 10);
}

#[test]
fn sines_are_held_to_one_and_missing_sines_are_zero() {
    let sines = vec![2_000_000, -3_000_000, 5];
    assert_eq!(pick_sine(&sines, 0), 1_000_000);
    assert_eq!(pick_sine(&sines, 1), -1_000_000);
    assert_eq!(pick_sine(&sines, 2), 5);
    assert_eq!(pick_sine(&sines, 3), 0);
    assert_eq!(pick_sine(&Vec::new(), 0), 0);
}
