use remna_snow::fixed::Fixed;
use remna_snow::fixed::Sample;
use remna_snow::fixed::SCALE;

fn fx(raw: i64) -> Fixed {
    Fixed::from_micros(raw)
}

#[test]
fn whole_numbers_scale_by_a_million() {
    assert_eq!(SCALE, 1_000_000);
    assert_eq!(Fixed::from_int(3).raw, 3_000_000);
    assert_eq!(Fixed::from_int(-2).raw, -2_000_000);
    assert_eq!(Fixed::from_int(0).raw, 0);
    assert_eq!(Fixed::from_micros(-17).raw, -17);
}

#[test]
fn sum_and_difference_are_exact_in_range() {
    assert_eq!(fx(1_500_000).saturating_add(fx(2_250_000)).raw, 3_750_000);
    assert_eq!(fx(1_500_000).saturating_sub(fx(2_250_000)).raw, -750_000);
    assert_eq!(fx(-5).saturating_neg().raw, 5);
}

#[test]
fn sum_and_difference_stop_at_the_ends() {
    assert_eq!(fx(i64::MAX).saturating_add(fx(1)).raw, i64::MAX);
    assert_eq!(fx(i64::MIN).saturating_add(fx(-1)).raw, i64::MIN);
    assert_eq!(fx(i64::MIN).saturating_sub(fx(1)).raw, i64::MIN);
    assert_eq!(fx(i64::MAX).saturating_sub(fx(-1)).raw, i64::MAX);
    assert_eq!(fx(i64::MIN).saturating_neg().raw, i64::MAX);
    assert_eq!(fx(i64::MAX).saturating_neg().raw, -i64::MAX);
}

#[test]
fn product_is_exact_where_it_has_six_digits() {
    assert_eq!(fx(1_500_000).saturating_mul(fx(2_500_000)).raw, 3_750_000);
    assert_eq!(fx(-1_500_000).saturating_mul(fx(2_500_000)).raw, -3_750_000);
    assert_eq!(fx(-1_500_000).saturating_mul(fx(-2_500_000)).raw, 3_750_000);
    assert_eq!(fx(123_456).saturating_mul(fx(0)).raw, 0);
}

#[test]
fn product_rounds_towards_minus_infinity() {
    assert_eq!(fx(1).saturating_mul(fx(500_000)).raw, 0);
    assert_eq!(fx(-1).saturating_mul(fx(500_000)).raw, -1);
    assert_eq!(fx(3).saturating_mul(fx(500_000)).raw, 1);
    assert_eq!(fx(-3).saturating_mul(fx(500_000)).raw, -2);
}

#[test]
fn product_stops_at_the_ends() {
    assert_eq!(fx(i64::MAX).saturating_mul(fx(2_000_000)).raw, i64::MAX);
    assert_eq!(fx(i64::MAX).saturating_mul(fx(-2_000_000)).raw, i64::MIN);
    assert_eq!(fx(i64::MIN).saturating_mul(fx(i64::MIN)).raw, i64::MAX);
    assert_eq!(fx(i64::MIN).saturating_mul(fx(1_000_000)).raw, i64::MIN);
}

#[test]
fn quotient_rounds_towards_minus_infinity() {
    assert_eq!(fx(1_000_000).saturating_div(fx(3_000_000)).raw, 333_333);
    assert_eq!(fx(-1_000_000).saturating_div(fx(3_000_000)).raw, -333_334);
    assert_eq!(fx(1_000_000).saturating_div(fx(-3_000_000)).raw, -333_334);
    assert_eq!(fx(-1_000_000).saturating_div(fx(-3_000_000)).raw, 333_333);
    assert_eq!(fx(7_500_000).saturating_div(fx(2_500_000)).raw, 3_000_000);
    assert_eq!(fx(-7_500_000).saturating_div(fx(2_500_000)).raw, -3_000_000);
}

#[test]
fn quotient_by_zero_goes_to_the_end_of_the_range() {
    assert_eq!(fx(5).saturating_div(fx(0)).raw, i64::MAX);
    assert_eq!(fx(-5).saturating_div(fx(0)).raw, i64::MIN);
    assert_eq!(fx(0).saturating_div(fx(0)).raw, 0);
}

#[test]
fn quotient_stops_at_the_ends() {
    assert_eq!(fx(i64::MAX).saturating_div(fx(1)).raw, i64::MAX);
    assert_eq!(fx(i64::MIN).saturating_div(fx(1)).raw, i64::MIN);
    assert_eq!(fx(i64::MIN).saturating_div(fx(-1)).raw, i64::MAX);
    assert_eq!(fx(i64::MAX).saturating_div(fx(i64::MAX)).raw, 1_000_000);
    assert_eq!(fx(i64::MIN).saturating_div(fx(i64::MIN)).raw, 1_000_000);
}

#[test]
fn sample_is_a_number_below_one() {
    assert!(Sample::new(0).is_some());
    assert!(Sample::new(999_999).is_some());
    assert!(Sample::new(1_000_000).is_none());
    assert!(Sample::new(u32::MAX).is_none());
    assert_eq!(Sample::new(995_000).unwrap().micros(), 995_000);
}

#[test]
fn sample_exceeds_only_what_is_below_it() {
    let s = Sample::new(990_000).unwrap();
    assert!(!s.exceeds(990_000));
    assert!(s.exceeds(989_999));
    assert!(!s.exceeds(990_001));
}

#[test]
fn part_of_a_number_lies_between_zero_and_the_number() {
    let half = Sample::new(500_000).unwrap();
    assert_eq!(fx(4_500_000).scaled_by(half).raw, 2_250_000);
    assert_eq!(fx(-4_500_000).scaled_by(half).raw, -2_250_000);
    assert_eq!(fx(3).scaled_by(half).raw, 1);
    assert_eq!(fx(-3).scaled_by(half).raw, -2);
    let most = Sample::new(999_999).unwrap();
    assert_eq!(fx(i64::MAX).scaled_by(most).raw, 9_223_362_813_482_738_952);
    assert_eq!(fx(i64::MIN).scaled_by(most).raw, -9_223_362_813_482_738_954);
    let none = Sample::new(0).unwrap();
    assert_eq!(fx(i64::MAX).scaled_by(none).raw, 0);
}

#[test]
fn ratio_of_whole_numbers_rounds_down() {
    assert_eq!(Fixed::ratio(1920, 1080).raw, 1_777_777);
    assert_eq!(Fixed::ratio(2, 1).raw, 2_000_000);
    assert_eq!(Fixed::ratio(0, 7).raw, 0);
    assert_eq!(Fixed::ratio(u32::MAX, 1).raw, 4_294_967_295_000_000);
    assert_eq!(Fixed::ratio(1, u32::MAX).raw, 0);
}

#[test]
fn whole_part_is_held_within_u32() {
    assert_eq!(fx(3_700_000).to_u32(), 3);
    assert_eq!(fx(-3_700_000).to_u32(), 0);
    assert_eq!(fx(-1).to_u32(), 0);
    assert_eq!(fx(999_999).to_u32(), 0);
    assert_eq!(fx(4_294_967_295_000_000).to_u32(), u32::MAX);
    assert_eq!(fx(4_294_967_295_999_999).to_u32(), u32::MAX);
    assert_eq!(fx(5_000_000_000_000_000).to_u32(), u32::MAX);
    assert_eq!(fx(i64::MAX).to_u32(), u32::MAX);
}
