use particles::fixed::isqrt;
use particles::fixed::Fixed;
use particles::fixed::SCALE;
use particles::number::Numeric;
use particles::number::Root;
use particles::utility::clamp;
use particles::utility::saturate;

fn fx(raw: i64) -> Fixed {
    Fixed::from_raw(raw)
}

#[test]
fn whole_numbers_and_ratios() {
    assert_eq!(SCALE, 1_200_000);
    assert_eq!(Fixed::from_int(3).raw, 3_600_000);
    assert_eq!(Fixed::from_int(-7).raw, -8_400_000);
    assert_eq!(Fixed::from_int(i32::MAX).raw, 2_147_483_647 * SCALE);
    assert_eq!(Fixed::from_int(i32::MIN).raw, -2_147_483_648 * SCALE);
    assert_eq!(Fixed::from_ratio(1, 120).raw, 10_000);
    assert_eq!(Fixed::from_ratio(98, 10).raw, 11_760_000);
    assert_eq!(Fixed::from_ratio(1, 1000).raw, 1_200);
    assert_eq!(Fixed::from_ratio(1, 7).raw, 171_428);
    assert_eq!(Fixed::from_ratio(-1, 7).raw, -171_428);
    assert_eq!(Fixed::from_ratio(1, -7).raw, -171_428);
    assert_eq!(Fixed::from_ratio(-2, -7).raw, 342_857);
    assert_eq!(Fixed::from_ratio(i64::MAX, 1).raw, i64::MAX);
    assert_eq!(Fixed::from_ratio(i64::MIN, 1).raw, i64::MIN);
    assert_eq!(Fixed::from_ratio(i64::MIN, -1).raw, i64::MAX);
}

#[test]
fn addition_and_subtraction_saturate() {
    assert_eq!((fx(1_500_000) + fx(2_250_000)).raw, 3_750_000);
    assert_eq!((fx(1_500_000) - fx(2_250_000)).raw, -750_000);
    assert_eq!((fx(i64::MAX) + fx(1)).raw, i64::MAX);
    assert_eq!((fx(i64::MIN) + fx(-1)).raw, i64::MIN);
    assert_eq!((fx(i64::MIN) - fx(1)).raw, i64::MIN);
    assert_eq!((fx(i64::MAX) - fx(-1)).raw, i64::MAX);
    assert_eq!((-fx(5)).raw, -5);
    assert_eq!((-fx(i64::MIN)).raw, i64::MAX);
}

#[test]
fn multiplication_rounds_toward_zero() {
    assert_eq!((Fixed::from_ratio(3, 2) * Fixed::from_int(2)).raw, 3 * SCALE);
    assert_eq!((fx(171_428) * Fixed::from_int(7)).raw, 1_199_996);
    assert_eq!((fx(-171_428) * Fixed::from_int(7)).raw, -1_199_996);
    assert_eq!((fx(1) * fx(SCALE - 1)).raw, 0);
    assert_eq!((fx(-1) * fx(SCALE - 1)).raw, 0);
    assert_eq!((fx(7) * fx(SCALE)).raw, 7);
    assert_eq!((fx(-11_760_000) * fx(10_000)).raw, -98_000);
    assert_eq!((fx(11_760_000) * fx(10_000)).raw, 98_000);
    assert_eq!((fx(i64::MAX) * Fixed::from_int(2)).raw, i64::MAX);
    assert_eq!((fx(i64::MAX) * Fixed::from_int(-2)).raw, i64::MIN);
    assert_eq!((fx(i64::MIN) * fx(i64::MIN)).raw, i64::MAX);
}

#[test]
fn division_rounds_toward_zero() {
    assert_eq!((Fixed::from_int(1) / Fixed::from_int(7)).raw, 171_428);
    assert_eq!((Fixed::from_int(-1) / Fixed::from_int(7)).raw, -171_428);
    assert_eq!((Fixed::from_int(1) / Fixed::from_int(-7)).raw, -171_428);
    assert_eq!((Fixed::from_int(-1) / Fixed::from_int(-7)).raw, 171_428);
    assert_eq!((fx(-11_760_000) / fx(19_200)).raw, -735_000_000);
    assert_eq!((fx(7) / fx(SCALE)).raw, 7);
    assert_eq!((fx(i64::MAX) / fx(1)).raw, i64::MAX);
    assert_eq!((fx(i64::MIN) / fx(1)).raw, i64::MIN);
    assert_eq!((fx(i64::MIN) / Fixed::from_int(-1)).raw, i64::MAX);
}

#[test]
fn square_roots() {
    assert_eq!(isqrt(0), 0);
    assert_eq!(isqrt(1), 1);
    assert_eq!(isqrt(24), 4);
    assert_eq!(isqrt(25), 5);
    assert_eq!(isqrt(26), 5);
    assert_eq!(isqrt(u128::MAX), u64::MAX);
    assert_eq!(Fixed::from_int(4).sqrt().raw, 2 * SCALE);
    assert_eq!(Fixed::from_int(2).sqrt().raw, 1_697_056);
    assert_eq!(fx(0).sqrt().raw, 0);
    assert_eq!(Fixed::from_ratio(1, 4).sqrt().raw, SCALE / 2);
    assert_eq!(fx(i64::MAX).sqrt().raw, 3_326_867_361_982);
    assert_eq!(Fixed::from_int(9).root().raw, 3 * SCALE);
}

#[test]
fn lengths() {
    assert_eq!(Fixed::hypot(fx(3_000_000), fx(-4_000_000)).raw, 5_000_000);
    assert_eq!(Fixed::hypot(fx(0), fx(-98_000)).raw, 98_000);
    assert_eq!(Fixed::hypot(fx(1), fx(1)).raw, 1);
    assert_eq!(Fixed::hypot(fx(2), fx(2)).raw, 2);
    assert_eq!(Fixed::hypot(fx(0), fx(0)).raw, 0);
    assert_eq!(Fixed::hypot(fx(i64::MAX), fx(0)).raw, i64::MAX);
    assert_eq!(Fixed::hypot(fx(i64::MIN), fx(0)).raw, i64::MAX);
    assert_eq!(Fixed::hypot(fx(i64::MIN), fx(i64::MIN)).raw, i64::MAX);
    assert_eq!(Fixed::hypot(fx(1 << 62), fx(1 << 62)).raw, 6_521_908_912_666_391_106);
}

#[test]
fn blends() {
    let quarter = Fixed::from_ratio(1, 4);
    assert_eq!(Fixed::lerp(fx(0), Fixed::from_int(10), quarter), Fixed::from_ratio(5, 2));
    assert_eq!(Fixed::lerp(Fixed::from_int(10), fx(0), quarter), Fixed::from_ratio(15, 2));
    assert_eq!(Fixed::lerp(fx(3), fx(4), fx(0)).raw, 3);
    assert_eq!(Fixed::lerp(fx(3), fx(4), fx(SCALE)).raw, 4);
    assert_eq!(Fixed::lerp(fx(3), fx(4), fx(SCALE - 1)).raw, 3);
    assert_eq!(Fixed::lerp(fx(-3), fx(-4), fx(SCALE - 1)).raw, -3);
    assert_eq!(Fixed::lerp(fx(12_345), fx(12_345), fx(333_333)).raw, 12_345);
    assert_eq!(Fixed::lerp(fx(i64::MIN), fx(i64::MIN), fx(1)).raw, i64::MIN);
    assert_eq!(Fixed::lerp(fx(i64::MAX), fx(i64::MIN), fx(SCALE / 2)).raw, 0);
}

#[test]
fn zero_and_one() {
    assert_eq!(Fixed::zero().raw, 0);
    assert_eq!(Fixed::one().raw, SCALE);
    assert!(Fixed::zero().is_zero());
    assert!(!Fixed::one().is_zero());
    assert!(Fixed::one().is_one());
    assert!(!fx(1).is_one());
    assert_eq!(i32::zero(), 0);
    assert_eq!(u8::one(), 1);
    assert!(0i64.is_zero());
    assert!(1u16.is_one());
}

#[test]
fn clamping() {
    assert_eq!(saturate(fx(-5)).raw, 0);
    assert_eq!(saturate(fx(500_000)).raw, 500_000);
    assert_eq!(saturate(fx(SCALE)).raw, SCALE);
    assert_eq!(saturate(fx(SCALE + 1)).raw, SCALE);
    assert_eq!(clamp(fx(1), fx(5), fx(9)).raw, 5);
    assert_eq!(clamp(fx(1), fx(0), fx(9)).raw, 1);
    assert_eq!(clamp(fx(1), fx(10), fx(9)).raw, 9);
    assert_eq!(clamp(fx(9), fx(5), fx(1)).raw, 1);
}
