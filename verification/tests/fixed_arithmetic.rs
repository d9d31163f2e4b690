use reactor_sim::fixed::Fixed;

#[test]
fn product_rounds_down() {
    let a = Fixed::from_micros(-1);
    let half = Fixed::from_micros(500_000);
    assert_eq!(a.times(half).micros(), -1);
    assert_eq!(Fixed::from_micros(1).times(half).micros(), 0);
    assert_eq!(Fixed::from_int(3).times(Fixed::from_int(-7)), Fixed::from_int(-21));
}

#[test]
fn quotient_rounds_down() {
    assert_eq!(Fixed::from_int(1).over(Fixed::from_int(3)).micros(), 333_333);
    assert_eq!(Fixed::from_int(-1).over(Fixed::from_int(3)).micros(), -333_334);
    assert_eq!(Fixed::from_int(1).over(Fixed::from_int(-3)).micros(), -333_334);
    assert_eq!(Fixed::from_int(-1).over(Fixed::from_int(-3)).micros(), 333_333);
}

#[test]
fn quotient_by_zero_saturates_by_sign() {
    let zero = Fixed::zero();
    assert_eq!(Fixed::from_int(2).over(zero).micros(), i64::MAX);
    assert_eq!(Fixed::from_int(-2).over(zero).micros(), i64::MIN);
    assert_eq!(zero.over(zero), zero);
}

#[test]
fn sums_saturate() {
    let top = Fixed::from_micros(i64::MAX);
    let bottom = Fixed::from_micros(i64::MIN);
    assert_eq!(top.plus(Fixed::one()), top);
    assert_eq!(bottom.minus(Fixed::one()), bottom);
    assert_eq!(top.times(top), top);
    assert_eq!(top.times(bottom), bottom);
    assert_eq!(bottom.times(bottom), top);
    assert_eq!(Fixed::from_micros(1).over(Fixed::from_micros(1)), Fixed::one());
    assert_eq!(top.over(Fixed::from_micros(1)), top);
    assert_eq!(bottom.over(Fixed::from_micros(-1)), top);
}

#[test]
fn whole_numbers_are_millions_of_micros() {
    assert_eq!(Fixed::from_int(0), Fixed::zero());
    assert_eq!(Fixed::from_int(1), Fixed::one());
    assert_eq!(Fixed::from_int(25).micros(), 25_000_000);
    assert_eq!(Fixed::from_int(i32::MAX).micros(), 2_147_483_647_000_000);
    assert_eq!(Fixed::from_int(i32::MIN).micros(), -2_147_483_648_000_000);
    assert_eq!(Fixed::from_micros(-7).micros(), -7);
}

#[test]
fn smaller_and_larger_follow_the_numbers() {
    let low = Fixed::from_micros(-3);
    let high = Fixed::from_micros(2);
    assert_eq!(low.min(high), low);
    assert_eq!(high.min(low), low);
    assert_eq!(low.max(high), high);
    assert_eq!(high.max(low), high);
    assert_eq!(high.max(high), high);
    assert!(low < high);
}

#[test]
fn exact_sums_differences_products_and_quotients() {
    let a = Fixed::from_micros(1_250_000);
    let b = Fixed::from_micros(-500_000);
    assert_eq!(a.plus(b).micros(), 750_000);
    assert_eq!(a.minus(b).micros(), 1_750_000);
    assert_eq!(a.times(b).micros(), -625_000);
    assert_eq!(a.over(b).micros(), -2_500_000);
    assert_eq!(b.over(a).micros(), -400_000);
    assert_eq!(a.times(Fixed::zero()), Fixed::zero());
    assert_eq!(a.times(Fixed::one()), a);
    assert_eq!(a.over(Fixed::one()), a);
}
