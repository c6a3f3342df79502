use raytrace::fixed::Fixed;

#[test]
fn from_int_and_bits() {
    assert_eq!(Fixed::from_int(1), Fixed::one());
    assert_eq!(Fixed::from_int(0), Fixed::zero());
    assert_eq!(Fixed::from_int(-3).bits, -3 * 65536);
    assert_eq!(Fixed::from_bits(12345).bits, 12345);
}

#[test]
fn addition_and_subtraction() {
    let a = Fixed::from_bits(98304); // 1.5
    let b = Fixed::from_bits(147456); // 2.25
    assert_eq!(a.plus(b).bits, 245760); // 3.75
    assert_eq!(b.minus(a).bits, 49152); // 0.75
    assert_eq!(a.minus(b).bits, -49152);
    assert_eq!(a.neg().bits, -98304);
}

#[test]
fn multiplication_truncates_toward_zero() {
    let a = Fixed::from_bits(98304); // 1.5
    let b = Fixed::from_bits(147456); // 2.25
    assert_eq!(a.times(b).bits, 221184); // 3.375
    assert_eq!(a.neg().times(b).bits, -221184);
    assert_eq!(a.times(b.neg()).bits, -221184);
    assert_eq!(a.neg().times(b.neg()).bits, 221184);
}

#[test]
fn division_truncates_toward_zero() {
    assert_eq!(Fixed::from_int(7).divide(Fixed::from_int(2)).bits, 229376); // 3.5
    assert_eq!(Fixed::from_int(-7).divide(Fixed::from_int(2)).bits, -229376);
    assert_eq!(Fixed::from_int(7).divide(Fixed::from_int(-2)).bits, -229376);
    assert_eq!(Fixed::from_int(-7).divide(Fixed::from_int(-2)).bits, 229376);
    // 1/3 rounds down at the sixteenth fractional bit.
    assert_eq!(Fixed::one().divide(Fixed::from_int(3)).bits, 21845);
}

#[test]
fn saturation_at_the_range_bounds() {
    let max = Fixed::from_bits(i64::MAX);
    let min = Fixed::from_bits(i64::MIN);
    assert_eq!(max.plus(Fixed::one()).bits, i64::MAX);
    assert_eq!(min.minus(Fixed::one()).bits, i64::MIN);
    assert_eq!(min.neg().bits, i64::MAX);
    let big = Fixed::from_bits(1 << 62);
    assert_eq!(big.times(big).bits, i64::MAX);
    assert_eq!(big.neg().times(big).bits, i64::MIN);
}

#[test]
fn square_roots_round_down() {
    assert_eq!(Fixed::from_int(4).sqrt(), Fixed::from_int(2));
    assert_eq!(Fixed::from_int(2).sqrt().bits, 92681);
    assert_eq!(Fixed::zero().sqrt(), Fixed::zero());
    assert_eq!(Fixed::one().sqrt(), Fixed::one());
}

#[test]
fn integer_powers() {
    let x = Fixed::from_bits(98304); // 1.5
    assert_eq!(x.powi(0), Fixed::one());
    assert_eq!(x.powi(1), x);
    assert_eq!(x.powi(2).bits, 147456); // 2.25
    assert_eq!(x.powi(3).bits, 221184); // 3.375
    // A negative base keeps its sign under odd powers and loses it under
    // even ones.
    let y = x.neg();
    assert_eq!(y.powi(2).bits, 147456);
    assert_eq!(y.powi(3).bits, -221184);
}
