use timg::{get_scale, Position, Scale, ONE_RAW};

#[test]
fn test() {
    let mut a = Position::new(3, 8);
    assert_eq!(a + Position::new(4, 1), Position::new(7, 9));
    a += Position::new(4, 1);
    assert_eq!(a, Position::new(7, 9));
}

#[test]
fn get_scale_test() {
    let term_size = Position::new(80, 60);
    let img_size = Position::new(240, 740);
    let scale = get_scale(term_size, img_size).unwrap();
    assert!(term_size.mul_scale(scale).x >= img_size.x);
    assert_eq!(term_size.mul_scale(scale).y, img_size.y);

    let term_size = Position::new(80, 60);
    let img_size = Position::new(240, 40);
    let scale = get_scale(term_size, img_size).unwrap();
    assert!(term_size.mul_scale(scale).y >= img_size.y);
    assert_eq!(term_size.mul_scale(scale).x, img_size.x);
}

#[test]
fn get_scale_as_float() {
    let scale = get_scale(Position::new(80, 60), Position::new(240, 740)).unwrap();
    let ratio = scale.raw as f64 / ONE_RAW as f64;
    assert!(80.0 * ratio >= 240.0);
    assert!((60.0 * ratio - 740.0).abs() < 1e-6);
    assert!(60.0 * ratio >= 740.0);
    // ceil(740 * 2^32 / 60)
    assert_eq!(scale.raw, 52_971_263_318);
}

#[test]
fn get_scale_without_extent() {
    assert_eq!(get_scale(Position::new(0, 60), Position::new(240, 740)), None);
    assert_eq!(get_scale(Position::new(80, 0), Position::new(240, 740)), None);
    assert_eq!(get_scale(Position::new(80, 60), Position::new(0, 0)), None);
    assert!(get_scale(Position::new(80, 60), Position::new(0, 1)).is_some());
}

#[test]
fn mul_scale_examples() {
    let a = Position::new(2, 3);
    let b = Position::new(6, 9);
    let three = Scale::from_raw(3 * ONE_RAW).unwrap();
    assert_eq!(a.mul_scale(three), b);
    assert_eq!(a.mul_scale(three), b);
    // fractions are dropped
    let half = Scale::from_ratio(1, 2).unwrap();
    assert_eq!(Position::new(5, 9).mul_scale(half), Position::new(2, 4));
    // products that do not fit stay at the largest value
    let big = Scale::from_raw(u64::MAX).unwrap();
    assert_eq!(Position::new(2, 0).mul_scale(big), Position::new(u32::MAX, 0));
}

#[test]
fn position_conversions() {
    assert_eq!(Position::from([2, 3]), Position::new(2, 3));
    assert_eq!(Position::from((2, 3)), Position::new(2, 3));
    assert_eq!(Position::from(7), Position::new(7, 7));
    assert_eq!(Position::default(), Position::new(0, 0));
    assert_eq!(Position::new(4, 5).into_array(), [4, 5]);
}

#[test]
fn position_operators() {
    let a = Position::new(12, 5);
    let b = Position::new(5, 12);
    assert_eq!(a - b, Position::new(7, 0));
    assert_eq!(Position::new(u32::MAX, 1) + Position::new(1, 1), Position::new(u32::MAX, 2));
    assert_eq!(a * b, Position::new(60, 60));
    assert_eq!(Position::new(65536, 3) * Position::new(65536, 3), Position::new(u32::MAX, 9));
    assert_eq!(a / b, Position::new(2, 0));
    assert_eq!(a % b, Position::new(2, 5));
    assert_eq!(a >> Position::from(1), Position::new(6, 2));
    assert_eq!(a << Position::from(1), Position::new(24, 10));
    assert_eq!(Position::new(0x8000_0001, 1) << Position::from(1), Position::new(2, 2));
    assert_eq!(a & b, Position::new(4, 4));
    assert_eq!(a | b, Position::new(13, 13));
    assert_eq!(a ^ b, Position::new(9, 9));
    let mut c = a;
    c -= b;
    assert_eq!(c, Position::new(7, 0));
    c *= Position::new(3, 3);
    assert_eq!(c, Position::new(21, 0));
    c /= Position::new(2, 2);
    assert_eq!(c, Position::new(10, 0));
    c %= Position::new(4, 4);
    assert_eq!(c, Position::new(2, 0));
    c <<= Position::new(2, 2);
    assert_eq!(c, Position::new(8, 0));
    c >>= Position::new(1, 1);
    assert_eq!(c, Position::new(4, 0));
    c |= Position::new(1, 1);
    assert_eq!(c, Position::new(5, 1));
    c &= Position::new(4, 1);
    assert_eq!(c, Position::new(4, 1));
    c ^= Position::new(4, 0);
    assert_eq!(c, Position::new(0, 1));
}

#[test]
fn scale_arithmetic() {
    let unit = Scale::unit();
    assert_eq!(unit.raw, ONE_RAW);
    assert_eq!(Scale::from_raw(0), None);
    assert_eq!(Scale::from_ratio(0, 3), None);
    assert_eq!(Scale::from_ratio(3, 0), None);
    let third = Scale::from_ratio(1, 3).unwrap();
    assert_eq!(third.raw, 1_431_655_766);
    assert_eq!(third.mul_floor(3), 1);
    assert_eq!(third.mul_ceil(3), 2);
    assert_eq!(third.mul_floor(2), 0);
    assert_eq!(third.mul_ceil(2), 1);
    assert_eq!(third.ceil(), 1);
    assert_eq!(Scale::from_raw(ONE_RAW * 2 + 1).unwrap().ceil(), 3);
    let half = Scale::from_ratio(1, 2).unwrap();
    assert_eq!(unit.scaled_by(half), half);
    assert_eq!(half.divided_by(half), unit);
    assert_eq!(Scale::from_raw(1).unwrap().scaled_by(half).raw, 1);
    assert_eq!(Scale::from_raw(u64::MAX).unwrap().divided_by(half).raw, u64::MAX);
    assert!(unit.exceeds(half));
    assert!(!half.exceeds(unit));
    assert!(!half.exceeds(half));
}
