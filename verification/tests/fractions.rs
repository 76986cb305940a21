use vision_ocr::fraction::Fraction;
use vision_ocr::fraction::MILLIONTHS_PER_ONE;

#[test]
fn one_is_a_million_millionths() {
    assert_eq!(MILLIONTHS_PER_ONE, 1_000_000);
}

#[test]
fn fractions_up_to_one_exist() {
    assert_eq!(Fraction::new(0).unwrap().millionths(), 0);
    assert_eq!(Fraction::new(1).unwrap().millionths(), 1);
    assert_eq!(Fraction::new(600_000).unwrap().millionths(), 600_000);
    assert_eq!(Fraction::new(1_000_000).unwrap().millionths(), 1_000_000);
}

#[test]
fn nothing_above_one_is_a_fraction() {
    assert_eq!(Fraction::new(1_000_001), None);
    assert_eq!(Fraction::new(u32::MAX), None);
}

#[test]
fn from_millionths_keeps_the_count() {
    assert_eq!(Fraction::from_millionths(0).millionths(), 0);
    assert_eq!(Fraction::from_millionths(8_000).millionths(), 8_000);
    assert_eq!(Fraction::from_millionths(1_000_000).millionths(), 1_000_000);
    assert_eq!(Some(Fraction::from_millionths(250_000)), Fraction::new(250_000));
}

#[test]
fn equal_counts_are_equal_fractions() {
    assert_eq!(Fraction::new(5), Fraction::new(5));
    assert_ne!(Fraction::new(5), Fraction::new(6));
}
