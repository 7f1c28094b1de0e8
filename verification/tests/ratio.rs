use rusty_yunet::ratio::Ratio;

#[test]
fn ratio_new_keeps_both_numbers() {
    let ratio = Ratio::new(-7, 640);
    assert_eq!(ratio.numerator, -7);
    assert_eq!(ratio.denominator, 640);
}

#[test]
fn ratio_equality_is_by_fields() {
    assert_eq!(Ratio::new(1, 2), Ratio::new(1, 2));
    assert_ne!(Ratio::new(1, 2), Ratio::new(2, 4));
    assert!(Ratio::new(1, 2).same_value(&Ratio::new(2, 4)));
    assert!(!Ratio::new(1, 2).same_value(&Ratio::new(2, 5)));
}

#[test]
fn ratio_order_is_by_value() {
    assert!(Ratio::new(1, 3).le(&Ratio::new(1, 2)));
    assert!(!Ratio::new(1, 2).le(&Ratio::new(1, 3)));
    assert!(Ratio::new(1, 2).le(&Ratio::new(2, 4)));
    assert!(Ratio::new(2, 4).le(&Ratio::new(1, 2)));
    assert!(Ratio::new(-1, 2).le(&Ratio::new(-1, 3)));
    assert!(!Ratio::new(-1, 3).le(&Ratio::new(-1, 2)));
    assert!(Ratio::new(-1, 1000).le(&Ratio::new(0, 1)));
}

#[test]
fn ratio_order_at_the_ends_of_the_range() {
    let largest = Ratio::new(i32::MAX, 1);
    let smallest = Ratio::new(i32::MIN, 1);
    let tiny = Ratio::new(1, u16::MAX);
    assert!(smallest.le(&largest));
    assert!(!largest.le(&smallest));
    assert!(tiny.le(&largest));
    assert!(smallest.le(&tiny));
    assert!(Ratio::new(i32::MAX, u16::MAX).le(&Ratio::new(i32::MAX, u16::MAX - 1)));
    assert!(Ratio::new(i32::MIN, u16::MAX - 1).le(&Ratio::new(i32::MIN, u16::MAX)));
}

#[test]
fn ratio_scaled_to_rounds_down() {
    assert_eq!(Ratio::new(1, 2).scaled_to(100), Some(50));
    assert_eq!(Ratio::new(1, 3).scaled_to(100), Some(33));
    assert_eq!(Ratio::new(2, 3).scaled_to(100), Some(66));
    assert_eq!(Ratio::new(0, 3).scaled_to(100), Some(0));
    assert_eq!(Ratio::new(5, 3).scaled_to(0), Some(0));
    assert_eq!(Ratio::new(640, 640).scaled_to(1280), Some(1280));
}

#[test]
fn ratio_scaled_to_rounds_negative_values_down_too() {
    assert_eq!(Ratio::new(-1, 2).scaled_to(100), Some(-50));
    assert_eq!(Ratio::new(-1, 3).scaled_to(100), Some(-34));
    assert_eq!(Ratio::new(-2, 3).scaled_to(100), Some(-67));
    assert_eq!(Ratio::new(-1, 3).scaled_to(1), Some(-1));
    assert_eq!(Ratio::new(-3, 3).scaled_to(1), Some(-1));
    assert_eq!(Ratio::new(-4, 3).scaled_to(1), Some(-2));
}

#[test]
fn ratio_scaled_to_its_own_denominator_is_the_numerator() {
    for numerator in [i32::MIN, -65536, -641, -1, 0, 1, 17, 639, 65535, i32::MAX] {
        for denominator in [1_u16, 2, 3, 240, 320, 640, 65535] {
            let ratio = Ratio::new(numerator, denominator);
            assert_eq!(ratio.scaled_to(denominator), Some(numerator as i64));
        }
    }
}

#[test]
fn ratio_scaled_to_at_the_ends_of_the_range() {
    assert_eq!(Ratio::new(i32::MAX, 1).scaled_to(u16::MAX), Some(2147483647 * 65535));
    assert_eq!(Ratio::new(i32::MIN, 1).scaled_to(u16::MAX), Some(-2147483648 * 65535));
    assert_eq!(Ratio::new(i32::MIN, u16::MAX).scaled_to(1), Some(-32769));
    assert_eq!(Ratio::new(i32::MAX, u16::MAX).scaled_to(1), Some(32768));
}

#[test]
fn ratio_without_a_denominator_scales_to_nothing() {
    assert_eq!(Ratio::new(5, 0).scaled_to(100), None);
    assert_eq!(Ratio::new(0, 0).scaled_to(0), None);
    assert_eq!(Ratio::new(-5, 0).scaled_to(1), None);
}
