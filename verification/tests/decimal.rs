use attractions::decimal::{Decimal, MAX_SCALE};

fn decimal(unscaled: i64, scale: i64) -> Decimal {
    Decimal::new(unscaled, scale).unwrap()
}

#[test]
fn new_keeps_unscaled_integer_and_scale() {
    assert_eq!(decimal(1050, 2).to_parts(), (false, vec![1, 0, 5, 0], 2));
    assert_eq!(decimal(-7, 0).to_parts(), (true, vec![7], 0));
    assert_eq!(decimal(0, 3).to_parts(), (false, vec![0], 3));
    assert_eq!(decimal(12, -1).to_parts(), (false, vec![1, 2], -1));
}

#[test]
fn new_takes_the_smallest_integer() {
    let (negative, digits, scale) = decimal(i64::MIN, 0).to_parts();
    assert!(negative);
    assert_eq!(digits, vec![9, 2, 2, 3, 3, 7, 2, 0, 3, 6, 8, 5, 4, 7, 7, 5, 8, 0, 8]);
    assert_eq!(scale, 0);
}

#[test]
fn new_refuses_a_scale_out_of_range() {
    assert!(Decimal::new(1, MAX_SCALE).is_some());
    assert!(Decimal::new(1, -MAX_SCALE).is_some());
    assert!(Decimal::new(1, MAX_SCALE + 1).is_none());
    assert!(Decimal::new(1, -MAX_SCALE - 1).is_none());
}

#[test]
fn from_parts_checks_digits_and_scale() {
    let d = Decimal::from_parts(false, vec![4, 5, 0], 2).unwrap();
    assert!(d.same_number(&decimal(450, 2)));
    assert_eq!(d.scale(), 2);
    assert!(Decimal::from_parts(false, vec![4, 10, 0], 2).is_none());
    assert!(Decimal::from_parts(false, vec![255], 0).is_none());
    assert!(Decimal::from_parts(false, vec![1], MAX_SCALE + 1).is_none());
    assert!(Decimal::from_parts(true, vec![], 0).unwrap().same_number(&Decimal::zero()));
    // leading zeros do not change the number
    assert!(Decimal::from_parts(false, vec![0, 0, 4, 5], 1).unwrap().same_number(&decimal(45, 1)));
}

#[test]
fn from_u64_is_a_whole_number() {
    assert_eq!(Decimal::from_u64(0).to_parts(), (false, vec![0], 0));
    assert_eq!(Decimal::from_u64(30).to_parts(), (false, vec![3, 0], 0));
    assert_eq!(
        Decimal::from_u64(u64::MAX).to_parts(),
        (false, vec![1, 8, 4, 4, 6, 7, 4, 4, 0, 7, 3, 7, 0, 9, 5, 5, 1, 6, 1, 5], 0)
    );
}

#[test]
fn from_scaled_u64_puts_the_point() {
    assert_eq!(Decimal::from_scaled_u64(125, 3).to_parts(), (false, vec![1, 2, 5], 3));
    assert_eq!(Decimal::one_hundredth().to_parts(), (false, vec![1], 2));
}

#[test]
fn plus_brings_both_to_the_larger_scale() {
    let sum = decimal(150, 2).plus(&decimal(25, 1));
    assert_eq!(sum.to_parts(), (false, vec![4, 0, 0], 2));
    let sum = decimal(25, 1).plus(&decimal(150, 2));
    assert_eq!(sum.to_parts(), (false, vec![4, 0, 0], 2));
    let sum = decimal(1, 0).plus(&decimal(-1, 3));
    assert_eq!(sum.to_parts(), (false, vec![9, 9, 9], 3));
    let sum = Decimal::zero().plus(&decimal(100, 2));
    assert_eq!(sum.to_parts(), (false, vec![1, 0, 0], 2));
}

#[test]
fn plus_is_not_the_identity() {
    let a = decimal(150, 2);
    let b = decimal(1, 2);
    let sum = a.plus(&b);
    assert!(!sum.same_number(&a));
    assert!(!sum.same_number(&b));
    assert!(sum.same_number(&decimal(151, 2)));
}

#[test]
fn minus_brings_both_to_the_larger_scale() {
    let difference = decimal(150, 2).minus(&decimal(25, 1));
    assert_eq!(difference.to_parts(), (true, vec![1, 0, 0], 2));
    let difference = decimal(25, 1).minus(&decimal(150, 2));
    assert_eq!(difference.to_parts(), (false, vec![1, 0, 0], 2));
    let difference = decimal(5, 0).minus(&decimal(5, 0));
    assert_eq!(difference.to_parts(), (false, vec![0], 0));
}

#[test]
fn abs_drops_the_sign() {
    assert_eq!(decimal(-150, 2).abs().to_parts(), (false, vec![1, 5, 0], 2));
    assert_eq!(decimal(150, 2).abs().to_parts(), (false, vec![1, 5, 0], 2));
}

#[test]
fn less_than_orders_by_value() {
    assert!(decimal(5, 1).less_than(&decimal(1, 0)));
    assert!(!decimal(1, 0).less_than(&decimal(5, 1)));
    assert!(decimal(-1, 0).less_than(&decimal(1, 3)));
    assert!(!decimal(100, 2).less_than(&decimal(1, 0)));
    assert!(!decimal(1, 0).less_than(&decimal(100, 2)));
    assert!(decimal(9, 3).less_than(&Decimal::one_hundredth()));
    assert!(!decimal(10, 3).less_than(&Decimal::one_hundredth()));
    assert!(decimal(1, 0).less_than(&decimal(100, 0)));
    assert!(decimal(-100, 0).less_than(&decimal(-1, 0)));
}

#[test]
fn same_number_ignores_the_scale() {
    assert!(decimal(200, 2).same_number(&decimal(2, 0)));
    assert!(decimal(2, 0).same_number(&decimal(2000, 3)));
    assert!(!decimal(200, 2).same_number(&decimal(201, 2)));
    assert!(decimal(0, 5).same_number(&Decimal::zero()));
}

#[test]
fn divided_by_count_divides() {
    assert_eq!(decimal(600, 2).divided_by_count(3).unwrap().to_parts(), (false, vec![2, 0, 0], 2));
    assert_eq!(
        decimal(21000, 2).divided_by_count(20).unwrap().to_parts(),
        (false, vec![1, 0, 5, 0], 2)
    );
    assert_eq!(decimal(1, 0).divided_by_count(4).unwrap().to_parts(), (false, vec![2, 5], 2));
    assert_eq!(decimal(-9, 1).divided_by_count(2).unwrap().to_parts(), (true, vec![4, 5], 2));
    assert_eq!(decimal(450, 2).divided_by_count(1).unwrap().to_parts(), (false, vec![4, 5, 0], 2));
    assert!(decimal(0, 2).divided_by_count(7).unwrap().same_number(&Decimal::zero()));
}

#[test]
fn divided_by_zero_count_is_none() {
    assert!(decimal(600, 2).divided_by_count(0).is_none());
    assert!(Decimal::zero().divided_by_count(0).is_none());
}

#[test]
fn quotient_beyond_the_largest_scale_is_none() {
    // 1e-100000 / 3 needs more digits after the point than a decimal carries
    let tiny = decimal(1, MAX_SCALE);
    assert!(tiny.divided_by_count(3).is_none());
    // while an exact quotient at the same scale is carried
    let six = decimal(6, MAX_SCALE);
    assert_eq!(six.divided_by_count(3).unwrap().to_parts(), (false, vec![2], MAX_SCALE));
}

#[test]
fn clone_keeps_the_number() {
    let d = decimal(-12345, 4);
    assert_eq!(d.clone().to_parts(), d.to_parts());
}

#[test]
fn scales_at_both_ends_meet() {
    let large = decimal(1, -MAX_SCALE);
    let small = decimal(1, MAX_SCALE);
    let (negative, digits, scale) = large.plus(&small).to_parts();
    assert!(!negative);
    assert_eq!(scale, MAX_SCALE);
    assert_eq!(digits.len(), 2 * MAX_SCALE as usize + 1);
    assert_eq!(digits[0], 1);
    assert_eq!(digits[digits.len() - 1], 1);
    assert!(digits[1..digits.len() - 1].iter().all(|d| *d == 0));
    assert!(small.less_than(&large));
    assert!(!large.less_than(&small));
    assert!(!large.same_number(&small));
    let (negative, digits, scale) = small.minus(&large).to_parts();
    assert!(negative);
    assert_eq!(scale, MAX_SCALE);
    assert_eq!(digits.len(), 2 * MAX_SCALE as usize);
    assert!(digits.iter().all(|d| *d == 9));
}

#[test]
fn a_large_number_is_divided_too() {
    let large = decimal(1, -MAX_SCALE);
    let (negative, digits, scale) = large.divided_by_count(3).unwrap().to_parts();
    assert!(!negative);
    assert_eq!(digits.len(), 100);
    assert!(digits.iter().all(|d| *d == 3));
    assert_eq!(scale, -MAX_SCALE + 100);
}
