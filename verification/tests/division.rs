use shape_area::division::divide;

#[test]
fn division_by_zero_is_absent() {
    assert_eq!(divide(7, 0), None);
    assert_eq!(divide(0, 0), None);
    assert_eq!(divide(u64::MAX, 0), None);
}

#[test]
fn division_by_a_nonzero_number_is_the_quotient() {
    assert_eq!(divide(12, 4), Some(3));
    assert_eq!(divide(7, 2), Some(3));
    assert_eq!(divide(0, 5), Some(0));
    assert_eq!(divide(5, 7), Some(0));
    assert_eq!(divide(9, 1), Some(9));
    assert_eq!(divide(u64::MAX, 1), Some(u64::MAX));
    assert_eq!(divide(u64::MAX, u64::MAX), Some(1));
    assert_eq!(divide(u64::MAX, 2), Some(9_223_372_036_854_775_807));
}

#[test]
fn quotient_times_divisor_does_not_exceed_the_dividend() {
    let xs: [u64; 5] = [0, 1, 17, 1_000_000_007, u64::MAX];
    let ys: [u64; 5] = [1, 2, 3, 65_536, u64::MAX];
    for &x in xs.iter() {
        for &y in ys.iter() {
            let q = divide(x, y).expect("the divisor is not zero");
            assert!(q as u128 * y as u128 <= x as u128);
            assert!((x as u128) < (q as u128 + 1) * y as u128);
        }
    }
}

#[test]
fn caller_branches_on_both_outcomes() {
    let mut present = 0;
    let mut absent = 0;
    for y in 0u64..4 {
        match divide(6, y) {
            Some(_) => present += 1,
            None => absent += 1,
        }
    }
    assert_eq!((present, absent), (3, 1));
}
