use rugby::summation::sum;

#[test]
fn lib_works() {
    assert_eq!(55, sum(0, 10));
    assert_eq!(55, sum(1, 10));
    assert_eq!(54, sum(2, 10));
    assert_eq!(45, sum(5, 10));
    assert_eq!(19, sum(9, 10));
}

#[test]
fn zero_and_one_lower_bounds_agree() {
    for n in [0u32, 1, 2, 7, 100, 65535] {
        assert_eq!(sum(0, n), sum(1, n));
    }
}

#[test]
fn sums_every_term_of_the_range() {
    let mut expected: u32 = 0;
    for i in 3u32..=9 {
        expected += i;
    }
    assert_eq!(expected, sum(3, 9));
}

#[test]
fn single_element_range() {
    assert_eq!(0, sum(0, 0));
    assert_eq!(1, sum(1, 1));
    assert_eq!(7, sum(7, 7));
}

#[test]
fn empty_range_is_zero() {
    assert_eq!(0, sum(5, 4));
    assert_eq!(0, sum(2, 1));
}

#[test]
fn largest_upper_bound_without_overflow() {
    assert_eq!(2147450880, sum(1, 65535));
    assert_eq!(65535, sum(65535, 65535));
}
