use shape_area::fibonacci::{fib, FIB_COUNT};

#[test]
fn first_ten_numbers() {
    let mut f = fib();
    assert_eq!(f.take(10), vec![1, 2, 3, 5, 8, 13, 21, 34, 55, 89]);
}

#[test]
fn ten_numbers_after_skipping_fourteen() {
    let mut f = fib();
    f.skip(14);
    assert_eq!(
        f.take(10),
        vec![987, 1597, 2584, 4181, 6765, 10946, 17711, 28657, 46368, 75025]
    );
}

#[test]
fn five_calls_of_next() {
    let mut f = fib();
    assert_eq!(f.next(), Some(1));
    assert_eq!(f.next(), Some(2));
    assert_eq!(f.next(), Some(3));
    assert_eq!(f.next(), Some(5));
    assert_eq!(f.next(), Some(8));
}

#[test]
fn walk_ends_where_thirty_two_bits_end() {
    let mut f = fib();
    let mut count = 0;
    let mut last = 0;
    while let Some(v) = f.next() {
        count += 1;
        last = v;
    }
    assert_eq!(count, FIB_COUNT);
    assert_eq!(count, 45);
    assert_eq!(last, 1_836_311_903);
    assert_eq!(f.next(), None);
    assert_eq!(f.next(), None);
}

#[test]
fn each_number_is_the_sum_of_the_two_before() {
    let mut f = fib();
    let v = f.take(FIB_COUNT);
    assert_eq!(v.len(), 45);
    assert_eq!((v[0], v[1]), (1, 2));
    for i in 2..v.len() {
        assert_eq!(v[i] as u64, v[i - 1] as u64 + v[i - 2] as u64);
    }
}

#[test]
fn take_hands_out_what_is_left() {
    let mut f = fib();
    f.skip(43);
    assert_eq!(f.take(10), vec![1_134_903_170, 1_836_311_903]);
    assert_eq!(f.take(10), Vec::<u32>::new());
    assert_eq!(f.next(), None);
}

#[test]
fn take_of_nothing_moves_nothing() {
    let mut f = fib();
    assert_eq!(f.take(0), Vec::<u32>::new());
    assert_eq!(f.next(), Some(1));
}

#[test]
fn skip_past_the_end_exhausts_the_walk() {
    let mut f = fib();
    f.skip(usize::MAX);
    assert_eq!(f.next(), None);
    let mut g = fib();
    g.skip(45);
    assert_eq!(g.next(), None);
    let mut h = fib();
    h.skip(44);
    assert_eq!(h.next(), Some(1_836_311_903));
    assert_eq!(h.next(), None);
}

#[test]
fn skip_of_nothing_moves_nothing() {
    let mut f = fib();
    f.skip(0);
    assert_eq!(f.next(), Some(1));
}

#[test]
fn take_continues_where_next_stopped() {
    let mut f = fib();
    assert_eq!(f.next(), Some(1));
    assert_eq!(f.take(3), vec![2, 3, 5]);
    f.skip(1);
    assert_eq!(f.next(), Some(13));
}
