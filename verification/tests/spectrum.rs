use audio_waterfall::spectrum::{isqrt, magnitude, magnitudes, Bin};

#[test]
fn isqrt_of_small_numbers() {
    let expected: [(u128, u64); 10] =
        [(0, 0), (1, 1), (2, 1), (3, 1), (4, 2), (8, 2), (9, 3), (24, 4), (25, 5), (99, 9)];
    for (n, root) in expected {
        assert_eq!(isqrt(n), root);
    }
}

#[test]
fn isqrt_is_the_floor_of_the_root() {
    for n in 0u128..5000 {
        let root = isqrt(n) as u128;
        assert!(root * root <= n);
        assert!(n < (root + 1) * (root + 1));
    }
}

#[test]
fn isqrt_of_largest_numbers() {
    assert_eq!(isqrt(u128::MAX), u64::MAX);
    let top = u64::MAX as u128;
    assert_eq!(isqrt(top * top), u64::MAX);
    assert_eq!(isqrt(top * top - 1), u64::MAX - 1);
    assert_eq!(isqrt(1u128 << 126), 1u64 << 63);
}

#[test]
fn magnitude_of_pythagorean_bins() {
    assert_eq!(magnitude(Bin { re: 3, im: 4 }), 5);
    assert_eq!(magnitude(Bin { re: -3, im: 4 }), 5);
    assert_eq!(magnitude(Bin { re: 3, im: -4 }), 5);
    assert_eq!(magnitude(Bin { re: -7, im: -24 }), 25);
}

#[test]
fn magnitude_rounds_down() {
    assert_eq!(magnitude(Bin { re: 1, im: 1 }), 1);
    assert_eq!(magnitude(Bin { re: 2, im: 2 }), 2);
    assert_eq!(magnitude(Bin { re: 10, im: 10 }), 14);
}

#[test]
fn magnitude_of_real_and_imaginary_bins() {
    assert_eq!(magnitude(Bin { re: 0, im: 0 }), 0);
    assert_eq!(magnitude(Bin { re: -10, im: 0 }), 10);
    assert_eq!(magnitude(Bin { re: 0, im: 123456789 }), 123456789);
}

#[test]
fn magnitude_of_extreme_bins() {
    assert_eq!(magnitude(Bin { re: i64::MIN, im: 0 }), 1u64 << 63);
    assert_eq!(magnitude(Bin { re: i64::MIN, im: i64::MIN }), 13043817825332782212);
    assert_eq!(magnitude(Bin { re: i64::MAX, im: 0 }), i64::MAX as u64);
}

#[test]
fn magnitudes_keep_bin_order() {
    let bins = [
        Bin { re: 0, im: 0 },
        Bin { re: 3, im: 4 },
        Bin { re: 0, im: -2 },
        Bin { re: 6, im: 8 },
    ];
    assert_eq!(magnitudes(&bins), vec![0, 5, 2, 10]);
    assert_eq!(magnitudes(&[]), Vec::<u64>::new());
}

#[test]
fn magnitudes_of_zero_bins_are_zero() {
    let bins = vec![Bin { re: 0, im: 0 }; 16];
    assert_eq!(magnitudes(&bins), vec![0u64; 16]);
}
