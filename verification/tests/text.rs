use terraswap_pool::text::u64_to_string;

#[test]
fn numbers_are_written_in_decimal() {
    assert_eq!(u64_to_string(0), "0");
    assert_eq!(u64_to_string(7), "7");
    assert_eq!(u64_to_string(9), "9");
    assert_eq!(u64_to_string(10), "10");
    assert_eq!(u64_to_string(109), "109");
    assert_eq!(u64_to_string(1234567890), "1234567890");
    assert_eq!(u64_to_string(u64::MAX), "18446744073709551615");
}

#[test]
fn decimal_writing_agrees_with_std() {
    let mut n: u64 = 1;
    for _ in 0..200 {
        assert_eq!(u64_to_string(n), n.to_string());
        n = n.wrapping_mul(2862933555777941757).wrapping_add(3037000493);
    }
}
