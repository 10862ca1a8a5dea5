use restaurant::decimal::decimal_string;

#[test]
fn decimal_string_of_chosen_numbers() {
    assert_eq!(decimal_string(0), "0");
    assert_eq!(decimal_string(1), "1");
    assert_eq!(decimal_string(7), "7");
    assert_eq!(decimal_string(9), "9");
    assert_eq!(decimal_string(10), "10");
    assert_eq!(decimal_string(12), "12");
    assert_eq!(decimal_string(42), "42");
    assert_eq!(decimal_string(99), "99");
    assert_eq!(decimal_string(100), "100");
    assert_eq!(decimal_string(105), "105");
    assert_eq!(decimal_string(120), "120");
    assert_eq!(decimal_string(255), "255");
}

#[test]
fn decimal_string_agrees_with_the_standard_library() {
    for n in 0..=u8::MAX {
        assert_eq!(decimal_string(n), format!("{}", n));
    }
}

#[test]
fn decimal_string_reads_back_as_the_number() {
    for n in 0..=u8::MAX {
        assert_eq!(decimal_string(n).parse::<u8>(), Ok(n));
    }
}

#[test]
fn decimal_string_has_digits_only_and_no_leading_zero() {
    for n in 0..=u8::MAX {
        let text = decimal_string(n);
        let expected_len: usize = if n < 10 {
            1
        } else if n < 100 {
            2
        } else {
            3
        };
        assert_eq!(text.len(), expected_len);
        assert!(text.chars().all(|c| c.is_ascii_digit()));
        assert_eq!(text.starts_with('0'), n == 0);
    }
}
