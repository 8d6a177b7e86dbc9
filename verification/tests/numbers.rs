use mikanbako::arguments::{validate_natural_number, validate_number};
use mikanbako::decimal::{parse_i64, parse_usize, render_i64, render_u128};

#[test]
fn renders_small_numbers() {
    assert_eq!(render_u128(0), "0");
    assert_eq!(render_u128(7), "7");
    assert_eq!(render_u128(10), "10");
    assert_eq!(render_u128(1234567890), "1234567890");
}

#[test]
fn renders_the_largest_u128() {
    assert_eq!(render_u128(u128::MAX), "340282366920938463463374607431768211455");
}

#[test]
fn renders_signed_numbers() {
    assert_eq!(render_i64(0), "0");
    assert_eq!(render_i64(-1), "-1");
    assert_eq!(render_i64(42), "42");
    assert_eq!(render_i64(-305), "-305");
    assert_eq!(render_i64(i64::MAX), "9223372036854775807");
    assert_eq!(render_i64(i64::MIN), "-9223372036854775808");
}

#[test]
fn rendering_agrees_with_std() {
    let samples: Vec<i64> = vec![0, 1, -1, 9, 10, -10, 99, 100, 1000, -99999, i64::MAX, i64::MIN];
    for i in samples {
        assert_eq!(render_i64(i), i.to_string());
    }
}

#[test]
fn parses_plain_integers() {
    assert_eq!(parse_i64("0"), Some(0));
    assert_eq!(parse_i64("17"), Some(17));
    assert_eq!(parse_i64("-17"), Some(-17));
    assert_eq!(parse_i64("+17"), Some(17));
    assert_eq!(parse_i64("-0"), Some(0));
    assert_eq!(parse_i64("007"), Some(7));
}

#[test]
fn parses_the_ends_of_the_i64_range() {
    assert_eq!(parse_i64("9223372036854775807"), Some(i64::MAX));
    assert_eq!(parse_i64("-9223372036854775808"), Some(i64::MIN));
    assert_eq!(parse_i64("9223372036854775808"), None);
    assert_eq!(parse_i64("-9223372036854775809"), None);
    assert_eq!(parse_i64("99999999999999999999999999999999999999999999"), None);
    assert_eq!(parse_i64("00000000000000000000000000000000000000000001"), Some(1));
}

#[test]
fn refuses_what_is_no_integer() {
    assert_eq!(parse_i64(""), None);
    assert_eq!(parse_i64("+"), None);
    assert_eq!(parse_i64("-"), None);
    assert_eq!(parse_i64("+-1"), None);
    assert_eq!(parse_i64("--1"), None);
    assert_eq!(parse_i64(" 1"), None);
    assert_eq!(parse_i64("1 "), None);
    assert_eq!(parse_i64("1_000"), None);
    assert_eq!(parse_i64("12a"), None);
    assert_eq!(parse_i64("1.5"), None);
    assert_eq!(parse_i64("0x10"), None);
    assert_eq!(parse_i64("\u{0663}"), None);
}

#[test]
fn parses_natural_numbers() {
    assert_eq!(parse_usize("0"), Some(0));
    assert_eq!(parse_usize("2"), Some(2));
    assert_eq!(parse_usize("+2"), Some(2));
    assert_eq!(parse_usize("010"), Some(10));
    assert_eq!(parse_usize(&usize::MAX.to_string()), Some(usize::MAX));
}

#[test]
fn refuses_what_is_no_natural_number() {
    assert_eq!(parse_usize(""), None);
    assert_eq!(parse_usize("+"), None);
    assert_eq!(parse_usize("-"), None);
    assert_eq!(parse_usize("-0"), None);
    assert_eq!(parse_usize("-1"), None);
    assert_eq!(parse_usize("3 "), None);
    assert_eq!(parse_usize("three"), None);
    assert_eq!(parse_usize("340282366920938463463374607431768211456"), None);
    let beyond = format!("{}0", usize::MAX);
    assert_eq!(parse_usize(&beyond), None);
}

#[test]
fn parsing_agrees_with_std() {
    let samples = vec![
        "", "0", "-0", "+0", "+", "-", "1", "-1", "+1", "++1", "+-1", "-+1", "12", "0012", " 12",
        "12 ", "1 2", "1,2", "1e3", "9223372036854775807", "9223372036854775808",
        "-9223372036854775808", "-9223372036854775809", "18446744073709551615",
        "18446744073709551616", "4294967295", "4294967296", "\u{ff11}", "1\n",
    ];
    for s in samples {
        assert_eq!(parse_i64(s), s.parse::<i64>().ok(), "as i64: {:?}", s);
        assert_eq!(parse_usize(s), s.parse::<usize>().ok(), "as usize: {:?}", s);
    }
}

#[test]
fn reading_a_rendered_number_gives_it_back() {
    let samples: Vec<i64> = vec![0, 5, -5, 123456789, -987654321, i64::MAX, i64::MIN];
    for i in samples {
        assert_eq!(parse_i64(&render_i64(i)), Some(i));
    }
}

#[test]
fn validate_number_accepts_integers() {
    assert_eq!(validate_number("1"), Ok(()));
    assert_eq!(validate_number("-250"), Ok(()));
    assert_eq!(validate_number("+9"), Ok(()));
}

#[test]
fn validate_number_refuses_with_its_message() {
    assert_eq!(validate_number("abc"), Err("The value must be an integer".to_string()));
    assert_eq!(validate_number(""), Err("The value must be an integer".to_string()));
    assert_eq!(
        validate_number("9223372036854775808"),
        Err("The value must be an integer".to_string())
    );
}

#[test]
fn validate_natural_number_accepts_naturals() {
    assert_eq!(validate_natural_number("2"), Ok(()));
    assert_eq!(validate_natural_number("0"), Ok(()));
    assert_eq!(validate_natural_number("10"), Ok(()));
}

#[test]
fn validate_natural_number_refuses_with_its_message() {
    assert_eq!(
        validate_natural_number("-1"),
        Err("The value must be a positive integer".to_string())
    );
    assert_eq!(
        validate_natural_number("many"),
        Err("The value must be a positive integer".to_string())
    );
}
