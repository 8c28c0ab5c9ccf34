use nakama_rs::correlation::{cid_to_string, decimal_string, parse_cid};

#[test]
fn ids_are_written_in_decimal() {
    assert_eq!(cid_to_string(2), "2");
    assert_eq!(cid_to_string(3), "3");
    assert_eq!(cid_to_string(10), "10");
    assert_eq!(cid_to_string(1234567890), "1234567890");
    assert_eq!(cid_to_string(0), "0");
    assert_eq!(cid_to_string(-17), "-17");
}

#[test]
fn the_largest_and_smallest_ids_are_written_in_full() {
    assert_eq!(cid_to_string(i64::MAX), "9223372036854775807");
    assert_eq!(cid_to_string(i64::MIN), "-9223372036854775808");
    assert_eq!(decimal_string(7350), "7350");
}

#[test]
fn writing_agrees_with_the_standard_library() {
    for id in [0i64, 1, 9, 10, 99, 100, 101, 65535, -1, -10, -999, 4294967296] {
        assert_eq!(cid_to_string(id), id.to_string());
    }
}

#[test]
fn ids_are_read_back() {
    assert_eq!(parse_cid("2"), Some(2));
    assert_eq!(parse_cid("0"), Some(0));
    assert_eq!(parse_cid("-5"), Some(-5));
    assert_eq!(parse_cid("+5"), Some(5));
    assert_eq!(parse_cid("007"), Some(7));
    assert_eq!(parse_cid("9223372036854775807"), Some(i64::MAX));
    assert_eq!(parse_cid("-9223372036854775808"), Some(i64::MIN));
}

#[test]
fn text_that_is_no_id_is_refused() {
    assert_eq!(parse_cid(""), None);
    assert_eq!(parse_cid("-"), None);
    assert_eq!(parse_cid("+"), None);
    assert_eq!(parse_cid("12a"), None);
    assert_eq!(parse_cid(" 12"), None);
    assert_eq!(parse_cid("12 "), None);
    assert_eq!(parse_cid("1.5"), None);
    assert_eq!(parse_cid("--1"), None);
    assert_eq!(parse_cid("١٢"), None);
    assert_eq!(parse_cid("1é"), None);
}

#[test]
fn numbers_out_of_range_are_refused() {
    assert_eq!(parse_cid("9223372036854775808"), None);
    assert_eq!(parse_cid("-9223372036854775809"), None);
    assert_eq!(parse_cid("99999999999999999999999999"), None);
    assert_eq!(parse_cid("000000000000000000000000000000"), Some(0));
}

#[test]
fn reading_undoes_writing() {
    for id in [i64::MIN, -1, 0, 1, 2, 3, 41, 1000, i64::MAX - 1, i64::MAX] {
        assert_eq!(parse_cid(&cid_to_string(id)), Some(id));
    }
}

#[test]
fn reading_agrees_with_the_standard_library() {
    for text in ["2", "-2", "+2", "", "x", "0012", "9223372036854775808", "-0", "+-1"] {
        assert_eq!(parse_cid(text), text.parse::<i64>().ok());
    }
}
