use idea_session::parse::{parse_i32, parse_score, parse_u64, select_prompt};

#[test]
fn unsigned_accepts_plain_digits() {
    assert_eq!(parse_u64("0"), Some(0));
    assert_eq!(parse_u64("123"), Some(123));
    assert_eq!(parse_u64("007"), Some(7));
}

#[test]
fn unsigned_accepts_one_leading_plus() {
    assert_eq!(parse_u64("+7"), Some(7));
    assert_eq!(parse_u64("++7"), None);
    assert_eq!(parse_u64("+"), None);
}

#[test]
fn unsigned_rejects_non_digits() {
    assert_eq!(parse_u64(""), None);
    assert_eq!(parse_u64("12a"), None);
    assert_eq!(parse_u64(" 1"), None);
    assert_eq!(parse_u64("1 "), None);
    assert_eq!(parse_u64("-1"), None);
    assert_eq!(parse_u64("1.5"), None);
}

#[test]
fn unsigned_handles_the_type_boundary() {
    assert_eq!(parse_u64("18446744073709551615"), Some(u64::MAX));
    assert_eq!(parse_u64("18446744073709551616"), None);
    assert_eq!(parse_u64("99999999999999999999999999999"), None);
}

#[test]
fn signed_accepts_signs() {
    assert_eq!(parse_i32("-5"), Some(-5));
    assert_eq!(parse_i32("+3"), Some(3));
    assert_eq!(parse_i32("8"), Some(8));
    assert_eq!(parse_i32("-"), None);
    assert_eq!(parse_i32("+-3"), None);
}

#[test]
fn signed_handles_the_type_boundary() {
    assert_eq!(parse_i32("2147483647"), Some(i32::MAX));
    assert_eq!(parse_i32("2147483648"), None);
    assert_eq!(parse_i32("-2147483648"), Some(i32::MIN));
    assert_eq!(parse_i32("-2147483649"), None);
}

#[test]
fn parse_matches_std_on_samples() {
    for s in ["", "0", "42", "+9", "-9", "abc", "4x", "  7", "18446744073709551616"] {
        assert_eq!(parse_u64(s), s.parse::<u64>().ok(), "u64 input {:?}", s);
        assert_eq!(parse_i32(s), s.parse::<i32>().ok(), "i32 input {:?}", s);
    }
}

#[test]
fn selection_in_range_picks_that_prompt() {
    assert_eq!(select_prompt("1"), 0);
    assert_eq!(select_prompt("2"), 1);
    assert_eq!(select_prompt("5"), 4);
}

#[test]
fn selection_defaults_to_first() {
    assert_eq!(select_prompt(""), 0);
    assert_eq!(select_prompt("abc"), 0);
    assert_eq!(select_prompt("0"), 0);
    assert_eq!(select_prompt("6"), 0);
    assert_eq!(select_prompt("-1"), 0);
    assert_eq!(select_prompt("99999999999999999999999999"), 0);
}

#[test]
fn score_defaults_to_zero() {
    assert_eq!(parse_score(""), 0);
    assert_eq!(parse_score("x"), 0);
    assert_eq!(parse_score("7.5"), 0);
    assert_eq!(parse_score("ten"), 0);
}

#[test]
fn score_reads_numbers() {
    assert_eq!(parse_score("7"), 7);
    assert_eq!(parse_score("-3"), -3);
    assert_eq!(parse_score("10"), 10);
}
