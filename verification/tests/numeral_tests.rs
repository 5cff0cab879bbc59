use circuitikz_grid::numeral::{parse_usize, usize_to_string};

#[test]
fn numeral_of_zero() {
    assert_eq!(usize_to_string(0), "0");
}

#[test]
fn numeral_of_ten() {
    assert_eq!(usize_to_string(10), "10");
}

#[test]
fn numeral_of_larger_number() {
    assert_eq!(usize_to_string(12345), "12345");
}

#[test]
fn numeral_of_max_word() {
    assert_eq!(usize_to_string(usize::MAX), usize::MAX.to_string());
}

#[test]
fn parse_plain_number() {
    assert_eq!(parse_usize("10"), Some(10));
}

#[test]
fn parse_zero() {
    assert_eq!(parse_usize("0"), Some(0));
}

#[test]
fn parse_with_leading_plus() {
    assert_eq!(parse_usize("+7"), Some(7));
}

#[test]
fn parse_rejects_empty() {
    assert_eq!(parse_usize(""), None);
}

#[test]
fn parse_rejects_lone_plus() {
    assert_eq!(parse_usize("+"), None);
}

#[test]
fn parse_rejects_letters() {
    assert_eq!(parse_usize("abc"), None);
    assert_eq!(parse_usize("1a"), None);
    assert_eq!(parse_usize("-1"), None);
    assert_eq!(parse_usize(" 1"), None);
}

#[test]
fn parse_handles_word_boundary() {
    assert_eq!(parse_usize(&usize::MAX.to_string()), Some(usize::MAX));
    assert_eq!(parse_usize("18446744073709551616"), None);
    assert_eq!(parse_usize("99999999999999999999999999"), None);
}

#[test]
fn parse_agrees_with_std() {
    for s in ["10", "0", "+7", "", "+", "abc", "1a", "007", "18446744073709551615"] {
        assert_eq!(parse_usize(s), s.parse::<usize>().ok(), "input {:?}", s);
    }
}

#[test]
fn numeral_round_trip() {
    for n in [0usize, 1, 9, 10, 99, 100, 4096, usize::MAX] {
        assert_eq!(parse_usize(&usize_to_string(n)), Some(n));
    }
}
