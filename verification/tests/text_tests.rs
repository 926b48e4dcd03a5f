use mpesa_gateway::text::{fmt_u16, str_eq_ignore_ascii_case, str_has_prefix, str_is_blank};

#[test]
fn empty_string_is_blank() {
    assert!(str_is_blank(""));
}

#[test]
fn whitespace_mix_is_blank() {
    assert!(str_is_blank(" \t\r\n "));
}

#[test]
fn inner_letter_is_not_blank() {
    assert!(!str_is_blank("  a  "));
}

#[test]
fn case_insensitive_match_folds_ascii_letters() {
    assert!(str_eq_ignore_ascii_case("TransactionAmount", "tRANSACTIONaMOUNT"));
    assert!(str_eq_ignore_ascii_case("queue", "QUEUE"));
}

#[test]
fn case_insensitive_match_rejects_different_words() {
    assert!(!str_eq_ignore_ascii_case("TransactionAmount", "TransactionAmounts"));
    assert!(!str_eq_ignore_ascii_case("Amount", "Amour"));
}

#[test]
fn prefix_test_sees_the_marker() {
    assert!(str_has_prefix("Basic abcd", "Basic "));
    assert!(!str_has_prefix("basic abcd", "Basic "));
    assert!(!str_has_prefix("Basi", "Basic "));
}

#[test]
fn status_codes_render_in_decimal() {
    assert_eq!(fmt_u16(0), "0");
    assert_eq!(fmt_u16(7), "7");
    assert_eq!(fmt_u16(200), "200");
    assert_eq!(fmt_u16(404), "404");
    assert_eq!(fmt_u16(65535), "65535");
}
