use proxswap::text::{is_decimal_digit, join_strings, name_matches, number_or_zero, push_decimal};

#[test]
fn decimal_notation_of_numbers() {
    let mut out = String::from("n=");
    push_decimal(&mut out, 0);
    out.push(',');
    push_decimal(&mut out, 7);
    out.push(',');
    push_decimal(&mut out, 10);
    out.push(',');
    push_decimal(&mut out, 14888);
    out.push(',');
    push_decimal(&mut out, 340282366920938463463374607431768211455);
    assert_eq!(out, "n=0,7,10,14888,340282366920938463463374607431768211455");
}

#[test]
fn digits_are_recognised() {
    for c in "0123456789".chars() {
        assert!(is_decimal_digit(c));
    }
    for c in "a /-+٣x".chars() {
        assert!(!is_decimal_digit(c));
    }
}

#[test]
fn number_of_digits_or_zero() {
    assert_eq!(number_or_zero("", 65535), 0);
    assert_eq!(number_or_zero("0", 65535), 0);
    assert_eq!(number_or_zero("80", 65535), 80);
    assert_eq!(number_or_zero("0443", 65535), 443);
    assert_eq!(number_or_zero("65535", 65535), 65535);
    assert_eq!(number_or_zero("65536", 65535), 0);
    assert_eq!(number_or_zero("4294967295", u32::MAX), 4294967295);
    assert_eq!(number_or_zero("4294967296", u32::MAX), 0);
    assert_eq!(number_or_zero("99999999999999999999999999", u32::MAX), 0);
    assert_eq!(number_or_zero("12a", 65535), 0);
    assert_eq!(number_or_zero("a12", 65535), 0);
    assert_eq!(number_or_zero(" 12", 65535), 0);
    assert_eq!(number_or_zero("-1", 65535), 0);
    assert_eq!(number_or_zero("１２", 65535), 0);
}

#[test]
fn matching_ignores_case() {
    assert!(name_matches("Work VPN", "work"));
    assert!(name_matches("work vpn", "VPN"));
    assert!(name_matches("ÄRGER", "ärg"));
    assert!(name_matches("anything", ""));
    assert!(name_matches("", ""));
    assert!(!name_matches("work", "home"));
    assert!(!name_matches("wor", "work"));
    assert!(!name_matches("", "a"));
}

#[test]
fn joining_strings() {
    let none: Vec<String> = vec![];
    assert_eq!(join_strings(&none, ", "), "");
    assert_eq!(join_strings(&vec!["80".to_string()], ", "), "80");
    assert_eq!(
        join_strings(&vec!["80".to_string(), "443".to_string(), "8080".to_string()], ", "),
        "80, 443, 8080"
    );
}
