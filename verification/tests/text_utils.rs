use moviebot::text::check_plain_decimal;
use moviebot::text::last_hyphen_piece;
use moviebot::text::parse_u32_decimal;
use moviebot::text::str_ends_with;
use moviebot::text::trim_str;
use moviebot::text::truncate_first_sentence;

#[test]
fn trim_matches_unicode_white_space() {
    assert_eq!(trim_str("  abc  "), "abc");
    assert_eq!(trim_str("\t\na b\r\n"), "a b");
    assert_eq!(trim_str("\u{00A0}\u{3000}x\u{2028}"), "x");
    assert_eq!(trim_str("   "), "");
    assert_eq!(trim_str(""), "");
    assert_eq!("  abc  ".trim(), trim_str("  abc  "));
}

#[test]
fn suffix_checks_are_exact() {
    assert!(str_ends_with("www.notion.so", "notion.so"));
    assert!(str_ends_with("notion.so", "notion.so"));
    assert!(!str_ends_with("notion.so.evil.com", "notion.so"));
    assert!(!str_ends_with("so", "notion.so"));
    assert!(str_ends_with("anything", ""));
}

#[test]
fn hyphen_split_takes_the_final_piece() {
    assert_eq!(last_hyphen_piece("My-Page-abc123"), "abc123");
    assert_eq!(last_hyphen_piece("abc123"), "abc123");
    assert_eq!(last_hyphen_piece("trailing-"), "");
    assert_eq!(last_hyphen_piece(""), "");
}

#[test]
fn sentences_are_cut_after_the_first_closing_paren() {
    assert_eq!(truncate_first_sentence("(1999) rest (2000)"), "(1999)");
    assert_eq!(truncate_first_sentence("no parens at all"), "no parens at all");
    assert_eq!(truncate_first_sentence(""), "");
}

#[test]
fn u32_parsing_matches_the_standard_grammar() {
    assert_eq!(parse_u32_decimal("1999"), Some(1999));
    assert_eq!(parse_u32_decimal("+136"), Some(136));
    assert_eq!(parse_u32_decimal("0000000001"), Some(1));
    assert_eq!(parse_u32_decimal("4294967295"), Some(u32::MAX));
    assert_eq!(parse_u32_decimal("4294967296"), None);
    assert_eq!(parse_u32_decimal("-1"), None);
    assert_eq!(parse_u32_decimal("12a"), None);
    assert_eq!(parse_u32_decimal(""), None);
    assert_eq!(parse_u32_decimal("+"), None);
    assert_eq!(parse_u32_decimal("1999"), "1999".parse::<u32>().ok());
    assert_eq!(parse_u32_decimal("+136"), "+136".parse::<u32>().ok());
    assert_eq!(parse_u32_decimal("4294967296"), "4294967296".parse::<u32>().ok());
}

#[test]
fn plain_decimal_notation_is_digits_with_one_optional_point() {
    assert!(check_plain_decimal("8"));
    assert!(check_plain_decimal("8.7"));
    assert!(check_plain_decimal("10.0"));
    assert!(!check_plain_decimal(".7"));
    assert!(!check_plain_decimal("8."));
    assert!(!check_plain_decimal("8.7.1"));
    assert!(!check_plain_decimal("N/A"));
    assert!(!check_plain_decimal(""));
}
