use wicketick::decimal::{decimal_string, parse_u32};
use wicketick::Source;

#[test]
fn decimal_notation_of_edge_values() {
    assert_eq!(decimal_string(0), "0");
    assert_eq!(decimal_string(9), "9");
    assert_eq!(decimal_string(10), "10");
    assert_eq!(decimal_string(1442214), "1442214");
    assert_eq!(decimal_string(u64::MAX), "18446744073709551615");
}

#[test]
fn parse_u32_follows_std_grammar() {
    for text in ["0", "7", "+7", "007", "4294967295", "", "+", "-1", "-0", "1a", " 1", "4294967296", "99999999999"] {
        assert_eq!(parse_u32(text), text.parse::<u32>().ok(), "{text:?}");
    }
}

#[test]
fn parse_u32_reads_back_decimal_notation() {
    for n in [0u32, 1, 42, 65535, 4294967295] {
        assert_eq!(parse_u32(&decimal_string(n as u64)), Some(n));
    }
}

#[test]
fn label_with_given_quoted_text() {
    let s = Source::Cricinfo { match_id: Some("9".to_string()) };
    assert_eq!(s.display_quoted("<q>"), "CricInfo(match_id:Some(<q>))");
    let s = Source::LocalCricinfo { filename: "f".to_string() };
    assert_eq!(s.display_quoted("<q>"), "LocalCricinfo(filename:<q>)");
    let s = Source::Cricinfo { match_id: None };
    assert_eq!(s.display_quoted("<q>"), "CricInfo(match_id:None)");
}
