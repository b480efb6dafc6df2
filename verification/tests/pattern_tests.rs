//! Pattern text parsing and first-match scanning.

use cheatlib::patternscan::find_first;
use cheatlib::patternscan::parse_pattern;
use cheatlib::patternscan::scan_data_for_pattern;
use cheatlib::patternscan::PatternToken;
use cheatlib::Error;

#[test]
fn parse_hex_and_wildcards() {
    let toks = parse_pattern("AA bb ? ?? 0 7f").unwrap();
    assert_eq!(
        toks,
        vec![
            PatternToken::Byte(0xAA),
            PatternToken::Byte(0xBB),
            PatternToken::Any,
            PatternToken::Any,
            PatternToken::Byte(0),
            PatternToken::Byte(0x7F),
        ]
    );
}

#[test]
fn parse_tolerates_extra_whitespace() {
    let toks = parse_pattern("  fe\t00 \n 68  ").unwrap();
    assert_eq!(
        toks,
        vec![PatternToken::Byte(0xFE), PatternToken::Byte(0), PatternToken::Byte(0x68)]
    );
}

#[test]
fn parse_empty_text_yields_no_tokens() {
    assert_eq!(parse_pattern("").unwrap(), vec![]);
}

#[test]
fn parse_rejects_non_hex_segment() {
    assert_eq!(parse_pattern("ZZ").unwrap_err(), Error::MalformedInput);
}

#[test]
fn parse_rejects_overlong_segment() {
    assert_eq!(parse_pattern("AAA").unwrap_err(), Error::MalformedInput);
}

#[test]
fn parse_rejects_mixed_wildcard_segment() {
    assert_eq!(parse_pattern("?A").unwrap_err(), Error::MalformedInput);
}

#[test]
fn find_embedded_literal_pattern_at_exact_offset() {
    let data = vec![0x10u8, 0x20, 0x30, 0x40, 0x50];
    let toks = parse_pattern("20 30 40").unwrap();
    assert_eq!(find_first(&data, &toks), Some(1));
}

#[test]
fn find_reports_first_of_several_matches() {
    let data = vec![5u8, 6, 5, 6, 5, 6];
    let toks = parse_pattern("05 06").unwrap();
    assert_eq!(find_first(&data, &toks), Some(0));
}

#[test]
fn wildcard_matches_buffers_differing_only_there() {
    let toks = parse_pattern("8d 11 ? ? 8f").unwrap();
    let one = vec![0x8du8, 0x11, 0x9e, 0xef, 0x8f];
    let other = vec![0x8du8, 0x11, 0x00, 0x00, 0x8f];
    assert_eq!(find_first(&one, &toks), Some(0));
    assert_eq!(find_first(&other, &toks), Some(0));
}

#[test]
fn absent_pattern_is_a_normal_none_not_an_error() {
    let data = vec![1u8, 2, 3, 4];
    assert_eq!(scan_data_for_pattern(&data, "05 06"), Ok(None));
}

#[test]
fn pattern_longer_than_image_matches_nowhere() {
    let data = vec![1u8, 2];
    let toks = parse_pattern("01 02 03").unwrap();
    assert_eq!(find_first(&data, &toks), None);
}

#[test]
fn empty_pattern_matches_at_offset_zero() {
    let data = vec![1u8, 2, 3];
    let toks = parse_pattern("").unwrap();
    assert_eq!(find_first(&data, &toks), Some(0));
}

#[test]
fn scan_of_malformed_text_is_an_error() {
    let data = vec![1u8, 2, 3];
    assert_eq!(scan_data_for_pattern(&data, "01 xx"), Err(Error::MalformedInput));
}

#[test]
fn scan_finds_pattern_at_end_of_image() {
    let data = vec![0u8, 0, 0xCA, 0xFE];
    assert_eq!(scan_data_for_pattern(&data, "CA FE"), Ok(Some(2)));
}

#[test]
fn scan_agrees_with_the_patternscan_crate() {
    let data = vec![0x10u8, 0x20, 0x30, 0x40, 0x50, 0x20, 0x30];
    for pattern in ["20 30 40", "20 30", "? 30", "aa bb", "50", ""] {
        let theirs =
            patternscan::scan_first_match(std::io::Cursor::new(&data), pattern).unwrap();
        let ours = scan_data_for_pattern(&data, pattern).unwrap();
        assert_eq!(ours, theirs, "pattern {:?}", pattern);
    }
}
