use vanity_miner::matcher::{Pattern, PatternError};
use vanity_miner::text::u64_to_decimal;
use vanity_miner::worker::MatchResult;

#[test]
fn matching_is_case_insensitive() {
    let p = Pattern::compile("ABC").unwrap();
    assert!(p.is_match("xxabcyy"));
    assert!(p.is_match("xxABCyy"));
    assert!(p.is_match("xxaBcyy"));
    assert!(!p.is_match("xxacbyy"));
}

#[test]
fn pattern_whitespace_is_ignored() {
    let spaced = Pattern::compile("A B C").unwrap();
    let plain = Pattern::compile("ABC").unwrap();
    for text in ["zzabczz", "ABC", "a b c", "zzz", "ab c"] {
        assert_eq!(spaced.is_match(text), plain.is_match(text));
    }
    assert!(spaced.is_match("zzabczz"));
    assert!(!spaced.is_match("a b c"));
}

#[test]
fn match_is_unanchored_unless_anchored() {
    let p = Pattern::compile("def").unwrap();
    assert!(p.is_match("0xabcdef"));
    let anchored = Pattern::compile("^def").unwrap();
    assert!(!anchored.is_match("0xabcdef"));
    assert!(anchored.is_match("def0x"));
}

#[test]
fn invalid_pattern_is_rejected() {
    assert!(matches!(
        Pattern::compile("("),
        Err(PatternError::InvalidPattern)
    ));
    assert!(matches!(
        Pattern::compile("[z-a]"),
        Err(PatternError::InvalidPattern)
    ));
}

#[test]
fn decimal_rendering() {
    assert_eq!(u64_to_decimal(0), "0");
    assert_eq!(u64_to_decimal(7), "7");
    assert_eq!(u64_to_decimal(12345), "12345");
    assert_eq!(u64_to_decimal(10000), "10000");
    assert_eq!(u64_to_decimal(u64::MAX), "18446744073709551615");
}

#[test]
fn match_result_duration_text() {
    let r = MatchResult {
        elapsed_secs: 61,
        mnemonic: String::from("word"),
        address: String::from("0x"),
    };
    assert_eq!(r.duration_text(), "61");
}
