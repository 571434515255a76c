use snippet_vault::text::str_contains;
use snippet_vault::text::u64_to_dec_string;

#[test]
fn decimal_rendering_matches_expected_values() {
    assert_eq!(u64_to_dec_string(0), "0");
    assert_eq!(u64_to_dec_string(7), "7");
    assert_eq!(u64_to_dec_string(10), "10");
    assert_eq!(u64_to_dec_string(90210), "90210");
    assert_eq!(u64_to_dec_string(u64::MAX), "18446744073709551615");
}

#[test]
fn substring_search_finds_and_rejects() {
    assert!(str_contains("hello world", "lo wo"));
    assert!(str_contains("hello world", ""));
    assert!(str_contains("hello", "hello"));
    assert!(!str_contains("hello", "hello!"));
    assert!(!str_contains("hello", "He"));
    assert!(str_contains("héllo wörld", "wör"));
}
