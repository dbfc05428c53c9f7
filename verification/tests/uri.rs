use cw721_piggy_bank::decimal::decimal_string;
use cw721_piggy_bank::uri::{derive_token_uri, initial_token_uri};

fn derived(balance: u128) -> Option<String> {
    derive_token_uri(&"https://example.org/meta".to_string(), &"7".to_string(), balance)
}

#[test]
fn uri_below_first_threshold_is_unchanged() {
    assert_eq!(derived(0), None);
    assert_eq!(derived(500_000), None);
    // The threshold must be strictly exceeded.
    assert_eq!(derived(1_000_000), None);
}

#[test]
fn uri_thresholds_pick_the_highest_matching_stage() {
    assert_eq!(derived(1_000_001), Some("https://example.org/meta/7/sapling.json".to_string()));
    assert_eq!(derived(2_000_000), Some("https://example.org/meta/7/sapling.json".to_string()));
    assert_eq!(derived(10_000_000), Some("https://example.org/meta/7/sapling.json".to_string()));
    assert_eq!(derived(10_000_001), Some("https://example.org/meta/7/tree.json".to_string()));
    assert_eq!(derived(100_000_000), Some("https://example.org/meta/7/tree.json".to_string()));
    assert_eq!(
        derived(100_000_001),
        Some("https://example.org/meta/7/fullgrown.json".to_string())
    );
    assert_eq!(
        derived(150_000_000),
        Some("https://example.org/meta/7/fullgrown.json".to_string())
    );
    assert_eq!(derived(u128::MAX), Some("https://example.org/meta/7/fullgrown.json".to_string()));
}

#[test]
fn initial_uri_is_the_seedling_stage() {
    let uri = initial_token_uri(&"https://example.org/meta".to_string(), "12");
    assert_eq!(uri, "https://example.org/meta/12/seedling.json");
}

#[test]
fn decimal_strings_render_exactly() {
    assert_eq!(decimal_string(0), "0");
    assert_eq!(decimal_string(1), "1");
    assert_eq!(decimal_string(9), "9");
    assert_eq!(decimal_string(10), "10");
    assert_eq!(decimal_string(12345), "12345");
    assert_eq!(decimal_string(1_000_000), "1000000");
    assert_eq!(decimal_string(u64::MAX), "18446744073709551615");
}
