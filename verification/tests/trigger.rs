use built_at_build::numeral::decimal_of;
use built_at_build::trigger::{next_trigger_value, rerun_declaration, trigger_env_var};

#[test]
fn decimal_of_zero() {
    assert_eq!(decimal_of(0), b"0".to_vec());
}

#[test]
fn decimal_of_single_digit() {
    assert_eq!(decimal_of(7), b"7".to_vec());
}

#[test]
fn decimal_of_two_digits() {
    assert_eq!(decimal_of(42), b"42".to_vec());
}

#[test]
fn decimal_of_round_number() {
    assert_eq!(decimal_of(1000), b"1000".to_vec());
}

#[test]
fn decimal_of_largest_value() {
    assert_eq!(decimal_of(u64::MAX), b"18446744073709551615".to_vec());
}

#[test]
fn distinct_hashes_give_distinct_numerals() {
    assert_ne!(decimal_of(1), decimal_of(2));
    assert_ne!(decimal_of(10), decimal_of(100));
    assert_ne!(decimal_of(0), decimal_of(u64::MAX));
    // Same digits, different placement.
    assert_ne!(decimal_of(12), decimal_of(21));
    assert_ne!(decimal_of(120), decimal_of(12));
}

#[test]
fn trigger_env_var_name_is_fixed() {
    assert_eq!(trigger_env_var(), "BUILT_AT_BUILD");
}

#[test]
fn rerun_declaration_names_the_trigger() {
    assert_eq!(
        rerun_declaration(),
        "cargo::rerun-if-env-changed=BUILT_AT_BUILD"
    );
    let suffix = format!("={}", trigger_env_var());
    assert!(rerun_declaration().ends_with(&suffix));
}

#[test]
fn trigger_value_is_ascii_digit_text() {
    let v = next_trigger_value();
    assert!(!v.is_empty());
    assert!(v.iter().all(|b| (48..=57).contains(b)));
    // The value is valid UTF-8 text fit for an environment variable.
    assert!(String::from_utf8(v).is_ok());
}

#[test]
fn forcing_values_differ_across_rapid_calls() {
    // Successive forcing calls must produce distinct values: equal values
    // would be read as "no signal" by the toolchain's change detection.
    let mut previous = next_trigger_value();
    for _ in 0..10_000 {
        let current = next_trigger_value();
        assert_ne!(current, previous);
        previous = current;
    }
}
