use pam_any::input::Input;
use pam_any::json_length::json_length;
use pam_any::mode::Mode;
use pam_any::text::{combined_prompt, format_msg, join_args};

#[test]
fn join_args_uses_single_spaces() {
    let args = vec!["{".to_string(), "\"mode\":".to_string(), "\"One\"}".to_string()];
    assert_eq!(join_args(&args), "{ \"mode\": \"One\"}");
}

#[test]
fn join_args_of_nothing_is_empty() {
    assert_eq!(join_args(&Vec::new()), "");
    assert_eq!(join_args(&vec!["x".to_string()]), "x");
}

#[test]
fn combined_prompt_joins_with_or() {
    let names = vec!["Password".to_string(), "Random Chance".to_string()];
    assert_eq!(combined_prompt(&names), "Password or Random Chance: ");
    assert_eq!(combined_prompt(&vec!["Fingerprint".to_string()]), "Fingerprint: ");
    assert_eq!(combined_prompt(&Vec::new()), ": ");
}

#[test]
fn input_combined_prompt_uses_display_names() {
    let input = Input {
        mode: Mode::One,
        modules: vec![
            ("login".to_string(), "Password".to_string()),
            ("pam-random".to_string(), "Random Chance".to_string()),
        ],
        silence_messages: false,
    };
    assert_eq!(input.display_names(), vec!["Password".to_string(), "Random Chance".to_string()]);
    assert_eq!(input.combined_prompt(), "Password or Random Chance: ");
}

#[test]
fn format_msg_tags_with_display_name() {
    assert_eq!(format_msg("Password", "Wrong password"), "[Password] Wrong password");
    assert_eq!(format_msg("", ""), "[] ");
}

#[test]
fn json_length_finds_first_closing_brace() {
    assert_eq!(json_length("{\"mode\": \"One\"} trailing"), Some(15));
    assert_eq!(json_length("}"), Some(1));
    assert_eq!(json_length("no brace"), None);
    assert_eq!(json_length(""), None);
}

#[test]
fn json_length_counts_bytes() {
    assert_eq!(json_length("{\"é\":1}"), Some(8));
    assert_eq!(json_length("{}{}"), Some(2));
}

#[test]
fn join_args_rebuilds_configuration_from_pam_file() {
    let line = "{ \"mode\": \"One\", \"modules\": { \"login\": \"Password\", \"pam-random\": \"Random Chance\" } }";
    let args: Vec<String> = line.split(' ').map(|s| s.to_string()).collect();
    assert_eq!(join_args(&args), line);
    assert_eq!(json_length(&join_args(&args)), Some(line.len()));
}

#[test]
fn json_length_follows_nested_objects() {
    assert_eq!(json_length("{\"a\":{}} x"), Some(8));
    assert_eq!(json_length("{\"a\":{\"b\":{}},\"c\":1}tail"), Some(20));
    assert_eq!(json_length("{\"a\":{}"), None);
}

#[test]
fn json_length_outside_objects_stops_at_first_brace() {
    assert_eq!(json_length("\"}\""), Some(2));
    assert_eq!(json_length("x \"a\" }"), Some(7));
}

#[test]
fn json_length_skips_braces_in_strings() {
    assert_eq!(json_length("{\"a\":\"}\"} x"), Some(9));
    assert_eq!(json_length("{\"a\":\"\\\"}\"}"), Some(11));
    assert_eq!(json_length("{\"a\":\"{\"}"), Some(9));
}

#[test]
fn input_distinct_services() {
    let mut input = Input {
        mode: Mode::One,
        modules: vec![
            ("login".to_string(), "Password".to_string()),
            ("fprint".to_string(), "Fingerprint".to_string()),
        ],
        silence_messages: false,
    };
    assert!(input.has_distinct_services());
    input.modules.push(("login".to_string(), "Again".to_string()));
    assert!(!input.has_distinct_services());
}
