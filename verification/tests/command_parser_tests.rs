//! Tests of the command-line tokenizer, the flag parser, and text
//! truncation.

use hefesto::command_parser::{parse, tokenize};
use hefesto::config::HefestoConfig;

fn token_strings(input: &str) -> Vec<String> {
    tokenize(input)
}

#[test]
fn test_tokenize_simple() {
    let tokens = token_strings("hello world");
    assert_eq!(tokens, vec!["hello", "world"]);
}

#[test]
fn test_tokenize_double_quoted() {
    let tokens = token_strings(r#"echo "hello world""#);
    assert_eq!(tokens, vec!["echo", "hello world"]);
}

#[test]
fn test_tokenize_single_quoted() {
    let tokens = token_strings("echo 'hello world'");
    assert_eq!(tokens, vec!["echo", "hello world"]);
}

#[test]
fn test_tokenize_empty() {
    assert!(token_strings("").is_empty());
    assert!(token_strings("   ").is_empty());
}

#[test]
fn test_parse_long_flags() {
    let args = token_strings("--port 8080 --verbose");
    let parsed = parse(&args);
    assert_eq!(parsed.get_flag("port"), Some("8080"));
    assert!(parsed.get_boolean("verbose"));
}

#[test]
fn test_parse_flag_with_equals() {
    let args = token_strings("--port=8080");
    let parsed = parse(&args);
    assert_eq!(parsed.get_flag("port"), Some("8080"));
}

#[test]
fn test_parse_short_flags() {
    let args = token_strings("-p 8080 -v");
    let parsed = parse(&args);
    assert_eq!(parsed.get_flag("p"), Some("8080"));
    assert!(parsed.get_boolean("v"));
}

#[test]
fn test_parse_combined_short_flags() {
    let args = token_strings("-abc");
    let parsed = parse(&args);
    assert!(parsed.get_boolean("a"));
    assert!(parsed.get_boolean("b"));
    assert!(parsed.get_boolean("c"));
}

#[test]
fn test_parse_positional() {
    // --all consumes 8080 as its value since it does not start with '-'.
    let args = token_strings("portinfo --all 8080");
    let parsed = parse(&args);
    assert_eq!(parsed.positional(0), Some("portinfo"));
    assert_eq!(parsed.get_flag("all"), Some("8080"));
    // To keep 8080 positional, put it before the flag.
    let args2 = token_strings("portinfo 8080 --all");
    let parsed2 = parse(&args2);
    assert_eq!(parsed2.positional(0), Some("portinfo"));
    assert_eq!(parsed2.positional(1), Some("8080"));
    assert!(parsed2.get_boolean("all"));
}

#[test]
fn test_get_flag_as_int() {
    let args = token_strings("--port 8080");
    let parsed = parse(&args);
    assert_eq!(parsed.get_flag_as_int("port"), Some(8080));
    assert_eq!(parsed.get_flag_as_int("missing"), None);
}

#[test]
fn test_get_flag_helpers() {
    let args = token_strings("--port 8080");
    let parsed = parse(&args);
    assert_eq!(parsed.get_flag_or("port", "1"), "8080");
    assert_eq!(parsed.get_flag_or("missing", "1"), "1");
    assert_eq!(parsed.get_flag_as_int_or("port", 1), 8080);
    assert_eq!(parsed.get_flag_as_int_or("missing", 1), 1);
    assert!(parsed.has_flag("port"));
    assert!(!parsed.has_flag("missing"));
    assert_eq!(parsed.positional_count(), 0);
    assert!(!parsed.has_positional());
}

#[test]
fn test_last_flag_setting_wins() {
    let args = token_strings("--port 1 --port 2");
    let parsed = parse(&args);
    assert_eq!(parsed.get_flag("port"), Some("2"));
}

// ── Text truncation ────────────────────────────────────────────────────

#[test]
fn test_truncate_short_text() {
    assert_eq!(HefestoConfig::truncate_to("hello", 10), "hello");
}

#[test]
fn test_truncate_long_text() {
    assert_eq!(HefestoConfig::truncate_to("hello world", 8), "hello...");
}

#[test]
fn test_truncate_disabled() {
    assert_eq!(HefestoConfig::truncate_to("hello world", -1), "hello world");
}

#[test]
fn test_truncate_exact_length() {
    assert_eq!(HefestoConfig::truncate_to("hello", 5), "hello");
}

#[test]
fn test_config_defaults() {
    let cfg = HefestoConfig::default();
    assert_eq!(cfg.max_text_width, 256);
    assert_eq!(cfg.health_check_timeout_ms, 5000);
    assert_eq!(cfg.default_interval(), 1000);
    assert_eq!(cfg.alert_history_duration(), 600_000);
}
