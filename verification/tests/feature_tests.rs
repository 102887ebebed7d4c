//! Tests of the interactive commands, translations, the health-check
//! configuration, and the security analysis.

use hefesto::features::base64_cmd::Base64Command;
use hefesto::features::echo::EchoCommand;
use hefesto::features::json_cmd::JsonCommand;
use hefesto::command_meta::CommandResult;
use hefesto::i18n::{I18nService, Language};
use hefesto::portinfo::binding::{ConnectionState, PortBinding, Protocol};
use hefesto::portinfo::health_service::HealthCheckService;
use hefesto::portinfo::security::Severity;
use hefesto::portinfo::security::SecurityCategory;
use hefesto::portinfo::security_service::SecurityAnalysisService;

fn args(list: &[&str]) -> Vec<String> {
    list.iter().map(|s| s.to_string()).collect()
}

// ── Echo ───────────────────────────────────────────────────────────────

#[test]
fn test_echo_simple() {
    let cmd = EchoCommand::new();
    let (res, lines) = cmd.run(&args(&["Hello", "World"]));
    assert!(matches!(res, CommandResult::Success(_)));
    assert!(lines.iter().any(|l| l.contains("Hello World")));
}

#[test]
fn test_echo_uppercase() {
    let cmd = EchoCommand::new();
    let (_, lines) = cmd.run(&args(&["-u", "hello"]));
    assert!(lines.iter().any(|l| l.contains("HELLO")));
}

#[test]
fn test_echo_empty() {
    let cmd = EchoCommand::new();
    let (res, lines) = cmd.run(&[]);
    assert!(matches!(res, CommandResult::Success(_)));
    assert!(lines.iter().any(|l| l.contains("")));
}

#[test]
fn test_echo_repeat_with_separator() {
    let cmd = EchoCommand::new();
    let (_, lines) = cmd.run(&args(&["-r", "3", "-s", "|", "test"]));
    assert!(lines.iter().any(|l| l == "test|test|test"));
}

// ── Base64 ─────────────────────────────────────────────────────────────

#[test]
fn test_encode() {
    let cmd = Base64Command::new();
    let (res, lines) = cmd.run(&args(&["Hello World"]));
    assert!(matches!(res, CommandResult::Success(_)));
    assert!(lines.iter().any(|l| l.contains("SGVsbG8gV29ybGQ=")));
}

#[test]
fn test_decode() {
    let cmd = Base64Command::new();
    let (res, lines) = cmd.run(&args(&["-d", "SGVsbG8gV29ybGQ="]));
    assert!(matches!(res, CommandResult::Success(_)));
    assert!(lines.iter().any(|l| l.contains("Hello World")));
}

#[test]
fn test_no_args() {
    let cmd = Base64Command::new();
    let (res, _) = cmd.run(&[]);
    assert!(matches!(res, CommandResult::Failure { .. }));
}

#[test]
fn test_decode_text_content() {
    let cmd = Base64Command::new();
    let (res, lines) = cmd.decode_text("  SGVsbG8gV29ybGQ=  ", false);
    assert!(matches!(res, CommandResult::Success(_)));
    assert_eq!(lines, vec!["Hello World".to_string()]);
    let (bad, _) = cmd.decode_text("%%%", false);
    assert!(matches!(bad, CommandResult::Failure { .. }));
}

#[test]
fn test_decode_invalid_base64() {
    let cmd = Base64Command::new();
    let (res, _) = cmd.run(&args(&["-d", "!!!not-base64!!!"]));
    assert!(matches!(res, CommandResult::Failure { .. }));
}

// ── JSON ───────────────────────────────────────────────────────────────

#[test]
fn test_format_json() {
    let cmd = JsonCommand::new();
    let (res, lines) = cmd.run(&args(&[r#"{"name":"test","value":42}"#]));
    assert!(matches!(res, CommandResult::Success(_)));
    assert!(lines.iter().any(|l| l.contains("name")));
}

#[test]
fn test_validate_valid() {
    let cmd = JsonCommand::new();
    let (res, lines) = cmd.run(&args(&["--validate", r#"{"key":"value"}"#]));
    assert!(matches!(res, CommandResult::Success(_)));
    assert!(lines.iter().any(|l| l.contains("JSON valido")));
}

#[test]
fn test_validate_invalid() {
    let cmd = JsonCommand::new();
    let (res, _) = cmd.run(&args(&["--validate", r#"{"invalid"#]));
    assert!(matches!(res, CommandResult::Failure { .. }));
}

#[test]
fn test_compact() {
    let cmd = JsonCommand::new();
    let (_, lines) = cmd.run(&args(&["-c", r#"{ "a": 1, "b": 2 }"#]));
    assert!(lines.iter().any(|l| l.contains(r#"{"a":1,"b":2}"#)));
}

// ── Translations ───────────────────────────────────────────────────────

#[test]
fn test_english_translations_load() {
    let svc = I18nService::new(Language::English);
    assert_eq!(svc.t("app.title"), "HEFESTO Desktop");
    assert_eq!(svc.t("sidebar.dashboard"), "Dashboard");
}

#[test]
fn test_spanish_translations_load() {
    let svc = I18nService::new(Language::Spanish);
    assert_eq!(svc.t("app.title"), "HEFESTO Escritorio");
    assert_eq!(svc.t("sidebar.dashboard"), "Tablero");
}

#[test]
fn test_missing_key_returns_key() {
    let svc = I18nService::new(Language::English);
    assert_eq!(svc.t("nonexistent.key"), "nonexistent.key");
}

#[test]
fn test_t_args() {
    let svc = I18nService::new(Language::English);
    let result = svc.t_args("portinfo.kill.confirm", &["nginx", "80"]);
    assert_eq!(result, "Kill process nginx on port 80?");
}

#[test]
fn test_language_switch() {
    let mut svc = I18nService::new(Language::English);
    assert_eq!(svc.t("common.refresh"), "Refresh");
    svc.set_language(Language::Spanish);
    assert_eq!(svc.t("common.refresh"), "Actualizar");
}

#[test]
fn test_language_from_code() {
    assert_eq!(Language::from_code("en"), Language::English);
    assert_eq!(Language::from_code("es"), Language::Spanish);
    assert_eq!(Language::from_code("fr"), Language::English);
}

// ── Health check configuration ─────────────────────────────────────────

#[test]
fn test_create_with_default_timeout() {
    let svc = HealthCheckService::new();
    assert_eq!(svc.timeout_ms, 5000);
}

#[test]
fn test_create_with_custom_timeout() {
    let svc = HealthCheckService::with_timeout_ms(3000);
    assert_eq!(svc.timeout_ms, 3000);
}

#[test]
fn test_set_timeout() {
    let mut svc = HealthCheckService::new();
    svc.set_timeout_ms(1000);
    assert_eq!(svc.timeout_ms, 1000);
}

// ── Security analysis ──────────────────────────────────────────────────

fn make_binding(port: u16, addr: &str, user: &str, name: &str) -> PortBinding {
    PortBinding {
        port,
        protocol: Protocol::Tcp,
        state: ConnectionState::Listen,
        pid: 100,
        process_name: name.to_string(),
        command_line: String::new(),
        user: user.to_string(),
        local_address: addr.to_string(),
        remote_address: String::new(),
        remote_port: 0,
    }
}

#[test]
fn test_clean_report() {
    let svc = SecurityAnalysisService::new();
    let binding = make_binding(8080, "127.0.0.1", "appuser", "java");
    let report = svc.analyze(&[binding]);
    assert!(report.is_clean());
}

#[test]
fn test_exposed_database_high() {
    let svc = SecurityAnalysisService::new();
    let binding = make_binding(3306, "0.0.0.0", "mysql", "mysqld");
    let flags = svc.analyze_binding(&binding);
    assert!(!flags.is_empty());
    assert!(flags.iter().any(|f| f.severity == Severity::High));
}

#[test]
fn test_exposed_database_critical_when_root() {
    let svc = SecurityAnalysisService::new();
    let binding = make_binding(3306, "0.0.0.0", "root", "mysqld");
    let flags = svc.analyze_binding(&binding);
    assert!(flags.iter().any(|f| f.severity == Severity::Critical));
}

#[test]
fn test_local_debug_port_info() {
    let svc = SecurityAnalysisService::new();
    let binding = make_binding(5005, "127.0.0.1", "user", "java");
    let flags = svc.analyze_binding(&binding);
    assert!(flags.iter().any(|f| f.severity == Severity::Info));
}

#[test]
fn test_privileged_process_low_port() {
    let svc = SecurityAnalysisService::new();
    let binding = make_binding(80, "127.0.0.1", "root", "nginx");
    let flags = svc.analyze_binding(&binding);
    let priv_flag = flags.iter().find(|f| f.category == SecurityCategory::Privilege);
    assert!(priv_flag.is_some());
    assert_eq!(priv_flag.unwrap().severity, Severity::Warning);
}

#[test]
fn test_quick_summary_with_issues() {
    let svc = SecurityAnalysisService::new();
    let binding = make_binding(3306, "0.0.0.0", "root", "mysqld");
    let summary = svc.quick_summary(&[binding]);
    assert!(summary.contains("critical"));
}

#[test]
fn test_report_sorted_by_severity() {
    let svc = SecurityAnalysisService::new();
    let bindings = vec![
        make_binding(12345, "0.0.0.0", "user", "custom"),
        make_binding(5005, "0.0.0.0", "root", "java"),
    ];
    let report = svc.analyze(&bindings);
    let sorted = report.sorted_by_severity();
    assert!(!sorted.is_empty());
    assert!(sorted[0].severity.level() >= sorted.last().unwrap().severity.level());
}
