//! Tests of the formatters and the small parsers: CSV escaping, Docker
//! port lines, CPU time fields, JSON escaping, and number rendering.

use hefesto::docker::DockerService;
use hefesto::features::procwatch_cmd::{escape_json, parse_dump_type, parse_interval_ms};
use hefesto::numfmt::{milli_0dp, milli_1dp, milli_2dp, milli_plain, u64_str};
use hefesto::output::csv_formatter::{csv_row, escape_csv, CsvFormatter};
use hefesto::output::table_formatter::TableFormatter;
use hefesto::output::OutputFormat;
use hefesto::portinfo::binding::{PortBinding, Protocol};
use hefesto::portinfo::enriched::EnrichedPortBinding;
use hefesto::portinfo::enrichment::parse_cpu_time;
use hefesto::portinfo::health::{HealthCheckResult, HealthStatus};
use hefesto::procwatch::monitor::{DumpType, TopMode};
use hefesto::procwatch::sample::format_bytes;

#[test]
fn test_escape_csv_simple() {
    assert_eq!(escape_csv("hello"), "hello");
}

#[test]
fn test_escape_csv_with_comma() {
    assert_eq!(escape_csv("hello,world"), "\"hello,world\"");
}

#[test]
fn test_escape_csv_with_quote() {
    assert_eq!(escape_csv("say \"hi\""), "\"say \"\"hi\"\"\"");
}

#[test]
fn test_escape_csv_with_newline() {
    assert_eq!(escape_csv("line1\nline2"), "\"line1\nline2\"");
}

#[test]
fn test_csv_row() {
    let vals = vec!["a".to_string(), "b".to_string(), "c".to_string()];
    assert_eq!(csv_row(&vals), "a,b,c\n");
}

#[test]
fn test_format_empty() {
    let formatter = CsvFormatter::new();
    let result = formatter.format(&[]);
    assert!(result.starts_with("protocol,"));
    assert_eq!(result.lines().count(), 1);
}

#[test]
fn test_format_single_binding() {
    let formatter = CsvFormatter::new();
    let binding = PortBinding::listen(8080, Protocol::Tcp, 1234, "java");
    let enriched = EnrichedPortBinding::from_binding(binding);
    let result = formatter.format(&[enriched]);
    let lines: Vec<&str> = result.lines().collect();
    assert_eq!(lines.len(), 2);
    assert!(lines[1].contains("8080"));
    assert!(lines[1].contains("java"));
}

// ── Docker port lines ──────────────────────────────────────────────────

#[test]
fn test_parse_port_line_standard() {
    let mapping = DockerService::parse_port_line("80/tcp -> 0.0.0.0:8080");
    assert!(mapping.is_some());
    let m = mapping.unwrap();
    assert_eq!(m.host_port, 8080);
    assert_eq!(m.container_port, 80);
    assert_eq!(m.protocol, "tcp");
    assert_eq!(m.host_ip, "0.0.0.0");
}

#[test]
fn test_parse_port_line_ipv6() {
    let mapping = DockerService::parse_port_line("80/tcp -> [::]:8080");
    assert!(mapping.is_some());
    let m = mapping.unwrap();
    assert_eq!(m.host_port, 8080);
    assert_eq!(m.host_ip, "::");
}

#[test]
fn test_parse_port_line_invalid() {
    assert!(DockerService::parse_port_line("invalid").is_none());
    assert!(DockerService::parse_port_line("").is_none());
}

#[test]
fn test_parse_port_line_udp() {
    let mapping = DockerService::parse_port_line("53/udp -> 0.0.0.0:5353");
    assert!(mapping.is_some());
    let m = mapping.unwrap();
    assert_eq!(m.protocol, "udp");
    assert_eq!(m.container_port, 53);
    assert_eq!(m.host_port, 5353);
}

// ── CPU time fields ────────────────────────────────────────────────────

#[test]
fn test_parse_cpu_time_hhmmss() {
    assert_eq!(parse_cpu_time("01:30:45"), (3600 + 30 * 60 + 45) * 1000);
}

#[test]
fn test_parse_cpu_time_mmss() {
    assert_eq!(parse_cpu_time("05:30"), (5 * 60 + 30) * 1000);
}

#[test]
fn test_parse_cpu_time_with_fractional() {
    assert_eq!(parse_cpu_time("01:30:45.67"), (3600 + 30 * 60 + 45) * 1000);
}

#[test]
fn test_parse_cpu_time_zero() {
    assert_eq!(parse_cpu_time("00:00:00"), 0);
}

#[test]
fn test_parse_cpu_time_invalid() {
    assert_eq!(parse_cpu_time("invalid"), 0);
}

// ── Procwatch command helpers ──────────────────────────────────────────

#[test]
fn test_parse_dump_type() {
    assert_eq!(parse_dump_type("lsof"), Some(DumpType::Lsof));
    assert_eq!(parse_dump_type("LSOF"), Some(DumpType::Lsof));
    assert_eq!(parse_dump_type("pstack"), Some(DumpType::Pstack));
    assert_eq!(parse_dump_type("unknown"), None);
}

#[test]
fn test_escape_json() {
    assert_eq!(escape_json(r#"hello "world""#), r#"hello \"world\""#);
    assert_eq!(escape_json("line1\nline2"), r"line1\nline2");
    assert_eq!(escape_json("path\\to\\file"), r"path\\to\\file");
    assert_eq!(escape_json("tab\there"), r"tab\there");
}

#[test]
fn test_parse_interval() {
    assert_eq!(parse_interval_ms("500ms"), 500);
    assert_eq!(parse_interval_ms("1s"), 1000);
    assert_eq!(parse_interval_ms("2"), 2000);
    assert_eq!(parse_interval_ms("5m"), 300_000);
    assert_eq!(parse_interval_ms("1h"), 3_600_000);
    assert_eq!(parse_interval_ms("garbage"), 1000);
    assert_eq!(parse_interval_ms(""), 1000);
    assert_eq!(parse_interval_ms("10x"), 1000);
}

#[test]
fn test_dump_type_display() {
    assert_eq!(TopMode::Cpu.label(), "CPU");
    assert_eq!(TopMode::Memory.label(), "MEMORY");
}

// ── Certificate names ──────────────────────────────────────────────────

#[test]
fn test_extract_cn() {
    assert_eq!(TableFormatter::extract_cn("CN=example.com,O=Org"), "example.com");
}

#[test]
fn test_output_format_selection() {
    assert_eq!(OutputFormat::from_str_loose("json"), OutputFormat::Json);
    assert_eq!(OutputFormat::from_str_loose("CSV"), OutputFormat::Csv);
    assert_eq!(OutputFormat::from_str_loose("whatever"), OutputFormat::Table);
}

// ── Number rendering ───────────────────────────────────────────────────

#[test]
fn test_milli_rendering() {
    assert_eq!(u64_str(0), "0");
    assert_eq!(u64_str(90210), "90210");
    assert_eq!(milli_plain(80_000), "80");
    assert_eq!(milli_plain(1_500), "1.5");
    assert_eq!(milli_plain(1_250), "1.25");
    assert_eq!(milli_plain(1_234), "1.234");
    assert_eq!(milli_plain(-500), "-0.5");
    assert_eq!(milli_0dp(80_000), "80");
    // Rounds half to even, as floats are rendered.
    assert_eq!(milli_0dp(80_500), "80");
    assert_eq!(milli_0dp(81_500), "82");
    assert_eq!(milli_1dp(90_000), "90.0");
    assert_eq!(milli_1dp(90_150), "90.2");
    assert_eq!(milli_2dp(90_000), "90.00");
    assert_eq!(milli_2dp(1_239), "1.24");
}

#[test]
fn test_format_bytes_scaling() {
    assert_eq!(format_bytes(512), "512 B");
    assert_eq!(format_bytes(2048), "2.0 KB");
    assert_eq!(format_bytes(1536), "1.5 KB");
    assert_eq!(format_bytes(5 * 1024 * 1024), "5.0 MB");
    assert_eq!(format_bytes(3 * 1024 * 1024 * 1024 / 2), "1.50 GB");
}

#[test]
fn test_health_check_records() {
    let r = HealthCheckResult::tcp(8080, HealthStatus::Reachable, 42, "OK");
    assert_eq!(r.port, 8080);
    assert_eq!(r.protocol, "TCP");
    assert!(r.is_healthy());
    let bad = HealthCheckResult::tcp(8080, HealthStatus::Refused, 3, "no");
    assert!(!bad.is_healthy());
}
