//! Tests of the alert-rule DSL: the vocabulary, the parser, and threshold
//! normalization. Thresholds and metric values are integer milli units.

use hefesto::procwatch::parser::{AlertParser, AlertParserError};
use hefesto::procwatch::rule::{
    AlertRule, ComparisonOperator, MetricType, ThresholdUnit, WindowCondition,
};
use hefesto::procwatch::sample::ProcessSample;

fn parser() -> AlertParser {
    AlertParser::new()
}

#[test]
fn test_metric_type_from_str() {
    assert_eq!(MetricType::parse("cpu").unwrap(), MetricType::Cpu);
    assert_eq!(MetricType::parse("CPU%").unwrap(), MetricType::Cpu);
    assert_eq!(MetricType::parse("rss").unwrap(), MetricType::Rss);
    assert_eq!(MetricType::parse("mem").unwrap(), MetricType::Rss);
    assert_eq!(MetricType::parse("memory").unwrap(), MetricType::Rss);
    assert_eq!(MetricType::parse("virtual").unwrap(), MetricType::Virtual);
    assert_eq!(MetricType::parse("threads").unwrap(), MetricType::Threads);
    assert!(MetricType::parse("invalid").is_err());
}

#[test]
fn test_operator_evaluate() {
    assert!(ComparisonOperator::Greater.evaluate(90_000, 80_000));
    assert!(!ComparisonOperator::Greater.evaluate(80_000, 90_000));
    assert!(ComparisonOperator::GreaterEq.evaluate(80_000, 80_000));
    assert!(ComparisonOperator::Less.evaluate(70_000, 80_000));
    assert!(ComparisonOperator::Equals.evaluate(80_000, 80_000));
    assert!(ComparisonOperator::NotEquals.evaluate(70_000, 80_000));
}

#[test]
fn test_simple_rule_evaluate() {
    let rule = AlertRule::simple(
        MetricType::Cpu,
        ComparisonOperator::Greater,
        80_000,
        ThresholdUnit::Percent,
    );
    let mut sample = ProcessSample::minimal(1, "test", "user");
    sample.cpu.percent_instant = 90_000;
    assert!(rule.evaluate(&sample));
    sample.cpu.percent_instant = 70_000;
    assert!(!rule.evaluate(&sample));
}

#[test]
fn test_describe() {
    let rule = AlertRule::simple(
        MetricType::Cpu,
        ComparisonOperator::Greater,
        80_000,
        ThresholdUnit::Percent,
    );
    assert_eq!(rule.describe(), "cpu > 80%");
}

#[test]
fn test_describe_windowed() {
    let rule = AlertRule::windowed(
        MetricType::Cpu,
        ComparisonOperator::Greater,
        80_000,
        ThresholdUnit::Percent,
        30,
        WindowCondition::For,
    );
    assert_eq!(rule.describe(), "cpu > 80% for 30s");
}

#[test]
fn test_threshold_unit_to_bytes() {
    // 1.5 GiB in milli bytes.
    assert_eq!(ThresholdUnit::Gb.to_bytes(1_500), 1_500i128 * 1024 * 1024 * 1024);
    assert_eq!(ThresholdUnit::Mb.to_bytes(100_000), 100_000i128 * 1024 * 1024);
    assert_eq!(ThresholdUnit::Kb.to_bytes(512_000), 512_000i128 * 1024);
}

// ── Basic parsing ──────────────────────────────────────────────────────

#[test]
fn test_parse_cpu_percent() {
    let rule = parser().parse("cpu>80%").unwrap();
    assert_eq!(rule.metric, MetricType::Cpu);
    assert_eq!(rule.operator, ComparisonOperator::Greater);
    assert_eq!(rule.threshold, 80_000);
    assert_eq!(rule.unit, ThresholdUnit::Percent);
    assert!(rule.window.is_none());
    assert!(rule.window_condition.is_none());
}

#[test]
fn test_parse_rss_gb() {
    let rule = parser().parse("rss>1.5GB").unwrap();
    assert_eq!(rule.metric, MetricType::Rss);
    assert_eq!(rule.operator, ComparisonOperator::Greater);
    assert_eq!(rule.threshold, 1_500);
    assert_eq!(rule.unit, ThresholdUnit::Gb);
    assert!(rule.window.is_none());
}

#[test]
fn test_parse_rss_mb() {
    let rule = parser().parse("mem>=512MB").unwrap();
    assert_eq!(rule.metric, MetricType::Rss);
    assert_eq!(rule.operator, ComparisonOperator::GreaterEq);
    assert_eq!(rule.threshold, 512_000);
    assert_eq!(rule.unit, ThresholdUnit::Mb);
}

#[test]
fn test_parse_threads_no_unit() {
    let rule = parser().parse("threads>100").unwrap();
    assert_eq!(rule.metric, MetricType::Threads);
    assert_eq!(rule.operator, ComparisonOperator::Greater);
    assert_eq!(rule.threshold, 100_000);
    assert_eq!(rule.unit, ThresholdUnit::NoUnit);
}

#[test]
fn test_parse_fd_count() {
    let rule = parser().parse("fd>1000").unwrap();
    assert_eq!(rule.metric, MetricType::Fd);
    assert_eq!(rule.operator, ComparisonOperator::Greater);
    assert_eq!(rule.threshold, 1_000_000);
}

#[test]
fn test_parse_virtual_kb() {
    let rule = parser().parse("virtual<=2048KB").unwrap();
    assert_eq!(rule.metric, MetricType::Virtual);
    assert_eq!(rule.operator, ComparisonOperator::LessEq);
    assert_eq!(rule.unit, ThresholdUnit::Kb);
}

// ── Operators ──────────────────────────────────────────────────────────

#[test]
fn test_parse_all_operators() {
    let cases = [
        ("cpu>50%", ComparisonOperator::Greater),
        ("cpu>=50%", ComparisonOperator::GreaterEq),
        ("cpu<50%", ComparisonOperator::Less),
        ("cpu<=50%", ComparisonOperator::LessEq),
        ("cpu==50%", ComparisonOperator::Equals),
        ("cpu!=50%", ComparisonOperator::NotEquals),
    ];
    for (expr, expected_op) in &cases {
        let rule = parser().parse(expr).unwrap();
        assert_eq!(rule.operator, *expected_op, "Failed for expression: {expr}");
    }
}

// ── Windowed rules ─────────────────────────────────────────────────────

#[test]
fn test_parse_for_window() {
    let rule = parser().parse("cpu>80% for 30s").unwrap();
    assert_eq!(rule.metric, MetricType::Cpu);
    assert_eq!(rule.operator, ComparisonOperator::Greater);
    assert_eq!(rule.threshold, 80_000);
    assert_eq!(rule.window, Some(30));
    assert_eq!(rule.window_condition, Some(WindowCondition::For));
}

#[test]
fn test_parse_increasing_window() {
    let rule = parser().parse("rss>2GB increasing 5m").unwrap();
    assert_eq!(rule.metric, MetricType::Rss);
    assert_eq!(rule.window, Some(300));
    assert_eq!(rule.window_condition, Some(WindowCondition::Increasing));
}

#[test]
fn test_parse_decreasing_window() {
    let rule = parser().parse("threads>10 decreasing 1h").unwrap();
    assert_eq!(rule.metric, MetricType::Threads);
    assert_eq!(rule.window, Some(3600));
    assert_eq!(rule.window_condition, Some(WindowCondition::Decreasing));
}

// ── Metric aliases ─────────────────────────────────────────────────────

#[test]
fn test_metric_aliases() {
    assert_eq!(parser().parse("cpu%>50").unwrap().metric, MetricType::Cpu);
    assert_eq!(parser().parse("mem>100MB").unwrap().metric, MetricType::Rss);
    assert_eq!(parser().parse("memory>100MB").unwrap().metric, MetricType::Rss);
    assert_eq!(parser().parse("vsz>100MB").unwrap().metric, MetricType::Virtual);
    assert_eq!(parser().parse("virt>100MB").unwrap().metric, MetricType::Virtual);
    assert_eq!(parser().parse("fds>100").unwrap().metric, MetricType::Fd);
    assert_eq!(parser().parse("files>100").unwrap().metric, MetricType::Fd);
    assert_eq!(parser().parse("read>100MB").unwrap().metric, MetricType::ReadBytes);
    assert_eq!(parser().parse("write>100MB").unwrap().metric, MetricType::WriteBytes);
}

// ── Default units ──────────────────────────────────────────────────────

#[test]
fn test_default_unit_for_cpu() {
    let rule = parser().parse("cpu>80").unwrap();
    assert_eq!(rule.unit, ThresholdUnit::Percent);
}

#[test]
fn test_default_unit_for_memory() {
    let rule = parser().parse("rss>1024").unwrap();
    assert_eq!(rule.unit, ThresholdUnit::Bytes);
}

#[test]
fn test_default_unit_for_threads() {
    let rule = parser().parse("threads>50").unwrap();
    assert_eq!(rule.unit, ThresholdUnit::NoUnit);
}

#[test]
fn test_default_unit_for_all_byte_metrics() {
    assert_eq!(parser().parse("virtual>10").unwrap().unit, ThresholdUnit::Bytes);
    assert_eq!(parser().parse("read>10").unwrap().unit, ThresholdUnit::Bytes);
    assert_eq!(parser().parse("write>10").unwrap().unit, ThresholdUnit::Bytes);
    assert_eq!(parser().parse("fd>10").unwrap().unit, ThresholdUnit::NoUnit);
}

// ── Whitespace handling ────────────────────────────────────────────────

#[test]
fn test_whitespace_tolerance() {
    let rule = parser().parse("  cpu  >  80  %  for  30  s  ").unwrap();
    assert_eq!(rule.metric, MetricType::Cpu);
    assert_eq!(rule.threshold, 80_000);
    assert_eq!(rule.window, Some(30));
}

// ── Case insensitivity ─────────────────────────────────────────────────

#[test]
fn test_case_insensitive() {
    let rule = parser().parse("CPU>80% FOR 30s").unwrap();
    assert_eq!(rule.metric, MetricType::Cpu);
    assert_eq!(rule.window_condition, Some(WindowCondition::For));
}

// ── Error cases ────────────────────────────────────────────────────────

#[test]
fn test_empty_expression() {
    let result = parser().parse("");
    assert!(result.is_err());
    assert!(matches!(result.unwrap_err(), AlertParserError::EmptyExpression));
}

#[test]
fn test_whitespace_only_expression() {
    let result = parser().parse("   ");
    assert!(result.is_err());
    assert!(matches!(result.unwrap_err(), AlertParserError::EmptyExpression));
}

#[test]
fn test_invalid_expression_format() {
    let result = parser().parse("not a valid expression");
    assert!(result.is_err());
    assert!(matches!(result.unwrap_err(), AlertParserError::InvalidExpression(_)));
}

#[test]
fn test_unknown_metric() {
    let result = parser().parse("bogus>80%");
    assert!(result.is_err());
    assert!(matches!(result.unwrap_err(), AlertParserError::UnknownMetric(_)));
}

#[test]
fn test_garbage_is_invalid() {
    assert!(parser().parse("garbage").is_err());
    assert!(matches!(
        parser().parse("garbage").unwrap_err(),
        AlertParserError::InvalidExpression(_)
    ));
}

#[test]
fn test_invalid_threshold() {
    let result = parser().parse("cpu>1.2.3");
    assert!(result.is_err());
    assert!(matches!(result.unwrap_err(), AlertParserError::InvalidThreshold(_)));
}

#[test]
fn test_invalid_duration() {
    let result = parser().parse("cpu>80% for 1..2s");
    assert!(result.is_err());
    assert!(matches!(result.unwrap_err(), AlertParserError::InvalidDuration(_)));
}

// ── Validation helper ──────────────────────────────────────────────────

#[test]
fn test_is_valid() {
    assert!(parser().is_valid("cpu>80%"));
    assert!(parser().is_valid("rss>1.5GB for 30s"));
    assert!(!parser().is_valid(""));
    assert!(!parser().is_valid("garbage"));
}

// ── Normalized threshold ───────────────────────────────────────────────

#[test]
fn test_normalize_threshold_cpu() {
    let rule = parser().parse("cpu>80%").unwrap();
    assert_eq!(rule.normalize_threshold(), 80_000);
}

#[test]
fn test_normalize_threshold_gb() {
    let rule = parser().parse("rss>1.5GB").unwrap();
    // 1.5 * 1024^3 bytes, in milli bytes.
    let expected: i128 = 1_500i128 * 1024 * 1024 * 1024;
    assert_eq!(rule.normalize_threshold(), expected);
}

#[test]
fn test_normalize_threshold_threads() {
    let rule = parser().parse("threads>100").unwrap();
    assert_eq!(rule.normalize_threshold(), 100_000);
}

// ── Expression string preserved ────────────────────────────────────────

#[test]
fn test_expression_preserved() {
    let rule = parser().parse("cpu>80% for 30s").unwrap();
    assert_eq!(rule.expression, "cpu>80% for 30s");
}

// ── Read/write bytes ───────────────────────────────────────────────────

#[test]
fn test_parse_read_bytes() {
    let rule = parser().parse("read>100MB").unwrap();
    assert_eq!(rule.metric, MetricType::ReadBytes);
    assert_eq!(rule.unit, ThresholdUnit::Mb);
}

#[test]
fn test_parse_write_bytes() {
    let rule = parser().parse("write>500KB").unwrap();
    assert_eq!(rule.metric, MetricType::WriteBytes);
    assert_eq!(rule.unit, ThresholdUnit::Kb);
}

#[test]
fn test_parse_equals_and_angle_tokens() {
    // The grammar lists `=` and `<>` beside `==` and `!=`.
    let eq = parser().parse("cpu=80").unwrap();
    assert_eq!(eq.operator, ComparisonOperator::Equals);
    assert_eq!(eq.threshold, 80_000);
    let ne = parser().parse("cpu<>80").unwrap();
    assert_eq!(ne.operator, ComparisonOperator::NotEquals);
    let ne_spaced = parser().parse("threads <> 10").unwrap();
    assert_eq!(ne_spaced.operator, ComparisonOperator::NotEquals);
}

#[test]
fn test_syntax_help_stable() {
    let help = AlertParser::syntax_help();
    assert!(help.starts_with("Alert DSL Syntax:"));
    assert!(help.contains("cpu>80%"));
    assert!(help.contains("rss>2GB increasing 5m"));
}
