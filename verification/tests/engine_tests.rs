//! Tests of the alert engine: simple rules, `for` timers, two-point deltas,
//! and history management.

use std::time::{Duration, Instant};

/// Waits the given number of milliseconds.
fn wait_ms(ms: u64) {
    let start = Instant::now();
    while start.elapsed() < Duration::from_millis(ms) {}
}

use hefesto::procwatch::engine::AlertEngine;
use hefesto::procwatch::parser::AlertParser;
use hefesto::procwatch::rule::{AlertRule, ComparisonOperator, MetricType, ThresholdUnit, WindowCondition};
use hefesto::procwatch::sample::ProcessSample;

fn make_sample(pid: u32, cpu_milli_percent: i64, rss: u64) -> ProcessSample {
    let mut s = ProcessSample::minimal(pid, "test", "user");
    s.cpu.percent_instant = cpu_milli_percent;
    s.memory.rss_bytes = rss;
    s
}

#[test]
fn test_simple_rule_triggered() {
    let mut engine = AlertEngine::with_default_history();
    let rule = AlertRule::simple(
        MetricType::Cpu,
        ComparisonOperator::Greater,
        80_000,
        ThresholdUnit::Percent,
    );
    let sample = make_sample(1, 90_000, 0);
    let results = engine.evaluate(&sample, &[rule]);
    assert_eq!(results.len(), 1);
    assert!(results[0].triggered);
}

#[test]
fn test_simple_rule_ok() {
    let mut engine = AlertEngine::with_default_history();
    let rule = AlertRule::simple(
        MetricType::Cpu,
        ComparisonOperator::Greater,
        80_000,
        ThresholdUnit::Percent,
    );
    let sample = make_sample(1, 50_000, 0);
    let results = engine.evaluate(&sample, &[rule]);
    assert_eq!(results.len(), 1);
    assert!(!results[0].triggered);
}

#[test]
fn test_for_condition_not_enough_time() {
    let mut engine = AlertEngine::with_default_history();
    let rule = AlertRule::windowed(
        MetricType::Cpu,
        ComparisonOperator::Greater,
        80_000,
        ThresholdUnit::Percent,
        10,
        WindowCondition::For,
    );
    let sample = make_sample(1, 90_000, 0);
    // First evaluation: the timer just started.
    let results = engine.evaluate(&sample, &[rule]);
    assert!(!results[0].triggered);
}

#[test]
fn test_for_condition_resets_on_break() {
    let mut engine = AlertEngine::with_default_history();
    let rule = AlertRule::windowed(
        MetricType::Cpu,
        ComparisonOperator::Greater,
        80_000,
        ThresholdUnit::Percent,
        1,
        WindowCondition::For,
    );
    // Condition met: timer starts.
    let high = make_sample(1, 90_000, 0);
    engine.evaluate(&high, std::slice::from_ref(&rule));
    // Condition breaks: timer removed.
    let low = make_sample(1, 50_000, 0);
    engine.evaluate(&low, std::slice::from_ref(&rule));
    // Even after the window passes, the rule does not fire: the timer was
    // reset and restarts only now.
    wait_ms(1100);
    let high2 = make_sample(1, 90_000, 0);
    let results = engine.evaluate(&high2, &[rule]);
    assert!(!results[0].triggered);
}

#[test]
fn test_for_condition_fires_after_window() {
    let mut engine = AlertEngine::with_default_history();
    let rule = AlertRule::windowed(
        MetricType::Cpu,
        ComparisonOperator::Greater,
        80_000,
        ThresholdUnit::Percent,
        1,
        WindowCondition::For,
    );
    let high = make_sample(1, 90_000, 0);
    let first = engine.evaluate(&high, std::slice::from_ref(&rule));
    assert!(!first[0].triggered);
    wait_ms(1100);
    let results = engine.evaluate(&high, &[rule]);
    assert!(results[0].triggered);
}

#[test]
fn test_clear_history() {
    let mut engine = AlertEngine::with_default_history();
    let rule = AlertRule::simple(
        MetricType::Cpu,
        ComparisonOperator::Greater,
        80_000,
        ThresholdUnit::Percent,
    );
    let sample = make_sample(42, 90_000, 0);
    engine.evaluate(&sample, &[rule]);
    assert!(engine.has_history(42));
    engine.clear_history(42);
    assert!(!engine.has_history(42));
}

#[test]
fn test_clear_history_keeps_other_pids() {
    let mut engine = AlertEngine::with_default_history();
    let rule = AlertRule::windowed(
        MetricType::Cpu,
        ComparisonOperator::Greater,
        80_000,
        ThresholdUnit::Percent,
        30,
        WindowCondition::For,
    );
    engine.evaluate(&make_sample(1, 90_000, 0), std::slice::from_ref(&rule));
    engine.evaluate(&make_sample(2, 90_000, 0), std::slice::from_ref(&rule));
    assert_eq!(engine.trigger_count(), 2);
    engine.clear_history(1);
    assert!(!engine.has_history(1));
    assert!(engine.has_history(2));
    // Only PID 2's timer is left.
    assert_eq!(engine.trigger_count(), 1);
}

#[test]
fn test_clear_all_history() {
    let mut engine = AlertEngine::with_default_history();
    let rule = AlertRule::simple(
        MetricType::Cpu,
        ComparisonOperator::Greater,
        80_000,
        ThresholdUnit::Percent,
    );
    engine.evaluate(&make_sample(1, 90_000, 0), std::slice::from_ref(&rule));
    engine.evaluate(&make_sample(2, 90_000, 0), std::slice::from_ref(&rule));
    engine.clear_all_history();
    assert!(engine.history_is_empty());
    assert_eq!(engine.trigger_count(), 0);
}

#[test]
fn test_multiple_rules() {
    let mut engine = AlertEngine::with_default_history();
    let rules = vec![
        AlertRule::simple(
            MetricType::Cpu,
            ComparisonOperator::Greater,
            80_000,
            ThresholdUnit::Percent,
        ),
        AlertRule::simple(
            MetricType::Rss,
            ComparisonOperator::Greater,
            1_000_000_000,
            ThresholdUnit::Bytes,
        ),
    ];
    let sample = make_sample(1, 90_000, 2_000_000);
    let results = engine.evaluate(&sample, &rules);
    assert_eq!(results.len(), 2);
    assert!(results[0].triggered);
    assert!(results[1].triggered);
}

#[test]
fn test_engine_scenario_parsed_rules() {
    // Default 600s history; PID 1 at cpu=95%, rss=2_000_000 bytes against
    // [cpu>80%, rss>1MB]: two results, both triggered.
    let parser = AlertParser::new();
    let rules = vec![
        parser.parse("cpu>80%").unwrap(),
        parser.parse("rss>1MB").unwrap(),
    ];
    let mut engine = AlertEngine::with_default_history();
    let sample = make_sample(1, 95_000, 2_000_000);
    let results = engine.evaluate(&sample, &rules);
    assert_eq!(results.len(), 2);
    assert!(results[0].triggered);
    assert!(results[1].triggered);
}

#[test]
fn test_increasing_needs_two_samples() {
    let mut engine = AlertEngine::with_default_history();
    let rule = AlertRule::windowed(
        MetricType::Rss,
        ComparisonOperator::Greater,
        0,
        ThresholdUnit::Bytes,
        60,
        WindowCondition::Increasing,
    );
    // One recorded sample: never triggers, whatever the threshold.
    let results = engine.evaluate(&make_sample(1, 0, 1_000), std::slice::from_ref(&rule));
    assert!(!results[0].triggered);
}

#[test]
fn test_increasing_two_point_delta() {
    let mut engine = AlertEngine::with_default_history();
    // rss must rise by at least 1000 bytes over a minute.
    let rule = AlertRule::windowed(
        MetricType::Rss,
        ComparisonOperator::Greater,
        1_000_000,
        ThresholdUnit::Bytes,
        60,
        WindowCondition::Increasing,
    );
    engine.evaluate(&make_sample(1, 0, 1_000), std::slice::from_ref(&rule));
    let results = engine.evaluate(&make_sample(1, 0, 2_500), std::slice::from_ref(&rule));
    assert!(results[0].triggered);
    // A smaller rise for another process stays quiet.
    engine.evaluate(&make_sample(2, 0, 1_000), std::slice::from_ref(&rule));
    let quiet = engine.evaluate(&make_sample(2, 0, 1_500), std::slice::from_ref(&rule));
    assert!(!quiet[0].triggered);
}

#[test]
fn test_decreasing_two_point_delta() {
    let mut engine = AlertEngine::with_default_history();
    let rule = AlertRule::windowed(
        MetricType::Threads,
        ComparisonOperator::Greater,
        5_000,
        ThresholdUnit::NoUnit,
        60,
        WindowCondition::Decreasing,
    );
    let mut first = make_sample(1, 0, 0);
    first.thread_count = 50;
    engine.evaluate(&first, std::slice::from_ref(&rule));
    let mut second = make_sample(1, 0, 0);
    second.thread_count = 40;
    let results = engine.evaluate(&second, std::slice::from_ref(&rule));
    assert!(results[0].triggered);
}

#[test]
fn test_alert_message_text() {
    let mut engine = AlertEngine::with_default_history();
    let rule = AlertRule::simple(
        MetricType::Cpu,
        ComparisonOperator::Greater,
        80_000,
        ThresholdUnit::Percent,
    );
    let sample = make_sample(7, 90_000, 0);
    let results = engine.evaluate(&sample, std::slice::from_ref(&rule));
    assert_eq!(
        results[0].message,
        "ALERT: cpu > 80% - current: 90.00, threshold: 80.00 (pid=7 test)"
    );
    let ok = engine.evaluate(&make_sample(7, 10_000, 0), &[rule]);
    assert_eq!(ok[0].message, "OK: cpu > 80% - current: 10.00 (pid=7 test)");
}

#[test]
fn test_status_line_formatting() {
    let mut engine = AlertEngine::with_default_history();
    let rule = AlertRule::simple(
        MetricType::Cpu,
        ComparisonOperator::Greater,
        80_000,
        ThresholdUnit::Percent,
    );
    let sample = make_sample(7, 90_000, 0);
    let results = engine.evaluate(&sample, &[rule]);
    assert_eq!(results[0].status_line(), "[TRIGGERED] cpu = 90.0% (threshold: 80.0%)");
}
