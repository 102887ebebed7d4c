//! The immutable outcome record of one rule evaluation.

use vstd::prelude::*;

use crate::clock::clock_now_millis;
use crate::numfmt::{abs, milli_1dp, spec_digits, spec_milli_1dp, spec_milli_2dp, spec_signed, milli_2dp, u64_str};
use crate::procwatch::rule::{same_rule, AlertRule, MetricType};
use crate::procwatch::sample::{format_bytes, spec_format_bytes, ProcessSample};

verus! {

/// Result of an alert evaluation. Values are in milli units; the threshold
/// is normalized to the metric's base unit; the timestamp is milliseconds
/// since the Unix epoch.
#[derive(Debug)]
pub struct AlertResult {
    pub rule: AlertRule,
    pub triggered: bool,
    pub current_value: i128,
    pub threshold: i128,
    pub pid: u32,
    pub process_name: String,
    pub timestamp: u64,
    pub message: String,
}

/// A signed milli value rendered with two decimals, as the alert messages
/// show values.
pub open spec fn spec_value_2dp(v: int) -> Seq<char> {
    spec_signed(v, spec_milli_2dp(abs(v) as nat))
}

/// The message of a triggered alert.
pub open spec fn spec_alert_message(rule: &AlertRule, value: int, sample: &ProcessSample) -> Seq<
    char,
> {
    "ALERT: "@ + rule.spec_describe() + " - current: "@ + spec_value_2dp(value) + ", threshold: "@
        + spec_value_2dp(rule.spec_normalized_threshold()) + " (pid="@ + spec_digits(
        sample.pid as nat,
    ) + " "@ + sample.name@ + ")"@
}

/// The message of a non-triggered (OK) evaluation.
pub open spec fn spec_ok_message(rule: &AlertRule, value: int, sample: &ProcessSample) -> Seq<
    char,
> {
    "OK: "@ + rule.spec_describe() + " - current: "@ + spec_value_2dp(value) + " (pid="@
        + spec_digits(sample.pid as nat) + " "@ + sample.name@ + ")"@
}

impl AlertResult {
    /// Creates a triggered alert result; the timestamp is read from the wall
    /// clock and is the one field left open.
    pub fn triggered(rule: &AlertRule, current_value: i128, sample: &ProcessSample) -> (r:
        AlertResult)
        requires
            current_value > i128::MIN,
        ensures
            r.triggered == true,
            same_rule(&r.rule, rule),
            r.current_value == current_value,
            r.threshold == rule.spec_normalized_threshold(),
            r.pid == sample.pid,
            r.process_name@ == sample.name@,
            r.message@ == spec_alert_message(rule, current_value as int, sample),
    {
        proof {
            reveal_strlit("ALERT: ");
            reveal_strlit(" - current: ");
            reveal_strlit(", threshold: ");
            reveal_strlit(" (pid=");
            reveal_strlit(" ");
            reveal_strlit(")");
        }
        let threshold = rule.normalize_threshold();
        proof {
            crate::procwatch::rule::lemma_normalized_threshold_bounds(rule);
        }
        let mut message = String::from_str("ALERT: ");
        let d = rule.describe();
        message.append(d.as_str());
        message.append(" - current: ");
        let cv = milli_2dp(current_value);
        message.append(cv.as_str());
        message.append(", threshold: ");
        let tv = milli_2dp(threshold);
        message.append(tv.as_str());
        message.append(" (pid=");
        let p = u64_str(sample.pid as u64);
        message.append(p.as_str());
        message.append(" ");
        message.append(sample.name.as_str());
        message.append(")");
        AlertResult {
            rule: rule.clone(),
            triggered: true,
            current_value,
            threshold,
            pid: sample.pid,
            process_name: sample.name.clone(),
            timestamp: clock_now_millis(),
            message,
        }
    }

    /// Creates a non-triggered (OK) result; the timestamp is read from the
    /// wall clock and is the one field left open.
    pub fn ok(rule: &AlertRule, current_value: i128, sample: &ProcessSample) -> (r: AlertResult)
        requires
            current_value > i128::MIN,
        ensures
            r.triggered == false,
            same_rule(&r.rule, rule),
            r.current_value == current_value,
            r.threshold == rule.spec_normalized_threshold(),
            r.pid == sample.pid,
            r.process_name@ == sample.name@,
            r.message@ == spec_ok_message(rule, current_value as int, sample),
    {
        proof {
            reveal_strlit("OK: ");
            reveal_strlit(" - current: ");
            reveal_strlit(" (pid=");
            reveal_strlit(" ");
            reveal_strlit(")");
        }
        let threshold = rule.normalize_threshold();
        proof {
            crate::procwatch::rule::lemma_normalized_threshold_bounds(rule);
        }
        let mut message = String::from_str("OK: ");
        let d = rule.describe();
        message.append(d.as_str());
        message.append(" - current: ");
        let cv = milli_2dp(current_value);
        message.append(cv.as_str());
        message.append(" (pid=");
        let p = u64_str(sample.pid as u64);
        message.append(p.as_str());
        message.append(" ");
        message.append(sample.name.as_str());
        message.append(")");
        AlertResult {
            rule: rule.clone(),
            triggered: false,
            current_value,
            threshold,
            pid: sample.pid,
            process_name: sample.name.clone(),
            timestamp: clock_now_millis(),
            message,
        }
    }

    /// The current value formatted for this result's metric.
    pub fn current_value_formatted(&self) -> (r: String)
        requires
            self.current_value > i128::MIN,
        ensures
            r@ == spec_format_metric_value(self.rule.metric, self.current_value as int),
    {
        format_metric_value(&self.rule.metric, self.current_value)
    }

    /// The normalized threshold formatted for this result's metric.
    pub fn threshold_formatted(&self) -> (r: String)
        requires
            self.threshold > i128::MIN,
        ensures
            r@ == spec_format_metric_value(self.rule.metric, self.threshold as int),
    {
        format_metric_value(&self.rule.metric, self.threshold)
    }

    /// A short status line: `[TRIGGERED] cpu = 90.0% (threshold: 80.0%)`.
    pub fn status_line(&self) -> (r: String)
        requires
            self.current_value > i128::MIN,
            self.threshold > i128::MIN,
        ensures
            r@ == spec_status_line(self),
    {
        proof {
            reveal_strlit("[");
            reveal_strlit("TRIGGERED");
            reveal_strlit("OK");
            reveal_strlit("] ");
            reveal_strlit(" = ");
            reveal_strlit(" (threshold: ");
            reveal_strlit(")");
        }
        let mut s = String::from_str("[");
        if self.triggered {
            s.append("TRIGGERED");
        } else {
            s.append("OK");
        }
        s.append("] ");
        s.append(self.rule.metric.name());
        s.append(" = ");
        let cv = self.current_value_formatted();
        s.append(cv.as_str());
        s.append(" (threshold: ");
        let tv = self.threshold_formatted();
        s.append(tv.as_str());
        s.append(")");
        s
    }
}

/// The status line of a result.
pub open spec fn spec_status_line(r: &AlertResult) -> Seq<char> {
    let status = if r.triggered {
        "TRIGGERED"@
    } else {
        "OK"@
    };
    "["@ + status + "] "@ + r.rule.metric.spec_name() + " = "@ + spec_format_metric_value(
        r.rule.metric,
        r.current_value as int,
    ) + " (threshold: "@ + spec_format_metric_value(r.rule.metric, r.threshold as int) + ")"@
}

/// Truncation of a milli value toward zero to whole units, the way a binary
/// float is cast to an integer.
pub open spec fn spec_trunc_units(v: int) -> int {
    if v >= 0 {
        v / 1000
    } else {
        -((-v) / 1000)
    }
}

/// A milli value clamped into byte range: negative values give 0, values
/// beyond the largest byte count give that largest count, the way a binary
/// float is cast to `u64`.
pub open spec fn spec_clamp_bytes(v: int) -> nat {
    if v < 0 {
        0
    } else if spec_trunc_units(v) > u64::MAX {
        u64::MAX as nat
    } else {
        spec_trunc_units(v) as nat
    }
}

/// A metric value rendered metric-aware: percentages with one decimal and a
/// `%` suffix, byte metrics human-scaled, counts as whole numbers.
pub open spec fn spec_format_metric_value(metric: MetricType, v: int) -> Seq<char> {
    match metric {
        MetricType::Cpu => spec_signed(v, spec_milli_1dp(abs(v) as nat)) + "%"@,
        MetricType::Rss | MetricType::Virtual | MetricType::ReadBytes | MetricType::WriteBytes =>
            spec_format_bytes(spec_clamp_bytes(v)),
        MetricType::Threads | MetricType::Fd => crate::numfmt::spec_int_str(spec_trunc_units(v)),
    }
}

/// Renders a metric value (in milli units) metric-aware.
pub fn format_metric_value(metric: &MetricType, v: i128) -> (r: String)
    requires
        v > i128::MIN,
    ensures
        r@ == spec_format_metric_value(*metric, v as int),
{
    match metric {
        MetricType::Cpu => {
            proof {
                reveal_strlit("%");
            }
            let mut s = milli_1dp(v);
            s.append("%");
            s
        },
        MetricType::Rss | MetricType::Virtual | MetricType::ReadBytes | MetricType::WriteBytes => {
            let b: u64 = if v < 0 {
                0
            } else if v / 1000 > u64::MAX as i128 {
                u64::MAX
            } else {
                (v / 1000) as u64
            };
            format_bytes(b)
        },
        MetricType::Threads | MetricType::Fd => {
            let units: i128 = if v >= 0 {
                v / 1000
            } else {
                -((-v) / 1000)
            };
            crate::numfmt::i128_str(units)
        },
    }
}

} // verus!
