//! The alert-rule vocabulary: metrics, comparison operators, threshold
//! units, window conditions, and the `AlertRule` value itself.
//!
//! Thresholds and metric values are fixed-point integers in milli units
//! (thousandths). Equality comparisons tolerate a difference below one
//! thousandth, which on this scale is exactly integer equality.

use vstd::prelude::*;

use crate::numfmt::{
    abs,
    milli_0dp,
    milli_1dp,
    milli_plain,
    spec_digits,
    spec_milli_0dp,
    spec_milli_1dp,
    spec_milli_plain,
    spec_signed,
    u64_str,
};
use crate::procwatch::sample::ProcessSample;
use crate::strutil::{spec_lower, spec_upper, str_eq, to_ascii_lower, to_ascii_upper};

verus! {

/// Errors from resolving the alert-rule vocabulary.
#[derive(Debug)]
pub enum AlertRuleError {
    UnknownMetric(String),
    UnknownOperator(String),
    UnknownWindowCondition(String),
}

/// Metrics that can be monitored.
#[derive(Debug, Clone, Copy, PartialEq, Eq, Structural)]
pub enum MetricType {
    Cpu,
    Rss,
    Virtual,
    Threads,
    Fd,
    ReadBytes,
    WriteBytes,
}

impl MetricType {
    /// The canonical lowercase name of the metric.
    pub open spec fn spec_name(&self) -> Seq<char> {
        match self {
            MetricType::Cpu => "cpu"@,
            MetricType::Rss => "rss"@,
            MetricType::Virtual => "virtual"@,
            MetricType::Threads => "threads"@,
            MetricType::Fd => "fd"@,
            MetricType::ReadBytes => "read"@,
            MetricType::WriteBytes => "write"@,
        }
    }

    pub fn name(&self) -> (r: &'static str)
        ensures
            r@ == self.spec_name(),
    {
        match self {
            MetricType::Cpu => "cpu",
            MetricType::Rss => "rss",
            MetricType::Virtual => "virtual",
            MetricType::Threads => "threads",
            MetricType::Fd => "fd",
            MetricType::ReadBytes => "read",
            MetricType::WriteBytes => "write",
        }
    }

    /// The human-readable description of the metric.
    pub open spec fn spec_description(&self) -> Seq<char> {
        match self {
            MetricType::Cpu => "CPU percentage"@,
            MetricType::Rss => "Resident Set Size (memory)"@,
            MetricType::Virtual => "Virtual memory"@,
            MetricType::Threads => "Thread count"@,
            MetricType::Fd => "File descriptors"@,
            MetricType::ReadBytes => "Read bytes"@,
            MetricType::WriteBytes => "Write bytes"@,
        }
    }

    pub fn description(&self) -> (r: &'static str)
        ensures
            r@ == self.spec_description(),
    {
        match self {
            MetricType::Cpu => "CPU percentage",
            MetricType::Rss => "Resident Set Size (memory)",
            MetricType::Virtual => "Virtual memory",
            MetricType::Threads => "Thread count",
            MetricType::Fd => "File descriptors",
            MetricType::ReadBytes => "Read bytes",
            MetricType::WriteBytes => "Write bytes",
        }
    }

    /// The alias table: the metric a lowercased word resolves to.
    pub open spec fn spec_of_word(w: Seq<char>) -> Option<MetricType> {
        if w == "cpu"@ || w == "cpu%"@ {
            Some(MetricType::Cpu)
        } else if w == "rss"@ || w == "mem"@ || w == "memory"@ {
            Some(MetricType::Rss)
        } else if w == "virtual"@ || w == "vsz"@ || w == "virt"@ {
            Some(MetricType::Virtual)
        } else if w == "threads"@ || w == "thread"@ {
            Some(MetricType::Threads)
        } else if w == "fd"@ || w == "fds"@ || w == "files"@ {
            Some(MetricType::Fd)
        } else if w == "read"@ || w == "read_bytes"@ {
            Some(MetricType::ReadBytes)
        } else if w == "write"@ || w == "write_bytes"@ {
            Some(MetricType::WriteBytes)
        } else {
            None
        }
    }

    /// Resolves a metric word, case-insensitively, through the alias table;
    /// returns `UnknownMetric` holding the lowercased word exactly when the
    /// word is no alias.
    pub fn parse(s: &str) -> (r: Result<MetricType, AlertRuleError>)
        ensures
            match r {
                Ok(m) => Self::spec_of_word(spec_lower(s@)) == Some(m),
                Err(e) => Self::spec_of_word(spec_lower(s@)) is None && (e matches
                AlertRuleError::UnknownMetric(w) && w@ == spec_lower(s@)),
            },
    {
        let low = to_ascii_lower(s);
        let w = low.as_str();
        if str_eq(w, "cpu") || str_eq(w, "cpu%") {
            Ok(MetricType::Cpu)
        } else if str_eq(w, "rss") || str_eq(w, "mem") || str_eq(w, "memory") {
            Ok(MetricType::Rss)
        } else if str_eq(w, "virtual") || str_eq(w, "vsz") || str_eq(w, "virt") {
            Ok(MetricType::Virtual)
        } else if str_eq(w, "threads") || str_eq(w, "thread") {
            Ok(MetricType::Threads)
        } else if str_eq(w, "fd") || str_eq(w, "fds") || str_eq(w, "files") {
            Ok(MetricType::Fd)
        } else if str_eq(w, "read") || str_eq(w, "read_bytes") {
            Ok(MetricType::ReadBytes)
        } else if str_eq(w, "write") || str_eq(w, "write_bytes") {
            Ok(MetricType::WriteBytes)
        } else {
            Err(AlertRuleError::UnknownMetric(low))
        }
    }
}

/// Comparison operators.
#[derive(Debug, Clone, Copy, PartialEq, Eq, Structural)]
pub enum ComparisonOperator {
    Greater,
    GreaterEq,
    Less,
    LessEq,
    Equals,
    NotEquals,
}

impl ComparisonOperator {
    /// The canonical symbol of the operator.
    pub open spec fn spec_symbol(&self) -> Seq<char> {
        match self {
            ComparisonOperator::Greater => ">"@,
            ComparisonOperator::GreaterEq => ">="@,
            ComparisonOperator::Less => "<"@,
            ComparisonOperator::LessEq => "<="@,
            ComparisonOperator::Equals => "=="@,
            ComparisonOperator::NotEquals => "!="@,
        }
    }

    pub fn symbol(&self) -> (r: &'static str)
        ensures
            r@ == self.spec_symbol(),
    {
        match self {
            ComparisonOperator::Greater => ">",
            ComparisonOperator::GreaterEq => ">=",
            ComparisonOperator::Less => "<",
            ComparisonOperator::LessEq => "<=",
            ComparisonOperator::Equals => "==",
            ComparisonOperator::NotEquals => "!=",
        }
    }

    /// Whether the comparison holds between a value and a threshold, both in
    /// milli units. Equality and inequality use an epsilon of one thousandth
    /// of a unit, which at this scale is exact integer equality.
    pub open spec fn spec_holds(&self, value: int, threshold: int) -> bool {
        match self {
            ComparisonOperator::Greater => value > threshold,
            ComparisonOperator::GreaterEq => value >= threshold,
            ComparisonOperator::Less => value < threshold,
            ComparisonOperator::LessEq => value <= threshold,
            ComparisonOperator::Equals => value == threshold,
            ComparisonOperator::NotEquals => value != threshold,
        }
    }

    /// Applies the comparison to a value and a threshold in milli units.
    pub fn evaluate(&self, value: i128, threshold: i128) -> (r: bool)
        ensures
            r == self.spec_holds(value as int, threshold as int),
    {
        match self {
            ComparisonOperator::Greater => value > threshold,
            ComparisonOperator::GreaterEq => value >= threshold,
            ComparisonOperator::Less => value < threshold,
            ComparisonOperator::LessEq => value <= threshold,
            ComparisonOperator::Equals => value == threshold,
            ComparisonOperator::NotEquals => value != threshold,
        }
    }

    /// The operator a token resolves to.
    pub open spec fn spec_of_token(w: Seq<char>) -> Option<ComparisonOperator> {
        if w == ">"@ {
            Some(ComparisonOperator::Greater)
        } else if w == ">="@ {
            Some(ComparisonOperator::GreaterEq)
        } else if w == "<"@ {
            Some(ComparisonOperator::Less)
        } else if w == "<="@ {
            Some(ComparisonOperator::LessEq)
        } else if w == "=="@ || w == "="@ {
            Some(ComparisonOperator::Equals)
        } else if w == "!="@ || w == "<>"@ {
            Some(ComparisonOperator::NotEquals)
        } else {
            None
        }
    }

    /// Resolves an operator token; returns `UnknownOperator` holding the
    /// token exactly when it is not in the operator table.
    pub fn parse(s: &str) -> (r: Result<ComparisonOperator, AlertRuleError>)
        ensures
            match r {
                Ok(op) => Self::spec_of_token(s@) == Some(op),
                Err(e) => Self::spec_of_token(s@) is None && (e matches
                AlertRuleError::UnknownOperator(w) && w@ == s@),
            },
    {
        if str_eq(s, ">") {
            Ok(ComparisonOperator::Greater)
        } else if str_eq(s, ">=") {
            Ok(ComparisonOperator::GreaterEq)
        } else if str_eq(s, "<") {
            Ok(ComparisonOperator::Less)
        } else if str_eq(s, "<=") {
            Ok(ComparisonOperator::LessEq)
        } else if str_eq(s, "==") || str_eq(s, "=") {
            Ok(ComparisonOperator::Equals)
        } else if str_eq(s, "!=") || str_eq(s, "<>") {
            Ok(ComparisonOperator::NotEquals)
        } else {
            Err(AlertRuleError::UnknownOperator(String::from_str(s)))
        }
    }
}

/// Unit for threshold values.
#[derive(Debug, Clone, Copy, PartialEq, Eq, Structural)]
pub enum ThresholdUnit {
    NoUnit,
    Percent,
    Bytes,
    Kb,
    Mb,
    Gb,
}

impl ThresholdUnit {
    /// The byte multiplier of the unit.
    pub open spec fn spec_multiplier(&self) -> nat {
        match self {
            ThresholdUnit::NoUnit | ThresholdUnit::Percent | ThresholdUnit::Bytes => 1,
            ThresholdUnit::Kb => 1024,
            ThresholdUnit::Mb => 1024 * 1024,
            ThresholdUnit::Gb => 1024 * 1024 * 1024,
        }
    }

    pub fn multiplier(&self) -> (r: u64)
        ensures
            r == self.spec_multiplier(),
    {
        match self {
            ThresholdUnit::NoUnit | ThresholdUnit::Percent | ThresholdUnit::Bytes => 1,
            ThresholdUnit::Kb => 1024,
            ThresholdUnit::Mb => 1024 * 1024,
            ThresholdUnit::Gb => 1024 * 1024 * 1024,
        }
    }

    /// Converts a milli value in this unit into milli bytes.
    pub fn to_bytes(&self, value: i64) -> (r: i128)
        ensures
            r == value * self.spec_multiplier(),
    {
        match self {
            ThresholdUnit::NoUnit | ThresholdUnit::Percent | ThresholdUnit::Bytes => value as i128,
            ThresholdUnit::Kb => (value as i128) * 1024,
            ThresholdUnit::Mb => (value as i128) * 1048576,
            ThresholdUnit::Gb => (value as i128) * 1073741824,
        }
    }

    /// The unit an uppercased token resolves to; unknown tokens give `None`.
    pub open spec fn spec_of_word(w: Seq<char>) -> ThresholdUnit {
        if w.len() == 0 {
            ThresholdUnit::NoUnit
        } else if w == "%"@ {
            ThresholdUnit::Percent
        } else if w == "B"@ || w == "BYTES"@ {
            ThresholdUnit::Bytes
        } else if w == "K"@ || w == "KB"@ {
            ThresholdUnit::Kb
        } else if w == "M"@ || w == "MB"@ {
            ThresholdUnit::Mb
        } else if w == "G"@ || w == "GB"@ {
            ThresholdUnit::Gb
        } else {
            ThresholdUnit::NoUnit
        }
    }

    /// Resolves a unit token, case-insensitively; the empty token and
    /// unknown tokens give `None`.
    pub fn parse(s: &str) -> (r: ThresholdUnit)
        ensures
            r == Self::spec_of_word(spec_upper(s@)),
    {
        let up = to_ascii_upper(s);
        let w = up.as_str();
        if s.unicode_len() == 0 {
            proof {
                assert(spec_upper(s@).len() == 0);
            }
            ThresholdUnit::NoUnit
        } else if str_eq(w, "%") {
            ThresholdUnit::Percent
        } else if str_eq(w, "B") || str_eq(w, "BYTES") {
            ThresholdUnit::Bytes
        } else if str_eq(w, "K") || str_eq(w, "KB") {
            ThresholdUnit::Kb
        } else if str_eq(w, "M") || str_eq(w, "MB") {
            ThresholdUnit::Mb
        } else if str_eq(w, "G") || str_eq(w, "GB") {
            ThresholdUnit::Gb
        } else {
            ThresholdUnit::NoUnit
        }
    }
}

/// Window conditions for time-based alerts.
#[derive(Debug, Clone, Copy, PartialEq, Eq, Structural)]
pub enum WindowCondition {
    For,
    Increasing,
    Decreasing,
}

impl WindowCondition {
    /// The DSL keyword of the condition.
    pub open spec fn spec_keyword(&self) -> Seq<char> {
        match self {
            WindowCondition::For => "for"@,
            WindowCondition::Increasing => "increasing"@,
            WindowCondition::Decreasing => "decreasing"@,
        }
    }

    pub fn keyword(&self) -> (r: &'static str)
        ensures
            r@ == self.spec_keyword(),
    {
        match self {
            WindowCondition::For => "for",
            WindowCondition::Increasing => "increasing",
            WindowCondition::Decreasing => "decreasing",
        }
    }

    /// The condition a lowercased keyword resolves to.
    pub open spec fn spec_of_word(w: Seq<char>) -> Option<WindowCondition> {
        if w == "for"@ {
            Some(WindowCondition::For)
        } else if w == "increasing"@ {
            Some(WindowCondition::Increasing)
        } else if w == "decreasing"@ {
            Some(WindowCondition::Decreasing)
        } else {
            None
        }
    }

    /// Resolves a window keyword, case-insensitively; returns
    /// `UnknownWindowCondition` holding the lowercased keyword exactly when
    /// it is not one of the three.
    pub fn parse(s: &str) -> (r: Result<WindowCondition, AlertRuleError>)
        ensures
            match r {
                Ok(c) => Self::spec_of_word(spec_lower(s@)) == Some(c),
                Err(e) => Self::spec_of_word(spec_lower(s@)) is None && (e matches
                AlertRuleError::UnknownWindowCondition(w) && w@ == spec_lower(s@)),
            },
    {
        let low = to_ascii_lower(s);
        let w = low.as_str();
        if str_eq(w, "for") {
            Ok(WindowCondition::For)
        } else if str_eq(w, "increasing") {
            Ok(WindowCondition::Increasing)
        } else if str_eq(w, "decreasing") {
            Ok(WindowCondition::Decreasing)
        } else {
            Err(AlertRuleError::UnknownWindowCondition(low))
        }
    }
}

/// An alert rule with condition and optional time window.
///
/// `threshold` is the number as written, in milli units; `window` is the
/// window length in whole seconds. `window` and `window_condition` are both
/// present or both absent.
#[derive(Debug)]
pub struct AlertRule {
    pub expression: String,
    pub metric: MetricType,
    pub operator: ComparisonOperator,
    pub threshold: i64,
    pub unit: ThresholdUnit,
    pub window: Option<u64>,
    pub window_condition: Option<WindowCondition>,
}

/// Whether two rules carry the same values in every field.
pub open spec fn same_rule(a: &AlertRule, b: &AlertRule) -> bool {
    &&& a.expression@ == b.expression@
    &&& a.metric == b.metric
    &&& a.operator == b.operator
    &&& a.threshold == b.threshold
    &&& a.unit == b.unit
    &&& a.window == b.window
    &&& a.window_condition == b.window_condition
}

impl Clone for AlertRule {
    /// A clone carries the same values in every field.
    fn clone(&self) -> (res: Self)
        ensures
            same_rule(&res, self),
    {
        AlertRule {
            expression: self.expression.clone(),
            metric: self.metric,
            operator: self.operator,
            threshold: self.threshold,
            unit: self.unit,
            window: self.window,
            window_condition: self.window_condition,
        }
    }
}

impl AlertRule {
    /// The sample field this rule reads, in milli units.
    pub open spec fn spec_extract(&self, sample: &ProcessSample) -> int {
        match self.metric {
            MetricType::Cpu => sample.cpu.percent_instant as int,
            MetricType::Rss => sample.memory.rss_bytes * 1000,
            MetricType::Virtual => sample.memory.virtual_bytes * 1000,
            MetricType::Threads => sample.thread_count * 1000,
            MetricType::Fd => sample.open_file_descriptors * 1000,
            MetricType::ReadBytes => sample.io.read_bytes * 1000,
            MetricType::WriteBytes => sample.io.write_bytes * 1000,
        }
    }

    /// The threshold normalized to the metric's base unit, in milli units:
    /// unchanged for counts and percentages, scaled by the unit's byte
    /// multiplier for byte-valued metrics.
    pub open spec fn spec_normalized_threshold(&self) -> int {
        match self.metric {
            MetricType::Cpu | MetricType::Threads | MetricType::Fd => self.threshold as int,
            _ => self.threshold * self.unit.spec_multiplier(),
        }
    }

    /// Whether the rule's base condition holds of a sample.
    pub open spec fn spec_base_holds(&self, sample: &ProcessSample) -> bool {
        self.operator.spec_holds(self.spec_extract(sample), self.spec_normalized_threshold())
    }

    /// Extracts the metric value from a sample, in milli units.
    pub fn extract_metric_value(&self, sample: &ProcessSample) -> (r: i128)
        ensures
            r == self.spec_extract(sample),
    {
        match self.metric {
            MetricType::Cpu => sample.cpu.percent_instant as i128,
            MetricType::Rss => (sample.memory.rss_bytes as i128) * 1000,
            MetricType::Virtual => (sample.memory.virtual_bytes as i128) * 1000,
            MetricType::Threads => (sample.thread_count as i128) * 1000,
            MetricType::Fd => (sample.open_file_descriptors as i128) * 1000,
            MetricType::ReadBytes => (sample.io.read_bytes as i128) * 1000,
            MetricType::WriteBytes => (sample.io.write_bytes as i128) * 1000,
        }
    }

    /// Normalizes the threshold to the metric's base unit, in milli units.
    pub fn normalize_threshold(&self) -> (r: i128)
        ensures
            r == self.spec_normalized_threshold(),
    {
        match self.metric {
            MetricType::Cpu | MetricType::Threads | MetricType::Fd => self.threshold as i128,
            _ => self.unit.to_bytes(self.threshold),
        }
    }

    /// Evaluates this rule's base condition against a process sample.
    pub fn evaluate(&self, sample: &ProcessSample) -> (r: bool)
        ensures
            r == self.spec_base_holds(sample),
    {
        let value = self.extract_metric_value(sample);
        let normalized_threshold = self.normalize_threshold();
        self.operator.evaluate(value, normalized_threshold)
    }

    /// The threshold as shown in a description: percentages with no
    /// decimals and a `%` suffix, gibibytes with one decimal, mebibytes and
    /// kibibytes with none, and raw numbers as written.
    pub open spec fn spec_format_threshold(&self) -> Seq<char> {
        let t = self.threshold as int;
        match self.unit {
            ThresholdUnit::Percent => spec_signed(t, spec_milli_0dp(abs(t) as nat)) + "%"@,
            ThresholdUnit::Gb => spec_signed(t, spec_milli_1dp(abs(t) as nat)) + "GB"@,
            ThresholdUnit::Mb => spec_signed(t, spec_milli_0dp(abs(t) as nat)) + "MB"@,
            ThresholdUnit::Kb => spec_signed(t, spec_milli_0dp(abs(t) as nat)) + "KB"@,
            _ => spec_milli_plain(t),
        }
    }

    /// The human-readable description of the rule.
    pub open spec fn spec_describe(&self) -> Seq<char> {
        let head = self.metric.spec_name() + " "@ + self.operator.spec_symbol() + " "@
            + self.spec_format_threshold();
        match self.window {
            Some(w) => {
                let cond = match self.window_condition {
                    Some(c) => c.spec_keyword() + " "@,
                    None => Seq::<char>::empty(),
                };
                head + " "@ + cond + spec_format_duration(w)
            },
            None => head,
        }
    }

    /// Returns a human-readable description, such as `cpu > 80% for 30s`.
    pub fn describe(&self) -> (r: String)
        ensures
            r@ == self.spec_describe(),
    {
        proof {
            reveal_strlit(" ");
        }
        let mut sb = String::from_str(self.metric.name());
        sb.append(" ");
        sb.append(self.operator.symbol());
        sb.append(" ");
        let t = self.format_threshold();
        sb.append(t.as_str());
        if let Some(w) = self.window {
            sb.append(" ");
            if let Some(wc) = self.window_condition {
                sb.append(wc.keyword());
                sb.append(" ");
            }
            let d = format_duration(w);
            sb.append(d.as_str());
        }
        sb
    }

    /// Renders the threshold as shown in a description.
    pub fn format_threshold(&self) -> (r: String)
        ensures
            r@ == self.spec_format_threshold(),
    {
        proof {
            reveal_strlit("%");
            reveal_strlit("GB");
            reveal_strlit("MB");
            reveal_strlit("KB");
        }
        match self.unit {
            ThresholdUnit::Percent => {
                let mut s = milli_0dp(self.threshold as i128);
                s.append("%");
                s
            },
            ThresholdUnit::Gb => {
                let mut s = milli_1dp(self.threshold as i128);
                s.append("GB");
                s
            },
            ThresholdUnit::Mb => {
                let mut s = milli_0dp(self.threshold as i128);
                s.append("MB");
                s
            },
            ThresholdUnit::Kb => {
                let mut s = milli_0dp(self.threshold as i128);
                s.append("KB");
                s
            },
            _ => milli_plain(self.threshold as i128),
        }
    }

    /// The unit suffix used when a rule's expression text is synthesized.
    pub open spec fn spec_unit_suffix(unit: ThresholdUnit) -> Seq<char> {
        match unit {
            ThresholdUnit::NoUnit => Seq::<char>::empty(),
            ThresholdUnit::Percent => "%"@,
            ThresholdUnit::Bytes => "B"@,
            ThresholdUnit::Kb => "KB"@,
            ThresholdUnit::Mb => "MB"@,
            ThresholdUnit::Gb => "GB"@,
        }
    }

    /// The expression text synthesized for a simple rule.
    pub open spec fn spec_simple_expression(
        metric: MetricType,
        operator: ComparisonOperator,
        threshold: int,
        unit: ThresholdUnit,
    ) -> Seq<char> {
        metric.spec_name() + operator.spec_symbol() + spec_milli_plain(threshold)
            + Self::spec_unit_suffix(unit)
    }

    fn unit_suffix(unit: &ThresholdUnit) -> (r: &'static str)
        ensures
            r@ == Self::spec_unit_suffix(*unit),
    {
        proof {
            reveal_strlit("");
            reveal_strlit("%");
            reveal_strlit("B");
            reveal_strlit("KB");
            reveal_strlit("MB");
            reveal_strlit("GB");
        }
        proof {
            assert(""@ =~= Seq::<char>::empty());
        }
        match unit {
            ThresholdUnit::NoUnit => "",
            ThresholdUnit::Percent => "%",
            ThresholdUnit::Bytes => "B",
            ThresholdUnit::Kb => "KB",
            ThresholdUnit::Mb => "MB",
            ThresholdUnit::Gb => "GB",
        }
    }

    /// Creates a simple threshold rule; the threshold is in milli units.
    pub fn simple(
        metric: MetricType,
        operator: ComparisonOperator,
        threshold: i64,
        unit: ThresholdUnit,
    ) -> (r: AlertRule)
        requires
            threshold > i64::MIN,
        ensures
            r.metric == metric,
            r.operator == operator,
            r.threshold == threshold,
            r.unit == unit,
            r.window is None,
            r.window_condition is None,
            r.expression@ == Self::spec_simple_expression(metric, operator, threshold as int, unit),
    {
        let mut expr = String::from_str(metric.name());
        expr.append(operator.symbol());
        let t = milli_plain(threshold as i128);
        expr.append(t.as_str());
        expr.append(Self::unit_suffix(&unit));
        AlertRule {
            expression: expr,
            metric,
            operator,
            threshold,
            unit,
            window: None,
            window_condition: None,
        }
    }

    /// The expression text synthesized for a windowed rule.
    pub open spec fn spec_windowed_expression(
        metric: MetricType,
        operator: ComparisonOperator,
        threshold: int,
        unit: ThresholdUnit,
        window_secs: u64,
        condition: WindowCondition,
    ) -> Seq<char> {
        Self::spec_simple_expression(metric, operator, threshold, unit) + " "@
            + condition.spec_keyword() + " "@ + spec_digits(window_secs as nat) + "s"@
    }

    /// Creates a windowed rule; the threshold is in milli units and the
    /// window in whole seconds.
    pub fn windowed(
        metric: MetricType,
        operator: ComparisonOperator,
        threshold: i64,
        unit: ThresholdUnit,
        window_secs: u64,
        condition: WindowCondition,
    ) -> (r: AlertRule)
        requires
            threshold > i64::MIN,
        ensures
            r.metric == metric,
            r.operator == operator,
            r.threshold == threshold,
            r.unit == unit,
            r.window == Some(window_secs),
            r.window_condition == Some(condition),
            r.expression@ == Self::spec_windowed_expression(
                metric,
                operator,
                threshold as int,
                unit,
                window_secs,
                condition,
            ),
    {
        proof {
            reveal_strlit(" ");
            reveal_strlit("s");
        }
        let mut expr = String::from_str(metric.name());
        expr.append(operator.symbol());
        let t = milli_plain(threshold as i128);
        expr.append(t.as_str());
        expr.append(Self::unit_suffix(&unit));
        expr.append(" ");
        expr.append(condition.keyword());
        expr.append(" ");
        let w = u64_str(window_secs);
        expr.append(w.as_str());
        expr.append("s");
        AlertRule {
            expression: expr,
            metric,
            operator,
            threshold,
            unit,
            window: Some(window_secs),
            window_condition: Some(condition),
        }
    }
}

/// The normalized threshold of any rule stays far inside the 128-bit
/// range: the raw threshold is a 64-bit milli value and the largest unit
/// multiplier is 2^30.
pub proof fn lemma_normalized_threshold_bounds(rule: &AlertRule)
    ensures
        i64::MIN * 0x4000_0000 <= rule.spec_normalized_threshold() <= i64::MAX * 0x4000_0000,
{
    let t = rule.threshold as int;
    match rule.metric {
        MetricType::Cpu | MetricType::Threads | MetricType::Fd => {
        },
        _ => {
            match rule.unit {
                ThresholdUnit::NoUnit | ThresholdUnit::Percent | ThresholdUnit::Bytes => {
                    assert(rule.spec_normalized_threshold() == t * 1);
                },
                ThresholdUnit::Kb => {
                    assert(i64::MIN * 1024 <= t * 1024 <= i64::MAX * 1024) by (nonlinear_arith)
                        requires i64::MIN <= t <= i64::MAX;
                },
                ThresholdUnit::Mb => {
                    assert(i64::MIN * 1048576 <= t * 1048576 <= i64::MAX * 1048576)
                        by (nonlinear_arith)
                        requires i64::MIN <= t <= i64::MAX;
                },
                ThresholdUnit::Gb => {
                    assert(i64::MIN * 1073741824 <= t * 1073741824 <= i64::MAX * 1073741824)
                        by (nonlinear_arith)
                        requires i64::MIN <= t <= i64::MAX;
                },
            }
        },
    }
}

/// A window length in seconds rendered in its largest whole unit: seconds
/// under a minute, else whole minutes under an hour, else whole hours.
pub open spec fn spec_format_duration(secs: u64) -> Seq<char> {
    if secs < 60 {
        spec_digits(secs as nat) + "s"@
    } else if secs < 3600 {
        spec_digits((secs / 60) as nat) + "m"@
    } else {
        spec_digits((secs / 3600) as nat) + "h"@
    }
}

/// Renders a window length in seconds in its largest whole unit.
pub fn format_duration(secs: u64) -> (r: String)
    ensures
        r@ == spec_format_duration(secs),
{
    proof {
        reveal_strlit("s");
        reveal_strlit("m");
        reveal_strlit("h");
    }
    if secs < 60 {
        let mut s = u64_str(secs);
        s.append("s");
        s
    } else if secs < 3600 {
        let mut s = u64_str(secs / 60);
        s.append("m");
        s
    } else {
        let mut s = u64_str(secs / 3600);
        s.append("h");
        s
    }
}

} // verus!

