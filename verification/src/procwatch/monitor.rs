//! The process monitoring service: sampling through a platform sampler,
//! alert parsing, and alert evaluation.

use vstd::prelude::*;

use crate::procwatch::engine::AlertEngine;
use crate::procwatch::parser::{spec_parse, AlertParser, ParseOutcome};
use crate::strutil::spec_trim;
use crate::procwatch::result::AlertResult;
use crate::procwatch::rule::{same_rule, AlertRule};
use crate::procwatch::sample::ProcessSample;

verus! {

/// Sorting mode for `top` process listings.
#[derive(Debug, Clone, Copy, PartialEq, Eq, Structural)]
pub enum TopMode {
    Cpu,
    Memory,
}

impl TopMode {
    /// The display label of the mode.
    pub open spec fn spec_label(&self) -> Seq<char> {
        match self {
            TopMode::Cpu => "CPU"@,
            TopMode::Memory => "MEMORY"@,
        }
    }

    pub fn label(&self) -> (r: &'static str)
        ensures
            r@ == self.spec_label(),
    {
        match self {
            TopMode::Cpu => "CPU",
            TopMode::Memory => "MEMORY",
        }
    }
}

/// Type of diagnostic dump to execute on alert breach.
#[derive(Debug, Clone, Copy, PartialEq, Eq, Structural)]
pub enum DumpType {
    Lsof,
    Pstack,
}

/// Trait for sampling live processes. Implementations read the operating
/// system; errors are carried as text.
pub trait ProcessSampler {
    /// Returns a single sample for a process identified by PID, or nothing
    /// when the process does not exist.
    fn sample_by_pid(&self, pid: u32) -> Result<Option<ProcessSample>, String>;

    /// Returns samples for all processes matching a name pattern.
    fn sample_by_name(&self, name: &str) -> Result<Vec<ProcessSample>, String>;

    /// Returns the top processes sorted by CPU usage.
    fn top_by_cpu(&self, limit: usize) -> Result<Vec<ProcessSample>, String>;

    /// Returns the top processes sorted by memory usage.
    fn top_by_memory(&self, limit: usize) -> Result<Vec<ProcessSample>, String>;

    /// Returns all running processes.
    fn get_all_processes(&self) -> Result<Vec<ProcessSample>, String>;
}

/// How one kept rule relates to its source expression: the expression is
/// grammatical and the rule carries its resolved parts and its trimmed text
/// verbatim.
pub open spec fn spec_rule_from(
    expressions: Seq<String>,
    r: Seq<AlertRule>,
    src: Seq<int>,
    k: int,
) -> bool
    recommends
        0 <= k < src.len() == r.len(),
        0 <= src[k] < expressions.len(),
{
    &&& (spec_parse(spec_trim(expressions[src[k]]@)) matches ParseOutcome::Parts(p)
        && r[k].metric == p.metric && r[k].operator == p.operator && r[k].threshold == p.threshold
        && r[k].unit == p.unit && r[k].window == p.window_secs && r[k].window_condition
        == p.condition)
    &&& r[k].expression@ == spec_trim(expressions[src[k]]@)
}

/// Whether `src` lists exactly the indices of the grammatical expressions
/// among the first `upto`, strictly in order, and `r` holds their rules.
pub open spec fn spec_rules_of(
    expressions: Seq<String>,
    r: Seq<AlertRule>,
    src: Seq<int>,
    upto: int,
) -> bool {
    &&& src.len() == r.len()
    &&& forall|k: int|
        0 <= k < src.len() ==> 0 <= #[trigger] src[k] < upto && spec_rule_from(
            expressions,
            r,
            src,
            k,
        )
    &&& forall|k1: int, k2: int| 0 <= k1 < k2 < src.len() ==> src[k1] < src[k2]
    &&& forall|j: int|
        0 <= j < upto && spec_parse(spec_trim((#[trigger] expressions[j])@)) is Parts ==> exists|
            k: int,
        |
            0 <= k < src.len() && #[trigger] src[k] == j
}

/// Main service for process monitoring: orchestrates sampling, alert
/// parsing, and alert evaluation.
pub struct ProcessMonitorService<S: ProcessSampler> {
    pub sampler: S,
    pub alert_engine: AlertEngine,
    pub alert_parser: AlertParser,
}

impl<S: ProcessSampler> ProcessMonitorService<S> {
    /// Creates a new service backed by the given sampler, with the default
    /// alert-history window.
    pub fn new(sampler: S) -> (r: ProcessMonitorService<S>)
        ensures
            r.alert_engine.wf(),
            r.alert_engine.spec_max_history_ms() == 600_000,
    {
        ProcessMonitorService {
            sampler,
            alert_engine: AlertEngine::with_default_history(),
            alert_parser: AlertParser::new(),
        }
    }

    /// Creates a new service with a custom alert-history window in
    /// milliseconds.
    pub fn with_alert_history(sampler: S, max_history_ms: u64) -> (r: ProcessMonitorService<S>)
        ensures
            r.alert_engine.wf(),
            r.alert_engine.spec_max_history_ms() == max_history_ms,
    {
        ProcessMonitorService {
            sampler,
            alert_engine: AlertEngine::new(max_history_ms),
            alert_parser: AlertParser::new(),
        }
    }

    /// Returns a single sample for a process; a sampler failure reports
    /// nothing.
    pub fn sample_by_pid(&self, pid: u32) -> Option<ProcessSample> {
        match self.sampler.sample_by_pid(pid) {
            Ok(s) => s,
            Err(_) => None,
        }
    }

    /// Returns samples for all processes matching a name pattern.
    pub fn sample_by_name(&self, name: &str) -> Vec<ProcessSample> {
        match self.sampler.sample_by_name(name) {
            Ok(v) => v,
            Err(_) => Vec::new(),
        }
    }

    /// Returns the top processes sorted by CPU usage.
    pub fn top_by_cpu(&self, limit: usize) -> Vec<ProcessSample> {
        match self.sampler.top_by_cpu(limit) {
            Ok(v) => v,
            Err(_) => Vec::new(),
        }
    }

    /// Returns the top processes sorted by memory usage.
    pub fn top_by_memory(&self, limit: usize) -> Vec<ProcessSample> {
        match self.sampler.top_by_memory(limit) {
            Ok(v) => v,
            Err(_) => Vec::new(),
        }
    }

    /// Returns all running processes.
    pub fn get_all_processes(&self) -> Vec<ProcessSample> {
        match self.sampler.get_all_processes() {
            Ok(v) => v,
            Err(_) => Vec::new(),
        }
    }

    /// Parses multiple alert expressions into rules, silently skipping the
    /// expressions that fail to parse: the result is exactly one rule per
    /// grammatical expression, in input order, witnessed by the source
    /// indices.
    pub fn parse_alerts(&self, expressions: &[String]) -> (r: Vec<AlertRule>)
        ensures
            r@.len() <= expressions@.len(),
            exists|src: Seq<int>|
                #[trigger] spec_rules_of(expressions@, r@, src, expressions@.len() as int),
    {
        let n = expressions.len();
        let mut out: Vec<AlertRule> = Vec::new();
        let ghost mut src: Seq<int> = Seq::empty();
        let mut i: usize = 0;
        proof {
            assert(spec_rules_of(expressions@, out@, src, 0));
        }
        while i < n
            invariant
                n == expressions@.len(),
                i <= n,
                out@.len() <= i,
                src.len() == out@.len(),
                spec_rules_of(expressions@, out@, src, i as int),
            decreases n - i,
        {
            let ghost pre_out = out@;
            let ghost pre_src = src;
            match self.alert_parser.parse(expressions[i].as_str()) {
                Ok(rule) => {
                    proof {
                        src = src.push(i as int);
                    }
                    out.push(rule);
                    proof {
                        assert forall|k: int| 0 <= k < src.len() implies 0 <= #[trigger] src[k] < i
                            + 1 && spec_rule_from(expressions@, out@, src, k) by {
                            if k < src.len() - 1 {
                                assert(src[k] == pre_src[k]);
                                assert(out@[k] == pre_out[k]);
                                assert(spec_rule_from(expressions@, pre_out, pre_src, k));
                            } else {
                                assert(src[k] == i as int);
                                assert(out@[k] == rule);
                            }
                        }
                        assert forall|j: int|
                            0 <= j < i + 1 && spec_parse(
                                spec_trim((#[trigger] expressions@[j])@),
                            ) is Parts implies exists|k: int|
                            0 <= k < src.len() && #[trigger] src[k] == j by {
                            if j < i {
                                let k = choose|k: int|
                                    0 <= k < pre_src.len() && #[trigger] pre_src[k] == j;
                                assert(src[k] == j);
                            } else {
                                assert(src[src.len() - 1] == j);
                            }
                        }
                        assert(spec_rules_of(expressions@, out@, src, i + 1 as int));
                    }
                },
                Err(_) => {
                    proof {
                        assert(spec_parse(spec_trim(expressions@[i as int]@)) is Fail);
                        assert forall|j: int|
                            0 <= j < i + 1 && spec_parse(
                                spec_trim((#[trigger] expressions@[j])@),
                            ) is Parts implies exists|k: int|
                            0 <= k < src.len() && #[trigger] src[k] == j by {
                            assert(j < i);
                        }
                        assert(spec_rules_of(expressions@, out@, src, i + 1 as int));
                    }
                },
            }
            i = i + 1;
        }
        out
    }

    /// Evaluates the provided alert rules against a single process sample,
    /// as the alert engine does.
    pub fn evaluate_alerts(&mut self, sample: &ProcessSample, rules: &[AlertRule]) -> (res: Vec<
        AlertResult,
    >)
        requires
            old(self).alert_engine.wf(),
        ensures
            final(self).alert_engine.wf(),
            final(self).sampler == old(self).sampler,
            res@.len() == rules@.len(),
            forall|i: int|
                0 <= i < rules@.len() ==> same_rule(&(#[trigger] res@[i]).rule, &rules@[i])
                    && res@[i].pid == sample.pid && res@[i].current_value == rules@[i].spec_extract(
                    sample,
                ) && res@[i].threshold == rules@[i].spec_normalized_threshold(),
            forall|i: int|
                0 <= i < rules@.len() && rules@[i].window is None ==> (#[trigger] res@[i]).triggered
                    == rules@[i].spec_base_holds(sample),
    {
        self.alert_engine.evaluate(sample, rules)
    }

    /// Clears all alert history, for when monitoring is stopped.
    pub fn clear_alert_history(&mut self)
        requires
            old(self).alert_engine.wf(),
        ensures
            final(self).alert_engine.wf(),
            final(self).alert_engine.sample_history@.len() == 0,
            final(self).alert_engine.trigger_start_times@.len() == 0,
            final(self).sampler == old(self).sampler,
    {
        self.alert_engine.clear_all_history();
    }
}

} // verus!
