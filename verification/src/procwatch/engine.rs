//! Engine for evaluating alert rules against process samples.
//!
//! Supports time-windowed conditions:
//! - `for`        -- condition must hold continuously for the specified duration
//! - `increasing` -- metric value increased by at least the threshold over the window
//! - `decreasing` -- metric value decreased by at least the threshold over the window
//!
//! All instants are milliseconds since the Unix epoch. Every decision is
//! made by a function that takes the instant as an argument and carries an
//! exact contract; the entry points without the suffixed instant read the
//! wall clock once and delegate.

use vstd::prelude::*;

use crate::clock::clock_now_millis;
use crate::procwatch::result::AlertResult;
use crate::procwatch::rule::{same_rule, AlertRule, WindowCondition};
use crate::procwatch::sample::{same_sample, ProcessSample};
use crate::strutil::str_eq;

verus! {

/// A process sample annotated with the instant it was recorded.
#[derive(Debug)]
pub struct HistEntry {
    pub sample: ProcessSample,
    pub timestamp: u64,
}

/// The recorded samples of one process.
#[derive(Debug)]
pub struct PidHistory {
    pub pid: u32,
    pub entries: Vec<HistEntry>,
}

/// When a windowed rule first became true for one (process, expression)
/// pair.
#[derive(Debug)]
pub struct TriggerEntry {
    pub pid: u32,
    pub expression: String,
    pub started_at: u64,
}

/// Whether a trigger entry is keyed by the given process and expression.
pub open spec fn trigger_matches(te: &TriggerEntry, pid: u32, expr: Seq<char>) -> bool {
    te.pid == pid && te.expression@ == expr
}

/// Engine for evaluating alert rules against process samples.
#[derive(Debug)]
pub struct AlertEngine {
    pub sample_history: Vec<PidHistory>,
    pub trigger_start_times: Vec<TriggerEntry>,
    pub max_history_ms: u64,
}

/// A window length in seconds converted to milliseconds, saturating.
pub open spec fn spec_w_ms(w: u64) -> u64 {
    if w > u64::MAX as int / 1000 {
        u64::MAX
    } else {
        (w * 1000) as u64
    }
}

/// The time elapsed from `start` to `now`, or zero when `start` lies after
/// `now`.
pub open spec fn spec_elapsed(start: u64, now: u64) -> u64 {
    if now >= start {
        (now - start) as u64
    } else {
        0
    }
}

/// The pruning cutoff: entries recorded before it are dropped. Where the
/// retention window reaches back past the epoch, the cutoff is `now`
/// itself.
pub open spec fn spec_cutoff(now: u64, max_ms: u64) -> u64 {
    if now >= max_ms {
        (now - max_ms) as u64
    } else {
        now
    }
}

/// A history with its stale head dropped: entries are removed from the
/// front while they are older than the cutoff.
pub open spec fn spec_prune(entries: Seq<HistEntry>, cutoff: u64) -> Seq<HistEntry>
    decreases entries.len(),
{
    if entries.len() > 0 && entries[0].timestamp < cutoff {
        spec_prune(entries.subrange(1, entries.len() as int), cutoff)
    } else {
        entries
    }
}

/// The first index at or after `i` whose entry was recorded at or after the
/// cutoff, or the length.
pub open spec fn spec_first_at_or_after(entries: Seq<HistEntry>, cutoff: u64, i: int) -> int
    recommends
        0 <= i <= entries.len(),
    decreases entries.len() - i,
{
    if i < entries.len() {
        if entries[i].timestamp >= cutoff {
            i
        } else {
            spec_first_at_or_after(entries, cutoff, i + 1)
        }
    } else {
        entries.len() as int
    }
}

/// The oldest entry recorded at or after the cutoff, falling back to the
/// very first entry when none qualifies.
pub open spec fn spec_oldest_in_window(entries: Seq<HistEntry>, cutoff: u64) -> HistEntry
    recommends
        entries.len() > 0,
{
    let i = spec_first_at_or_after(entries, cutoff, 0);
    if i < entries.len() {
        entries[i]
    } else {
        entries[0]
    }
}

/// Whether a rule evaluated against a sample at instant `now_ms` reports
/// triggered, given the rule's own timer and the process's recorded
/// history.
pub open spec fn spec_rule_triggered_parts(
    trig: Option<u64>,
    hist: Seq<HistEntry>,
    sample: &ProcessSample,
    rule: &AlertRule,
    now_ms: u64,
) -> bool {
    match rule.window {
        None => rule.spec_base_holds(sample),
        Some(w) => {
            let cond = match rule.window_condition {
                Some(c) => c,
                None => WindowCondition::For,
            };
            match cond {
                WindowCondition::For => rule.spec_base_holds(sample) && (match trig {
                    None => spec_w_ms(w) == 0,
                    Some(start) => spec_elapsed(start, now_ms) >= spec_w_ms(w),
                }),
                WindowCondition::Increasing => {
                    &&& hist.len() >= 2
                    &&& rule.spec_extract(sample) - rule.spec_extract(
                        &spec_oldest_in_window(hist, spec_cutoff(now_ms, spec_w_ms(w))).sample,
                    ) >= rule.spec_normalized_threshold()
                },
                WindowCondition::Decreasing => {
                    &&& hist.len() >= 2
                    &&& rule.spec_extract(
                        &spec_oldest_in_window(hist, spec_cutoff(now_ms, spec_w_ms(w))).sample,
                    ) - rule.spec_extract(sample) >= rule.spec_normalized_threshold()
                },
            }
        },
    }
}

/// Whether some rule of the list carries the given expression text.
pub open spec fn spec_expr_in(rules: Seq<AlertRule>, e: Seq<char>) -> bool {
    exists|j: int| 0 <= j < rules.len() && (#[trigger] rules[j]).expression@ == e
}

/// Whether a rule's expression is the first of its text in the list: no
/// earlier rule carries the same expression.
pub open spec fn spec_first_of_expr(rules: Seq<AlertRule>, i: int) -> bool {
    forall|j: int| 0 <= j < i ==> (#[trigger] rules[j]).expression@ != rules[i].expression@
}

impl AlertEngine {
    /// Well-formedness: one history per process and one timer per
    /// (process, expression) pair.
    pub open spec fn wf(&self) -> bool {
        &&& forall|i: int, j: int|
            0 <= i < j < self.sample_history@.len() ==> self.sample_history@[i].pid
                != self.sample_history@[j].pid
        &&& forall|i: int, j: int|
            0 <= i < j < self.trigger_start_times@.len() ==> !(self.trigger_start_times@[i].pid
                == self.trigger_start_times@[j].pid && self.trigger_start_times@[i].expression@
                == self.trigger_start_times@[j].expression@)
    }

    /// The maximum history to retain, in milliseconds.
    pub open spec fn spec_max_history_ms(&self) -> u64 {
        self.max_history_ms
    }

    /// Whether any samples are recorded for a process.
    pub open spec fn spec_has_hist(&self, pid: u32) -> bool {
        exists|i: int| 0 <= i < self.sample_history@.len() && self.sample_history@[i].pid == pid
    }

    /// The recorded history of a process, oldest first; empty when none is
    /// recorded.
    pub open spec fn spec_hist(&self, pid: u32) -> Seq<HistEntry> {
        if self.spec_has_hist(pid) {
            let i = choose|i: int|
                0 <= i < self.sample_history@.len() && self.sample_history@[i].pid == pid;
            self.sample_history@[i].entries@
        } else {
            Seq::<HistEntry>::empty()
        }
    }

    /// The running timer of a (process, expression) pair, if one exists.
    pub open spec fn spec_trigger(&self, pid: u32, expr: Seq<char>) -> Option<u64> {
        if exists|i: int|
            0 <= i < self.trigger_start_times@.len() && trigger_matches(
                &self.trigger_start_times@[i],
                pid,
                expr,
            ) {
            let i = choose|i: int|
                0 <= i < self.trigger_start_times@.len() && trigger_matches(
                    &self.trigger_start_times@[i],
                    pid,
                    expr,
                );
            Some(self.trigger_start_times@[i].started_at)
        } else {
            None
        }
    }

    /// Whether a rule evaluated against a sample at instant `now_ms`
    /// reports triggered, given the engine's state: the rule's own timer
    /// and the process's history are all the state it reads.
    pub open spec fn spec_rule_triggered(
        &self,
        sample: &ProcessSample,
        rule: &AlertRule,
        now_ms: u64,
    ) -> bool {
        spec_rule_triggered_parts(
            self.spec_trigger(sample.pid, rule.expression@),
            self.spec_hist(sample.pid),
            sample,
            rule,
            now_ms,
        )
    }

    /// How one rule evaluation changes the trigger timers: a `for` rule
    /// whose base condition broke loses its timer; one that just became
    /// true gains a timer started now; every other state is kept, and
    /// nothing else changes.
    pub open spec fn spec_triggers_after_rule(
        &self,
        old_self: &AlertEngine,
        sample: &ProcessSample,
        rule: &AlertRule,
        now_ms: u64,
    ) -> bool {
        let pid = sample.pid;
        let expr = rule.expression@;
        let is_for = rule.window is Some && (rule.window_condition == Some(WindowCondition::For)
            || rule.window_condition is None);
        if is_for {
            if !rule.spec_base_holds(sample) {
                self.spec_trigger(pid, expr) is None && self.spec_other_triggers_unchanged(
                    old_self,
                    pid,
                    expr,
                )
            } else {
                (match old_self.spec_trigger(pid, expr) {
                    None => self.spec_trigger(pid, expr) == Some(now_ms),
                    Some(start) => self.spec_trigger(pid, expr) == Some(start),
                }) && self.spec_other_triggers_unchanged(old_self, pid, expr)
            }
        } else {
            self.trigger_start_times@ == old_self.trigger_start_times@
        }
    }

    /// Every timer but the one named is as it was.
    pub open spec fn spec_other_triggers_unchanged(
        &self,
        old_self: &AlertEngine,
        pid: u32,
        expr: Seq<char>,
    ) -> bool {
        forall|p: u32, e: Seq<char>|
            !(p == pid && e == expr) ==> #[trigger] self.spec_trigger(p, e)
                == old_self.spec_trigger(p, e)
    }

    /// Creates a new alert engine retaining at most `max_history_ms`
    /// milliseconds of per-process history.
    pub fn new(max_history_ms: u64) -> (r: AlertEngine)
        ensures
            r.wf(),
            r.spec_max_history_ms() == max_history_ms,
            forall|pid: u32| (#[trigger] r.spec_hist(pid)).len() == 0,
            forall|pid: u32, e: Seq<char>| #[trigger] r.spec_trigger(pid, e) is None,
    {
        AlertEngine {
            sample_history: Vec::new(),
            trigger_start_times: Vec::new(),
            max_history_ms,
        }
    }

    /// Creates a new alert engine with the default 10-minute history
    /// window.
    pub fn with_default_history() -> (r: AlertEngine)
        ensures
            r.wf(),
            r.spec_max_history_ms() == 600_000,
            forall|pid: u32| (#[trigger] r.spec_hist(pid)).len() == 0,
            forall|pid: u32, e: Seq<char>| #[trigger] r.spec_trigger(pid, e) is None,
    {
        Self::new(600_000)
    }

    /// Sets the maximum history duration to retain, in milliseconds.
    pub fn set_max_history_duration(&mut self, max_history_ms: u64)
        requires
            old(self).wf(),
        ensures
            final(self).wf(),
            final(self).spec_max_history_ms() == max_history_ms,
            final(self).sample_history@ == old(self).sample_history@,
            final(self).trigger_start_times@ == old(self).trigger_start_times@,
    {
        self.max_history_ms = max_history_ms;
    }

    /// Whether any samples are recorded for a process.
    pub fn has_history(&self, pid: u32) -> (r: bool)
        requires
            self.wf(),
        ensures
            r == self.spec_has_hist(pid),
    {
        let idx = find_hist_index(&self.sample_history, pid);
        idx.is_some()
    }

    /// The number of samples recorded for a process.
    pub fn history_len(&self, pid: u32) -> (r: usize)
        requires
            self.wf(),
        ensures
            r == self.spec_hist(pid).len(),
    {
        match find_hist_index(&self.sample_history, pid) {
            Some(i) => {
                proof {
                    self.lemma_hist_at(pid, i as int);
                }
                self.sample_history[i].entries.len()
            },
            None => 0,
        }
    }

    /// The number of running trigger timers.
    pub fn trigger_count(&self) -> (r: usize)
        ensures
            r == self.trigger_start_times@.len(),
    {
        self.trigger_start_times.len()
    }

    /// Whether no history is recorded for any process.
    pub fn history_is_empty(&self) -> (r: bool)
        ensures
            r == (self.sample_history@.len() == 0),
    {
        self.sample_history.len() == 0
    }

    /// With unique process entries, the history found at index `i` is the
    /// history of its process.
    proof fn lemma_hist_at(&self, pid: u32, i: int)
        requires
            self.wf(),
            0 <= i < self.sample_history@.len(),
            self.sample_history@[i].pid == pid,
        ensures
            self.spec_has_hist(pid),
            self.spec_hist(pid) == self.sample_history@[i].entries@,
    {
        let j = choose|j: int|
            0 <= j < self.sample_history@.len() && self.sample_history@[j].pid == pid;
        if i < j {
            assert(self.sample_history@[i].pid != self.sample_history@[j].pid);
        } else if j < i {
            assert(self.sample_history@[j].pid != self.sample_history@[i].pid);
        }
    }

    /// With unique keys, the timer found at index `i` is the timer of its
    /// key.
    proof fn lemma_trigger_at(&self, pid: u32, expr: Seq<char>, i: int)
        requires
            self.wf(),
            0 <= i < self.trigger_start_times@.len(),
            trigger_matches(&self.trigger_start_times@[i], pid, expr),
        ensures
            self.spec_trigger(pid, expr) == Some(self.trigger_start_times@[i].started_at),
    {
        let j = choose|j: int|
            0 <= j < self.trigger_start_times@.len() && trigger_matches(
                &self.trigger_start_times@[j],
                pid,
                expr,
            );
        if i < j {
            assert(!(self.trigger_start_times@[i].pid == self.trigger_start_times@[j].pid
                && self.trigger_start_times@[i].expression@
                == self.trigger_start_times@[j].expression@));
        } else if j < i {
            assert(!(self.trigger_start_times@[j].pid == self.trigger_start_times@[i].pid
                && self.trigger_start_times@[j].expression@
                == self.trigger_start_times@[i].expression@));
        }
    }
}

/// The first history slot of a process, if any: `None` means no slot holds
/// the process.
fn find_hist_index(h: &Vec<PidHistory>, pid: u32) -> (r: Option<usize>)
    ensures
        match r {
            Some(i) => i < h@.len() && h@[i as int].pid == pid,
            None => forall|j: int| 0 <= j < h@.len() ==> h@[j].pid != pid,
        },
{
    let n = h.len();
    let mut i: usize = 0;
    while i < n
        invariant
            n == h@.len(),
            i <= n,
            forall|j: int| 0 <= j < i ==> h@[j].pid != pid,
        decreases n - i,
    {
        if h[i].pid == pid {
            return Some(i);
        }
        i = i + 1;
    }
    None
}

/// The first timer slot of a (process, expression) key, if any.
fn find_trigger_index(ts: &Vec<TriggerEntry>, pid: u32, expr: &str) -> (r: Option<usize>)
    ensures
        match r {
            Some(i) => i < ts@.len() && trigger_matches(&ts@[i as int], pid, expr@),
            None => forall|j: int| 0 <= j < ts@.len() ==> !trigger_matches(&ts@[j], pid, expr@),
        },
{
    let n = ts.len();
    let mut i: usize = 0;
    while i < n
        invariant
            n == ts@.len(),
            i <= n,
            forall|j: int| 0 <= j < i ==> !trigger_matches(&ts@[j], pid, expr@),
        decreases n - i,
    {
        if ts[i].pid == pid && str_eq(ts[i].expression.as_str(), expr) {
            return Some(i);
        }
        i = i + 1;
    }
    None
}

/// The index of the oldest entry recorded at or after the cutoff, falling
/// back to the very first entry.
fn oldest_index(entries: &Vec<HistEntry>, cutoff: u64) -> (r: usize)
    requires
        entries@.len() > 0,
    ensures
        r < entries@.len(),
        entries@[r as int] == spec_oldest_in_window(entries@, cutoff),
{
    let n = entries.len();
    let mut i: usize = 0;
    while i < n
        invariant
            n == entries@.len(),
            i <= n,
            forall|j: int| 0 <= j < i ==> entries@[j].timestamp < cutoff,
            spec_first_at_or_after(entries@, cutoff, 0) == spec_first_at_or_after(
                entries@,
                cutoff,
                i as int,
            ),
        decreases n - i,
    {
        if entries[i].timestamp >= cutoff {
            return i;
        }
        i = i + 1;
    }
    0
}

/// Two engines with the same timer slots have the same timer view.
pub proof fn lemma_trigger_view_eq(a: &AlertEngine, b: &AlertEngine)
    requires
        a.wf(),
        a.trigger_start_times@ == b.trigger_start_times@,
    ensures
        forall|p: u32, e: Seq<char>| #[trigger] a.spec_trigger(p, e) == b.spec_trigger(p, e),
{
    assert forall|p: u32, e: Seq<char>| #[trigger] a.spec_trigger(p, e) == b.spec_trigger(p, e) by {
        if exists|i: int|
            0 <= i < a.trigger_start_times@.len() && trigger_matches(
                &a.trigger_start_times@[i],
                p,
                e,
            ) {
            let i = choose|i: int|
                0 <= i < a.trigger_start_times@.len() && trigger_matches(
                    &a.trigger_start_times@[i],
                    p,
                    e,
                );
            assert(trigger_matches(&b.trigger_start_times@[i], p, e));
            a.lemma_trigger_at(p, e, i);
            let j = choose|j: int|
                0 <= j < b.trigger_start_times@.len() && trigger_matches(
                    &b.trigger_start_times@[j],
                    p,
                    e,
                );
            assert(trigger_matches(&a.trigger_start_times@[j], p, e));
            a.lemma_trigger_at(p, e, j);
        } else {
            assert(forall|i: int|
                0 <= i < b.trigger_start_times@.len() ==> !trigger_matches(
                    #[trigger] &b.trigger_start_times@[i],
                    p,
                    e,
                ));
        }
    }
}

/// Two engines with the same history slots have the same history view.
pub proof fn lemma_hist_view_eq(a: &AlertEngine, b: &AlertEngine)
    requires
        a.wf(),
        a.sample_history@ == b.sample_history@,
    ensures
        forall|p: u32| #[trigger] a.spec_hist(p) == b.spec_hist(p) && a.spec_has_hist(p)
            == b.spec_has_hist(p),
{
    assert forall|p: u32|
        #[trigger] a.spec_hist(p) == b.spec_hist(p) && a.spec_has_hist(p) == b.spec_has_hist(
            p,
        ) by {
        if exists|i: int| 0 <= i < a.sample_history@.len() && a.sample_history@[i].pid == p {
            let i = choose|i: int|
                0 <= i < a.sample_history@.len() && a.sample_history@[i].pid == p;
            assert(b.sample_history@[i].pid == p);
            let j = choose|j: int|
                0 <= j < b.sample_history@.len() && b.sample_history@[j].pid == p;
            assert(a.sample_history@[j].pid == p);
            if i < j {
                assert(false);
            } else if j < i {
                assert(false);
            }
        } else {
            assert(forall|i: int|
                0 <= i < b.sample_history@.len() ==> (#[trigger] b.sample_history@[i]).pid != p);
        }
    }
}

impl AlertEngine {
    /// Records a sample in the per-process history at instant `now_ms` and
    /// prunes entries older than the retention cutoff. The process's new
    /// history is its old one with the fresh entry appended and the stale
    /// head dropped; no other process and no timer is touched.
    #[verifier::rlimit(30)]
    pub fn add_to_history_at(&mut self, sample: &ProcessSample, now_ms: u64)
        requires
            old(self).wf(),
        ensures
            final(self).wf(),
            final(self).max_history_ms == old(self).max_history_ms,
            final(self).trigger_start_times@ == old(self).trigger_start_times@,
            ({
                let h = final(self).spec_hist(sample.pid);
                &&& h.len() >= 1
                &&& same_sample(&h.last().sample, sample)
                &&& h.last().timestamp == now_ms
                &&& h == spec_prune(
                    old(self).spec_hist(sample.pid).push(h.last()),
                    spec_cutoff(now_ms, old(self).max_history_ms),
                )
            }),
            forall|p: u32|
                p != sample.pid ==> #[trigger] final(self).spec_hist(p) == old(self).spec_hist(p),
            forall|p: u32|
                p != sample.pid ==> #[trigger] final(self).spec_has_hist(p) == old(
                    self,
                ).spec_has_hist(p),
    {
        let pid = sample.pid;
        let ghost pre = *self;
        let entry = HistEntry { sample: sample.clone(), timestamp: now_ms };
        let idx = find_hist_index(&self.sample_history, pid);
        let i: usize = match idx {
            Some(i) => i,
            None => {
                let fresh = PidHistory { pid, entries: Vec::new() };
                self.sample_history.push(fresh);
                proof {
                    assert(self.sample_history@.last().pid == pid);
                    assert forall|a: int, b: int|
                        0 <= a < b < self.sample_history@.len() implies self.sample_history@[a].pid
                        != self.sample_history@[b].pid by {
                        if b < self.sample_history@.len() - 1 {
                        } else {
                            assert(pre.sample_history@[a].pid != pid);
                        }
                    }
                }
                self.sample_history.len() - 1
            },
        };
        proof {
            assert(self.wf());
            assert(self.sample_history@[i as int].pid == pid);
        }
        let ghost mid = *self;
        let ghost old_entries = mid.sample_history@[i as int].entries@;
        let mut ph = self.sample_history.remove(i);
        ph.entries.push(entry);
        let cutoff = if now_ms >= self.max_history_ms {
            now_ms - self.max_history_ms
        } else {
            now_ms
        };
        let ghost appended = ph.entries@;
        while ph.entries.len() > 0 && ph.entries[0].timestamp < cutoff
            invariant
                spec_prune(appended, cutoff) == spec_prune(ph.entries@, cutoff),
                ph.pid == pid,
            decreases ph.entries@.len(),
        {
            ph.entries.remove(0);
        }
        proof {
            assert(spec_prune(ph.entries@, cutoff) == ph.entries@);
        }
        self.sample_history.insert(i, ph);
        proof {
            assert(self.sample_history@ =~= mid.sample_history@.update(
                i as int,
                self.sample_history@[i as int],
            ));
            assert(self.sample_history@[i as int].pid == pid);
            assert forall|a: int, b: int|
                0 <= a < b < self.sample_history@.len() implies self.sample_history@[a].pid
                != self.sample_history@[b].pid by {
                assert(mid.sample_history@[a].pid != mid.sample_history@[b].pid);
            }
            assert(self.wf());
            self.lemma_hist_at(pid, i as int);
            mid.lemma_hist_at(pid, i as int);
            // The process's old view is the slot's old entries, or empty
            // where the slot is fresh.
            if pre.spec_has_hist(pid) {
                let j = choose|j: int|
                    0 <= j < pre.sample_history@.len() && pre.sample_history@[j].pid == pid;
                pre.lemma_hist_at(pid, j);
                assert(mid.sample_history@ == pre.sample_history@);
                lemma_hist_view_eq(&pre, &mid);
                assert(old_entries == pre.spec_hist(pid));
            } else {
                assert(mid.sample_history@ == pre.sample_history@.push(
                    mid.sample_history@[mid.sample_history@.len() - 1],
                ));
                assert(i as int == mid.sample_history@.len() - 1);
                assert(old_entries =~= pre.spec_hist(pid));
            }
            assert(appended == old_entries.push(appended.last()));
            assert(appended.last().timestamp == now_ms);
            assert(same_sample(&appended.last().sample, sample));
            assert(cutoff == spec_cutoff(now_ms, pre.max_history_ms));
            // The pruned result keeps at least the fresh entry.
            lemma_prune_keeps_fresh(appended, cutoff, now_ms);
            assert(self.spec_hist(pid) == spec_prune(
                pre.spec_hist(pid).push(self.spec_hist(pid).last()),
                spec_cutoff(now_ms, pre.max_history_ms),
            ));
            // Frame: other processes are untouched.
            assert(pre == *old(self));
            assert forall|p: u32|
                p != sample.pid implies #[trigger] self.spec_hist(p) == old(self).spec_hist(
                    p,
                ) by {
                lemma_hist_frame_one_slot(&pre, &mid, self, i as int, pid, p);
                assert(self.spec_hist(p) == pre.spec_hist(p));
            }
            assert forall|p: u32|
                p != sample.pid implies #[trigger] self.spec_has_hist(p) == old(
                    self,
                ).spec_has_hist(p) by {
                lemma_hist_frame_one_slot(&pre, &mid, self, i as int, pid, p);
                assert(self.spec_has_hist(p) == pre.spec_has_hist(p));
            }
        }
    }
}

/// Pruning a history whose last entry was recorded at `now_ms`, against a
/// cutoff no later than `now_ms`, keeps that last entry: the result is a
/// suffix ending in it.
proof fn lemma_prune_keeps_fresh(entries: Seq<HistEntry>, cutoff: u64, now_ms: u64)
    requires
        entries.len() > 0,
        entries.last().timestamp == now_ms,
        cutoff <= now_ms,
    ensures
        spec_prune(entries, cutoff).len() >= 1,
        spec_prune(entries, cutoff).last() == entries.last(),
    decreases entries.len(),
{
    if entries.len() > 0 && entries[0].timestamp < cutoff {
        let t = entries.subrange(1, entries.len() as int);
        assert(t.last() == entries.last());
        lemma_prune_keeps_fresh(t, cutoff, now_ms);
    }
}

/// Frame for the history view: where a state differs from another only in
/// the one slot of process `pid` (changed in place, appended, or with the
/// middle state equal to one of them), every other process sees the same
/// history.
proof fn lemma_hist_frame_one_slot(
    pre: &AlertEngine,
    mid: &AlertEngine,
    post: &AlertEngine,
    i: int,
    pid: u32,
    p: u32,
)
    requires
        pre.wf(),
        mid.wf(),
        post.wf(),
        p != pid,
        0 <= i < mid.sample_history@.len(),
        mid.sample_history@[i].pid == pid,
        post.sample_history@ == mid.sample_history@.update(i, post.sample_history@[i]),
        post.sample_history@[i].pid == pid,
        mid.sample_history@ == pre.sample_history@ || (mid.sample_history@
            == pre.sample_history@.push(mid.sample_history@[mid.sample_history@.len() - 1])
            && i == mid.sample_history@.len() - 1),
    ensures
        post.spec_hist(p) == pre.spec_hist(p),
        post.spec_has_hist(p) == pre.spec_has_hist(p),
{
    if pre.spec_has_hist(p) {
        let j = choose|j: int|
            0 <= j < pre.sample_history@.len() && pre.sample_history@[j].pid == p;
        assert(mid.sample_history@[j].pid == p);
        assert(j != i);
        assert(post.sample_history@[j].pid == p);
        pre.lemma_hist_at(p, j);
        post.lemma_hist_at(p, j);
        assert(post.sample_history@[j] == pre.sample_history@[j]);
    } else {
        assert forall|k: int|
            0 <= k < post.sample_history@.len() implies (#[trigger] post.sample_history@[k]).pid
            != p by {
            if k == i {
            } else if k < pre.sample_history@.len() {
                assert(pre.sample_history@[k].pid != p);
            }
        }
        assert(!post.spec_has_hist(p));
    }
}

/// Frame for the timer view under removal of one slot keyed by `pid`:
/// every key of another process sees the same timer, and uniqueness is
/// kept.
proof fn lemma_trigger_frame_remove(pre: Seq<TriggerEntry>, post: Seq<TriggerEntry>, i: int)
    requires
        0 <= i < pre.len(),
        post == pre.subrange(0, i) + pre.subrange(i + 1, pre.len() as int),
        forall|a: int, b: int|
            0 <= a < b < pre.len() ==> !(pre[a].pid == pre[b].pid && pre[a].expression@
                == pre[b].expression@),
    ensures
        forall|a: int, b: int|
            0 <= a < b < post.len() ==> !(post[a].pid == post[b].pid && post[a].expression@
                == post[b].expression@),
        forall|p: u32, e: Seq<char>|
            !trigger_matches(&pre[i], p, e) ==> ((exists|k: int|
                0 <= k < post.len() && trigger_matches(#[trigger] &post[k], p, e)) <==> (exists|
                k: int,
            |
                0 <= k < pre.len() && trigger_matches(#[trigger] &pre[k], p, e))),
        forall|k: int|
            0 <= k < post.len() ==> #[trigger] post[k] == if k < i {
                pre[k]
            } else {
                pre[k + 1]
            },
{
    assert(post.len() == pre.len() - 1);
    assert forall|k: int|
        0 <= k < post.len() implies #[trigger] post[k] == if k < i {
        pre[k]
    } else {
        pre[k + 1]
    } by {
        if k < i {
            assert(post[k] == pre.subrange(0, i)[k]);
        } else {
            assert(post[k] == pre.subrange(i + 1, pre.len() as int)[k - i]);
        }
    }
    assert forall|p: u32, e: Seq<char>|
        !trigger_matches(&pre[i], p, e) implies ((exists|k: int|
        0 <= k < post.len() && trigger_matches(#[trigger] &post[k], p, e)) <==> (exists|k: int|
        0 <= k < pre.len() && trigger_matches(#[trigger] &pre[k], p, e))) by {
        if exists|k: int| 0 <= k < post.len() && trigger_matches(#[trigger] &post[k], p, e) {
            let k = choose|k: int| 0 <= k < post.len() && trigger_matches(&post[k], p, e);
            if k < i {
                assert(trigger_matches(&pre[k], p, e));
            } else {
                assert(trigger_matches(&pre[k + 1], p, e));
            }
        }
        if exists|k: int| 0 <= k < pre.len() && trigger_matches(#[trigger] &pre[k], p, e) {
            let k = choose|k: int| 0 <= k < pre.len() && trigger_matches(&pre[k], p, e);
            assert(k != i);
            if k < i {
                assert(trigger_matches(&post[k], p, e));
            } else {
                assert(trigger_matches(&post[k - 1], p, e));
            }
        }
    }
}

impl AlertEngine {
    /// Removes one timer slot, keeping the views of every other key.
    fn remove_trigger_at(&mut self, i: usize)
        requires
            old(self).wf(),
            i < old(self).trigger_start_times@.len(),
        ensures
            final(self).wf(),
            final(self).sample_history@ == old(self).sample_history@,
            final(self).max_history_ms == old(self).max_history_ms,
            forall|p: u32, e: Seq<char>|
                !trigger_matches(&old(self).trigger_start_times@[i as int], p, e)
                    ==> #[trigger] final(self).spec_trigger(p, e) == old(self).spec_trigger(p, e),
            forall|e: Seq<char>|
                trigger_matches(&old(self).trigger_start_times@[i as int], old(
                    self,
                ).trigger_start_times@[i as int].pid, e) ==> #[trigger] final(self).spec_trigger(
                    old(self).trigger_start_times@[i as int].pid,
                    e,
                ) is None,
            final(self).trigger_start_times@.len() == old(self).trigger_start_times@.len() - 1,
            forall|k: int|
                0 <= k < final(self).trigger_start_times@.len()
                    ==> #[trigger] final(self).trigger_start_times@[k] == if k < i {
                    old(self).trigger_start_times@[k]
                } else {
                    old(self).trigger_start_times@[k + 1]
                },
    {
        let ghost pre = *self;
        self.trigger_start_times.remove(i);
        proof {
            lemma_trigger_frame_remove(
                pre.trigger_start_times@,
                self.trigger_start_times@,
                i as int,
            );
            let removed = pre.trigger_start_times@[i as int];
            assert forall|p: u32, e: Seq<char>|
                !trigger_matches(&removed, p, e) implies #[trigger] self.spec_trigger(p, e)
                == pre.spec_trigger(p, e) by {
                if exists|k: int|
                    0 <= k < self.trigger_start_times@.len() && trigger_matches(
                        &self.trigger_start_times@[k],
                        p,
                        e,
                    ) {
                    let k = choose|k: int|
                        0 <= k < self.trigger_start_times@.len() && trigger_matches(
                            &self.trigger_start_times@[k],
                            p,
                            e,
                        );
                    let k2: int = if k < i {
                        k
                    } else {
                        k + 1
                    };
                    assert(trigger_matches(&pre.trigger_start_times@[k2], p, e));
                    pre.lemma_trigger_at(p, e, k2);
                    self.lemma_trigger_at(p, e, k);
                } else {
                    if exists|k: int|
                        0 <= k < pre.trigger_start_times@.len() && trigger_matches(
                            &pre.trigger_start_times@[k],
                            p,
                            e,
                        ) {
                        assert(false);
                    }
                }
            }
            assert forall|e: Seq<char>|
                trigger_matches(&removed, removed.pid, e) implies #[trigger] self.spec_trigger(
                removed.pid,
                e,
            ) is None by {
                if exists|k: int|
                    0 <= k < self.trigger_start_times@.len() && trigger_matches(
                        &self.trigger_start_times@[k],
                        removed.pid,
                        e,
                    ) {
                    let k = choose|k: int|
                        0 <= k < self.trigger_start_times@.len() && trigger_matches(
                            &self.trigger_start_times@[k],
                            removed.pid,
                            e,
                        );
                    let k2: int = if k < i {
                        k
                    } else {
                        k + 1
                    };
                    assert(trigger_matches(&pre.trigger_start_times@[k2], removed.pid, e));
                    assert(e == removed.expression@);
                    assert(k2 != i);
                    if k2 < i as int {
                        assert(!(pre.trigger_start_times@[k2].pid
                            == pre.trigger_start_times@[i as int].pid
                            && pre.trigger_start_times@[k2].expression@
                            == pre.trigger_start_times@[i as int].expression@));
                    } else {
                        assert(!(pre.trigger_start_times@[i as int].pid
                            == pre.trigger_start_times@[k2].pid
                            && pre.trigger_start_times@[i as int].expression@
                            == pre.trigger_start_times@[k2].expression@));
                    }
                    assert(false);
                }
            }
        }
    }

    /// Starts a timer for a key that has none, keeping every other view.
    fn push_trigger(&mut self, pid: u32, expression: &String, now_ms: u64)
        requires
            old(self).wf(),
            old(self).spec_trigger(pid, expression@) is None,
        ensures
            final(self).wf(),
            final(self).sample_history@ == old(self).sample_history@,
            final(self).max_history_ms == old(self).max_history_ms,
            final(self).spec_trigger(pid, expression@) == Some(now_ms),
            forall|p: u32, e: Seq<char>|
                !(p == pid && e == expression@) ==> #[trigger] final(self).spec_trigger(p, e)
                    == old(self).spec_trigger(p, e),
    {
        let ghost pre = *self;
        let te = TriggerEntry { pid, expression: expression.clone(), started_at: now_ms };
        self.trigger_start_times.push(te);
        proof {
            let n = pre.trigger_start_times@.len() as int;
            assert(self.trigger_start_times@[n].pid == pid);
            assert(self.trigger_start_times@[n].expression@ == expression@);
            // Uniqueness: the key had no slot before.
            assert forall|a: int, b: int|
                0 <= a < b < self.trigger_start_times@.len() implies !(
            self.trigger_start_times@[a].pid == self.trigger_start_times@[b].pid
                && self.trigger_start_times@[a].expression@
                == self.trigger_start_times@[b].expression@) by {
                if b == n {
                    if trigger_matches(&pre.trigger_start_times@[a], pid, expression@) {
                        assert(pre.spec_trigger(pid, expression@) is Some) by {
                            pre.lemma_trigger_at(pid, expression@, a);
                        }
                    }
                } else {
                    assert(!(pre.trigger_start_times@[a].pid == pre.trigger_start_times@[b].pid
                        && pre.trigger_start_times@[a].expression@
                        == pre.trigger_start_times@[b].expression@));
                }
            }
            self.lemma_trigger_at(pid, expression@, n);
            assert forall|p: u32, e: Seq<char>|
                !(p == pid && e == expression@) implies #[trigger] self.spec_trigger(p, e)
                == pre.spec_trigger(p, e) by {
                if exists|k: int|
                    0 <= k < self.trigger_start_times@.len() && trigger_matches(
                        &self.trigger_start_times@[k],
                        p,
                        e,
                    ) {
                    let k = choose|k: int|
                        0 <= k < self.trigger_start_times@.len() && trigger_matches(
                            &self.trigger_start_times@[k],
                            p,
                            e,
                        );
                    assert(k != n);
                    assert(trigger_matches(&pre.trigger_start_times@[k], p, e));
                    pre.lemma_trigger_at(p, e, k);
                    self.lemma_trigger_at(p, e, k);
                } else {
                    if exists|k: int|
                        0 <= k < pre.trigger_start_times@.len() && trigger_matches(
                            &pre.trigger_start_times@[k],
                            p,
                            e,
                        ) {
                        let k = choose|k: int|
                            0 <= k < pre.trigger_start_times@.len() && trigger_matches(
                                &pre.trigger_start_times@[k],
                                p,
                                e,
                            );
                        assert(trigger_matches(&self.trigger_start_times@[k], p, e));
                        assert(false);
                    }
                }
            }
        }
    }

    /// Clears all recorded history and every trigger timer of one process;
    /// other processes keep their state.
    pub fn clear_history(&mut self, pid: u32)
        requires
            old(self).wf(),
        ensures
            final(self).wf(),
            final(self).max_history_ms == old(self).max_history_ms,
            !final(self).spec_has_hist(pid),
            final(self).spec_hist(pid).len() == 0,
            forall|p: u32|
                p != pid ==> #[trigger] final(self).spec_hist(p) == old(self).spec_hist(p),
            forall|p: u32|
                p != pid ==> #[trigger] final(self).spec_has_hist(p) == old(self).spec_has_hist(p),
            forall|j: int|
                0 <= j < final(self).trigger_start_times@.len() ==> (
                #[trigger] final(self).trigger_start_times@[j]).pid != pid,
            forall|e: Seq<char>| #[trigger] final(self).spec_trigger(pid, e) is None,
            forall|p: u32, e: Seq<char>|
                p != pid ==> #[trigger] final(self).spec_trigger(p, e) == old(self).spec_trigger(
                    p,
                    e,
                ),
    {
        let ghost pre = *self;
        // Drop the process's history slot, if any.
        match find_hist_index(&self.sample_history, pid) {
            Some(i) => {
                let ghost hpre = self.sample_history@;
                self.sample_history.remove(i);
                proof {
                    assert forall|a: int, b: int|
                        0 <= a < b < self.sample_history@.len() implies self.sample_history@[a].pid
                        != self.sample_history@[b].pid by {
                        let a2: int = if a < i {
                            a
                        } else {
                            a + 1
                        };
                        let b2: int = if b < i {
                            b
                        } else {
                            b + 1
                        };
                        assert(self.sample_history@[a] == hpre[a2]);
                        assert(self.sample_history@[b] == hpre[b2]);
                    }
                    assert forall|k: int|
                        0 <= k < self.sample_history@.len() implies (
                    #[trigger] self.sample_history@[k]).pid != pid by {
                        let k2: int = if k < i {
                            k
                        } else {
                            k + 1
                        };
                        assert(self.sample_history@[k] == hpre[k2]);
                        if k2 != i {
                            if k2 < i {
                                assert(hpre[k2].pid != hpre[i as int].pid);
                            } else {
                                assert(hpre[i as int].pid != hpre[k2].pid);
                            }
                        }
                    }
                    assert(!self.spec_has_hist(pid));
                    assert forall|p: u32|
                        p != pid implies #[trigger] self.spec_hist(p) == pre.spec_hist(p)
                        && self.spec_has_hist(p) == pre.spec_has_hist(p) by {
                        if pre.spec_has_hist(p) {
                            let j = choose|j: int|
                                0 <= j < pre.sample_history@.len() && pre.sample_history@[j].pid
                                    == p;
                            assert(j != i);
                            let j2: int = if j < i {
                                j
                            } else {
                                j - 1
                            };
                            assert(self.sample_history@[j2] == pre.sample_history@[j]);
                            pre.lemma_hist_at(p, j);
                            self.lemma_hist_at(p, j2);
                        } else {
                            assert forall|k: int|
                                0 <= k < self.sample_history@.len() implies (
                            #[trigger] self.sample_history@[k]).pid != p by {
                                let k2: int = if k < i {
                                    k
                                } else {
                                    k + 1
                                };
                                assert(self.sample_history@[k] == pre.sample_history@[k2]);
                            }
                        }
                    }
                }
            },
            None => {
                proof {
                    assert(!self.spec_has_hist(pid));
                }
            },
        }
        let ghost mid_engine = *self;
        proof {
            assert forall|k: int|
                0 <= k < mid_engine.sample_history@.len() implies (
            #[trigger] mid_engine.sample_history@[k]).pid != pid by {
                assert(mid_engine.sample_history@[k] == self.sample_history@[k]);
                assert(self.sample_history@[k].pid != pid);
            }
            assert(!mid_engine.spec_has_hist(pid));
            assert forall|p: u32|
                p != pid implies #[trigger] mid_engine.spec_hist(p) == pre.spec_hist(p) by {
                assert(mid_engine.spec_hist(p) == self.spec_hist(p));
                assert(self.spec_hist(p) == pre.spec_hist(p));
            }
            assert forall|p: u32|
                p != pid implies #[trigger] mid_engine.spec_has_hist(p) == pre.spec_has_hist(
                p,
            ) by {
                assert(mid_engine.spec_has_hist(p) == self.spec_has_hist(p));
                assert(self.spec_hist(p) == pre.spec_hist(p));
                assert(self.spec_has_hist(p) == pre.spec_has_hist(p));
            }
        }
        let ghost hist_state = self.sample_history@;
        // Drop every timer keyed by the process.
        let mut i: usize = 0;
        while i < self.trigger_start_times.len()
            invariant
                self.wf(),
                self.sample_history@ == hist_state,
                self.max_history_ms == pre.max_history_ms,
                i <= self.trigger_start_times@.len(),
                forall|j: int|
                    0 <= j < i ==> (#[trigger] self.trigger_start_times@[j]).pid != pid,
                forall|p: u32, e: Seq<char>|
                    p != pid ==> #[trigger] self.spec_trigger(p, e) == pre.spec_trigger(p, e),
            decreases self.trigger_start_times@.len() - i,
        {
            if self.trigger_start_times[i].pid == pid {
                let ghost step_pre = *self;
                self.remove_trigger_at(i);
                proof {
                    assert forall|p: u32, e: Seq<char>|
                        p != pid implies #[trigger] self.spec_trigger(p, e) == pre.spec_trigger(
                        p,
                        e,
                    ) by {
                        assert(!trigger_matches(
                            &step_pre.trigger_start_times@[i as int],
                            p,
                            e,
                        ));
                        assert(self.spec_trigger(p, e) == step_pre.spec_trigger(p, e));
                    }
                    assert forall|j: int|
                        0 <= j < i implies (#[trigger] self.trigger_start_times@[j]).pid
                        != pid by {
                        assert(self.trigger_start_times@[j]
                            == step_pre.trigger_start_times@[j]);
                    }
                }
            } else {
                i = i + 1;
            }
        }
        proof {
            assert forall|e: Seq<char>| #[trigger] self.spec_trigger(pid, e) is None by {
                if exists|k: int|
                    0 <= k < self.trigger_start_times@.len() && trigger_matches(
                        &self.trigger_start_times@[k],
                        pid,
                        e,
                    ) {
                    let k = choose|k: int|
                        0 <= k < self.trigger_start_times@.len() && trigger_matches(
                            &self.trigger_start_times@[k],
                            pid,
                            e,
                        );
                    assert(self.trigger_start_times@[k].pid != pid);
                }
            }
            lemma_hist_view_eq(&mid_engine, self);
            assert(mid_engine.spec_hist(pid) == self.spec_hist(pid));
            assert(!self.spec_has_hist(pid));
            assert forall|p: u32|
                p != pid implies #[trigger] self.spec_hist(p) == pre.spec_hist(p) by {
                assert(mid_engine.spec_hist(p) == self.spec_hist(p));
                assert(mid_engine.spec_hist(p) == pre.spec_hist(p));
            }
            assert forall|p: u32|
                p != pid implies #[trigger] self.spec_has_hist(p) == pre.spec_has_hist(p) by {
                assert(mid_engine.spec_hist(p) == self.spec_hist(p));
                assert(mid_engine.spec_has_hist(p) == self.spec_has_hist(p));
                assert(mid_engine.spec_has_hist(p) == pre.spec_has_hist(p));
            }
        }
    }

    /// Clears all stored history and trigger state.
    pub fn clear_all_history(&mut self)
        ensures
            final(self).wf(),
            final(self).max_history_ms == old(self).max_history_ms,
            final(self).sample_history@.len() == 0,
            final(self).trigger_start_times@.len() == 0,
            forall|p: u32| !(#[trigger] final(self).spec_has_hist(p)),
            forall|p: u32, e: Seq<char>| #[trigger] final(self).spec_trigger(p, e) is None,
    {
        self.sample_history.clear();
        self.trigger_start_times.clear();
    }
}

/// A window length in seconds converted to milliseconds, saturating.
fn w_ms_of(w: u64) -> (r: u64)
    ensures
        r == spec_w_ms(w),
{
    if w > u64::MAX / 1000 {
        u64::MAX
    } else {
        w * 1000
    }
}

impl AlertEngine {
    /// Evaluates a single rule against a sample at instant `now_ms`.
    ///
    /// Reports triggered exactly as [`AlertEngine::spec_rule_triggered`]
    /// says of the pre-state; touches only the rule's own trigger timer, as
    /// [`AlertEngine::spec_triggers_after_rule`] says; and never touches
    /// the recorded history.
    pub fn evaluate_rule_at(
        &mut self,
        sample: &ProcessSample,
        rule: &AlertRule,
        now_ms: u64,
    ) -> (r: AlertResult)
        requires
            old(self).wf(),
        ensures
            final(self).wf(),
            final(self).sample_history@ == old(self).sample_history@,
            final(self).max_history_ms == old(self).max_history_ms,
            final(self).spec_triggers_after_rule(old(self), sample, rule, now_ms),
            r.triggered == old(self).spec_rule_triggered(sample, rule, now_ms),
            same_rule(&r.rule, rule),
            r.current_value == rule.spec_extract(sample),
            r.threshold == rule.spec_normalized_threshold(),
            r.pid == sample.pid,
            r.process_name@ == sample.name@,
            r.message@ == if r.triggered {
                crate::procwatch::result::spec_alert_message(rule, rule.spec_extract(sample), sample)
            } else {
                crate::procwatch::result::spec_ok_message(rule, rule.spec_extract(sample), sample)
            },
    {
        let ghost pre = *self;
        let current_value = rule.extract_metric_value(sample);
        proof {
            assert(current_value > i128::MIN);
        }
        let w = match rule.window {
            None => {
                // Simple rule (no time window).
                let triggered = rule.evaluate(sample);
                return if triggered {
                    AlertResult::triggered(rule, current_value, sample)
                } else {
                    AlertResult::ok(rule, current_value, sample)
                };
            },
            Some(w) => w,
        };
        let is_for = match rule.window_condition {
            Some(WindowCondition::For) | None => true,
            _ => false,
        };
        if is_for {
            let condition_met = rule.evaluate(sample);
            if !condition_met {
                // Condition broke -- reset the timer.
                match find_trigger_index(
                    &self.trigger_start_times,
                    sample.pid,
                    rule.expression.as_str(),
                ) {
                    Some(i) => {
                        proof {
                            assert(trigger_matches(
                                &self.trigger_start_times@[i as int],
                                sample.pid,
                                rule.expression@,
                            ));
                        }
                        self.remove_trigger_at(i);
                        proof {
                            assert(self.spec_trigger(sample.pid, rule.expression@) is None);
                        }
                    },
                    None => {
                        proof {
                            assert(self.spec_trigger(sample.pid, rule.expression@) is None);
                        }
                    },
                }
                return AlertResult::ok(rule, current_value, sample);
            }
            // Condition holds: record the start instant on first sight.
            let w_ms = w_ms_of(w);
            let triggered: bool = match find_trigger_index(
                &self.trigger_start_times,
                sample.pid,
                rule.expression.as_str(),
            ) {
                Some(i) => {
                    let started = self.trigger_start_times[i].started_at;
                    proof {
                        self.lemma_trigger_at(sample.pid, rule.expression@, i as int);
                    }
                    let elapsed = if now_ms >= started {
                        now_ms - started
                    } else {
                        0
                    };
                    elapsed >= w_ms
                },
                None => {
                    proof {
                        assert(pre.spec_trigger(sample.pid, rule.expression@) is None);
                    }
                    self.push_trigger(sample.pid, &rule.expression, now_ms);
                    w_ms == 0
                },
            };
            if triggered {
                AlertResult::triggered(rule, current_value, sample)
            } else {
                AlertResult::ok(rule, current_value, sample)
            }
        } else {
            // Increasing / decreasing: a two-point delta over the window.
            let increasing = match rule.window_condition {
                Some(WindowCondition::Increasing) => true,
                _ => false,
            };
            let w_ms = w_ms_of(w);
            let triggered: bool = match find_hist_index(&self.sample_history, sample.pid) {
                Some(hi) => {
                    proof {
                        self.lemma_hist_at(sample.pid, hi as int);
                    }
                    if self.sample_history[hi].entries.len() >= 2 {
                        let cutoff = if now_ms >= w_ms {
                            now_ms - w_ms
                        } else {
                            now_ms
                        };
                        let oi = oldest_index(&self.sample_history[hi].entries, cutoff);
                        let old_value = rule.extract_metric_value(
                            &self.sample_history[hi].entries[oi].sample,
                        );
                        let threshold = rule.normalize_threshold();
                        if increasing {
                            current_value - old_value >= threshold
                        } else {
                            old_value - current_value >= threshold
                        }
                    } else {
                        false
                    }
                },
                None => {
                    proof {
                        assert(!self.spec_has_hist(sample.pid));
                        assert(self.spec_hist(sample.pid).len() == 0);
                    }
                    false
                },
            };
            if triggered {
                AlertResult::triggered(rule, current_value, sample)
            } else {
                AlertResult::ok(rule, current_value, sample)
            }
        }
    }

    /// Evaluates a single rule against a sample, reading the wall clock
    /// once: behaves as `evaluate_rule_at` at some instant.
    pub fn evaluate_rule(&mut self, sample: &ProcessSample, rule: &AlertRule) -> (r: AlertResult)
        requires
            old(self).wf(),
        ensures
            final(self).wf(),
            final(self).sample_history@ == old(self).sample_history@,
            final(self).max_history_ms == old(self).max_history_ms,
            same_rule(&r.rule, rule),
            r.current_value == rule.spec_extract(sample),
            r.threshold == rule.spec_normalized_threshold(),
            r.pid == sample.pid,
            r.process_name@ == sample.name@,
            rule.window is None ==> r.triggered == rule.spec_base_holds(sample),
            exists|now_ms: u64|
                #![trigger final(self).spec_triggers_after_rule(old(self), sample, rule, now_ms)]
                final(self).spec_triggers_after_rule(old(self), sample, rule, now_ms)
                    && r.triggered == old(self).spec_rule_triggered(sample, rule, now_ms),
    {
        let now_ms = clock_now_millis();
        let r = self.evaluate_rule_at(sample, rule, now_ms);
        proof {
            assert(self.spec_triggers_after_rule(old(self), sample, rule, now_ms) && r.triggered
                == old(self).spec_rule_triggered(sample, rule, now_ms));
        }
        r
    }

    /// Evaluates all rules against a process sample at instant `now_ms`.
    ///
    /// The sample is recorded in the history before any rule is evaluated,
    /// so a windowed rule can reference the just-arrived sample; one result
    /// is produced per rule, in input order, each carrying the rule, the
    /// extracted value and the normalized threshold; a rule without a
    /// window reports triggered exactly when its comparison holds. Only the
    /// evaluated rules' own timers are touched, and the first rule of each
    /// expression text reports triggered exactly per the timer it found and
    /// the updated history; a later rule repeating the same expression sees
    /// the timer its twin left, as the single-rule evaluator states.
    pub fn evaluate_at(
        &mut self,
        sample: &ProcessSample,
        rules: &[AlertRule],
        now_ms: u64,
    ) -> (res: Vec<AlertResult>)
        requires
            old(self).wf(),
        ensures
            final(self).wf(),
            final(self).max_history_ms == old(self).max_history_ms,
            res@.len() == rules@.len(),
            ({
                let h = final(self).spec_hist(sample.pid);
                &&& h.len() >= 1
                &&& same_sample(&h.last().sample, sample)
                &&& h.last().timestamp == now_ms
                &&& h == spec_prune(
                    old(self).spec_hist(sample.pid).push(h.last()),
                    spec_cutoff(now_ms, old(self).max_history_ms),
                )
            }),
            forall|p: u32|
                p != sample.pid ==> #[trigger] final(self).spec_hist(p) == old(self).spec_hist(p),
            forall|i: int|
                0 <= i < rules@.len() ==> same_rule(&(#[trigger] res@[i]).rule, &rules@[i])
                    && res@[i].pid == sample.pid && res@[i].current_value == rules@[i].spec_extract(
                    sample,
                ) && res@[i].threshold == rules@[i].spec_normalized_threshold()
                    && res@[i].process_name@ == sample.name@,
            forall|i: int|
                0 <= i < rules@.len() && rules@[i].window is None ==> (#[trigger] res@[i]).triggered
                    == rules@[i].spec_base_holds(sample),
            forall|p: u32, e: Seq<char>|
                !(p == sample.pid && spec_expr_in(rules@, e))
                    ==> #[trigger] final(self).spec_trigger(p, e) == old(self).spec_trigger(p, e),
            forall|i: int|
                0 <= i < rules@.len() && spec_first_of_expr(rules@, i) ==> (
                #[trigger] res@[i]).triggered == spec_rule_triggered_parts(
                    old(self).spec_trigger(sample.pid, rules@[i].expression@),
                    final(self).spec_hist(sample.pid),
                    sample,
                    &rules@[i],
                    now_ms,
                ),
    {
        self.add_to_history_at(sample, now_ms);
        let ghost after_add = *self;
        proof {
            lemma_trigger_view_eq(&after_add, old(self));
        }
        let n = rules.len();
        let mut res: Vec<AlertResult> = Vec::new();
        let mut i: usize = 0;
        while i < n
            invariant
                self.wf(),
                after_add.wf(),
                n == rules@.len(),
                i <= n,
                res@.len() == i,
                self.sample_history@ == after_add.sample_history@,
                self.max_history_ms == after_add.max_history_ms,
                forall|j: int|
                    0 <= j < i ==> same_rule(&(#[trigger] res@[j]).rule, &rules@[j]) && res@[j].pid
                        == sample.pid && res@[j].current_value == rules@[j].spec_extract(sample)
                        && res@[j].threshold == rules@[j].spec_normalized_threshold()
                        && res@[j].process_name@ == sample.name@,
                forall|j: int|
                    0 <= j < i && rules@[j].window is None ==> (#[trigger] res@[j]).triggered
                        == rules@[j].spec_base_holds(sample),
                forall|p: u32, e: Seq<char>|
                    !(p == sample.pid && spec_expr_in(rules@.take(i as int), e))
                        ==> #[trigger] self.spec_trigger(p, e) == after_add.spec_trigger(p, e),
                forall|j: int|
                    0 <= j < i && spec_first_of_expr(rules@, j) ==> (
                    #[trigger] res@[j]).triggered == spec_rule_triggered_parts(
                        after_add.spec_trigger(sample.pid, rules@[j].expression@),
                        after_add.spec_hist(sample.pid),
                        sample,
                        &rules@[j],
                        now_ms,
                    ),
            decreases n - i,
        {
            let ghost pre_step = *self;
            let r = self.evaluate_rule_at(sample, &rules[i], now_ms);
            proof {
                lemma_hist_view_eq(&after_add, &pre_step);
                assert(pre_step.spec_hist(sample.pid) == after_add.spec_hist(sample.pid));
                let expr_i = rules@[i as int].expression@;
                if spec_first_of_expr(rules@, i as int) {
                    // No earlier rule carried this expression, so the rule
                    // read the timer as the history update left it.
                    assert(!spec_expr_in(rules@.take(i as int), expr_i)) by {
                        if spec_expr_in(rules@.take(i as int), expr_i) {
                            let j = choose|j: int|
                                0 <= j < rules@.take(i as int).len() && (#[trigger] rules@.take(
                                    i as int,
                                )[j]).expression@ == expr_i;
                            assert(rules@[j].expression@ == expr_i);
                        }
                    }
                    assert(pre_step.spec_trigger(sample.pid, expr_i) == after_add.spec_trigger(
                        sample.pid,
                        expr_i,
                    ));
                    assert(r.triggered == spec_rule_triggered_parts(
                        after_add.spec_trigger(sample.pid, expr_i),
                        after_add.spec_hist(sample.pid),
                        sample,
                        &rules@[i as int],
                        now_ms,
                    ));
                }
                // Frame: the step touched at most the rule's own timer.
                let is_for = rules@[i as int].window is Some && (rules@[i as int].window_condition
                    == Some(WindowCondition::For) || rules@[i as int].window_condition is None);
                if !is_for {
                    lemma_trigger_view_eq(&pre_step, self);
                }
                assert forall|p: u32, e: Seq<char>|
                    !(p == sample.pid && spec_expr_in(rules@.take(i + 1 as int), e))
                        implies #[trigger] self.spec_trigger(p, e) == after_add.spec_trigger(
                    p,
                    e,
                ) by {
                    assert(!(p == sample.pid && spec_expr_in(rules@.take(i as int), e))) by {
                        if p == sample.pid && spec_expr_in(rules@.take(i as int), e) {
                            let j = choose|j: int|
                                0 <= j < rules@.take(i as int).len() && (#[trigger] rules@.take(
                                    i as int,
                                )[j]).expression@ == e;
                            assert((rules@.take(i + 1 as int)[j]).expression@ == e);
                        }
                    }
                    assert(pre_step.spec_trigger(p, e) == after_add.spec_trigger(p, e));
                    if is_for {
                        assert(!(p == sample.pid && e == expr_i)) by {
                            if p == sample.pid && e == expr_i {
                                assert((rules@.take(i + 1 as int)[i as int]).expression@ == e);
                            }
                        }
                        assert(self.spec_trigger(p, e) == pre_step.spec_trigger(p, e));
                    } else {
                        assert(self.spec_trigger(p, e) == pre_step.spec_trigger(p, e));
                    }
                }
            }
            res.push(r);
            i = i + 1;
        }
        proof {
            lemma_hist_view_eq(&after_add, self);
            assert(self.spec_hist(sample.pid) == after_add.spec_hist(sample.pid));
            assert forall|p: u32|
                p != sample.pid implies #[trigger] self.spec_hist(p) == old(self).spec_hist(
                p,
            ) by {
                assert(after_add.spec_hist(p) == self.spec_hist(p));
                assert(after_add.spec_hist(p) == old(self).spec_hist(p));
            }
            assert(rules@.take(n as int) =~= rules@);
            assert forall|p: u32, e: Seq<char>|
                !(p == sample.pid && spec_expr_in(rules@, e)) implies #[trigger] self.spec_trigger(
                p,
                e,
            ) == old(self).spec_trigger(p, e) by {
                assert(self.spec_trigger(p, e) == after_add.spec_trigger(p, e));
                assert(after_add.spec_trigger(p, e) == old(self).spec_trigger(p, e));
            }
            assert forall|j: int|
                0 <= j < rules@.len() && spec_first_of_expr(rules@, j) implies (
            #[trigger] res@[j]).triggered == spec_rule_triggered_parts(
                old(self).spec_trigger(sample.pid, rules@[j].expression@),
                self.spec_hist(sample.pid),
                sample,
                &rules@[j],
                now_ms,
            ) by {
                assert(after_add.spec_trigger(sample.pid, rules@[j].expression@) == old(
                    self,
                ).spec_trigger(sample.pid, rules@[j].expression@));
            }
        }
        res
    }

    /// Evaluates all rules against a process sample, reading the wall clock
    /// once: behaves as `evaluate_at` at some instant. The sample is
    /// recorded in the history before any rule is evaluated.
    pub fn evaluate(&mut self, sample: &ProcessSample, rules: &[AlertRule]) -> (res: Vec<
        AlertResult,
    >)
        requires
            old(self).wf(),
        ensures
            final(self).wf(),
            final(self).max_history_ms == old(self).max_history_ms,
            res@.len() == rules@.len(),
            final(self).spec_hist(sample.pid).len() >= 1,
            same_sample(&final(self).spec_hist(sample.pid).last().sample, sample),
            forall|p: u32|
                p != sample.pid ==> #[trigger] final(self).spec_hist(p) == old(self).spec_hist(p),
            forall|i: int|
                0 <= i < rules@.len() ==> same_rule(&(#[trigger] res@[i]).rule, &rules@[i])
                    && res@[i].pid == sample.pid && res@[i].current_value == rules@[i].spec_extract(
                    sample,
                ) && res@[i].threshold == rules@[i].spec_normalized_threshold()
                    && res@[i].process_name@ == sample.name@,
            forall|i: int|
                0 <= i < rules@.len() && rules@[i].window is None ==> (#[trigger] res@[i]).triggered
                    == rules@[i].spec_base_holds(sample),
            forall|p: u32, e: Seq<char>|
                !(p == sample.pid && spec_expr_in(rules@, e))
                    ==> #[trigger] final(self).spec_trigger(p, e) == old(self).spec_trigger(p, e),
            exists|now_ms: u64|
                #![trigger spec_cutoff(now_ms, old(self).max_history_ms)]
                {
                    let h = final(self).spec_hist(sample.pid);
                    &&& h.last().timestamp == now_ms
                    &&& h == spec_prune(
                        old(self).spec_hist(sample.pid).push(h.last()),
                        spec_cutoff(now_ms, old(self).max_history_ms),
                    )
                    &&& forall|i: int|
                        0 <= i < rules@.len() && spec_first_of_expr(rules@, i) ==> (
                        #[trigger] res@[i]).triggered == spec_rule_triggered_parts(
                            old(self).spec_trigger(sample.pid, rules@[i].expression@),
                            final(self).spec_hist(sample.pid),
                            sample,
                            &rules@[i],
                            now_ms,
                        )
                },
    {
        let now_ms = clock_now_millis();
        let res = self.evaluate_at(sample, rules, now_ms);
        proof {
            let h = self.spec_hist(sample.pid);
            assert(h.last().timestamp == now_ms && h == spec_prune(
                old(self).spec_hist(sample.pid).push(h.last()),
                spec_cutoff(now_ms, old(self).max_history_ms),
            ) && (forall|i: int|
                0 <= i < rules@.len() && spec_first_of_expr(rules@, i) ==> (
                #[trigger] res@[i]).triggered == spec_rule_triggered_parts(
                    old(self).spec_trigger(sample.pid, rules@[i].expression@),
                    self.spec_hist(sample.pid),
                    sample,
                    &rules@[i],
                    now_ms,
                )));
        }
        res
    }
}

// ── Laws of windowed evaluation ────────────────────────────────────────

/// Law: the first true observation of a `for` rule with a positive window
/// never triggers: with no timer running, only a zero-length window can
/// report triggered.
pub proof fn lemma_for_first_true_never_triggers(
    e: &AlertEngine,
    sample: &ProcessSample,
    rule: &AlertRule,
    now_ms: u64,
)
    requires
        rule.window matches Some(w) && w > 0,
        rule.window_condition == Some(WindowCondition::For) || rule.window_condition is None,
        e.spec_trigger(sample.pid, rule.expression@) is None,
    ensures
        !e.spec_rule_triggered(sample, rule, now_ms),
{
    let w = rule.window->Some_0;
    assert(spec_w_ms(w) > 0);
}

/// Law: a running `for` timer triggers exactly when the base condition
/// still holds and the elapsed time has reached the window.
pub proof fn lemma_for_triggers_at_window(
    e: &AlertEngine,
    sample: &ProcessSample,
    rule: &AlertRule,
    now_ms: u64,
    start: u64,
)
    requires
        rule.window is Some,
        rule.window_condition == Some(WindowCondition::For) || rule.window_condition is None,
        e.spec_trigger(sample.pid, rule.expression@) == Some(start),
    ensures
        e.spec_rule_triggered(sample, rule, now_ms) == (rule.spec_base_holds(sample)
            && spec_elapsed(start, now_ms) >= spec_w_ms(rule.window->Some_0)),
{
}

/// Law: with fewer than two recorded samples for a process, an
/// `increasing` or `decreasing` rule never triggers, whatever the
/// threshold.
pub proof fn lemma_delta_needs_two_samples(
    e: &AlertEngine,
    sample: &ProcessSample,
    rule: &AlertRule,
    now_ms: u64,
)
    requires
        rule.window is Some,
        rule.window_condition == Some(WindowCondition::Increasing) || rule.window_condition
            == Some(WindowCondition::Decreasing),
        e.spec_hist(sample.pid).len() < 2,
    ensures
        !e.spec_rule_triggered(sample, rule, now_ms),
{
}

/// Law: with two or more recorded samples, an `increasing` rule triggers
/// exactly when the current value exceeds the oldest in-window value by at
/// least the normalized threshold.
pub proof fn lemma_increasing_is_two_point_delta(
    e: &AlertEngine,
    sample: &ProcessSample,
    rule: &AlertRule,
    now_ms: u64,
)
    requires
        rule.window is Some,
        rule.window_condition == Some(WindowCondition::Increasing),
        e.spec_hist(sample.pid).len() >= 2,
    ensures
        e.spec_rule_triggered(sample, rule, now_ms) == (rule.spec_extract(sample)
            - rule.spec_extract(
            &spec_oldest_in_window(
                e.spec_hist(sample.pid),
                spec_cutoff(now_ms, spec_w_ms(rule.window->Some_0)),
            ).sample,
        ) >= rule.spec_normalized_threshold()),
{
}

} // verus!
