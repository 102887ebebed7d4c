//! Security findings over port bindings, and the report that collects them.

use vstd::prelude::*;

use crate::clock::clock_now_millis;
use crate::numfmt::{spec_digits, u64_str};
use crate::portinfo::binding::PortBinding;

verus! {

/// Severity levels for security findings.
#[derive(Debug, Clone, Copy, PartialEq, Eq, Structural, Hash)]
pub enum Severity {
    Critical,
    High,
    Warning,
    Info,
}

impl Severity {
    /// The human-readable severity name.
    pub open spec fn spec_display_name(&self) -> Seq<char> {
        match self {
            Severity::Critical => "Critical"@,
            Severity::High => "High"@,
            Severity::Warning => "Warning"@,
            Severity::Info => "Info"@,
        }
    }

    pub fn display_name(&self) -> (r: &'static str)
        ensures
            r@ == self.spec_display_name(),
    {
        match self {
            Severity::Critical => "Critical",
            Severity::High => "High",
            Severity::Warning => "Warning",
            Severity::Info => "Info",
        }
    }

    /// The numeric rank of the severity, highest most severe.
    pub open spec fn spec_level(&self) -> u8 {
        match self {
            Severity::Critical => 4,
            Severity::High => 3,
            Severity::Warning => 2,
            Severity::Info => 1,
        }
    }

    pub fn level(&self) -> (r: u8)
        ensures
            r == self.spec_level(),
    {
        match self {
            Severity::Critical => 4,
            Severity::High => 3,
            Severity::Warning => 2,
            Severity::Info => 1,
        }
    }
}

/// Categories of security findings.
#[derive(Debug, Clone, Copy, PartialEq, Eq, Structural, Hash)]
pub enum SecurityCategory {
    NetworkExposure,
    Privilege,
    Debug,
    Database,
    Configuration,
    Protocol,
}

impl SecurityCategory {
    /// The human-readable category name.
    pub open spec fn spec_display_name(&self) -> Seq<char> {
        match self {
            SecurityCategory::NetworkExposure => "Network Exposure"@,
            SecurityCategory::Privilege => "Privilege"@,
            SecurityCategory::Debug => "Debug/Development"@,
            SecurityCategory::Database => "Database"@,
            SecurityCategory::Configuration => "Configuration"@,
            SecurityCategory::Protocol => "Protocol"@,
        }
    }

    pub fn display_name(&self) -> (r: &'static str)
        ensures
            r@ == self.spec_display_name(),
    {
        match self {
            SecurityCategory::NetworkExposure => "Network Exposure",
            SecurityCategory::Privilege => "Privilege",
            SecurityCategory::Debug => "Debug/Development",
            SecurityCategory::Database => "Database",
            SecurityCategory::Configuration => "Configuration",
            SecurityCategory::Protocol => "Protocol",
        }
    }
}

/// A security flag or warning.
#[derive(Debug)]
pub struct SecurityFlag {
    pub severity: Severity,
    pub category: SecurityCategory,
    pub title: String,
    pub description: String,
    pub recommendation: String,
    pub related_port: u16,
    pub related_process: String,
}

/// Whether two flags carry the same values in every field.
pub open spec fn same_flag(a: &SecurityFlag, b: &SecurityFlag) -> bool {
    &&& a.severity == b.severity
    &&& a.category == b.category
    &&& a.title@ == b.title@
    &&& a.description@ == b.description@
    &&& a.recommendation@ == b.recommendation@
    &&& a.related_port == b.related_port
    &&& a.related_process@ == b.related_process@
}

impl Clone for SecurityFlag {
    /// A clone carries the same values in every field.
    fn clone(&self) -> (r: Self)
        ensures
            same_flag(&r, self),
    {
        SecurityFlag {
            severity: self.severity,
            category: self.category,
            title: self.title.clone(),
            description: self.description.clone(),
            recommendation: self.recommendation.clone(),
            related_port: self.related_port,
            related_process: self.related_process.clone(),
        }
    }
}

impl SecurityFlag {
    /// Builds a flag of the given severity against a binding.
    pub fn with_severity(
        severity: Severity,
        category: SecurityCategory,
        title: &str,
        description: &str,
        recommendation: &str,
        binding: &PortBinding,
    ) -> (r: SecurityFlag)
        ensures
            r.severity == severity,
            r.category == category,
            r.title@ == title@,
            r.description@ == description@,
            r.recommendation@ == recommendation@,
            r.related_port == binding.port,
            r.related_process@ == binding.process_name@,
    {
        SecurityFlag {
            severity,
            category,
            title: String::from_str(title),
            description: String::from_str(description),
            recommendation: String::from_str(recommendation),
            related_port: binding.port,
            related_process: binding.process_name.clone(),
        }
    }

    /// A critical finding against a binding.
    pub fn critical(
        category: SecurityCategory,
        title: &str,
        description: &str,
        recommendation: &str,
        binding: &PortBinding,
    ) -> (r: SecurityFlag)
        ensures
            r.severity == Severity::Critical,
            r.category == category,
            r.title@ == title@,
            r.description@ == description@,
            r.recommendation@ == recommendation@,
            r.related_port == binding.port,
            r.related_process@ == binding.process_name@,
    {
        Self::with_severity(Severity::Critical, category, title, description, recommendation, binding)
    }

    /// A high-severity finding against a binding.
    pub fn high(
        category: SecurityCategory,
        title: &str,
        description: &str,
        recommendation: &str,
        binding: &PortBinding,
    ) -> (r: SecurityFlag)
        ensures
            r.severity == Severity::High,
            r.category == category,
            r.title@ == title@,
            r.description@ == description@,
            r.recommendation@ == recommendation@,
            r.related_port == binding.port,
            r.related_process@ == binding.process_name@,
    {
        Self::with_severity(Severity::High, category, title, description, recommendation, binding)
    }

    /// A warning finding against a binding.
    pub fn warning(
        category: SecurityCategory,
        title: &str,
        description: &str,
        recommendation: &str,
        binding: &PortBinding,
    ) -> (r: SecurityFlag)
        ensures
            r.severity == Severity::Warning,
            r.category == category,
            r.title@ == title@,
            r.description@ == description@,
            r.recommendation@ == recommendation@,
            r.related_port == binding.port,
            r.related_process@ == binding.process_name@,
    {
        Self::with_severity(Severity::Warning, category, title, description, recommendation, binding)
    }

    /// An informational finding against a binding.
    pub fn info(
        category: SecurityCategory,
        title: &str,
        description: &str,
        recommendation: &str,
        binding: &PortBinding,
    ) -> (r: SecurityFlag)
        ensures
            r.severity == Severity::Info,
            r.category == category,
            r.title@ == title@,
            r.description@ == description@,
            r.recommendation@ == recommendation@,
            r.related_port == binding.port,
            r.related_process@ == binding.process_name@,
    {
        Self::with_severity(Severity::Info, category, title, description, recommendation, binding)
    }

    /// The summary line: `:port process [title] - description`.
    pub open spec fn spec_summary_line(&self) -> Seq<char> {
        ":"@ + spec_digits(self.related_port as nat) + " "@ + self.related_process@ + " ["@
            + self.title@ + "] - "@ + self.description@
    }

    /// Returns a formatted summary line.
    pub fn to_summary_line(&self) -> (r: String)
        ensures
            r@ == self.spec_summary_line(),
    {
        proof {
            reveal_strlit(":");
            reveal_strlit(" ");
            reveal_strlit(" [");
            reveal_strlit("] - ");
        }
        let mut s = String::from_str(":");
        let p = u64_str(self.related_port as u64);
        s.append(p.as_str());
        s.append(" ");
        s.append(self.related_process.as_str());
        s.append(" [");
        s.append(self.title.as_str());
        s.append("] - ");
        s.append(self.description.as_str());
        s
    }
}

/// The number of findings of one severity.
pub open spec fn spec_count_sev(s: Seq<SecurityFlag>, sev: Severity) -> int
    decreases s.len(),
{
    if s.len() == 0 {
        0
    } else {
        spec_count_sev(s.drop_last(), sev) + if s.last().severity == sev {
            1int
        } else {
            0int
        }
    }
}

/// The findings of one severity, kept in order.
pub open spec fn spec_select_sev(s: Seq<SecurityFlag>, sev: Severity) -> Seq<SecurityFlag>
    decreases s.len(),
{
    if s.len() == 0 {
        Seq::<SecurityFlag>::empty()
    } else if s.last().severity == sev {
        spec_select_sev(s.drop_last(), sev).push(s.last())
    } else {
        spec_select_sev(s.drop_last(), sev)
    }
}

/// The findings of at least one severity rank, kept in order.
pub open spec fn spec_select_min(s: Seq<SecurityFlag>, min_level: u8) -> Seq<SecurityFlag>
    decreases s.len(),
{
    if s.len() == 0 {
        Seq::<SecurityFlag>::empty()
    } else if s.last().severity.spec_level() >= min_level {
        spec_select_min(s.drop_last(), min_level).push(s.last())
    } else {
        spec_select_min(s.drop_last(), min_level)
    }
}

/// A complete security analysis report; `generated_at` is milliseconds
/// since the Unix epoch.
#[derive(Debug)]
pub struct SecurityReport {
    pub findings: Vec<SecurityFlag>,
    pub generated_at: u64,
    pub total_ports_analyzed: usize,
}

impl SecurityReport {
    /// Creates an empty report stamped with the wall clock.
    pub fn empty() -> (r: SecurityReport)
        ensures
            r.findings@.len() == 0,
            r.total_ports_analyzed == 0,
    {
        SecurityReport {
            findings: Vec::new(),
            generated_at: clock_now_millis(),
            total_ports_analyzed: 0,
        }
    }

    /// Creates a report with findings, stamped with the wall clock.
    pub fn new(findings: Vec<SecurityFlag>, total_ports: usize) -> (r: SecurityReport)
        ensures
            r.findings@ == findings@,
            r.total_ports_analyzed == total_ports,
    {
        SecurityReport { findings, generated_at: clock_now_millis(), total_ports_analyzed: total_ports }
    }

    /// Counts findings by severity.
    pub fn count_by_severity(&self, severity: &Severity) -> (r: usize)
        ensures
            r == spec_count_sev(self.findings@, *severity),
    {
        let n = self.findings.len();
        let mut count: usize = 0;
        let mut i: usize = 0;
        proof {
            assert(self.findings@.take(0) =~= Seq::<SecurityFlag>::empty());
        }
        while i < n
            invariant
                n == self.findings@.len(),
                i <= n,
                count <= i,
                count == spec_count_sev(self.findings@.take(i as int), *severity),
            decreases n - i,
        {
            proof {
                let t = self.findings@.take(i + 1 as int);
                assert(t.drop_last() =~= self.findings@.take(i as int));
                assert(t.last() == self.findings@[i as int]);
            }
            if severity_eq(&self.findings[i].severity, severity) {
                count = count + 1;
            }
            i = i + 1;
        }
        proof {
            assert(self.findings@.take(n as int) =~= self.findings@);
        }
        count
    }

    /// Returns the count of critical findings.
    pub fn critical_count(&self) -> (r: usize)
        ensures
            r == spec_count_sev(self.findings@, Severity::Critical),
    {
        self.count_by_severity(&Severity::Critical)
    }

    /// Returns the count of high severity findings.
    pub fn high_count(&self) -> (r: usize)
        ensures
            r == spec_count_sev(self.findings@, Severity::High),
    {
        self.count_by_severity(&Severity::High)
    }

    /// Returns the count of warning findings.
    pub fn warning_count(&self) -> (r: usize)
        ensures
            r == spec_count_sev(self.findings@, Severity::Warning),
    {
        self.count_by_severity(&Severity::Warning)
    }

    /// Returns the count of info findings.
    pub fn info_count(&self) -> (r: usize)
        ensures
            r == spec_count_sev(self.findings@, Severity::Info),
    {
        self.count_by_severity(&Severity::Info)
    }

    /// Whether there are critical or high severity issues.
    pub fn has_critical_issues(&self) -> (r: bool)
        ensures
            r == (spec_count_sev(self.findings@, Severity::Critical) > 0 || spec_count_sev(
                self.findings@,
                Severity::High,
            ) > 0),
    {
        self.critical_count() > 0 || self.high_count() > 0
    }

    /// Whether the report is clean: no findings at all.
    pub fn is_clean(&self) -> (r: bool)
        ensures
            r == (self.findings@.len() == 0),
    {
        self.findings.len() == 0
    }

    /// The summary line: the four counts in decreasing severity.
    pub open spec fn spec_summary(&self) -> Seq<char> {
        spec_digits(spec_count_sev(self.findings@, Severity::Critical) as nat) + " critical, "@
            + spec_digits(spec_count_sev(self.findings@, Severity::High) as nat) + " high, "@
            + spec_digits(spec_count_sev(self.findings@, Severity::Warning) as nat) + " warnings, "@
            + spec_digits(spec_count_sev(self.findings@, Severity::Info) as nat) + " info"@
    }

    /// Returns a summary line such as `1 critical, 0 high, 2 warnings, 0
    /// info`.
    pub fn summary(&self) -> (r: String)
        ensures
            r@ == self.spec_summary(),
    {
        proof {
            reveal_strlit(" critical, ");
            reveal_strlit(" high, ");
            reveal_strlit(" warnings, ");
            reveal_strlit(" info");
            lemma_count_sev_bound(self.findings@, Severity::Critical);
            lemma_count_sev_bound(self.findings@, Severity::High);
            lemma_count_sev_bound(self.findings@, Severity::Warning);
            lemma_count_sev_bound(self.findings@, Severity::Info);
        }
        let mut s = u64_str(self.critical_count() as u64);
        s.append(" critical, ");
        let h = u64_str(self.high_count() as u64);
        s.append(h.as_str());
        s.append(" high, ");
        let w = u64_str(self.warning_count() as u64);
        s.append(w.as_str());
        s.append(" warnings, ");
        let inf = u64_str(self.info_count() as u64);
        s.append(inf.as_str());
        s.append(" info");
        s
    }

    /// Returns the findings sorted by severity, highest first; findings of
    /// equal severity keep their order, as a stable sort leaves them.
    pub fn sorted_by_severity(&self) -> (r: Vec<&SecurityFlag>)
        ensures
            flags_view(r@) == spec_select_sev(self.findings@, Severity::Critical)
                + spec_select_sev(self.findings@, Severity::High) + spec_select_sev(
                self.findings@,
                Severity::Warning,
            ) + spec_select_sev(self.findings@, Severity::Info),
    {
        let mut out: Vec<&SecurityFlag> = Vec::new();
        self.append_with_severity(&mut out, &Severity::Critical);
        self.append_with_severity(&mut out, &Severity::High);
        self.append_with_severity(&mut out, &Severity::Warning);
        self.append_with_severity(&mut out, &Severity::Info);
        out
    }

    /// Appends every finding of one severity, in order.
    fn append_with_severity<'a>(&'a self, out: &mut Vec<&'a SecurityFlag>, severity: &Severity)
        ensures
            flags_view(final(out)@) == flags_view(old(out)@) + spec_select_sev(
                self.findings@,
                *severity,
            ),
    {
        let n = self.findings.len();
        let mut i: usize = 0;
        proof {
            assert(self.findings@.take(0) =~= Seq::<SecurityFlag>::empty());
            assert(flags_view(out@) + spec_select_sev(self.findings@.take(0), *severity)
                =~= flags_view(out@));
        }
        while i < n
            invariant
                n == self.findings@.len(),
                i <= n,
                flags_view(out@) == flags_view(old(out)@) + spec_select_sev(
                    self.findings@.take(i as int),
                    *severity,
                ),
            decreases n - i,
        {
            proof {
                let t = self.findings@.take(i + 1 as int);
                assert(t.drop_last() =~= self.findings@.take(i as int));
                assert(t.last() == self.findings@[i as int]);
            }
            if severity_eq(&self.findings[i].severity, severity) {
                let f = &self.findings[i];
                proof {
                    assert(flags_view(out@.push(f)) =~= flags_view(out@).push(
                        self.findings@[i as int],
                    ));
                    assert(flags_view(old(out)@) + spec_select_sev(
                        self.findings@.take(i + 1 as int),
                        *severity,
                    ) =~= (flags_view(old(out)@) + spec_select_sev(
                        self.findings@.take(i as int),
                        *severity,
                    )).push(self.findings@[i as int]));
                }
                out.push(f);
            }
            i = i + 1;
        }
        proof {
            assert(self.findings@.take(n as int) =~= self.findings@);
        }
    }

    /// Filters findings by minimum severity, keeping their order.
    pub fn filter_by_min_severity(&self, min_severity: &Severity) -> (r: Vec<&SecurityFlag>)
        ensures
            flags_view(r@) == spec_select_min(self.findings@, min_severity.spec_level()),
    {
        let min_level = min_severity.level();
        let n = self.findings.len();
        let mut out: Vec<&SecurityFlag> = Vec::new();
        let mut i: usize = 0;
        proof {
            assert(self.findings@.take(0) =~= Seq::<SecurityFlag>::empty());
            assert(flags_view(out@) =~= spec_select_min(self.findings@.take(0), min_level));
        }
        while i < n
            invariant
                n == self.findings@.len(),
                min_level == min_severity.spec_level(),
                i <= n,
                flags_view(out@) == spec_select_min(self.findings@.take(i as int), min_level),
            decreases n - i,
        {
            proof {
                let t = self.findings@.take(i + 1 as int);
                assert(t.drop_last() =~= self.findings@.take(i as int));
                assert(t.last() == self.findings@[i as int]);
            }
            if self.findings[i].severity.level() >= min_level {
                let f = &self.findings[i];
                proof {
                    assert(flags_view(out@.push(f)) =~= flags_view(out@).push(
                        self.findings@[i as int],
                    ));
                }
                out.push(f);
            }
            i = i + 1;
        }
        proof {
            assert(self.findings@.take(n as int) =~= self.findings@);
        }
        out
    }
}

/// The pointed-to findings of a sequence of references.
pub open spec fn flags_view(s: Seq<&SecurityFlag>) -> Seq<SecurityFlag> {
    s.map_values(|f: &SecurityFlag| *f)
}

/// Compares two severities.
fn severity_eq(a: &Severity, b: &Severity) -> (r: bool)
    ensures
        r == (a == b),
{
    match (a, b) {
        (Severity::Critical, Severity::Critical) => true,
        (Severity::High, Severity::High) => true,
        (Severity::Warning, Severity::Warning) => true,
        (Severity::Info, Severity::Info) => true,
        _ => false,
    }
}

/// Counts never exceed the number of findings.
proof fn lemma_count_sev_bound(s: Seq<SecurityFlag>, sev: Severity)
    ensures
        0 <= spec_count_sev(s, sev) <= s.len(),
    decreases s.len(),
{
    if s.len() > 0 {
        lemma_count_sev_bound(s.drop_last(), sev);
    }
}

} // verus!
