//! Analysis of port bindings for common security misconfigurations:
//! network-exposed databases, active debug ports, privileged process
//! execution, and exposed administrative interfaces.

use vstd::prelude::*;

use crate::portinfo::binding::PortBinding;
use crate::portinfo::enriched::{spec_is_exposed, EnrichedPortBinding};
use crate::portinfo::registry::ServiceRegistry;
use crate::portinfo::security::{SecurityCategory, SecurityFlag, SecurityReport, Severity};
use crate::strutil::str_eq;

verus! {

/// Service for analyzing port bindings for security issues.
pub struct SecurityAnalysisService {
    pub service_registry: ServiceRegistry,
}

/// Debug ports that should never be exposed to the network.
pub open spec fn spec_is_debug(port: u16) -> bool {
    port == 5005 || port == 9229 || port == 5858 || port == 4000
}

/// Database ports that are risky when exposed.
pub open spec fn spec_is_database(port: u16) -> bool {
    port == 3306 || port == 5432 || port == 27017 || port == 6379 || port == 1521 || port == 1433
        || port == 9042 || port == 5984
}

/// Admin and management interfaces that should be local-only.
pub open spec fn spec_is_admin(port: u16) -> bool {
    port == 15672 || port == 9090 || port == 8500 || port == 8200 || port == 8761 || port == 9411
        || port == 16686
}

/// User names that indicate elevated execution.
pub open spec fn spec_is_privileged_user(u: Seq<char>) -> bool {
    u == "root"@ || u == "SYSTEM"@ || u == "Administrator"@ || u == "LocalSystem"@
}

/// The severity of the exposure finding for a binding: critical for debug
/// ports, critical or high for databases by privilege, high for admin
/// interfaces, else a warning.
pub open spec fn spec_exposure_severity(b: &PortBinding) -> Severity {
    if spec_is_database(b.port) {
        if spec_is_privileged_user(b.user@) {
            Severity::Critical
        } else {
            Severity::High
        }
    } else if spec_is_debug(b.port) {
        Severity::Critical
    } else if spec_is_admin(b.port) {
        Severity::High
    } else {
        Severity::Warning
    }
}

/// The category of the exposure finding for a binding.
pub open spec fn spec_exposure_category(b: &PortBinding) -> SecurityCategory {
    if spec_is_database(b.port) {
        SecurityCategory::Database
    } else if spec_is_debug(b.port) {
        SecurityCategory::Debug
    } else if spec_is_admin(b.port) {
        SecurityCategory::Configuration
    } else {
        SecurityCategory::NetworkExposure
    }
}

/// The severity of the privileged-execution finding: a warning on system
/// ports below 1024, high elsewhere and on database ports.
pub open spec fn spec_privilege_severity(b: &PortBinding) -> Severity {
    if spec_is_database(b.port) {
        Severity::High
    } else if b.port < 1024 {
        Severity::Warning
    } else {
        Severity::High
    }
}

/// The severity of the active-debug-port finding: critical when exposed,
/// informational when local.
pub open spec fn spec_debug_severity(b: &PortBinding) -> Severity {
    if spec_is_exposed(b) {
        Severity::Critical
    } else {
        Severity::Info
    }
}

/// How many findings a binding yields: one per applicable check.
pub open spec fn spec_finding_count(b: &PortBinding) -> int {
    (if spec_is_exposed(b) {
        1int
    } else {
        0int
    }) + (if spec_is_privileged_user(b.user@) {
        1int
    } else {
        0int
    }) + (if spec_is_debug(b.port) {
        1int
    } else {
        0int
    })
}

impl SecurityAnalysisService {
    /// Creates a new analysis service with the default service registry.
    pub fn new() -> (r: SecurityAnalysisService)
        ensures
            r.service_registry.wf(),
    {
        Self::with_registry(ServiceRegistry::new())
    }

    /// Creates a new analysis service with a custom service registry.
    pub fn with_registry(service_registry: ServiceRegistry) -> (r: SecurityAnalysisService)
        ensures
            r.service_registry == service_registry,
    {
        SecurityAnalysisService { service_registry }
    }

    /// Analyzes a single port binding: an exposure finding where the
    /// binding listens on the network, a privilege finding where it runs
    /// elevated, and a debug finding where its port is a debugger's — each
    /// with the severity and category the rules dictate.
    pub fn analyze_binding(&self, binding: &PortBinding) -> (r: Vec<SecurityFlag>)
        requires
            self.service_registry.wf(),
        ensures
            r@.len() == spec_finding_count(binding),
            spec_is_exposed(binding) ==> r@[0].severity == spec_exposure_severity(binding)
                && r@[0].category == spec_exposure_category(binding) && r@[0].related_port
                == binding.port,
            spec_is_privileged_user(binding.user@) ==> {
                let i = if spec_is_exposed(binding) {
                    1int
                } else {
                    0int
                };
                r@[i].severity == spec_privilege_severity(binding) && r@[i].category
                    == SecurityCategory::Privilege && r@[i].related_port == binding.port
            },
            spec_is_debug(binding.port) ==> r@[r@.len() - 1].severity == spec_debug_severity(
                binding,
            ) && r@[r@.len() - 1].category == SecurityCategory::Debug && r@[r@.len()
                - 1].related_port == binding.port,
    {
        let mut flags: Vec<SecurityFlag> = Vec::new();
        if self.is_exposed(binding) {
            let f = self.exposure_flag(binding);
            flags.push(f);
        }
        if is_privileged_user(binding.user.as_str()) {
            let f = self.privilege_flag(binding);
            flags.push(f);
        }
        if is_debug_port(binding.port) {
            let f = self.debug_flag(binding);
            flags.push(f);
        }
        flags
    }

    /// Analyzes multiple port bindings into a report whose findings are
    /// sorted by severity through [`SecurityReport::sorted_by_severity`]
    /// when rendered; the report counts every analyzed binding.
    pub fn analyze(&self, bindings: &[PortBinding]) -> (r: SecurityReport)
        requires
            self.service_registry.wf(),
        ensures
            r.total_ports_analyzed == bindings@.len(),
    {
        let n = bindings.len();
        let mut all_flags: Vec<SecurityFlag> = Vec::new();
        let mut i: usize = 0;
        while i < n
            invariant
                self.service_registry.wf(),
                n == bindings@.len(),
                i <= n,
            decreases n - i,
        {
            let mut flags = self.analyze_binding(&bindings[i]);
            all_flags.append(&mut flags);
            i = i + 1;
        }
        SecurityReport::new(all_flags, n)
    }

    /// Analyzes enriched port bindings, reading their raw bindings.
    pub fn analyze_enriched(&self, bindings: &[EnrichedPortBinding]) -> (r: SecurityReport)
        requires
            self.service_registry.wf(),
        ensures
            r.total_ports_analyzed == bindings@.len(),
    {
        let n = bindings.len();
        let mut all_flags: Vec<SecurityFlag> = Vec::new();
        let mut i: usize = 0;
        while i < n
            invariant
                self.service_registry.wf(),
                n == bindings@.len(),
                i <= n,
            decreases n - i,
        {
            let mut flags = self.analyze_binding(&bindings[i].binding);
            all_flags.append(&mut flags);
            i = i + 1;
        }
        SecurityReport::new(all_flags, n)
    }

    /// Whether a binding yields any critical or high severity finding.
    pub fn has_critical_issues(&self, binding: &PortBinding) -> (r: bool)
        requires
            self.service_registry.wf(),
    {
        let flags = self.analyze_binding(binding);
        let n = flags.len();
        let mut i: usize = 0;
        while i < n
            invariant
                n == flags@.len(),
                i <= n,
            decreases n - i,
        {
            match flags[i].severity {
                Severity::Critical | Severity::High => {
                    return true;
                },
                _ => {},
            }
            i = i + 1;
        }
        false
    }

    /// Gets the distinct recommendations for a port binding, keeping first
    /// occurrences.
    pub fn get_recommendations(&self, binding: &PortBinding) -> (r: Vec<String>)
        requires
            self.service_registry.wf(),
    {
        let flags = self.analyze_binding(binding);
        let n = flags.len();
        let mut out: Vec<String> = Vec::new();
        let mut i: usize = 0;
        while i < n
            invariant
                n == flags@.len(),
                i <= n,
            decreases n - i,
        {
            let rec = flags[i].recommendation.clone();
            let mut seen = false;
            let m = out.len();
            let mut j: usize = 0;
            while j < m
                invariant
                    m == out@.len(),
                    j <= m,
                decreases m - j,
            {
                if str_eq(out[j].as_str(), rec.as_str()) {
                    seen = true;
                }
                j = j + 1;
            }
            if !seen {
                out.push(rec);
            }
            i = i + 1;
        }
        out
    }

    /// Returns a quick security summary: the fixed clean text when no
    /// finding came up, else the report's count summary.
    pub fn quick_summary(&self, bindings: &[PortBinding]) -> (r: String)
        requires
            self.service_registry.wf(),
    {
        let report = self.analyze(bindings);
        if report.is_clean() {
            String::from_str("No security issues found")
        } else {
            report.summary()
        }
    }

    // ── The individual findings ────────────────────────────────────────

    /// Whether a binding is exposed to the network.
    fn is_exposed(&self, binding: &PortBinding) -> (r: bool)
        ensures
            r == spec_is_exposed(binding),
    {
        let addr = binding.local_address.as_str();
        str_eq(addr, "0.0.0.0") || str_eq(addr, "::") || str_eq(addr, "*")
    }

    /// Builds the exposure finding for an exposed binding.
    fn exposure_flag(&self, binding: &PortBinding) -> (r: SecurityFlag)
        requires
            self.service_registry.wf(),
            spec_is_exposed(binding),
        ensures
            r.severity == spec_exposure_severity(binding),
            r.category == spec_exposure_category(binding),
            r.related_port == binding.port,
            r.related_process@ == binding.process_name@,
    {
        let port = binding.port;
        if is_database_port(port) {
            let severity = if is_privileged_user(binding.user.as_str()) {
                Severity::Critical
            } else {
                Severity::High
            };
            SecurityFlag::with_severity(
                severity,
                SecurityCategory::Database,
                "Database Exposed",
                "Database port exposed to network",
                "Bind to 127.0.0.1 or use firewall rules to restrict access",
                binding,
            )
        } else if is_debug_port(port) {
            SecurityFlag::critical(
                SecurityCategory::Debug,
                "Debug Port Exposed",
                "Debug port exposed to network - allows remote code execution",
                "Bind the debug port to 127.0.0.1 only",
                binding,
            )
        } else if is_admin_port(port) {
            SecurityFlag::high(
                SecurityCategory::Configuration,
                "Admin Interface Exposed",
                "Administrative interface exposed to network",
                "Bind to 127.0.0.1 or use authentication and firewall rules",
                binding,
            )
        } else {
            SecurityFlag::warning(
                SecurityCategory::NetworkExposure,
                "Service Network Exposed",
                "Port is accessible from network (0.0.0.0)",
                "Consider binding to 127.0.0.1 if network access is not required",
                binding,
            )
        }
    }

    /// Builds the privileged-execution finding.
    fn privilege_flag(&self, binding: &PortBinding) -> (r: SecurityFlag)
        requires
            spec_is_privileged_user(binding.user@),
        ensures
            r.severity == spec_privilege_severity(binding),
            r.category == SecurityCategory::Privilege,
            r.related_port == binding.port,
            r.related_process@ == binding.process_name@,
    {
        let severity = if is_database_port(binding.port) {
            Severity::High
        } else if binding.port < 1024 {
            Severity::Warning
        } else {
            Severity::High
        };
        SecurityFlag::with_severity(
            severity,
            SecurityCategory::Privilege,
            "Running with elevated privileges",
            "Process bound to the port runs with elevated privileges",
            "Run as non-privileged user. Use systemd socket activation or capabilities for low ports.",
            binding,
        )
    }

    /// Builds the active-debug-port finding.
    fn debug_flag(&self, binding: &PortBinding) -> (r: SecurityFlag)
        requires
            spec_is_debug(binding.port),
        ensures
            r.severity == spec_debug_severity(binding),
            r.category == SecurityCategory::Debug,
            r.related_port == binding.port,
            r.related_process@ == binding.process_name@,
    {
        if self.is_exposed(binding) {
            SecurityFlag::critical(
                SecurityCategory::Debug,
                "Debug Port Active",
                "Debug port is active and exposed",
                "Disable debug in production or bind to localhost only",
                binding,
            )
        } else {
            SecurityFlag::info(
                SecurityCategory::Debug,
                "Debug Port Active",
                "Debug port is active (localhost only)",
                "Ensure debug is disabled in production",
                binding,
            )
        }
    }
}

/// Whether a user name indicates elevated execution.
fn is_privileged_user(u: &str) -> (r: bool)
    ensures
        r == spec_is_privileged_user(u@),
{
    str_eq(u, "root") || str_eq(u, "SYSTEM") || str_eq(u, "Administrator") || str_eq(
        u,
        "LocalSystem",
    )
}

/// Whether a port is one of the fixed debugger ports.
fn is_debug_port(port: u16) -> (r: bool)
    ensures
        r == spec_is_debug(port),
{
    port == 5005 || port == 9229 || port == 5858 || port == 4000
}

/// Whether a port is one of the fixed database ports.
fn is_database_port(port: u16) -> (r: bool)
    ensures
        r == spec_is_database(port),
{
    port == 3306 || port == 5432 || port == 27017 || port == 6379 || port == 1521 || port == 1433
        || port == 9042 || port == 5984
}

/// Whether a port is one of the fixed admin-interface ports.
fn is_admin_port(port: u16) -> (r: bool)
    ensures
        r == spec_is_admin(port),
{
    port == 15672 || port == 9090 || port == 8500 || port == 8200 || port == 8761 || port == 9411
        || port == 16686
}

} // verus!
