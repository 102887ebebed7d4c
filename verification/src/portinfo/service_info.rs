//! Known-service metadata for well-known ports.

use vstd::prelude::*;

verus! {

/// Categories of services.
#[derive(Debug, Clone, Copy, PartialEq, Eq, Structural, Hash)]
pub enum ServiceCategory {
    Database,
    Web,
    Messaging,
    Cache,
    Search,
    Dev,
    Infra,
    Monitoring,
    Security,
    Other,
}

impl ServiceCategory {
    /// The human-readable category name.
    pub open spec fn spec_display_name(&self) -> Seq<char> {
        match self {
            ServiceCategory::Database => "Database"@,
            ServiceCategory::Web => "Web Server"@,
            ServiceCategory::Messaging => "Messaging"@,
            ServiceCategory::Cache => "Cache"@,
            ServiceCategory::Search => "Search"@,
            ServiceCategory::Dev => "Development"@,
            ServiceCategory::Infra => "Infrastructure"@,
            ServiceCategory::Monitoring => "Monitoring"@,
            ServiceCategory::Security => "Security"@,
            ServiceCategory::Other => "Other"@,
        }
    }

    pub fn display_name(&self) -> (r: &'static str)
        ensures
            r@ == self.spec_display_name(),
    {
        match self {
            ServiceCategory::Database => "Database",
            ServiceCategory::Web => "Web Server",
            ServiceCategory::Messaging => "Messaging",
            ServiceCategory::Cache => "Cache",
            ServiceCategory::Search => "Search",
            ServiceCategory::Dev => "Development",
            ServiceCategory::Infra => "Infrastructure",
            ServiceCategory::Monitoring => "Monitoring",
            ServiceCategory::Security => "Security",
            ServiceCategory::Other => "Other",
        }
    }
}

/// Information about a known service mapped to a port.
#[derive(Debug)]
pub struct ServiceInfo {
    pub name: String,
    pub description: String,
    pub category: ServiceCategory,
}

/// Whether two service records carry the same values.
pub open spec fn same_service(a: &ServiceInfo, b: &ServiceInfo) -> bool {
    a.name@ == b.name@ && a.description@ == b.description@ && a.category == b.category
}

impl Clone for ServiceInfo {
    /// A clone carries the same values.
    fn clone(&self) -> (r: Self)
        ensures
            same_service(&r, self),
    {
        ServiceInfo {
            name: self.name.clone(),
            description: self.description.clone(),
            category: self.category,
        }
    }
}

impl ServiceInfo {
    pub fn new(name: &str, description: &str, category: ServiceCategory) -> (r: ServiceInfo)
        ensures
            r.name@ == name@,
            r.description@ == description@,
            r.category == category,
    {
        ServiceInfo {
            name: String::from_str(name),
            description: String::from_str(description),
            category,
        }
    }

    /// The display form: `[name - description]`.
    pub open spec fn spec_display(&self) -> Seq<char> {
        "["@ + self.name@ + " - "@ + self.description@ + "]"@
    }

    /// Returns a formatted string representation for display.
    pub fn to_display_string(&self) -> (r: String)
        ensures
            r@ == self.spec_display(),
    {
        proof {
            reveal_strlit("[");
            reveal_strlit(" - ");
            reveal_strlit("]");
        }
        let mut s = String::from_str("[");
        s.append(self.name.as_str());
        s.append(" - ");
        s.append(self.description.as_str());
        s.append("]");
        s
    }

    /// The short tag form: `[name]`.
    pub open spec fn spec_tag(&self) -> Seq<char> {
        "["@ + self.name@ + "]"@
    }

    /// Returns a short tag format.
    pub fn to_tag(&self) -> (r: String)
        ensures
            r@ == self.spec_tag(),
    {
        proof {
            reveal_strlit("[");
            reveal_strlit("]");
        }
        let mut s = String::from_str("[");
        s.append(self.name.as_str());
        s.append("]");
        s
    }
}

} // verus!
