//! The operating-system vocabulary and the machine description record.
//! Reading the live machine is the application shell's business.

use vstd::prelude::*;

verus! {

/// Operating system type.
#[derive(Debug, Clone, Copy, PartialEq, Eq, Structural)]
pub enum OperatingSystem {
    MacOs,
    Linux,
    Windows,
    Unknown,
}

impl OperatingSystem {
    /// The display name of the system.
    pub open spec fn spec_display_name(&self) -> Seq<char> {
        match self {
            OperatingSystem::MacOs => "macOS"@,
            OperatingSystem::Linux => "Linux"@,
            OperatingSystem::Windows => "Windows"@,
            OperatingSystem::Unknown => "Unknown"@,
        }
    }

    pub fn display_name(&self) -> (r: &'static str)
        ensures
            r@ == self.spec_display_name(),
    {
        match self {
            OperatingSystem::MacOs => "macOS",
            OperatingSystem::Linux => "Linux",
            OperatingSystem::Windows => "Windows",
            OperatingSystem::Unknown => "Unknown",
        }
    }
}

/// System information.
#[derive(Debug, Clone)]
pub struct SystemInfo {
    pub os: OperatingSystem,
    pub os_version: String,
    pub hostname: String,
    pub cpu_count: usize,
    pub total_memory_bytes: u64,
}

} // verus!
