//! The platform port-parser boundary: a trait the embedding application
//! implements over its operating system's tools, and the marker types of
//! the supported platforms.

use vstd::prelude::*;

use crate::portinfo::binding::PortBinding;

verus! {

/// Trait for parsing port information from OS commands. Implementations run
/// the platform's tools and hand back plain bindings; errors are carried as
/// text.
pub trait PortParser {
    /// Finds bindings for a specific port.
    fn find_by_port(&self, port: u16, tcp: bool, udp: bool) -> Result<Vec<PortBinding>, String>;

    /// Finds all ports associated with a process.
    fn find_by_pid(&self, pid: u32) -> Result<Vec<PortBinding>, String>;

    /// Finds ports in a range.
    fn find_in_range(&self, from: u16, to: u16, listen_only: bool) -> Result<
        Vec<PortBinding>,
        String,
    >;

    /// Finds all ports currently in LISTEN state.
    fn find_all_listening(&self) -> Result<Vec<PortBinding>, String>;

    /// Finds all active port bindings (any state).
    fn find_all(&self, tcp: bool, udp: bool) -> Result<Vec<PortBinding>, String>;

    /// Finds ports by process name (case-insensitive partial match).
    fn find_by_process_name(&self, process_name: &str) -> Result<Vec<PortBinding>, String>;

    /// Terminates a process.
    fn kill_process(&self, pid: u32, force: bool) -> Result<bool, String>;

    /// Finds by port with TCP only (convenience).
    fn find_by_port_tcp(&self, port: u16) -> Result<Vec<PortBinding>, String> {
        self.find_by_port(port, true, false)
    }

    /// Finds all TCP and UDP bindings (convenience).
    fn find_all_both(&self) -> Result<Vec<PortBinding>, String> {
        self.find_all(true, true)
    }
}

/// Marker for the Linux parser, which reads `ss` and `lsof`.
#[derive(Debug, Clone, Copy)]
pub struct LinuxPortParser;

impl LinuxPortParser {
    pub fn new() -> (r: LinuxPortParser) {
        LinuxPortParser
    }
}

/// Marker for the macOS parser, which reads `lsof` and `netstat`.
#[derive(Debug, Clone, Copy)]
pub struct MacOsPortParser;

impl MacOsPortParser {
    pub fn new() -> (r: MacOsPortParser) {
        MacOsPortParser
    }
}

/// Marker for the Windows parser, which reads `netstat` and `tasklist`.
#[derive(Debug, Clone, Copy)]
pub struct WindowsPortParser;

impl WindowsPortParser {
    pub fn new() -> (r: WindowsPortParser) {
        WindowsPortParser
    }
}

} // verus!
