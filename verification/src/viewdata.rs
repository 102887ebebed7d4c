//! Plain view records handed to a user interface: a port's detail panel,
//! the dashboard counters, and the process-list sort modes.

use vstd::prelude::*;

use crate::numfmt::spec_digits;
use crate::numfmt::u64_str;
use crate::portinfo::binding::PortBinding;
use crate::portinfo::enriched::spec_is_exposed;

verus! {

/// Holds detailed information about a selected port.
#[derive(Debug, Clone)]
pub struct PortDetail {
    pub port: u16,
    pub protocol: String,
    pub state: String,
    pub local_address: String,
    pub remote_address: String,
    pub pid: u32,
    pub process_name: String,
    pub command_line: String,
    pub user: String,
    pub is_exposed: bool,
}

impl PortDetail {
    /// Creates a `PortDetail` from a binding: its fields as display text,
    /// the remote endpoint joined as `address:port` when one exists, and
    /// the exposure decided by the bound address.
    pub fn from_binding(binding: &PortBinding) -> (r: PortDetail)
        ensures
            r.port == binding.port,
            r.protocol@ == binding.protocol.spec_str(),
            r.state@ == binding.state.spec_str(),
            r.local_address@ == binding.local_address@,
            r.pid == binding.pid,
            r.process_name@ == binding.process_name@,
            r.command_line@ == binding.command_line@,
            r.user@ == binding.user@,
            r.is_exposed == spec_is_exposed(binding),
            binding.remote_port > 0 ==> r.remote_address@ == binding.remote_address@ + ":"@
                + spec_digits(binding.remote_port as nat),
            binding.remote_port == 0 ==> r.remote_address@ == Seq::<char>::empty(),
    {
        proof {
            reveal_strlit(":");
        }
        let addr = binding.local_address.as_str();
        let is_exposed = crate::strutil::str_eq(addr, "0.0.0.0") || crate::strutil::str_eq(
            addr,
            "::",
        ) || crate::strutil::str_eq(addr, "*");
        let remote_address = if binding.remote_port > 0 {
            let mut s = binding.remote_address.clone();
            s.append(":");
            let p = u64_str(binding.remote_port as u64);
            s.append(p.as_str());
            s
        } else {
            String::new()
        };
        PortDetail {
            port: binding.port,
            protocol: String::from_str(binding.protocol.as_str()),
            state: String::from_str(binding.state.as_str()),
            local_address: binding.local_address.clone(),
            remote_address,
            pid: binding.pid,
            process_name: binding.process_name.clone(),
            command_line: binding.command_line.clone(),
            user: binding.user.clone(),
            is_exposed,
        }
    }

    /// A security recommendation for the port: restriction advice when it
    /// is exposed, reassurance when it is local.
    pub fn security_recommendation(&self) -> (r: &'static str)
        ensures
            self.is_exposed ==> r@
                == "This port is exposed to the network. Consider restricting access with a firewall rule."@,
            !self.is_exposed ==> r@ == "Port is bound to localhost only. No external exposure."@,
    {
        if self.is_exposed {
            "This port is exposed to the network. Consider restricting access with a firewall rule."
        } else {
            "Port is bound to localhost only. No external exposure."
        }
    }
}

/// The dashboard counters.
#[derive(Debug, Clone, Copy, PartialEq, Eq, Structural)]
pub struct DashboardData {
    pub listening_ports: usize,
    pub established_connections: usize,
    pub exposed_ports: usize,
    pub process_count: usize,
}

/// Sort order of a process listing.
#[derive(Debug, Clone, Copy, PartialEq, Eq, Structural)]
pub enum SortMode {
    Cpu,
    Memory,
    Pid,
    Name,
}

} // verus!
