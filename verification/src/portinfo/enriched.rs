//! Port bindings enriched with service, process, and container context.

use vstd::prelude::*;

use crate::portinfo::binding::{same_binding, ConnectionState, PortBinding, Protocol};
use crate::portinfo::docker_info::DockerInfo;
use crate::portinfo::service_info::{same_service, ServiceInfo};

verus! {

/// Extended process information gathered for a process.
#[derive(Debug, Clone)]
pub struct ProcessInfo {
    pub pid: u32,
    pub name: String,
    pub command_line: String,
    pub user: String,
    pub working_directory: String,
    pub memory_rss_kb: u64,
    pub memory_virtual_kb: u64,
    pub cpu_time_ms: u64,
    pub thread_count: u32,
    pub start_time: Option<u64>,
}

/// A port binding enriched with additional context.
#[derive(Debug)]
pub struct EnrichedPortBinding {
    pub binding: PortBinding,
    pub service_info: Option<ServiceInfo>,
    pub process_info: Option<ProcessInfo>,
    pub docker_info: Option<DockerInfo>,
}

impl EnrichedPortBinding {
    /// Creates an enriched binding from a basic binding, with no context
    /// attached yet.
    pub fn from_binding(binding: PortBinding) -> (r: EnrichedPortBinding)
        ensures
            same_binding(&r.binding, &binding),
            r.service_info is None,
            r.process_info is None,
            r.docker_info is None,
    {
        EnrichedPortBinding { binding, service_info: None, process_info: None, docker_info: None }
    }

    /// Creates an enriched binding with service info.
    pub fn with_service(binding: PortBinding, service_info: ServiceInfo) -> (r: EnrichedPortBinding)
        ensures
            same_binding(&r.binding, &binding),
            r.service_info matches Some(si) && same_service(&si, &service_info),
            r.process_info is None,
            r.docker_info is None,
    {
        EnrichedPortBinding {
            binding,
            service_info: Some(service_info),
            process_info: None,
            docker_info: None,
        }
    }

    /// Returns a copy with service info attached.
    pub fn set_service_info(self, info: ServiceInfo) -> (r: EnrichedPortBinding)
        ensures
            same_binding(&r.binding, &self.binding),
            r.service_info matches Some(si) && same_service(&si, &info),
            r.process_info == self.process_info,
    {
        EnrichedPortBinding { service_info: Some(info), ..self }
    }

    /// Returns a copy with process info attached.
    pub fn set_process_info(self, info: ProcessInfo) -> (r: EnrichedPortBinding)
        ensures
            same_binding(&r.binding, &self.binding),
            r.process_info is Some,
            r.service_info == self.service_info,
    {
        EnrichedPortBinding { process_info: Some(info), ..self }
    }

    /// Returns a copy with Docker info attached.
    pub fn set_docker_info(self, info: DockerInfo) -> (r: EnrichedPortBinding)
        ensures
            same_binding(&r.binding, &self.binding),
            r.docker_info is Some,
            r.service_info == self.service_info,
            r.process_info == self.process_info,
    {
        EnrichedPortBinding { docker_info: Some(info), ..self }
    }

    /// The bound port.
    pub fn port(&self) -> (r: u16)
        ensures
            r == self.binding.port,
    {
        self.binding.port
    }

    /// The protocol.
    pub fn protocol(&self) -> (r: &Protocol)
        ensures
            *r == self.binding.protocol,
    {
        &self.binding.protocol
    }

    /// The connection state.
    pub fn state(&self) -> (r: &ConnectionState)
        ensures
            *r == self.binding.state,
    {
        &self.binding.state
    }

    /// The bound process identifier.
    pub fn pid(&self) -> (r: u32)
        ensures
            r == self.binding.pid,
    {
        self.binding.pid
    }

    /// The bound process name.
    pub fn process_name(&self) -> (r: &str)
        ensures
            r@ == self.binding.process_name@,
    {
        self.binding.process_name.as_str()
    }

    /// The local address.
    pub fn local_address(&self) -> (r: &str)
        ensures
            r@ == self.binding.local_address@,
    {
        self.binding.local_address.as_str()
    }

    /// The owning user.
    pub fn user(&self) -> (r: &str)
        ensures
            r@ == self.binding.user@,
    {
        self.binding.user.as_str()
    }

    /// Whether the port is exposed to the network: bound on `0.0.0.0`,
    /// `::`, or `*`.
    pub fn is_exposed(&self) -> (r: bool)
        ensures
            r == spec_is_exposed(&self.binding),
    {
        let addr = self.binding.local_address.as_str();
        crate::strutil::str_eq(addr, "0.0.0.0") || crate::strutil::str_eq(addr, "::")
            || crate::strutil::str_eq(addr, "*")
    }

    /// Whether the port is bound to localhost only.
    pub fn is_local_only(&self) -> (r: bool)
        ensures
            r == spec_is_local_only(&self.binding),
    {
        let addr = self.binding.local_address.as_str();
        crate::strutil::str_eq(addr, "127.0.0.1") || crate::strutil::str_eq(addr, "::1")
            || crate::strutil::str_eq(addr, "localhost")
    }

    /// Whether this binding belongs to a Docker container.
    pub fn is_docker(&self) -> (r: bool)
        ensures
            r == (self.docker_info is Some),
    {
        self.docker_info.is_some()
    }

    /// The text form: the binding's text, with the service tag appended
    /// when one is known.
    pub fn to_text(&self) -> (r: String)
        ensures
            r@ == match self.service_info {
                Some(si) => self.binding.spec_to_text() + " "@ + si.spec_tag(),
                None => self.binding.spec_to_text(),
            },
    {
        proof {
            reveal_strlit(" ");
        }
        let mut sb = self.binding.to_text();
        if let Some(si) = &self.service_info {
            sb.append(" ");
            let tag = si.to_tag();
            sb.append(tag.as_str());
        }
        sb
    }

    /// The compact form with the service tag appended when one is known.
    pub fn to_compact_with_service(&self) -> (r: String)
        ensures
            r@ == match self.service_info {
                Some(si) => self.binding.spec_to_compact() + " "@ + si.spec_tag(),
                None => self.binding.spec_to_compact(),
            },
    {
        proof {
            reveal_strlit(" ");
        }
        let mut sb = self.binding.to_compact();
        if let Some(si) = &self.service_info {
            sb.append(" ");
            let tag = si.to_tag();
            sb.append(tag.as_str());
        }
        sb
    }
}

/// Whether a binding is exposed to the network: bound on `0.0.0.0`, `::`,
/// or `*`.
pub open spec fn spec_is_exposed(b: &PortBinding) -> bool {
    b.local_address@ == "0.0.0.0"@ || b.local_address@ == "::"@ || b.local_address@ == "*"@
}

/// Whether a binding is bound to localhost only.
pub open spec fn spec_is_local_only(b: &PortBinding) -> bool {
    b.local_address@ == "127.0.0.1"@ || b.local_address@ == "::1"@ || b.local_address@
        == "localhost"@
}

} // verus!
