//! The primary facade over the platform port parser and the service
//! registry: raw lookups delegated to the parser, enrichment with known
//! service metadata, and development-port discovery.

use vstd::prelude::*;

use crate::port_parser::PortParser;
use crate::portinfo::binding::{same_binding, PortBinding};
use crate::portinfo::enriched::EnrichedPortBinding;
use crate::portinfo::overview::NetworkOverview;
use crate::portinfo::registry::{spec_has_port, spec_service_at, ServiceRegistry};
use crate::portinfo::service_info::{same_service, ServiceCategory};

verus! {

/// Service for orchestrating port information queries over a platform
/// parser.
pub struct PortInfoService<P: PortParser> {
    pub parser: P,
    pub service_registry: ServiceRegistry,
}

/// The fixed development ports checked in dev-port discovery.
pub open spec fn spec_is_dev_listed(port: u16) -> bool {
    port == 3000 || port == 3001 || port == 4200 || port == 5173 || port == 5174 || port == 8080
        || port == 8000 || port == 8081 || port == 8082 || port == 5005 || port == 9229 || port
        == 35729 || port == 8888 || port == 9000 || port == 5000 || port == 5001
}

/// Whether a port counts as a development port for discovery: on the fixed
/// list, or registered as a development service.
pub open spec fn spec_is_dev_port(reg: &ServiceRegistry, port: u16) -> bool {
    spec_is_dev_listed(port) || (spec_has_port(reg.tcp_services@, port) && spec_service_at(
        reg.tcp_services@,
        port,
    ).category == ServiceCategory::Dev)
}

impl<P: PortParser> PortInfoService<P> {
    /// Creates a new service with the given platform parser and a freshly
    /// populated registry.
    pub fn new(parser: P) -> (r: PortInfoService<P>)
        ensures
            r.service_registry.wf(),
    {
        PortInfoService { parser, service_registry: ServiceRegistry::new() }
    }

    /// Finds bindings for a specific port (TCP only); a parser failure
    /// gives the empty list.
    pub fn find_by_port(&self, port: u16) -> Vec<PortBinding> {
        match self.parser.find_by_port(port, true, false) {
            Ok(v) => v,
            Err(_) => Vec::new(),
        }
    }

    /// Finds bindings for a specific port with protocol selection.
    pub fn find_by_port_with_protocol(&self, port: u16, tcp: bool, udp: bool) -> Vec<PortBinding> {
        match self.parser.find_by_port(port, tcp, udp) {
            Ok(v) => v,
            Err(_) => Vec::new(),
        }
    }

    /// Finds all ports associated with a process.
    pub fn find_by_pid(&self, pid: u32) -> Vec<PortBinding> {
        match self.parser.find_by_pid(pid) {
            Ok(v) => v,
            Err(_) => Vec::new(),
        }
    }

    /// Finds ports in a range.
    pub fn find_in_range(&self, from: u16, to: u16, listen_only: bool) -> Vec<PortBinding> {
        match self.parser.find_in_range(from, to, listen_only) {
            Ok(v) => v,
            Err(_) => Vec::new(),
        }
    }

    /// Finds all listening ports.
    pub fn find_all_listening(&self) -> Vec<PortBinding> {
        match self.parser.find_all_listening() {
            Ok(v) => v,
            Err(_) => Vec::new(),
        }
    }

    /// Finds all active port bindings.
    pub fn find_all(&self, tcp: bool, udp: bool) -> Vec<PortBinding> {
        match self.parser.find_all(tcp, udp) {
            Ok(v) => v,
            Err(_) => Vec::new(),
        }
    }

    /// Finds all active port bindings, TCP and UDP.
    pub fn find_all_both(&self) -> Vec<PortBinding> {
        match self.parser.find_all_both() {
            Ok(v) => v,
            Err(_) => Vec::new(),
        }
    }

    /// Finds ports by process name (case-insensitive partial match).
    pub fn find_by_process_name(&self, process_name: &str) -> Vec<PortBinding> {
        match self.parser.find_by_process_name(process_name) {
            Ok(v) => v,
            Err(_) => Vec::new(),
        }
    }

    /// Finds the listening bindings on development ports: exactly those
    /// whose port is on the fixed list or registered as a development
    /// service.
    pub fn find_dev_ports(&self) -> (r: Vec<PortBinding>)
        requires
            self.service_registry.wf(),
        ensures
            forall|i: int|
                0 <= i < r@.len() ==> spec_is_dev_port(
                    &self.service_registry,
                    (#[trigger] r@[i]).port,
                ),
    {
        let all_listening = self.find_all_listening();
        let n = all_listening.len();
        let mut out: Vec<PortBinding> = Vec::new();
        let mut i: usize = 0;
        while i < n
            invariant
                self.service_registry.wf(),
                n == all_listening@.len(),
                i <= n,
                forall|j: int|
                    0 <= j < out@.len() ==> spec_is_dev_port(
                        &self.service_registry,
                        (#[trigger] out@[j]).port,
                    ),
            decreases n - i,
        {
            let port = all_listening[i].port;
            if is_dev_listed(port) || self.service_registry.is_development_port(port) {
                out.push(all_listening[i].clone());
            }
            i = i + 1;
        }
        out
    }

    /// Gets a network overview of all listening ports, enriched, with
    /// statistics.
    pub fn get_network_overview(&self) -> (r: NetworkOverview)
        requires
            self.service_registry.wf(),
    {
        let all_bindings = self.find_all_listening();
        let enriched = self.enrich_bindings(&all_bindings);
        NetworkOverview::from_bindings(enriched)
    }

    /// Enriches a list of port bindings with service information.
    pub fn enrich_bindings(&self, bindings: &Vec<PortBinding>) -> (r: Vec<EnrichedPortBinding>)
        requires
            self.service_registry.wf(),
        ensures
            r@.len() == bindings@.len(),
            forall|i: int|
                0 <= i < r@.len() ==> same_binding(
                    &(#[trigger] r@[i]).binding,
                    &bindings@[i],
                ),
    {
        let n = bindings.len();
        let mut out: Vec<EnrichedPortBinding> = Vec::new();
        let mut i: usize = 0;
        while i < n
            invariant
                self.service_registry.wf(),
                n == bindings@.len(),
                i <= n,
                out@.len() == i,
                forall|j: int|
                    0 <= j < i ==> same_binding(&(#[trigger] out@[j]).binding, &bindings@[j]),
            decreases n - i,
        {
            out.push(self.enrich_binding(&bindings[i]));
            i = i + 1;
        }
        out
    }

    /// Enriches a single port binding: where its port and protocol are in
    /// the registry, the known service is attached; else none is.
    pub fn enrich_binding(&self, binding: &PortBinding) -> (r: EnrichedPortBinding)
        requires
            self.service_registry.wf(),
        ensures
            same_binding(&r.binding, binding),
            binding.protocol is Tcp ==> (match r.service_info {
                Some(si) => spec_has_port(self.service_registry.tcp_services@, binding.port)
                    && same_service(
                    &si,
                    &spec_service_at(self.service_registry.tcp_services@, binding.port),
                ),
                None => !spec_has_port(self.service_registry.tcp_services@, binding.port),
            }),
            binding.protocol is Udp ==> (match r.service_info {
                Some(si) => spec_has_port(self.service_registry.udp_services@, binding.port)
                    && same_service(
                    &si,
                    &spec_service_at(self.service_registry.udp_services@, binding.port),
                ),
                None => !spec_has_port(self.service_registry.udp_services@, binding.port),
            }),
    {
        let eb = EnrichedPortBinding::from_binding(binding.clone());
        let found = match &binding.protocol {
            crate::portinfo::binding::Protocol::Tcp => self.service_registry.lookup_tcp(
                binding.port,
            ),
            crate::portinfo::binding::Protocol::Udp => self.service_registry.lookup_udp(
                binding.port,
            ),
        };
        match found {
            Some(service) => eb.set_service_info(service.clone()),
            None => eb,
        }
    }

    /// Terminates a process through the platform parser; a parser failure
    /// reports `false`.
    pub fn kill_process(&self, pid: u32, force: bool) -> bool {
        match self.parser.kill_process(pid, force) {
            Ok(b) => b,
            Err(_) => false,
        }
    }

    /// Returns a reference to the service registry.
    pub fn service_registry(&self) -> (r: &ServiceRegistry)
        ensures
            *r == self.service_registry,
    {
        &self.service_registry
    }
}

/// Whether a port is on the fixed development list.
fn is_dev_listed(port: u16) -> (r: bool)
    ensures
        r == spec_is_dev_listed(port),
{
    port == 3000 || port == 3001 || port == 4200 || port == 5173 || port == 5174 || port == 8080
        || port == 8000 || port == 8081 || port == 8082 || port == 5005 || port == 9229 || port
        == 35729 || port == 8888 || port == 9000 || port == 5000 || port == 5001
}

} // verus!
