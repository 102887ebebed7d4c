//! Registry mapping well-known ports to service information.
//!
//! Contains 100+ entries covering databases, web servers, messaging systems,
//! search engines, infrastructure tools, monitoring stacks, development
//! tools, and security services. Registering a port again overwrites its
//! entry, so the last registration wins.

use vstd::prelude::*;

use crate::portinfo::service_info::{same_service, ServiceCategory, ServiceInfo};
use crate::strutil::{spec_lower, str_eq_ignore_case};

verus! {

/// Registry of known TCP and UDP services, keyed by port.
#[derive(Debug)]
pub struct ServiceRegistry {
    pub tcp_services: Vec<(u16, ServiceInfo)>,
    pub udp_services: Vec<(u16, ServiceInfo)>,
}

/// Whether a port table holds an entry for a port.
pub open spec fn spec_has_port(s: Seq<(u16, ServiceInfo)>, port: u16) -> bool {
    exists|i: int| 0 <= i < s.len() && (#[trigger] s[i]).0 == port
}

/// The service recorded for a port; meaningful under unique keys.
pub open spec fn spec_service_at(s: Seq<(u16, ServiceInfo)>, port: u16) -> ServiceInfo {
    let i = choose|i: int| 0 <= i < s.len() && (#[trigger] s[i]).0 == port;
    s[i].1
}

/// Whether a port table has at most one entry per port.
pub open spec fn spec_unique_ports(s: Seq<(u16, ServiceInfo)>) -> bool {
    forall|i: int, j: int| 0 <= i < j < s.len() ==> (#[trigger] s[i]).0 != (#[trigger] s[j]).0
}

/// The first slot of a port, if any.
fn find_port_index(s: &Vec<(u16, ServiceInfo)>, port: u16) -> (r: Option<usize>)
    ensures
        match r {
            Some(i) => i < s@.len() && s@[i as int].0 == port,
            None => forall|j: int| 0 <= j < s@.len() ==> (#[trigger] s@[j]).0 != port,
        },
{
    let n = s.len();
    let mut i: usize = 0;
    while i < n
        invariant
            n == s@.len(),
            i <= n,
            forall|j: int| 0 <= j < i ==> (#[trigger] s@[j]).0 != port,
        decreases n - i,
    {
        if s[i].0 == port {
            return Some(i);
        }
        i = i + 1;
    }
    None
}

/// With unique keys, the slot found for a port carries the port's service.
proof fn lemma_service_at(s: Seq<(u16, ServiceInfo)>, port: u16, i: int)
    requires
        spec_unique_ports(s),
        0 <= i < s.len(),
        s[i].0 == port,
    ensures
        spec_has_port(s, port),
        spec_service_at(s, port) == s[i].1,
{
    let j = choose|j: int| 0 <= j < s.len() && (#[trigger] s[j]).0 == port;
    if i < j {
        assert(s[i].0 != s[j].0);
    } else if j < i {
        assert(s[j].0 != s[i].0);
    }
}

/// Records a service for a port, overwriting an existing entry.
fn table_register(s: &mut Vec<(u16, ServiceInfo)>, port: u16, info: ServiceInfo)
    requires
        spec_unique_ports(old(s)@),
    ensures
        spec_unique_ports(final(s)@),
        spec_has_port(final(s)@, port),
        same_service(&spec_service_at(final(s)@, port), &info),
        forall|p: u16|
            p != port ==> #[trigger] spec_has_port(final(s)@, p) == spec_has_port(old(s)@, p),
        forall|p: u16|
            p != port && spec_has_port(old(s)@, p) ==> #[trigger] spec_service_at(final(s)@, p)
                == spec_service_at(old(s)@, p),
{
    let ghost pre = s@;
    match find_port_index(s, port) {
        Some(i) => {
            s.remove(i);
            s.insert(i, (port, info));
            proof {
                assert(s@ =~= pre.update(i as int, s@[i as int]));
                assert forall|a: int, b: int|
                    0 <= a < b < s@.len() implies (#[trigger] s@[a]).0 != (#[trigger] s@[b]).0 by {
                    assert(pre[a].0 != pre[b].0);
                }
                lemma_service_at(s@, port, i as int);
                assert forall|p: u16|
                    p != port implies #[trigger] spec_has_port(s@, p) == spec_has_port(pre, p) by {
                    if spec_has_port(pre, p) {
                        let k = choose|k: int| 0 <= k < pre.len() && (#[trigger] pre[k]).0 == p;
                        assert(k != i);
                        assert(s@[k].0 == p);
                    }
                    if spec_has_port(s@, p) {
                        let k = choose|k: int| 0 <= k < s@.len() && (#[trigger] s@[k]).0 == p;
                        assert(k != i);
                        assert(pre[k].0 == p);
                    }
                }
                assert forall|p: u16|
                    p != port && spec_has_port(pre, p) implies #[trigger] spec_service_at(s@, p)
                    == spec_service_at(pre, p) by {
                    let k = choose|k: int| 0 <= k < pre.len() && (#[trigger] pre[k]).0 == p;
                    assert(k != i);
                    assert(s@[k].0 == p);
                    lemma_service_at(s@, p, k);
                    lemma_service_at(pre, p, k);
                }
            }
        },
        None => {
            s.push((port, info));
            proof {
                assert forall|a: int, b: int|
                    0 <= a < b < s@.len() implies (#[trigger] s@[a]).0 != (#[trigger] s@[b]).0 by {
                    if b == s@.len() - 1 {
                        assert(pre[a].0 != port);
                    } else {
                        assert(pre[a].0 != pre[b].0);
                    }
                }
                lemma_service_at(s@, port, s@.len() - 1);
                assert forall|p: u16|
                    p != port implies #[trigger] spec_has_port(s@, p) == spec_has_port(pre, p) by {
                    if spec_has_port(pre, p) {
                        let k = choose|k: int| 0 <= k < pre.len() && (#[trigger] pre[k]).0 == p;
                        assert(s@[k].0 == p);
                    }
                    if spec_has_port(s@, p) {
                        let k = choose|k: int| 0 <= k < s@.len() && (#[trigger] s@[k]).0 == p;
                        assert(k < pre.len());
                        assert(pre[k].0 == p);
                    }
                }
                assert forall|p: u16|
                    p != port && spec_has_port(pre, p) implies #[trigger] spec_service_at(s@, p)
                    == spec_service_at(pre, p) by {
                    let k = choose|k: int| 0 <= k < pre.len() && (#[trigger] pre[k]).0 == p;
                    assert(s@[k].0 == p);
                    lemma_service_at(s@, p, k);
                    lemma_service_at(pre, p, k);
                }
            }
        },
    }
}

/// Inserts a port into a sorted list of distinct ports, keeping it sorted
/// and duplicate-free.
fn insert_sorted(out: &mut Vec<u16>, port: u16)
    requires
        forall|i: int, j: int| 0 <= i < j < old(out)@.len() ==> old(out)@[i] < old(out)@[j],
        !old(out)@.contains(port),
    ensures
        forall|i: int, j: int| 0 <= i < j < final(out)@.len() ==> final(out)@[i] < final(out)@[j],
        forall|p: u16| #[trigger] final(out)@.contains(p) == (old(out)@.contains(p) || p == port),
        final(out)@.len() == old(out)@.len() + 1,
{
    let ghost pre = out@;
    let n = out.len();
    let mut k: usize = 0;
    while k < n && out[k] < port
        invariant
            n == out@.len(),
            out@ == pre,
            k <= n,
            forall|i: int| 0 <= i < k ==> pre[i] < port,
        decreases n - k,
    {
        k = k + 1;
    }
    proof {
        if k < n {
            assert(pre[k as int] >= port);
            assert(pre[k as int] != port) by {
                if pre[k as int] == port {
                    assert(pre.contains(port));
                }
            }
        }
    }
    out.insert(k, port);
    proof {
        assert forall|i: int, j: int|
            0 <= i < j < out@.len() implies out@[i] < out@[j] by {
            let iv: int = if i < k {
                i
            } else {
                i - 1
            };
            let jv: int = if j < k {
                j
            } else {
                j - 1
            };
            if i == k {
                assert(out@[j] == pre[j - 1]);
                assert(pre[j - 1] >= port);
                assert(pre[j - 1] != port) by {
                    if pre[j - 1] == port {
                        assert(pre.contains(port));
                    }
                }
            } else if j == k {
                assert(out@[i] == pre[i]);
            } else {
                assert(out@[i] == pre[iv]);
                assert(out@[j] == pre[jv]);
                if iv < jv {
                    assert(pre[iv] < pre[jv]);
                } else {
                    assert(iv == jv);
                    assert(i < k && j > k);
                    assert(pre[iv] < port || pre[iv] >= port);
                    assert(pre[i] < port);
                    assert(pre[j - 1] >= port && pre[j - 1] != port) by {
                        if pre[j - 1] == port {
                            assert(pre.contains(port));
                        }
                    }
                }
            }
        }
        assert forall|p: u16|
            #[trigger] out@.contains(p) == (pre.contains(p) || p == port) by {
            if out@.contains(p) {
                let i = choose|i: int| 0 <= i < out@.len() && out@[i] == p;
                if i == k {
                } else if i < k {
                    assert(pre[i] == p);
                } else {
                    assert(pre[i - 1] == p);
                }
            }
            if pre.contains(p) {
                let i = choose|i: int| 0 <= i < pre.len() && pre[i] == p;
                if i < k {
                    assert(out@[i] == p);
                } else {
                    assert(out@[i + 1] == p);
                }
            }
            if p == port {
                assert(out@[k as int] == p);
            }
        }
    }
}

/// The sorted, duplicate-free list of ports in a table.
fn sorted_ports(s: &Vec<(u16, ServiceInfo)>) -> (r: Vec<u16>)
    requires
        spec_unique_ports(s@),
    ensures
        forall|i: int, j: int| 0 <= i < j < r@.len() ==> r@[i] < r@[j],
        forall|p: u16| #[trigger] r@.contains(p) == spec_has_port(s@, p),
{
    let n = s.len();
    let mut out: Vec<u16> = Vec::new();
    let mut i: usize = 0;
    while i < n
        invariant
            n == s@.len(),
            spec_unique_ports(s@),
            i <= n,
            forall|a: int, b: int| 0 <= a < b < out@.len() ==> out@[a] < out@[b],
            forall|p: u16| #[trigger] out@.contains(p) == spec_has_port(s@.take(i as int), p),
        decreases n - i,
    {
        let port = s[i].0;
        proof {
            assert(!out@.contains(port)) by {
                if spec_has_port(s@.take(i as int), port) {
                    let k = choose|k: int|
                        0 <= k < i && (#[trigger] s@.take(i as int)[k]).0 == port;
                    assert(s@[k].0 == s@[i as int].0);
                }
            }
        }
        insert_sorted(&mut out, port);
        proof {
            assert forall|p: u16|
                #[trigger] out@.contains(p) == spec_has_port(s@.take(i + 1 as int), p) by {
                if out@.contains(p) {
                    if p == port {
                        assert(s@.take(i + 1 as int)[i as int].0 == p);
                    } else {
                        let k = choose|k: int|
                            0 <= k < i && (#[trigger] s@.take(i as int)[k]).0 == p;
                        assert(s@.take(i + 1 as int)[k].0 == p);
                    }
                }
                if spec_has_port(s@.take(i + 1 as int), p) {
                    let k = choose|k: int|
                        0 <= k < i + 1 && (#[trigger] s@.take(i + 1 as int)[k]).0 == p;
                    if k == i {
                    } else {
                        assert(s@.take(i as int)[k].0 == p);
                    }
                }
            }
        }
        i = i + 1;
    }
    proof {
        assert(s@.take(n as int) =~= s@);
        assert forall|p: u16| #[trigger] out@.contains(p) == spec_has_port(s@, p) by {
            assert(spec_has_port(s@.take(n as int), p) == spec_has_port(s@, p));
        }
    }
    out
}

impl ServiceRegistry {
    /// One entry per port in each table.
    pub open spec fn wf(&self) -> bool {
        spec_unique_ports(self.tcp_services@) && spec_unique_ports(self.udp_services@)
    }

    /// Creates a new `ServiceRegistry` populated with all known port
    /// mappings.
    pub fn new() -> (r: ServiceRegistry)
        ensures
            r.wf(),
    {
        let mut registry = ServiceRegistry { tcp_services: Vec::new(), udp_services: Vec::new() };
        registry.register_all();
        registry
    }

    /// Records a service under a port and protocol name; unknown protocol
    /// names record nothing.
    fn register(
        &mut self,
        port: u16,
        protocol: &str,
        name: &str,
        description: &str,
        category: ServiceCategory,
    )
        requires
            old(self).wf(),
        ensures
            final(self).wf(),
    {
        let info = ServiceInfo::new(name, description, category);
        if str_eq_ignore_case(protocol, "TCP") {
            table_register(&mut self.tcp_services, port, info);
        } else if str_eq_ignore_case(protocol, "UDP") {
            table_register(&mut self.udp_services, port, info);
        }
    }

    /// Looks up service info for a port and protocol string,
    /// case-insensitively; unknown protocol names find nothing.
    pub fn lookup(&self, port: u16, protocol: &str) -> (r: Option<&ServiceInfo>)
        requires
            self.wf(),
        ensures
            ({
                if spec_lower(protocol@) == spec_lower("TCP"@) {
                    match r {
                        Some(si) => spec_has_port(self.tcp_services@, port) && same_service(
                            si,
                            &spec_service_at(self.tcp_services@, port),
                        ),
                        None => !spec_has_port(self.tcp_services@, port),
                    }
                } else if spec_lower(protocol@) == spec_lower("UDP"@) {
                    match r {
                        Some(si) => spec_has_port(self.udp_services@, port) && same_service(
                            si,
                            &spec_service_at(self.udp_services@, port),
                        ),
                        None => !spec_has_port(self.udp_services@, port),
                    }
                } else {
                    r is None
                }
            }),
    {
        if str_eq_ignore_case(protocol, "TCP") {
            self.lookup_tcp(port)
        } else if str_eq_ignore_case(protocol, "UDP") {
            self.lookup_udp(port)
        } else {
            None
        }
    }

    /// Looks up service info for a TCP port.
    pub fn lookup_tcp(&self, port: u16) -> (r: Option<&ServiceInfo>)
        requires
            self.wf(),
        ensures
            match r {
                Some(si) => spec_has_port(self.tcp_services@, port) && same_service(
                    si,
                    &spec_service_at(self.tcp_services@, port),
                ),
                None => !spec_has_port(self.tcp_services@, port),
            },
    {
        match find_port_index(&self.tcp_services, port) {
            Some(i) => {
                proof {
                    lemma_service_at(self.tcp_services@, port, i as int);
                }
                Some(&self.tcp_services[i].1)
            },
            None => None,
        }
    }

    /// Looks up service info for a UDP port.
    pub fn lookup_udp(&self, port: u16) -> (r: Option<&ServiceInfo>)
        requires
            self.wf(),
        ensures
            match r {
                Some(si) => spec_has_port(self.udp_services@, port) && same_service(
                    si,
                    &spec_service_at(self.udp_services@, port),
                ),
                None => !spec_has_port(self.udp_services@, port),
            },
    {
        match find_port_index(&self.udp_services, port) {
            Some(i) => {
                proof {
                    lemma_service_at(self.udp_services@, port, i as int);
                }
                Some(&self.udp_services[i].1)
            },
            None => None,
        }
    }

    /// Returns all known TCP ports, sorted and without duplicates.
    pub fn all_tcp_ports(&self) -> (r: Vec<u16>)
        requires
            self.wf(),
        ensures
            forall|i: int, j: int| 0 <= i < j < r@.len() ==> r@[i] < r@[j],
            forall|p: u16| #[trigger] r@.contains(p) == spec_has_port(self.tcp_services@, p),
    {
        sorted_ports(&self.tcp_services)
    }

    /// Returns all known UDP ports, sorted and without duplicates.
    pub fn all_udp_ports(&self) -> (r: Vec<u16>)
        requires
            self.wf(),
        ensures
            forall|i: int, j: int| 0 <= i < j < r@.len() ==> r@[i] < r@[j],
            forall|p: u16| #[trigger] r@.contains(p) == spec_has_port(self.udp_services@, p),
    {
        sorted_ports(&self.udp_services)
    }

    /// Returns the TCP services of one category, sorted by port number.
    #[verifier::rlimit(100)]
    #[verifier::spinoff_prover]
    pub fn by_category(&self, category: &ServiceCategory) -> (r: Vec<(u16, &ServiceInfo)>)
        requires
            self.wf(),
        ensures
            forall|i: int, j: int| 0 <= i < j < r@.len() ==> (#[trigger] r@[i]).0 < (
            #[trigger] r@[j]).0,
            forall|i: int|
                0 <= i < r@.len() ==> spec_has_port(self.tcp_services@, (#[trigger] r@[i]).0)
                    && same_service(
                    r@[i].1,
                    &spec_service_at(self.tcp_services@, r@[i].0),
                ) && r@[i].1.category == *category,
            forall|p: u16|
                spec_has_port(self.tcp_services@, p) && spec_service_at(
                    self.tcp_services@,
                    p,
                ).category == *category ==> exists|i: int|
                    0 <= i < r@.len() && (#[trigger] r@[i]).0 == p,
    {
        let ports = sorted_ports(&self.tcp_services);
        let n = ports.len();
        let mut out: Vec<(u16, &ServiceInfo)> = Vec::new();
        let mut i: usize = 0;
        while i < n
            invariant
                self.wf(),
                n == ports@.len(),
                i <= n,
                forall|a: int, b: int| 0 <= a < b < ports@.len() ==> ports@[a] < ports@[b],
                forall|p: u16|
                    #[trigger] ports@.contains(p) == spec_has_port(self.tcp_services@, p),
                forall|a: int, b: int|
                    0 <= a < b < out@.len() ==> (#[trigger] out@[a]).0 < (#[trigger] out@[b]).0,
                forall|a: int|
                    0 <= a < out@.len() ==> spec_has_port(self.tcp_services@, (#[trigger] out@[a]).0)
                        && same_service(
                        out@[a].1,
                        &spec_service_at(self.tcp_services@, out@[a].0),
                    ) && out@[a].1.category == *category,
                forall|a: int|
                    0 <= a < out@.len() ==> exists|b: int|
                        0 <= b < i && ports@[b] == (#[trigger] out@[a]).0,
                forall|b: int|
                    0 <= b < i && spec_service_at(self.tcp_services@, ports@[b]).category
                        == *category ==> exists|a: int|
                        0 <= a < out@.len() && (#[trigger] out@[a]).0 == ports@[b],
            decreases n - i,
    {
            let port = ports[i];
            proof {
                assert(ports@.contains(port));
            }
            match self.lookup_tcp(port) {
                Some(si) => {
                    if category_eq(&si.category, category) {
                        proof {
                            assert forall|a: int|
                                0 <= a < out@.len() implies (#[trigger] out@[a]).0 < port by {
                                let b = choose|b: int|
                                    0 <= b < i && ports@[b] == (#[trigger] out@[a]).0;
                                assert(ports@[b] < ports@[i as int]);
                            }
                        }
                        let ghost before = out@;
                        out.push((port, si));
                        proof {
                            assert(out@[out@.len() - 1].0 == port);
                            assert forall|b: int|
                                0 <= b < i + 1 && spec_service_at(
                                    self.tcp_services@,
                                    ports@[b],
                                ).category == *category implies exists|a: int|
                                0 <= a < out@.len() && (#[trigger] out@[a]).0 == ports@[b] by {
                                if b < i {
                                    let a = choose|a: int|
                                        0 <= a < before.len() && (#[trigger] before[a]).0
                                            == ports@[b];
                                    assert(out@[a].0 == ports@[b]);
                                } else {
                                    assert(out@[out@.len() - 1].0 == ports@[b]);
                                }
                            }
                        }
                    } else {
                        proof {
                            assert(spec_service_at(self.tcp_services@, port).category
                                != *category);
                            assert forall|b: int|
                                0 <= b < i + 1 && spec_service_at(
                                    self.tcp_services@,
                                    ports@[b],
                                ).category == *category implies exists|a: int|
                                0 <= a < out@.len() && (#[trigger] out@[a]).0 == ports@[b] by {
                                assert(b < i);
                            }
                        }
                    }
                },
                None => {
                    proof {
                        assert(false);
                    }
                },
            }
            i = i + 1;
        }
        proof {
            assert forall|p: u16|
                spec_has_port(self.tcp_services@, p) && spec_service_at(
                    self.tcp_services@,
                    p,
                ).category == *category implies exists|a: int|
                0 <= a < out@.len() && (#[trigger] out@[a]).0 == p by {
                assert(ports@.contains(p));
                let b = choose|b: int| 0 <= b < ports@.len() && ports@[b] == p;
            }
        }
        out
    }

    /// Whether a port is a known development port.
    pub fn is_development_port(&self, port: u16) -> (r: bool)
        requires
            self.wf(),
        ensures
            r == (spec_has_port(self.tcp_services@, port) && spec_service_at(
                self.tcp_services@,
                port,
            ).category == ServiceCategory::Dev),
    {
        match self.lookup_tcp(port) {
            Some(si) => category_eq(&si.category, &ServiceCategory::Dev),
            None => false,
        }
    }

    /// Whether a port is a known database port.
    pub fn is_database_port(&self, port: u16) -> (r: bool)
        requires
            self.wf(),
        ensures
            r == (spec_has_port(self.tcp_services@, port) && spec_service_at(
                self.tcp_services@,
                port,
            ).category == ServiceCategory::Database),
    {
        match self.lookup_tcp(port) {
            Some(si) => category_eq(&si.category, &ServiceCategory::Database),
            None => false,
        }
    }

    /// Whether a port is one of the fixed debugger ports.
    pub fn is_debug_port(&self, port: u16) -> (r: bool)
        ensures
            r == (port == 5005 || port == 9229 || port == 5858),
    {
        port == 5005 || port == 9229 || port == 5858
    }

    /// Returns the fixed list of common development ports.
    pub fn development_ports(&self) -> (r: Vec<u16>)
        ensures
            r@ == seq![
                3000u16,
                3001u16,
                4200u16,
                5173u16,
                5174u16,
                8080u16,
                8000u16,
                8081u16,
                8082u16,
                5005u16,
                9229u16,
                35729u16,
                8888u16,
                9000u16,
            ],
    {
        let mut v: Vec<u16> = Vec::new();
        v.push(3000);
        v.push(3001);
        v.push(4200);
        v.push(5173);
        v.push(5174);
        v.push(8080);
        v.push(8000);
        v.push(8081);
        v.push(8082);
        v.push(5005);
        v.push(9229);
        v.push(35729);
        v.push(8888);
        v.push(9000);
        proof {
            assert(v@ =~= seq![
                3000u16,
                3001u16,
                4200u16,
                5173u16,
                5174u16,
                8080u16,
                8000u16,
                8081u16,
                8082u16,
                5005u16,
                9229u16,
                35729u16,
                8888u16,
                9000u16,
            ]);
        }
        v
    }

    /// Returns the fixed list of common database ports.
    pub fn database_ports(&self) -> (r: Vec<u16>)
        ensures
            r@ == seq![3306u16, 5432u16, 27017u16, 6379u16, 1521u16, 1433u16, 5984u16, 9042u16],
    {
        let mut v: Vec<u16> = Vec::new();
        v.push(3306);
        v.push(5432);
        v.push(27017);
        v.push(6379);
        v.push(1521);
        v.push(1433);
        v.push(5984);
        v.push(9042);
        proof {
            assert(v@ =~= seq![
                3306u16,
                5432u16,
                27017u16,
                6379u16,
                1521u16,
                1433u16,
                5984u16,
                9042u16,
            ]);
        }
        v
    }

    fn register_all(&mut self)
        requires
            old(self).wf(),
        ensures
            final(self).wf(),
    {
        // ── Database services ──────────────────────────────────────────
        self.register(3306, "TCP", "MySQL", "MySQL Database", ServiceCategory::Database);
        self.register(5432, "TCP", "PostgreSQL", "PostgreSQL Database", ServiceCategory::Database);
        self.register(27017, "TCP", "MongoDB", "MongoDB Database", ServiceCategory::Database);
        self.register(6379, "TCP", "Redis", "Redis In-Memory Store", ServiceCategory::Cache);
        self.register(5984, "TCP", "CouchDB", "CouchDB Database", ServiceCategory::Database);
        self.register(9042, "TCP", "Cassandra", "Apache Cassandra", ServiceCategory::Database);
        self.register(7000, "TCP", "Cassandra-Cluster", "Cassandra Cluster", ServiceCategory::Database);
        self.register(7199, "TCP", "Cassandra-JMX", "Cassandra JMX", ServiceCategory::Database);
        self.register(1521, "TCP", "Oracle", "Oracle Database", ServiceCategory::Database);
        self.register(1433, "TCP", "MSSQL", "Microsoft SQL Server", ServiceCategory::Database);
        self.register(26257, "TCP", "CockroachDB", "CockroachDB", ServiceCategory::Database);
        self.register(8529, "TCP", "ArangoDB", "ArangoDB", ServiceCategory::Database);
        self.register(11211, "TCP", "Memcached", "Memcached", ServiceCategory::Cache);
        // ── Web servers ────────────────────────────────────────────────
        self.register(80, "TCP", "HTTP", "HTTP Web Server", ServiceCategory::Web);
        self.register(443, "TCP", "HTTPS", "HTTPS Web Server", ServiceCategory::Web);
        self.register(8080, "TCP", "HTTP-Alt", "Alternative HTTP", ServiceCategory::Web);
        self.register(8443, "TCP", "HTTPS-Alt", "Alternative HTTPS", ServiceCategory::Web);
        self.register(8000, "TCP", "HTTP-Alt-2", "Alternative HTTP", ServiceCategory::Web);
        self.register(3000, "TCP", "Dev-Server", "Development Server", ServiceCategory::Dev);
        self.register(4200, "TCP", "Angular", "Angular Dev Server", ServiceCategory::Dev);
        self.register(5173, "TCP", "Vite", "Vite Dev Server", ServiceCategory::Dev);
        self.register(5174, "TCP", "Vite-Alt", "Vite Dev Server Alt", ServiceCategory::Dev);
        self.register(3001, "TCP", "Dev-Server-Alt", "Development Server Alt", ServiceCategory::Dev);
        // ── Messaging ──────────────────────────────────────────────────
        self.register(9092, "TCP", "Kafka", "Apache Kafka", ServiceCategory::Messaging);
        self.register(2181, "TCP", "Zookeeper", "Apache Zookeeper", ServiceCategory::Messaging);
        self.register(5672, "TCP", "RabbitMQ", "RabbitMQ AMQP", ServiceCategory::Messaging);
        self.register(15672, "TCP", "RabbitMQ-Mgmt", "RabbitMQ Management", ServiceCategory::Messaging);
        self.register(61616, "TCP", "ActiveMQ", "Apache ActiveMQ", ServiceCategory::Messaging);
        self.register(4222, "TCP", "NATS", "NATS Messaging", ServiceCategory::Messaging);
        self.register(1883, "TCP", "MQTT", "MQTT Broker", ServiceCategory::Messaging);
        self.register(8883, "TCP", "MQTT-SSL", "MQTT over SSL", ServiceCategory::Messaging);
        // ── Search engines ─────────────────────────────────────────────
        self.register(9200, "TCP", "Elasticsearch", "Elasticsearch HTTP", ServiceCategory::Search);
        self.register(9300, "TCP", "ES-Transport", "Elasticsearch Transport", ServiceCategory::Search);
        self.register(8983, "TCP", "Solr", "Apache Solr", ServiceCategory::Search);
        self.register(19530, "TCP", "Milvus", "Milvus Vector DB", ServiceCategory::Search);
        // ── Infrastructure ─────────────────────────────────────────────
        self.register(22, "TCP", "SSH", "Secure Shell", ServiceCategory::Infra);
        self.register(21, "TCP", "FTP", "File Transfer Protocol", ServiceCategory::Infra);
        self.register(25, "TCP", "SMTP", "Mail Server", ServiceCategory::Infra);
        self.register(53, "TCP", "DNS", "Domain Name System", ServiceCategory::Infra);
        self.register(53, "UDP", "DNS", "Domain Name System", ServiceCategory::Infra);
        self.register(2375, "TCP", "Docker", "Docker API", ServiceCategory::Infra);
        self.register(2376, "TCP", "Docker-TLS", "Docker TLS API", ServiceCategory::Infra);
        self.register(6443, "TCP", "K8s-API", "Kubernetes API", ServiceCategory::Infra);
        self.register(10250, "TCP", "Kubelet", "Kubernetes Kubelet", ServiceCategory::Infra);
        self.register(2379, "TCP", "etcd", "etcd Client", ServiceCategory::Infra);
        self.register(2380, "TCP", "etcd-Peer", "etcd Peer", ServiceCategory::Infra);
        self.register(8500, "TCP", "Consul", "HashiCorp Consul", ServiceCategory::Infra);
        self.register(8600, "TCP", "Consul-DNS", "Consul DNS", ServiceCategory::Infra);
        self.register(8200, "TCP", "Vault", "HashiCorp Vault", ServiceCategory::Infra);
        // ── Monitoring ─────────────────────────────────────────────────
        self.register(9090, "TCP", "Prometheus", "Prometheus Server", ServiceCategory::Monitoring);
        self.register(9093, "TCP", "Alertmanager", "Prometheus Alertmanager", ServiceCategory::Monitoring);
        self.register(9100, "TCP", "Node-Exporter", "Prometheus Node Exporter", ServiceCategory::Monitoring);
        self.register(8086, "TCP", "InfluxDB", "InfluxDB Time Series", ServiceCategory::Monitoring);
        self.register(4317, "TCP", "OTLP-gRPC", "OpenTelemetry gRPC", ServiceCategory::Monitoring);
        self.register(4318, "TCP", "OTLP-HTTP", "OpenTelemetry HTTP", ServiceCategory::Monitoring);
        self.register(16686, "TCP", "Jaeger", "Jaeger UI", ServiceCategory::Monitoring);
        self.register(14268, "TCP", "Jaeger-Collector", "Jaeger Collector", ServiceCategory::Monitoring);
        self.register(9411, "TCP", "Zipkin", "Zipkin Tracing", ServiceCategory::Monitoring);
        // ── Development / Debug ────────────────────────────────────────
        self.register(5005, "TCP", "Java-Debug", "Java Debug Port", ServiceCategory::Dev);
        self.register(9229, "TCP", "Node-Debug", "Node.js Debug", ServiceCategory::Dev);
        self.register(5858, "TCP", "Node-Debug-Old", "Node.js Debug (Legacy)", ServiceCategory::Dev);
        self.register(35729, "TCP", "LiveReload", "LiveReload Server", ServiceCategory::Dev);
        self.register(6006, "TCP", "TensorBoard", "TensorFlow TensorBoard", ServiceCategory::Dev);
        self.register(8888, "TCP", "Jupyter", "Jupyter Notebook", ServiceCategory::Dev);
        // ── Security ───────────────────────────────────────────────────
        self.register(636, "TCP", "LDAPS", "LDAP over SSL", ServiceCategory::Security);
        self.register(389, "TCP", "LDAP", "LDAP Directory", ServiceCategory::Security);
        self.register(88, "TCP", "Kerberos", "Kerberos Auth", ServiceCategory::Security);
        self.register(464, "TCP", "Kerberos-Change", "Kerberos Password", ServiceCategory::Security);
        // ── Other common services ──────────────────────────────────────
        self.register(1099, "TCP", "RMI", "Java RMI Registry", ServiceCategory::Dev);
        self.register(8081, "TCP", "HTTP-Alt-3", "Alternative HTTP", ServiceCategory::Web);
        self.register(8082, "TCP", "HTTP-Alt-4", "Alternative HTTP", ServiceCategory::Web);
        self.register(9000, "TCP", "SonarQube", "SonarQube Server", ServiceCategory::Dev);
        self.register(8761, "TCP", "Eureka", "Netflix Eureka", ServiceCategory::Infra);
        // Registered above as Jupyter; registering again overwrites, so the
        // configuration server wins.
        self.register(8888, "TCP", "Config-Server", "Spring Cloud Config", ServiceCategory::Infra);
        self.register(5000, "TCP", "Docker-Registry", "Docker Registry", ServiceCategory::Infra);
        self.register(5001, "TCP", "Registry-Alt", "Registry Alternative", ServiceCategory::Infra);
    }
}

/// Compares two service categories.
fn category_eq(a: &ServiceCategory, b: &ServiceCategory) -> (r: bool)
    ensures
        r == (a == b),
{
    match (a, b) {
        (ServiceCategory::Database, ServiceCategory::Database) => true,
        (ServiceCategory::Web, ServiceCategory::Web) => true,
        (ServiceCategory::Messaging, ServiceCategory::Messaging) => true,
        (ServiceCategory::Cache, ServiceCategory::Cache) => true,
        (ServiceCategory::Search, ServiceCategory::Search) => true,
        (ServiceCategory::Dev, ServiceCategory::Dev) => true,
        (ServiceCategory::Infra, ServiceCategory::Infra) => true,
        (ServiceCategory::Monitoring, ServiceCategory::Monitoring) => true,
        (ServiceCategory::Security, ServiceCategory::Security) => true,
        (ServiceCategory::Other, ServiceCategory::Other) => true,
        _ => false,
    }
}

} // verus!
