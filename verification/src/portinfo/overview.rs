//! Aggregate statistics over a set of enriched port bindings.

use vstd::prelude::*;

use crate::clock::clock_now_millis;
use crate::numfmt::{spec_digits, u64_str};
use crate::portinfo::binding::{ConnectionState, Protocol};
use crate::portinfo::enriched::{spec_is_exposed, spec_is_local_only, EnrichedPortBinding};
use crate::portinfo::service_info::ServiceCategory;
use crate::strutil::{spec_contains, spec_lower, str_contains, str_eq, to_ascii_lower};

verus! {

/// Network statistics counted over a set of bindings.
#[derive(Debug, Clone, Copy, PartialEq, Eq, Structural)]
pub struct NetworkStatistics {
    pub total_listening: usize,
    pub total_established: usize,
    pub tcp_count: usize,
    pub udp_count: usize,
    pub exposed_count: usize,
    pub local_only_count: usize,
}

/// How one binding counts toward each statistic: listening and established
/// by state, TCP and UDP by protocol, and exposure where a binding is
/// exposed, else local-only where it is bound to localhost.
pub open spec fn spec_counts_of(b: &EnrichedPortBinding) -> NetworkStatistics {
    NetworkStatistics {
        total_listening: if b.binding.state is Listen {
            1
        } else {
            0
        },
        total_established: if b.binding.state is Established {
            1
        } else {
            0
        },
        tcp_count: if b.binding.protocol is Tcp {
            1
        } else {
            0
        },
        udp_count: if b.binding.protocol is Udp {
            1
        } else {
            0
        },
        exposed_count: if spec_is_exposed(&b.binding) {
            1
        } else {
            0
        },
        local_only_count: if !spec_is_exposed(&b.binding) && spec_is_local_only(&b.binding) {
            1
        } else {
            0
        },
    }
}

/// The statistics of a set of bindings, summed binding by binding.
pub open spec fn spec_stats(bindings: Seq<EnrichedPortBinding>) -> (int, int, int, int, int, int)
    decreases bindings.len(),
{
    if bindings.len() == 0 {
        (0int, 0int, 0int, 0int, 0int, 0int)
    } else {
        let rest = spec_stats(bindings.drop_last());
        let c = spec_counts_of(&bindings.last());
        (
            rest.0 + c.total_listening,
            rest.1 + c.total_established,
            rest.2 + c.tcp_count,
            rest.3 + c.udp_count,
            rest.4 + c.exposed_count,
            rest.5 + c.local_only_count,
        )
    }
}

impl NetworkStatistics {
    /// Creates statistics from a list of bindings.
    pub fn from_bindings(bindings: &[EnrichedPortBinding]) -> (r: NetworkStatistics)
        ensures
            r.total_listening == spec_stats(bindings@).0,
            r.total_established == spec_stats(bindings@).1,
            r.tcp_count == spec_stats(bindings@).2,
            r.udp_count == spec_stats(bindings@).3,
            r.exposed_count == spec_stats(bindings@).4,
            r.local_only_count == spec_stats(bindings@).5,
    {
        let n = bindings.len();
        let mut listening: usize = 0;
        let mut established: usize = 0;
        let mut tcp: usize = 0;
        let mut udp: usize = 0;
        let mut exposed: usize = 0;
        let mut local_only: usize = 0;
        let mut i: usize = 0;
        proof {
            assert(bindings@.take(0) =~= Seq::<EnrichedPortBinding>::empty());
        }
        while i < n
            invariant
                n == bindings@.len(),
                i <= n,
                listening == spec_stats(bindings@.take(i as int)).0,
                established == spec_stats(bindings@.take(i as int)).1,
                tcp == spec_stats(bindings@.take(i as int)).2,
                udp == spec_stats(bindings@.take(i as int)).3,
                exposed == spec_stats(bindings@.take(i as int)).4,
                local_only == spec_stats(bindings@.take(i as int)).5,
                listening <= i && established <= i && tcp <= i && udp <= i && exposed <= i
                    && local_only <= i,
            decreases n - i,
        {
            proof {
                let t = bindings@.take(i + 1 as int);
                assert(t.drop_last() =~= bindings@.take(i as int));
                assert(t.last() == bindings@[i as int]);
            }
            let b = &bindings[i];
            match &b.binding.state {
                ConnectionState::Listen => {
                    listening = listening + 1;
                },
                ConnectionState::Established => {
                    established = established + 1;
                },
                _ => {},
            }
            match &b.binding.protocol {
                Protocol::Tcp => {
                    tcp = tcp + 1;
                },
                Protocol::Udp => {
                    udp = udp + 1;
                },
            }
            if b.is_exposed() {
                exposed = exposed + 1;
            } else if b.is_local_only() {
                local_only = local_only + 1;
            }
            i = i + 1;
        }
        proof {
            assert(bindings@.take(n as int) =~= bindings@);
        }
        NetworkStatistics {
            total_listening: listening,
            total_established: established,
            tcp_count: tcp,
            udp_count: udp,
            exposed_count: exposed,
            local_only_count: local_only,
        }
    }

    /// The one-line summary of the counts.
    pub open spec fn spec_summary_line(&self) -> Seq<char> {
        "Listening: "@ + spec_digits(self.total_listening as nat) + " | Established: "@
            + spec_digits(self.total_established as nat) + " | TCP: "@ + spec_digits(
            self.tcp_count as nat,
        ) + " | UDP: "@ + spec_digits(self.udp_count as nat) + " | Exposed: "@ + spec_digits(
            self.exposed_count as nat,
        ) + " | Local: "@ + spec_digits(self.local_only_count as nat)
    }

    /// Returns a formatted summary line.
    pub fn to_summary_line(&self) -> (r: String)
        ensures
            r@ == self.spec_summary_line(),
    {
        proof {
            reveal_strlit("Listening: ");
            reveal_strlit(" | Established: ");
            reveal_strlit(" | TCP: ");
            reveal_strlit(" | UDP: ");
            reveal_strlit(" | Exposed: ");
            reveal_strlit(" | Local: ");
        }
        let mut s = String::from_str("Listening: ");
        let a = u64_str(self.total_listening as u64);
        s.append(a.as_str());
        s.append(" | Established: ");
        let b = u64_str(self.total_established as u64);
        s.append(b.as_str());
        s.append(" | TCP: ");
        let c = u64_str(self.tcp_count as u64);
        s.append(c.as_str());
        s.append(" | UDP: ");
        let d = u64_str(self.udp_count as u64);
        s.append(d.as_str());
        s.append(" | Exposed: ");
        let e = u64_str(self.exposed_count as u64);
        s.append(e.as_str());
        s.append(" | Local: ");
        let f = u64_str(self.local_only_count as u64);
        s.append(f.as_str());
        s
    }
}

/// A complete network overview with statistics; `generated_at` is
/// milliseconds since the Unix epoch.
#[derive(Debug)]
pub struct NetworkOverview {
    pub bindings: Vec<EnrichedPortBinding>,
    pub statistics: NetworkStatistics,
    pub generated_at: u64,
}

impl NetworkOverview {
    /// Builds an overview from enriched bindings: the statistics are
    /// counted over them, and the overview is stamped with the wall clock.
    pub fn from_bindings(bindings: Vec<EnrichedPortBinding>) -> (r: NetworkOverview)
        ensures
            r.bindings@ == bindings@,
            r.statistics.total_listening == spec_stats(bindings@).0,
            r.statistics.total_established == spec_stats(bindings@).1,
            r.statistics.tcp_count == spec_stats(bindings@).2,
            r.statistics.udp_count == spec_stats(bindings@).3,
            r.statistics.exposed_count == spec_stats(bindings@).4,
            r.statistics.local_only_count == spec_stats(bindings@).5,
    {
        let statistics = NetworkStatistics::from_bindings(bindings.as_slice());
        NetworkOverview { bindings, statistics, generated_at: clock_now_millis() }
    }
}

/// The pointed-to bindings of a sequence of references.
pub open spec fn ebs_view(s: Seq<&EnrichedPortBinding>) -> Seq<EnrichedPortBinding> {
    s.map_values(|b: &EnrichedPortBinding| *b)
}

/// The bindings in LISTEN state, kept in order.
pub open spec fn spec_select_listening(s: Seq<EnrichedPortBinding>) -> Seq<EnrichedPortBinding>
    decreases s.len(),
{
    if s.len() == 0 {
        Seq::<EnrichedPortBinding>::empty()
    } else if s.last().binding.state is Listen {
        spec_select_listening(s.drop_last()).push(s.last())
    } else {
        spec_select_listening(s.drop_last())
    }
}

/// The exposed bindings, kept in order.
pub open spec fn spec_select_exposed(s: Seq<EnrichedPortBinding>) -> Seq<EnrichedPortBinding>
    decreases s.len(),
{
    if s.len() == 0 {
        Seq::<EnrichedPortBinding>::empty()
    } else if spec_is_exposed(&s.last().binding) {
        spec_select_exposed(s.drop_last()).push(s.last())
    } else {
        spec_select_exposed(s.drop_last())
    }
}

/// The local-only bindings, kept in order.
pub open spec fn spec_select_local_only(s: Seq<EnrichedPortBinding>) -> Seq<EnrichedPortBinding>
    decreases s.len(),
{
    if s.len() == 0 {
        Seq::<EnrichedPortBinding>::empty()
    } else if spec_is_local_only(&s.last().binding) {
        spec_select_local_only(s.drop_last()).push(s.last())
    } else {
        spec_select_local_only(s.drop_last())
    }
}

/// Whether a binding's process name holds the (lower-cased) filter.
pub open spec fn spec_name_matches(b: &EnrichedPortBinding, low: Seq<char>) -> bool {
    spec_contains(spec_lower(b.binding.process_name@), low)
}

/// The bindings whose process name holds the filter, kept in order.
pub open spec fn spec_select_named(s: Seq<EnrichedPortBinding>, low: Seq<char>) -> Seq<
    EnrichedPortBinding,
>
    decreases s.len(),
{
    if s.len() == 0 {
        Seq::<EnrichedPortBinding>::empty()
    } else if spec_name_matches(&s.last(), low) {
        spec_select_named(s.drop_last(), low).push(s.last())
    } else {
        spec_select_named(s.drop_last(), low)
    }
}

/// The bindings of one process, kept in order.
pub open spec fn spec_select_pid(s: Seq<EnrichedPortBinding>, pid: u32) -> Seq<
    EnrichedPortBinding,
>
    decreases s.len(),
{
    if s.len() == 0 {
        Seq::<EnrichedPortBinding>::empty()
    } else if s.last().binding.pid == pid {
        spec_select_pid(s.drop_last(), pid).push(s.last())
    } else {
        spec_select_pid(s.drop_last(), pid)
    }
}

/// The bindings of one process name, kept in order.
pub open spec fn spec_select_name_eq(s: Seq<EnrichedPortBinding>, name: Seq<char>) -> Seq<
    EnrichedPortBinding,
>
    decreases s.len(),
{
    if s.len() == 0 {
        Seq::<EnrichedPortBinding>::empty()
    } else if s.last().binding.process_name@ == name {
        spec_select_name_eq(s.drop_last(), name).push(s.last())
    } else {
        spec_select_name_eq(s.drop_last(), name)
    }
}

/// The bindings whose known service has one category, kept in order.
pub open spec fn spec_select_category(s: Seq<EnrichedPortBinding>, cat: ServiceCategory) -> Seq<
    EnrichedPortBinding,
>
    decreases s.len(),
{
    if s.len() == 0 {
        Seq::<EnrichedPortBinding>::empty()
    } else if s.last().service_info matches Some(si) && si.category == cat {
        spec_select_category(s.drop_last(), cat).push(s.last())
    } else {
        spec_select_category(s.drop_last(), cat)
    }
}

/// How many bindings carry Docker context.
pub open spec fn spec_docker_count(s: Seq<EnrichedPortBinding>) -> int
    decreases s.len(),
{
    if s.len() == 0 {
        0
    } else {
        spec_docker_count(s.drop_last()) + if s.last().docker_info is Some {
            1int
        } else {
            0int
        }
    }
}

impl NetworkOverview {
    /// Returns only the listening bindings, in order.
    pub fn listening_ports(&self) -> (r: Vec<&EnrichedPortBinding>)
        ensures
            ebs_view(r@) == spec_select_listening(self.bindings@),
    {
        let n = self.bindings.len();
        let mut out: Vec<&EnrichedPortBinding> = Vec::new();
        let mut i: usize = 0;
        proof {
            assert(self.bindings@.take(0) =~= Seq::<EnrichedPortBinding>::empty());
            assert(ebs_view(out@) =~= spec_select_listening(self.bindings@.take(0)));
        }
        while i < n
            invariant
                n == self.bindings@.len(),
                i <= n,
                ebs_view(out@) == spec_select_listening(self.bindings@.take(i as int)),
            decreases n - i,
        {
            proof {
                let t = self.bindings@.take(i + 1 as int);
                assert(t.drop_last() =~= self.bindings@.take(i as int));
                assert(t.last() == self.bindings@[i as int]);
            }
            match &self.bindings[i].binding.state {
                ConnectionState::Listen => {
                    let b = &self.bindings[i];
                    proof {
                        assert(ebs_view(out@.push(b)) =~= ebs_view(out@).push(
                            self.bindings@[i as int],
                        ));
                    }
                    out.push(b);
                },
                _ => {},
            }
            i = i + 1;
        }
        proof {
            assert(self.bindings@.take(n as int) =~= self.bindings@);
        }
        out
    }

    /// Returns only the exposed bindings, in order.
    pub fn exposed_ports(&self) -> (r: Vec<&EnrichedPortBinding>)
        ensures
            ebs_view(r@) == spec_select_exposed(self.bindings@),
    {
        let n = self.bindings.len();
        let mut out: Vec<&EnrichedPortBinding> = Vec::new();
        let mut i: usize = 0;
        proof {
            assert(self.bindings@.take(0) =~= Seq::<EnrichedPortBinding>::empty());
            assert(ebs_view(out@) =~= spec_select_exposed(self.bindings@.take(0)));
        }
        while i < n
            invariant
                n == self.bindings@.len(),
                i <= n,
                ebs_view(out@) == spec_select_exposed(self.bindings@.take(i as int)),
            decreases n - i,
        {
            proof {
                let t = self.bindings@.take(i + 1 as int);
                assert(t.drop_last() =~= self.bindings@.take(i as int));
                assert(t.last() == self.bindings@[i as int]);
            }
            if self.bindings[i].is_exposed() {
                let b = &self.bindings[i];
                proof {
                    assert(ebs_view(out@.push(b)) =~= ebs_view(out@).push(
                        self.bindings@[i as int],
                    ));
                }
                out.push(b);
            }
            i = i + 1;
        }
        proof {
            assert(self.bindings@.take(n as int) =~= self.bindings@);
        }
        out
    }

    /// Returns only the local-only bindings, in order.
    pub fn local_only_ports(&self) -> (r: Vec<&EnrichedPortBinding>)
        ensures
            ebs_view(r@) == spec_select_local_only(self.bindings@),
    {
        let n = self.bindings.len();
        let mut out: Vec<&EnrichedPortBinding> = Vec::new();
        let mut i: usize = 0;
        proof {
            assert(self.bindings@.take(0) =~= Seq::<EnrichedPortBinding>::empty());
            assert(ebs_view(out@) =~= spec_select_local_only(self.bindings@.take(0)));
        }
        while i < n
            invariant
                n == self.bindings@.len(),
                i <= n,
                ebs_view(out@) == spec_select_local_only(self.bindings@.take(i as int)),
            decreases n - i,
        {
            proof {
                let t = self.bindings@.take(i + 1 as int);
                assert(t.drop_last() =~= self.bindings@.take(i as int));
                assert(t.last() == self.bindings@[i as int]);
            }
            if self.bindings[i].is_local_only() {
                let b = &self.bindings[i];
                proof {
                    assert(ebs_view(out@.push(b)) =~= ebs_view(out@).push(
                        self.bindings@[i as int],
                    ));
                }
                out.push(b);
            }
            i = i + 1;
        }
        proof {
            assert(self.bindings@.take(n as int) =~= self.bindings@);
        }
        out
    }

    /// Filters bindings by process name, case-insensitively, keeping exactly
    /// the matching ones in order.
    pub fn filter_by_process_name(&self, name: &str) -> (r: Vec<&EnrichedPortBinding>)
        ensures
            ebs_view(r@) == spec_select_named(self.bindings@, spec_lower(name@)),
    {
        let lower_name = to_ascii_lower(name);
        let n = self.bindings.len();
        let mut out: Vec<&EnrichedPortBinding> = Vec::new();
        let mut i: usize = 0;
        proof {
            assert(self.bindings@.take(0) =~= Seq::<EnrichedPortBinding>::empty());
            assert(ebs_view(out@) =~= spec_select_named(
                self.bindings@.take(0),
                spec_lower(name@),
            ));
        }
        while i < n
            invariant
                n == self.bindings@.len(),
                i <= n,
                lower_name@ == spec_lower(name@),
                ebs_view(out@) == spec_select_named(
                    self.bindings@.take(i as int),
                    spec_lower(name@),
                ),
            decreases n - i,
        {
            proof {
                let t = self.bindings@.take(i + 1 as int);
                assert(t.drop_last() =~= self.bindings@.take(i as int));
                assert(t.last() == self.bindings@[i as int]);
            }
            let low = to_ascii_lower(self.bindings[i].binding.process_name.as_str());
            if str_contains(low.as_str(), lower_name.as_str()) {
                let b = &self.bindings[i];
                proof {
                    assert(spec_name_matches(&self.bindings@[i as int], spec_lower(name@)));
                    assert(ebs_view(out@.push(b)) =~= ebs_view(out@).push(
                        self.bindings@[i as int],
                    ));
                }
                out.push(b);
            }
            i = i + 1;
        }
        proof {
            assert(self.bindings@.take(n as int) =~= self.bindings@);
        }
        out
    }

    /// Returns the bindings of one process, in order.
    pub fn by_pid(&self, pid: u32) -> (r: Vec<&EnrichedPortBinding>)
        ensures
            ebs_view(r@) == spec_select_pid(self.bindings@, pid),
    {
        let n = self.bindings.len();
        let mut out: Vec<&EnrichedPortBinding> = Vec::new();
        let mut i: usize = 0;
        proof {
            assert(self.bindings@.take(0) =~= Seq::<EnrichedPortBinding>::empty());
            assert(ebs_view(out@) =~= spec_select_pid(self.bindings@.take(0), pid));
        }
        while i < n
            invariant
                n == self.bindings@.len(),
                i <= n,
                ebs_view(out@) == spec_select_pid(self.bindings@.take(i as int), pid),
            decreases n - i,
        {
            proof {
                let t = self.bindings@.take(i + 1 as int);
                assert(t.drop_last() =~= self.bindings@.take(i as int));
                assert(t.last() == self.bindings@[i as int]);
            }
            if self.bindings[i].binding.pid == pid {
                let b = &self.bindings[i];
                proof {
                    assert(ebs_view(out@.push(b)) =~= ebs_view(out@).push(
                        self.bindings@[i as int],
                    ));
                }
                out.push(b);
            }
            i = i + 1;
        }
        proof {
            assert(self.bindings@.take(n as int) =~= self.bindings@);
        }
        out
    }

    /// Returns the bindings of one exact process name, in order.
    pub fn by_process_name(&self, name: &str) -> (r: Vec<&EnrichedPortBinding>)
        ensures
            ebs_view(r@) == spec_select_name_eq(self.bindings@, name@),
    {
        let n = self.bindings.len();
        let mut out: Vec<&EnrichedPortBinding> = Vec::new();
        let mut i: usize = 0;
        proof {
            assert(self.bindings@.take(0) =~= Seq::<EnrichedPortBinding>::empty());
            assert(ebs_view(out@) =~= spec_select_name_eq(self.bindings@.take(0), name@));
        }
        while i < n
            invariant
                n == self.bindings@.len(),
                i <= n,
                ebs_view(out@) == spec_select_name_eq(self.bindings@.take(i as int), name@),
            decreases n - i,
        {
            proof {
                let t = self.bindings@.take(i + 1 as int);
                assert(t.drop_last() =~= self.bindings@.take(i as int));
                assert(t.last() == self.bindings@[i as int]);
            }
            if str_eq(self.bindings[i].binding.process_name.as_str(), name) {
                let b = &self.bindings[i];
                proof {
                    assert(ebs_view(out@.push(b)) =~= ebs_view(out@).push(
                        self.bindings@[i as int],
                    ));
                }
                out.push(b);
            }
            i = i + 1;
        }
        proof {
            assert(self.bindings@.take(n as int) =~= self.bindings@);
        }
        out
    }

    /// Returns the bindings whose known service has one category, in order.
    pub fn by_service_category(&self, category: &ServiceCategory) -> (r: Vec<
        &EnrichedPortBinding,
    >)
        ensures
            ebs_view(r@) == spec_select_category(self.bindings@, *category),
    {
        let n = self.bindings.len();
        let mut out: Vec<&EnrichedPortBinding> = Vec::new();
        let mut i: usize = 0;
        proof {
            assert(self.bindings@.take(0) =~= Seq::<EnrichedPortBinding>::empty());
            assert(ebs_view(out@) =~= spec_select_category(self.bindings@.take(0), *category));
        }
        while i < n
            invariant
                n == self.bindings@.len(),
                i <= n,
                ebs_view(out@) == spec_select_category(self.bindings@.take(i as int), *category),
            decreases n - i,
        {
            proof {
                let t = self.bindings@.take(i + 1 as int);
                assert(t.drop_last() =~= self.bindings@.take(i as int));
                assert(t.last() == self.bindings@[i as int]);
            }
            let matched = match &self.bindings[i].service_info {
                Some(si) => category_matches(&si.category, category),
                None => false,
            };
            if matched {
                let b = &self.bindings[i];
                proof {
                    assert(ebs_view(out@.push(b)) =~= ebs_view(out@).push(
                        self.bindings@[i as int],
                    ));
                }
                out.push(b);
            }
            i = i + 1;
        }
        proof {
            assert(self.bindings@.take(n as int) =~= self.bindings@);
        }
        out
    }

    /// Returns the distinct PIDs among the bindings, sorted.
    pub fn unique_pids(&self) -> (r: Vec<u32>)
        ensures
            forall|a: int, b: int| 0 <= a < b < r@.len() ==> r@[a] < r@[b],
            forall|p: u32|
                #[trigger] r@.contains(p) == exists|j: int|
                    0 <= j < self.bindings@.len() && (#[trigger] self.bindings@[j]).binding.pid
                        == p,
    {
        let n = self.bindings.len();
        let mut out: Vec<u32> = Vec::new();
        let mut i: usize = 0;
        while i < n
            invariant
                n == self.bindings@.len(),
                i <= n,
                forall|a: int, b: int| 0 <= a < b < out@.len() ==> out@[a] < out@[b],
                forall|p: u32|
                    #[trigger] out@.contains(p) == exists|j: int|
                        0 <= j < i && (#[trigger] self.bindings@[j]).binding.pid == p,
            decreases n - i,
        {
            let pid = self.bindings[i].binding.pid;
            if !contains_sorted_u32(&out, pid) {
                insert_sorted_u32(&mut out, pid);
            }
            proof {
                assert forall|p: u32|
                    #[trigger] out@.contains(p) == exists|j: int|
                        0 <= j < i + 1 && (#[trigger] self.bindings@[j]).binding.pid == p by {
                    if out@.contains(p) {
                        if p != pid {
                        }
                        if p == pid {
                            assert(self.bindings@[i as int].binding.pid == p);
                        }
                    }
                    if exists|j: int|
                        0 <= j < i + 1 && (#[trigger] self.bindings@[j]).binding.pid == p {
                        let j = choose|j: int|
                            0 <= j < i + 1 && (#[trigger] self.bindings@[j]).binding.pid == p;
                        if j < i {
                        } else {
                            assert(p == pid);
                        }
                    }
                }
            }
            i = i + 1;
        }
        out
    }

}

/// Whether `names` lists the distinct process names of the first `upto`
/// bindings: no repeats, every name from one of them, and every one of
/// their names listed.
pub open spec fn spec_distinct_names_upto(
    bindings: Seq<EnrichedPortBinding>,
    names: Seq<String>,
    upto: int,
) -> bool {
    &&& forall|a: int, b: int|
        0 <= a < b < names.len() ==> (#[trigger] names[a])@ != (#[trigger] names[b])@
    &&& forall|k: int|
        #![trigger names[k]]
        0 <= k < names.len() ==> exists|j: int|
            0 <= j < upto && (#[trigger] bindings[j]).binding.process_name@ == names[k]@
    &&& forall|j: int|
        #![trigger bindings[j]]
        0 <= j < upto ==> exists|k: int|
            0 <= k < names.len() && (#[trigger] names[k])@ == bindings[j].binding.process_name@
}

/// Whether `names` lists the distinct process names of the bindings.
pub open spec fn spec_distinct_names_of(
    bindings: Seq<EnrichedPortBinding>,
    names: Seq<String>,
) -> bool {
    spec_distinct_names_upto(bindings, names, bindings.len() as int)
}

impl NetworkOverview {
    /// Returns the distinct process names among the bindings, each at its
    /// first occurrence.
    #[verifier::rlimit(60)]
    #[verifier::spinoff_prover]
    pub fn unique_process_names(&self) -> (r: Vec<String>)
        ensures
            spec_distinct_names_of(self.bindings@, r@),
    {
        let n = self.bindings.len();
        let mut out: Vec<String> = Vec::new();
        let mut i: usize = 0;
        proof {
            assert(spec_distinct_names_upto(self.bindings@, out@, 0));
        }
        while i < n
            invariant
                n == self.bindings@.len(),
                i <= n,
                spec_distinct_names_upto(self.bindings@, out@, i as int),
            decreases n - i,
        {
            let ghost step_pre = out@;
            let name = self.bindings[i].binding.process_name.as_str();
            let mut seen = false;
            let m = out.len();
            let mut k: usize = 0;
            while k < m
                invariant
                    m == out@.len(),
                    k <= m,
                    out@ == step_pre,
                    seen ==> exists|q: int| 0 <= q < m && (#[trigger] out@[q])@ == name@,
                    !seen ==> forall|q: int| 0 <= q < k ==> (#[trigger] out@[q])@ != name@,
                decreases m - k,
            {
                if str_eq(out[k].as_str(), name) {
                    seen = true;
                }
                k = k + 1;
            }
            if !seen {
                out.push(String::from_str(name));
            }
            proof {
                assert(self.bindings@[i as int].binding.process_name@ == name@);
                assert forall|a: int, b: int|
                    0 <= a < b < out@.len() implies (#[trigger] out@[a])@ != (
                #[trigger] out@[b])@ by {
                    if b < step_pre.len() {
                        assert(step_pre[a]@ != step_pre[b]@);
                    } else {
                        assert(step_pre[a]@ != name@);
                    }
                }
                assert forall|k2: int|
                    #![trigger out@[k2]]
                    0 <= k2 < out@.len() implies exists|j: int|
                    0 <= j < i + 1 && (#[trigger] self.bindings@[j]).binding.process_name@
                        == out@[k2]@ by {
                    if k2 < step_pre.len() {
                        let j = choose|j: int|
                            0 <= j < i && (#[trigger] self.bindings@[j]).binding.process_name@
                                == step_pre[k2]@;
                        assert(self.bindings@[j].binding.process_name@ == out@[k2]@);
                    } else {
                        assert(self.bindings@[i as int].binding.process_name@ == out@[k2]@);
                    }
                }
                assert forall|j: int|
                    #![trigger self.bindings@[j]]
                    0 <= j < i + 1 implies exists|k2: int|
                    0 <= k2 < out@.len() && (#[trigger] out@[k2])@
                        == self.bindings@[j].binding.process_name@ by {
                    if j < i {
                        let k2 = choose|k2: int|
                            0 <= k2 < step_pre.len() && (#[trigger] step_pre[k2])@
                                == self.bindings@[j].binding.process_name@;
                        assert(out@[k2]@ == self.bindings@[j].binding.process_name@);
                    } else if seen {
                        let q = choose|q: int|
                            0 <= q < step_pre.len() && (#[trigger] step_pre[q])@ == name@;
                        assert(out@[q]@ == self.bindings@[j].binding.process_name@);
                    } else {
                        assert(out@[out@.len() - 1]@
                            == self.bindings@[j].binding.process_name@);
                    }
                }
                assert(spec_distinct_names_upto(self.bindings@, out@, i + 1 as int));
            }
            i = i + 1;
        }
        out
    }

    /// Returns the count of bindings carrying Docker context.
    pub fn docker_container_count(&self) -> (r: usize)
        ensures
            r == spec_docker_count(self.bindings@),
    {
        let n = self.bindings.len();
        let mut count: usize = 0;
        let mut i: usize = 0;
        proof {
            assert(self.bindings@.take(0) =~= Seq::<EnrichedPortBinding>::empty());
        }
        while i < n
            invariant
                n == self.bindings@.len(),
                i <= n,
                count <= i,
                count == spec_docker_count(self.bindings@.take(i as int)),
            decreases n - i,
        {
            proof {
                let t = self.bindings@.take(i + 1 as int);
                assert(t.drop_last() =~= self.bindings@.take(i as int));
                assert(t.last() == self.bindings@[i as int]);
                lemma_docker_count_bound(self.bindings@.take(i as int));
            }
            if self.bindings[i].docker_info.is_some() {
                count = count + 1;
            }
            i = i + 1;
        }
        proof {
            assert(self.bindings@.take(n as int) =~= self.bindings@);
        }
        count
    }
}

/// Counts never exceed the number of bindings.
proof fn lemma_docker_count_bound(s: Seq<EnrichedPortBinding>)
    ensures
        0 <= spec_docker_count(s) <= s.len(),
    decreases s.len(),
{
    if s.len() > 0 {
        lemma_docker_count_bound(s.drop_last());
    }
}

/// Compares two service categories.
fn category_matches(a: &ServiceCategory, b: &ServiceCategory) -> (r: bool)
    ensures
        r == (a == b),
{
    match (a, b) {
        (ServiceCategory::Database, ServiceCategory::Database) => true,
        (ServiceCategory::Web, ServiceCategory::Web) => true,
        (ServiceCategory::Messaging, ServiceCategory::Messaging) => true,
        (ServiceCategory::Cache, ServiceCategory::Cache) => true,
        (ServiceCategory::Search, ServiceCategory::Search) => true,
        (ServiceCategory::Dev, ServiceCategory::Dev) => true,
        (ServiceCategory::Infra, ServiceCategory::Infra) => true,
        (ServiceCategory::Monitoring, ServiceCategory::Monitoring) => true,
        (ServiceCategory::Security, ServiceCategory::Security) => true,
        (ServiceCategory::Other, ServiceCategory::Other) => true,
        _ => false,
    }
}

/// Whether a sorted list holds a value.
fn contains_sorted_u32(v: &Vec<u32>, x: u32) -> (r: bool)
    ensures
        r == v@.contains(x),
{
    let n = v.len();
    let mut i: usize = 0;
    while i < n
        invariant
            n == v@.len(),
            i <= n,
            forall|j: int| 0 <= j < i ==> v@[j] != x,
        decreases n - i,
    {
        if v[i] == x {
            proof {
                assert(v@.contains(x));
            }
            return true;
        }
        i = i + 1;
    }
    proof {
        assert(!v@.contains(x)) by {
            if v@.contains(x) {
                let j = choose|j: int| 0 <= j < v@.len() && v@[j] == x;
            }
        }
    }
    false
}

/// Inserts a value into a sorted list of distinct values, keeping it sorted
/// and duplicate-free.
fn insert_sorted_u32(out: &mut Vec<u32>, x: u32)
    requires
        forall|i: int, j: int| 0 <= i < j < old(out)@.len() ==> old(out)@[i] < old(out)@[j],
        !old(out)@.contains(x),
    ensures
        forall|i: int, j: int| 0 <= i < j < final(out)@.len() ==> final(out)@[i] < final(out)@[j],
        forall|p: u32| #[trigger] final(out)@.contains(p) == (old(out)@.contains(p) || p == x),
        final(out)@.len() == old(out)@.len() + 1,
{
    let ghost pre = out@;
    let n = out.len();
    let mut k: usize = 0;
    while k < n && out[k] < x
        invariant
            n == out@.len(),
            out@ == pre,
            k <= n,
            forall|i: int| 0 <= i < k ==> pre[i] < x,
        decreases n - k,
    {
        k = k + 1;
    }
    proof {
        if k < n {
            assert(pre[k as int] >= x);
            assert(pre[k as int] != x) by {
                if pre[k as int] == x {
                    assert(pre.contains(x));
                }
            }
        }
    }
    out.insert(k, x);
    proof {
        assert forall|i: int, j: int| 0 <= i < j < out@.len() implies out@[i] < out@[j] by {
            if i == k {
                assert(out@[j] == pre[j - 1]);
                assert(pre[j - 1] >= x && pre[j - 1] != x) by {
                    if pre[j - 1] == x {
                        assert(pre.contains(x));
                    }
                }
            } else if j == k {
                assert(out@[i] == pre[i]);
            } else {
                let iv: int = if i < k {
                    i
                } else {
                    i - 1
                };
                let jv: int = if j < k {
                    j
                } else {
                    j - 1
                };
                assert(out@[i] == pre[iv]);
                assert(out@[j] == pre[jv]);
                if iv < jv {
                    assert(pre[iv] < pre[jv]);
                } else {
                    assert(iv == jv);
                    assert(i < k && j > k);
                    assert(pre[i] < x);
                    assert(pre[j - 1] >= x && pre[j - 1] != x) by {
                        if pre[j - 1] == x {
                            assert(pre.contains(x));
                        }
                    }
                }
            }
        }
        assert forall|p: u32|
            #[trigger] out@.contains(p) == (pre.contains(p) || p == x) by {
            if out@.contains(p) {
                let i = choose|i: int| 0 <= i < out@.len() && out@[i] == p;
                if i == k {
                } else if i < k {
                    assert(pre[i] == p);
                } else {
                    assert(pre[i - 1] == p);
                }
            }
            if pre.contains(p) {
                let i = choose|i: int| 0 <= i < pre.len() && pre[i] == p;
                if i < k {
                    assert(out@[i] == p);
                } else {
                    assert(out@[i + 1] == p);
                }
            }
            if p == x {
                assert(out@[k as int] == p);
            }
        }
    }
}

} // verus!
