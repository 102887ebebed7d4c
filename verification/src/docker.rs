//! Docker container integration: the pure parsing and matching around the
//! `docker` command-line tool, whose invocations live in the application
//! shell.

use vstd::prelude::*;

use crate::portinfo::binding::PortBinding;
use crate::portinfo::docker_info::{DockerInfo, PortMapping};
use crate::strutil::{
    matches_at,
    spec_contains,
    spec_lower,
    spec_matches_at,
    str_contains,
    str_trim,
    to_ascii_lower,
};

verus! {

/// Service for Docker container integration and port mapping detection.
#[derive(Debug, Clone, Copy)]
pub struct DockerService;

impl DockerService {
    /// Creates a new `DockerService`.
    pub fn new() -> (r: DockerService) {
        DockerService
    }

    /// Parses one line of the `docker port` output, such as
    /// `80/tcp -> 0.0.0.0:8080` or `80/tcp -> [::]:8080`: the container
    /// port and protocol before the arrow, the host address and port after
    /// it, with brackets dropped; anything else gives nothing.
    pub fn parse_port_line(line: &str) -> (r: Option<PortMapping>)
        ensures
            r is Some ==> spec_contains(line@, "->"@),
    {
        proof {
            reveal_strlit("->");
        }
        let arrow = match find_str(line, "->") {
            Some(a) => a,
            None => {
                return None;
            },
        };
        let n = line.unicode_len();
        // A second arrow makes the line malformed.
        if contains_from(line, "->", arrow + 2) {
            return None;
        }
        let container_part = str_trim(line.substring_char(0, arrow));
        let host_part = str_trim(line.substring_char(arrow + 2, n));
        // Container side: port/protocol.
        let cp = container_part.as_str();
        let cplen = cp.unicode_len();
        let slash = match find_char(cp, '/') {
            Some(s) => s,
            None => {
                return None;
            },
        };
        if contains_char_from(cp, '/', slash + 1) {
            return None;
        }
        let container_port = match parse_u16(cp.substring_char(0, slash)) {
            Some(p) => p,
            None => {
                return None;
            },
        };
        let protocol = String::from_str(cp.substring_char(slash + 1, cplen));
        // Host side: drop brackets, split at the last colon.
        let clean = strip_brackets(host_part.as_str());
        let cl = clean.as_str();
        let cllen = cl.unicode_len();
        let last_colon = match rfind_char(cl, ':') {
            Some(c) => c,
            None => {
                return None;
            },
        };
        let host_ip = String::from_str(cl.substring_char(0, last_colon));
        let host_port = match parse_u16(cl.substring_char(last_colon + 1, cllen)) {
            Some(p) => p,
            None => {
                return None;
            },
        };
        Some(PortMapping { host_port, container_port, protocol, host_ip })
    }

    /// Whether a process name suggests a container runtime: it holds
    /// `docker` or `containerd`, lower-cased.
    pub fn name_suggests_docker(binding: &PortBinding) -> (r: bool)
        ensures
            r == (spec_contains(spec_lower(binding.process_name@), "docker"@) || spec_contains(
                spec_lower(binding.process_name@),
                "containerd"@,
            )),
    {
        let low = to_ascii_lower(binding.process_name.as_str());
        str_contains(low.as_str(), "docker") || str_contains(low.as_str(), "containerd")
    }

    /// Finds which of the given containers publishes a host port: the first
    /// holding a mapping with that host port.
    pub fn find_container_by_host_port(containers: Vec<DockerInfo>, port: u16) -> (r: Option<
        DockerInfo,
    >)
        ensures
            r matches Some(c) ==> spec_publishes(&c, port),
    {
        let n = containers.len();
        let mut idx: usize = 0;
        let mut found: Option<usize> = None;
        while idx < n
            invariant
                n == containers@.len(),
                idx <= n,
                found matches Some(f) ==> f < n && spec_publishes(&containers@[f as int], port),
            decreases n - idx,
        {
            if found.is_none() && has_host_port(&containers[idx], port) {
                found = Some(idx);
            }
            idx = idx + 1;
        }
        match found {
            Some(f) => {
                let ghost pre = containers@;
                let mut containers = containers;
                let c = containers.remove(f);
                proof {
                    assert(c == pre[f as int]);
                    assert(spec_publishes(&c, port));
                }
                Some(c)
            },
            None => None,
        }
    }
}

/// Whether a container publishes a host port: some mapping carries it.
pub open spec fn spec_publishes(c: &DockerInfo, port: u16) -> bool {
    exists|j: int|
        0 <= j < c.port_mappings@.len() && (#[trigger] c.port_mappings@[j]).host_port == port
}

/// Whether a container publishes a host port.
fn has_host_port(c: &DockerInfo, port: u16) -> (r: bool)
    ensures
        r == spec_publishes(c, port),
{
    let m = c.port_mappings.len();
    let mut j: usize = 0;
    while j < m
        invariant
            m == c.port_mappings@.len(),
            j <= m,
            forall|k: int| 0 <= k < j ==> (#[trigger] c.port_mappings@[k]).host_port != port,
        decreases m - j,
    {
        if c.port_mappings[j].host_port == port {
            return true;
        }
        j = j + 1;
    }
    false
}

/// The first occurrence of a needle in a string.
fn find_str(hay: &str, needle: &str) -> (r: Option<usize>)
    ensures
        r matches Some(i) ==> spec_matches_at(hay@, needle@, i as int),
        r is Some ==> spec_contains(hay@, needle@),
{
    let nh = hay.unicode_len();
    let nn = needle.unicode_len();
    if nn > nh {
        return None;
    }
    if nn == 0 {
        proof {
            assert(hay@.subrange(0, 0) =~= needle@);
            assert(spec_matches_at(hay@, needle@, 0));
        }
        return Some(0);
    }
    let limit = nh - nn;
    let mut i: usize = 0;
    while i <= limit
        invariant
            nh == hay@.len(),
            nn == needle@.len(),
            1 <= nn <= nh,
            limit == nh - nn,
            i <= limit + 1,
        decreases limit + 1 - i,
    {
        if matches_at(hay, needle, i) {
            return Some(i);
        }
        i = i + 1;
    }
    None
}

/// Whether a needle occurs at or after a position.
fn contains_from(hay: &str, needle: &str, from: usize) -> (r: bool) {
    let nh = hay.unicode_len();
    let nn = needle.unicode_len();
    if from > nh || nn > nh - from {
        return false;
    }
    if nn == 0 {
        return true;
    }
    let limit = nh - nn;
    let mut i: usize = from;
    while i <= limit
        invariant
            nh == hay@.len(),
            nn == needle@.len(),
            1 <= nn,
            from <= i <= limit + 1,
            limit == nh - nn,
        decreases limit + 1 - i,
    {
        if matches_at(hay, needle, i) {
            return true;
        }
        i = i + 1;
    }
    false
}

/// The first occurrence of a character.
fn find_char(s: &str, c: char) -> (r: Option<usize>)
    ensures
        r matches Some(i) ==> i < s@.len() && s@[i as int] == c,
{
    let n = s.unicode_len();
    let mut i: usize = 0;
    while i < n
        invariant
            n == s@.len(),
            i <= n,
        decreases n - i,
    {
        if s.get_char(i) == c {
            return Some(i);
        }
        i = i + 1;
    }
    None
}

/// Whether a character occurs at or after a position.
fn contains_char_from(s: &str, c: char, from: usize) -> (r: bool) {
    let n = s.unicode_len();
    let mut i: usize = from;
    if from > n {
        return false;
    }
    while i < n
        invariant
            n == s@.len(),
            i <= n,
        decreases n - i,
    {
        if s.get_char(i) == c {
            return true;
        }
        i = i + 1;
    }
    false
}

/// The last occurrence of a character.
fn rfind_char(s: &str, c: char) -> (r: Option<usize>)
    ensures
        r matches Some(i) ==> i < s@.len() && s@[i as int] == c,
{
    let n = s.unicode_len();
    let mut i: usize = n;
    while i > 0
        invariant
            n == s@.len(),
            i <= n,
        decreases i,
    {
        if s.get_char(i - 1) == c {
            return Some(i - 1);
        }
        i = i - 1;
    }
    None
}

/// A string with every square bracket removed.
fn strip_brackets(s: &str) -> (r: String) {
    let n = s.unicode_len();
    let mut out = String::new();
    let mut i: usize = 0;
    while i < n
        invariant
            n == s@.len(),
            i <= n,
        decreases n - i,
    {
        let c = s.get_char(i);
        if c != '[' && c != ']' {
            out.push(c);
        }
        i = i + 1;
    }
    out
}

/// A decimal port number: digits with an optional plus sign, within 16
/// bits.
fn parse_u16(s: &str) -> (r: Option<u16>) {
    match crate::command_parser::parse_i32(s) {
        Some(v) => {
            if 0 <= v && v <= 65535 {
                Some(v as u16)
            } else {
                None
            }
        },
        None => None,
    }
}

} // verus!
