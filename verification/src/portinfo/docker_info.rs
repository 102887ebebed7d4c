//! Docker container context attached to port bindings.

use vstd::prelude::*;

use crate::numfmt::spec_digits;
use crate::numfmt::u64_str;
use crate::strutil::{spec_contains, spec_lower, str_contains, to_ascii_lower};

verus! {

/// Represents a Docker port mapping.
#[derive(Debug)]
pub struct PortMapping {
    pub host_port: u16,
    pub container_port: u16,
    pub protocol: String,
    pub host_ip: String,
}

/// Whether two port mappings carry the same values.
pub open spec fn same_mapping(a: &PortMapping, b: &PortMapping) -> bool {
    a.host_port == b.host_port && a.container_port == b.container_port && a.protocol@ == b.protocol@
        && a.host_ip@ == b.host_ip@
}

impl Clone for PortMapping {
    /// A clone carries the same values.
    fn clone(&self) -> (r: Self)
        ensures
            same_mapping(&r, self),
    {
        PortMapping {
            host_port: self.host_port,
            container_port: self.container_port,
            protocol: self.protocol.clone(),
            host_ip: self.host_ip.clone(),
        }
    }
}

impl PortMapping {
    /// The display form: `hostIp:hostPort->containerPort/protocol`, with the
    /// host address dropped when it is empty or the wildcard.
    pub open spec fn spec_display(&self) -> Seq<char> {
        let host = if self.host_ip@.len() == 0 || self.host_ip@ == "0.0.0.0"@ {
            Seq::<char>::empty()
        } else {
            self.host_ip@ + ":"@
        };
        host + spec_digits(self.host_port as nat) + "->"@ + spec_digits(self.container_port as nat)
            + "/"@ + spec_lower(self.protocol@)
    }

    /// Returns the formatted mapping.
    pub fn to_display_string(&self) -> (r: String)
        ensures
            r@ == self.spec_display(),
    {
        proof {
            reveal_strlit(":");
            reveal_strlit("->");
            reveal_strlit("/");
        }
        let mut s = String::new();
        if self.host_ip.unicode_len() == 0 || crate::strutil::str_eq(
            self.host_ip.as_str(),
            "0.0.0.0",
        ) {
            proof {
                assert(s@ =~= Seq::<char>::empty());
            }
        } else {
            s.append(self.host_ip.as_str());
            s.append(":");
        }
        let hp = u64_str(self.host_port as u64);
        s.append(hp.as_str());
        s.append("->");
        let cp = u64_str(self.container_port as u64);
        s.append(cp.as_str());
        s.append("/");
        let proto = to_ascii_lower(self.protocol.as_str());
        s.append(proto.as_str());
        s
    }
}

/// Docker container information.
#[derive(Debug)]
pub struct DockerInfo {
    pub container_id: String,
    pub container_name: String,
    pub image: String,
    pub status: String,
    pub port_mappings: Vec<PortMapping>,
}

impl Clone for DockerInfo {
    /// A clone carries the same values, mapping for mapping.
    fn clone(&self) -> (r: Self)
        ensures
            r.container_id@ == self.container_id@,
            r.container_name@ == self.container_name@,
            r.image@ == self.image@,
            r.status@ == self.status@,
            r.port_mappings@.len() == self.port_mappings@.len(),
            forall|i: int|
                0 <= i < self.port_mappings@.len() ==> same_mapping(
                    &r.port_mappings@[i],
                    #[trigger] &self.port_mappings@[i],
                ),
    {
        let n = self.port_mappings.len();
        let mut port_mappings: Vec<PortMapping> = Vec::new();
        let mut i: usize = 0;
        while i < n
            invariant
                n == self.port_mappings@.len(),
                i <= n,
                port_mappings@.len() == i,
                forall|j: int|
                    0 <= j < i ==> same_mapping(
                        &port_mappings@[j],
                        #[trigger] &self.port_mappings@[j],
                    ),
            decreases n - i,
        {
            port_mappings.push(self.port_mappings[i].clone());
            i = i + 1;
        }
        DockerInfo {
            container_id: self.container_id.clone(),
            container_name: self.container_name.clone(),
            image: self.image.clone(),
            status: self.status.clone(),
            port_mappings,
        }
    }
}

impl DockerInfo {
    /// The short identifier: the first 12 characters of the container
    /// identifier, or the whole of a shorter one.
    pub open spec fn spec_short_id(&self) -> Seq<char> {
        if self.container_id@.len() <= 12 {
            self.container_id@
        } else {
            self.container_id@.take(12)
        }
    }

    /// Returns the short container identifier.
    pub fn short_id(&self) -> (r: &str)
        ensures
            r@ == self.spec_short_id(),
    {
        if self.container_id.as_str().unicode_len() <= 12 {
            self.container_id.as_str()
        } else {
            self.container_id.as_str().substring_char(0, 12)
        }
    }

    /// Whether the container is running: its status, lower-cased, holds
    /// `up`.
    pub fn is_running(&self) -> (r: bool)
        ensures
            r == spec_contains(spec_lower(self.status@), "up"@),
    {
        let low = to_ascii_lower(self.status.as_str());
        str_contains(low.as_str(), "up")
    }

    /// All port mappings joined with `, `; empty when there are none.
    pub open spec fn spec_mappings_formatted(pms: Seq<PortMapping>) -> Seq<char>
        decreases pms.len(),
    {
        if pms.len() == 0 {
            Seq::<char>::empty()
        } else if pms.len() == 1 {
            pms[0].spec_display()
        } else {
            Self::spec_mappings_formatted(pms.drop_last()) + ", "@ + pms.last().spec_display()
        }
    }

    /// Returns all port mappings as one formatted string.
    pub fn port_mappings_formatted(&self) -> (r: String)
        ensures
            r@ == Self::spec_mappings_formatted(self.port_mappings@),
    {
        proof {
            reveal_strlit(", ");
        }
        let n = self.port_mappings.len();
        let mut s = String::new();
        let mut i: usize = 0;
        proof {
            assert(self.port_mappings@.take(0) =~= Seq::<PortMapping>::empty());
            assert(s@ =~= Seq::<char>::empty());
        }
        while i < n
            invariant
                n == self.port_mappings@.len(),
                i <= n,
                s@ == Self::spec_mappings_formatted(self.port_mappings@.take(i as int)),
            decreases n - i,
        {
            if i > 0 {
                s.append(", ");
            }
            let d = self.port_mappings[i].to_display_string();
            s.append(d.as_str());
            proof {
                let t = self.port_mappings@.take(i + 1 as int);
                assert(t.drop_last() =~= self.port_mappings@.take(i as int));
                assert(t.last() == self.port_mappings@[i as int]);
            }
            i = i + 1;
        }
        proof {
            assert(self.port_mappings@.take(n as int) =~= self.port_mappings@);
        }
        s
    }

    /// Creates a `DockerInfo` with minimal data and no port mappings.
    pub fn simple(container_id: &str, container_name: &str, image: &str, status: &str) -> (r:
        DockerInfo)
        ensures
            r.container_id@ == container_id@,
            r.container_name@ == container_name@,
            r.image@ == image@,
            r.status@ == status@,
            r.port_mappings@.len() == 0,
    {
        DockerInfo {
            container_id: String::from_str(container_id),
            container_name: String::from_str(container_name),
            image: String::from_str(image),
            status: String::from_str(status),
            port_mappings: Vec::new(),
        }
    }
}

} // verus!
