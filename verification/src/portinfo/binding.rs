//! Port bindings: protocol, connection state, and the bound process.

use vstd::prelude::*;

use crate::numfmt::{spec_digits, u64_str};
use crate::strutil::{spec_upper, str_eq, str_eq_ignore_case, to_ascii_upper, spec_lower};

verus! {

/// Protocol type for port bindings.
#[derive(Debug, Clone, Copy, PartialEq, Eq, Structural)]
pub enum Protocol {
    Tcp,
    Udp,
}

impl Protocol {
    /// The canonical protocol name.
    pub open spec fn spec_str(&self) -> Seq<char> {
        match self {
            Protocol::Tcp => "TCP"@,
            Protocol::Udp => "UDP"@,
        }
    }

    pub fn as_str(&self) -> (r: &'static str)
        ensures
            r@ == self.spec_str(),
    {
        match self {
            Protocol::Tcp => "TCP",
            Protocol::Udp => "UDP",
        }
    }

    /// Resolves a protocol name loosely: `udp` in any case gives UDP,
    /// everything else TCP.
    pub fn from_str_loose(s: &str) -> (r: Protocol)
        ensures
            r == if spec_lower(s@) == spec_lower("udp"@) {
                Protocol::Udp
            } else {
                Protocol::Tcp
            },
    {
        if str_eq_ignore_case(s, "udp") {
            Protocol::Udp
        } else {
            Protocol::Tcp
        }
    }
}

/// Connection state for a port binding; states outside the known table are
/// carried verbatim, upper-cased.
#[derive(Debug, PartialEq, Eq)]
pub enum ConnectionState {
    Listen,
    Established,
    TimeWait,
    CloseWait,
    FinWait1,
    FinWait2,
    SynSent,
    SynRecv,
    LastAck,
    Closing,
    Other(String),
}

impl ConnectionState {
    /// The display name of the state.
    pub open spec fn spec_str(&self) -> Seq<char> {
        match self {
            ConnectionState::Listen => "LISTEN"@,
            ConnectionState::Established => "ESTABLISHED"@,
            ConnectionState::TimeWait => "TIME_WAIT"@,
            ConnectionState::CloseWait => "CLOSE_WAIT"@,
            ConnectionState::FinWait1 => "FIN_WAIT_1"@,
            ConnectionState::FinWait2 => "FIN_WAIT_2"@,
            ConnectionState::SynSent => "SYN_SENT"@,
            ConnectionState::SynRecv => "SYN_RECV"@,
            ConnectionState::LastAck => "LAST_ACK"@,
            ConnectionState::Closing => "CLOSING"@,
            ConnectionState::Other(s) => s@,
        }
    }

    pub fn as_str(&self) -> (r: &str)
        ensures
            r@ == self.spec_str(),
    {
        match self {
            ConnectionState::Listen => "LISTEN",
            ConnectionState::Established => "ESTABLISHED",
            ConnectionState::TimeWait => "TIME_WAIT",
            ConnectionState::CloseWait => "CLOSE_WAIT",
            ConnectionState::FinWait1 => "FIN_WAIT_1",
            ConnectionState::FinWait2 => "FIN_WAIT_2",
            ConnectionState::SynSent => "SYN_SENT",
            ConnectionState::SynRecv => "SYN_RECV",
            ConnectionState::LastAck => "LAST_ACK",
            ConnectionState::Closing => "CLOSING",
            ConnectionState::Other(s) => s.as_str(),
        }
    }

    /// The state an upper-cased token resolves to; unknown tokens are kept
    /// verbatim.
    pub open spec fn spec_of_word(w: Seq<char>) -> ConnectionState {
        if w == "LISTEN"@ || w == "LISTENING"@ {
            ConnectionState::Listen
        } else if w == "ESTABLISHED"@ || w == "ESTAB"@ {
            ConnectionState::Established
        } else if w == "TIME_WAIT"@ || w == "TIME-WAIT"@ {
            ConnectionState::TimeWait
        } else if w == "CLOSE_WAIT"@ || w == "CLOSE-WAIT"@ {
            ConnectionState::CloseWait
        } else if w == "FIN_WAIT_1"@ || w == "FIN-WAIT-1"@ || w == "FIN_WAIT1"@ {
            ConnectionState::FinWait1
        } else if w == "FIN_WAIT_2"@ || w == "FIN-WAIT-2"@ || w == "FIN_WAIT2"@ {
            ConnectionState::FinWait2
        } else if w == "SYN_SENT"@ || w == "SYN-SENT"@ {
            ConnectionState::SynSent
        } else if w == "SYN_RECV"@ || w == "SYN-RECV"@ || w == "SYN_RECEIVED"@ {
            ConnectionState::SynRecv
        } else if w == "LAST_ACK"@ || w == "LAST-ACK"@ {
            ConnectionState::LastAck
        } else if w == "CLOSING"@ {
            ConnectionState::Closing
        } else {
            ConnectionState::Other(arbitrary())
        }
    }

    /// Whether an upper-cased token is in the known-state table.
    pub open spec fn spec_known_word(w: Seq<char>) -> bool {
        !(ConnectionState::spec_of_word(w) is Other)
    }

    /// Resolves a state token, case-insensitively; an unknown token gives
    /// `Other` holding the upper-cased token.
    pub fn from_str_loose(s: &str) -> (r: ConnectionState)
        ensures
            ConnectionState::spec_known_word(spec_upper(s@)) ==> r == ConnectionState::spec_of_word(
                spec_upper(s@),
            ),
            !ConnectionState::spec_known_word(spec_upper(s@)) ==> (r matches ConnectionState::Other(
                o,
            ) && o@ == spec_upper(s@)),
    {
        let up = to_ascii_upper(s);
        let w = up.as_str();
        if str_eq(w, "LISTEN") || str_eq(w, "LISTENING") {
            ConnectionState::Listen
        } else if str_eq(w, "ESTABLISHED") || str_eq(w, "ESTAB") {
            ConnectionState::Established
        } else if str_eq(w, "TIME_WAIT") || str_eq(w, "TIME-WAIT") {
            ConnectionState::TimeWait
        } else if str_eq(w, "CLOSE_WAIT") || str_eq(w, "CLOSE-WAIT") {
            ConnectionState::CloseWait
        } else if str_eq(w, "FIN_WAIT_1") || str_eq(w, "FIN-WAIT-1") || str_eq(w, "FIN_WAIT1") {
            ConnectionState::FinWait1
        } else if str_eq(w, "FIN_WAIT_2") || str_eq(w, "FIN-WAIT-2") || str_eq(w, "FIN_WAIT2") {
            ConnectionState::FinWait2
        } else if str_eq(w, "SYN_SENT") || str_eq(w, "SYN-SENT") {
            ConnectionState::SynSent
        } else if str_eq(w, "SYN_RECV") || str_eq(w, "SYN-RECV") || str_eq(w, "SYN_RECEIVED") {
            ConnectionState::SynRecv
        } else if str_eq(w, "LAST_ACK") || str_eq(w, "LAST-ACK") {
            ConnectionState::LastAck
        } else if str_eq(w, "CLOSING") {
            ConnectionState::Closing
        } else {
            ConnectionState::Other(up)
        }
    }
}

/// Whether two connection states are the same, comparing the carried text
/// of unknown states.
pub open spec fn same_state(a: &ConnectionState, b: &ConnectionState) -> bool {
    match (a, b) {
        (ConnectionState::Other(x), ConnectionState::Other(y)) => x@ == y@,
        _ => a == b,
    }
}

impl Clone for ConnectionState {
    /// A clone is the same state.
    fn clone(&self) -> (r: Self)
        ensures
            same_state(&r, self),
    {
        match self {
            ConnectionState::Listen => ConnectionState::Listen,
            ConnectionState::Established => ConnectionState::Established,
            ConnectionState::TimeWait => ConnectionState::TimeWait,
            ConnectionState::CloseWait => ConnectionState::CloseWait,
            ConnectionState::FinWait1 => ConnectionState::FinWait1,
            ConnectionState::FinWait2 => ConnectionState::FinWait2,
            ConnectionState::SynSent => ConnectionState::SynSent,
            ConnectionState::SynRecv => ConnectionState::SynRecv,
            ConnectionState::LastAck => ConnectionState::LastAck,
            ConnectionState::Closing => ConnectionState::Closing,
            ConnectionState::Other(s) => ConnectionState::Other(s.clone()),
        }
    }
}

/// Represents a port binding with process information.
#[derive(Debug)]
pub struct PortBinding {
    pub port: u16,
    pub protocol: Protocol,
    pub state: ConnectionState,
    pub pid: u32,
    pub process_name: String,
    pub command_line: String,
    pub user: String,
    pub local_address: String,
    pub remote_address: String,
    pub remote_port: u16,
}

/// Whether two bindings carry the same values in every field.
pub open spec fn same_binding(a: &PortBinding, b: &PortBinding) -> bool {
    &&& a.port == b.port
    &&& a.protocol == b.protocol
    &&& same_state(&a.state, &b.state)
    &&& a.pid == b.pid
    &&& a.process_name@ == b.process_name@
    &&& a.command_line@ == b.command_line@
    &&& a.user@ == b.user@
    &&& a.local_address@ == b.local_address@
    &&& a.remote_address@ == b.remote_address@
    &&& a.remote_port == b.remote_port
}

impl Clone for PortBinding {
    /// A clone carries the same values in every field.
    fn clone(&self) -> (r: Self)
        ensures
            same_binding(&r, self),
    {
        PortBinding {
            port: self.port,
            protocol: self.protocol,
            state: self.state.clone(),
            pid: self.pid,
            process_name: self.process_name.clone(),
            command_line: self.command_line.clone(),
            user: self.user.clone(),
            local_address: self.local_address.clone(),
            remote_address: self.remote_address.clone(),
            remote_port: self.remote_port,
        }
    }
}

impl PortBinding {
    /// Creates a minimal binding for LISTEN ports, bound on every address.
    pub fn listen(port: u16, protocol: Protocol, pid: u32, process_name: &str) -> (r: PortBinding)
        ensures
            r.port == port,
            r.protocol == protocol,
            r.state == ConnectionState::Listen,
            r.pid == pid,
            r.process_name@ == process_name@,
            r.command_line@ == Seq::<char>::empty(),
            r.user@ == Seq::<char>::empty(),
            r.local_address@ == "0.0.0.0"@,
            r.remote_address@ == Seq::<char>::empty(),
            r.remote_port == 0,
    {
        PortBinding {
            port,
            protocol,
            state: ConnectionState::Listen,
            pid,
            process_name: String::from_str(process_name),
            command_line: String::new(),
            user: String::new(),
            local_address: String::from_str("0.0.0.0"),
            remote_address: String::new(),
            remote_port: 0,
        }
    }

    /// The full text form of a binding: protocol, address and port, state,
    /// process, then the optional command line, user, and remote endpoint.
    pub open spec fn spec_to_text(&self) -> Seq<char> {
        let head = self.protocol.spec_str() + " "@ + self.local_address@ + ":"@ + spec_digits(
            self.port as nat,
        ) + " "@ + self.state.spec_str() + " pid="@ + spec_digits(self.pid as nat) + " "@
            + self.process_name@;
        let with_cmd = if self.command_line@.len() > 0 {
            head + " cmd=\""@ + crate::config::spec_truncate_to(self.command_line@, 256) + "\""@
        } else {
            head
        };
        let with_user = if self.user@.len() > 0 {
            with_cmd + " user="@ + self.user@
        } else {
            with_cmd
        };
        if self.remote_address@.len() > 0 && self.remote_port > 0 {
            with_user + " -> "@ + self.remote_address@ + ":"@ + spec_digits(self.remote_port as nat)
        } else {
            with_user
        }
    }

    /// Returns a formatted text representation.
    pub fn to_text(&self) -> (r: String)
        ensures
            r@ == self.spec_to_text(),
    {
        proof {
            reveal_strlit(" ");
            reveal_strlit(":");
            reveal_strlit(" pid=");
            reveal_strlit(" cmd=\"");
            reveal_strlit("\"");
            reveal_strlit(" user=");
            reveal_strlit(" -> ");
        }
        let mut sb = String::from_str(self.protocol.as_str());
        sb.append(" ");
        sb.append(self.local_address.as_str());
        sb.append(":");
        let port = u64_str(self.port as u64);
        sb.append(port.as_str());
        sb.append(" ");
        sb.append(self.state.as_str());
        sb.append(" pid=");
        let pid = u64_str(self.pid as u64);
        sb.append(pid.as_str());
        sb.append(" ");
        sb.append(self.process_name.as_str());
        if self.command_line.unicode_len() > 0 {
            let cmd = crate::config::HefestoConfig::truncate_to(self.command_line.as_str(), 256);
            sb.append(" cmd=\"");
            sb.append(cmd.as_str());
            sb.append("\"");
        }
        if self.user.unicode_len() > 0 {
            sb.append(" user=");
            sb.append(self.user.as_str());
        }
        if self.remote_address.unicode_len() > 0 && self.remote_port > 0 {
            sb.append(" -> ");
            sb.append(self.remote_address.as_str());
            sb.append(":");
            let rp = u64_str(self.remote_port as u64);
            sb.append(rp.as_str());
        }
        sb
    }

    /// The compact one-line form: `TCP :8080 LISTEN java (pid 1234)`.
    pub open spec fn spec_to_compact(&self) -> Seq<char> {
        self.protocol.spec_str() + " :"@ + spec_digits(self.port as nat) + " "@
            + self.state.spec_str() + " "@ + self.process_name@ + " (pid "@ + spec_digits(
            self.pid as nat,
        ) + ")"@
    }

    /// Returns a compact one-line representation.
    pub fn to_compact(&self) -> (r: String)
        ensures
            r@ == self.spec_to_compact(),
    {
        proof {
            reveal_strlit(" :");
            reveal_strlit(" ");
            reveal_strlit(" (pid ");
            reveal_strlit(")");
        }
        let mut sb = String::from_str(self.protocol.as_str());
        sb.append(" :");
        let port = u64_str(self.port as u64);
        sb.append(port.as_str());
        sb.append(" ");
        sb.append(self.state.as_str());
        sb.append(" ");
        sb.append(self.process_name.as_str());
        sb.append(" (pid ");
        let pid = u64_str(self.pid as u64);
        sb.append(pid.as_str());
        sb.append(")");
        sb
    }
}

} // verus!
