//! JSON rendering of port diagnostics, built character by character with
//! verified escaping.

use vstd::prelude::*;

use crate::features::procwatch_cmd::escape_json;
use crate::numfmt::u64_str;
use crate::portinfo::enriched::EnrichedPortBinding;

verus! {

/// Formats output as JSON.
#[derive(Debug, Clone, Copy)]
pub struct JsonFormatter {
    pub pretty: bool,
}

impl JsonFormatter {
    /// Creates a new compact `JsonFormatter`.
    pub fn new() -> (r: JsonFormatter)
        ensures
            r.pretty == false,
    {
        JsonFormatter { pretty: false }
    }

    /// Creates a formatter with the given prettiness; the rendering below
    /// is compact either way, and an indenting shell may rewrap it.
    pub fn with_pretty(pretty: bool) -> (r: JsonFormatter)
        ensures
            r.pretty == pretty,
    {
        JsonFormatter { pretty }
    }

    /// Formats enriched bindings as a JSON array of objects with the
    /// binding fields; text fields are escaped.
    pub fn format(&self, bindings: &[EnrichedPortBinding]) -> (r: String)
        ensures
            r@.len() >= 2,
    {
        proof {
            reveal_strlit("[");
            reveal_strlit("]");
        }
        let mut sb = String::from_str("[");
        let n = bindings.len();
        let mut i: usize = 0;
        while i < n
            invariant
                n == bindings@.len(),
                i <= n,
                sb@.len() >= 1,
            decreases n - i,
        {
            if i > 0 {
                sb.append(",");
            }
            let obj = format_binding_object(&bindings[i]);
            sb.append(obj.as_str());
            i = i + 1;
        }
        sb.append("]");
        sb
    }
}

/// Renders one enriched binding as a JSON object.
fn format_binding_object(b: &EnrichedPortBinding) -> (r: String)
    ensures
        r@.len() >= 2,
{
    proof {
        reveal_strlit("{\"protocol\":\"");
        reveal_strlit("}");
    }
    let mut sb = String::from_str("{\"protocol\":\"");
    sb.append(b.binding.protocol.as_str());
    sb.append("\",\"port\":");
    let port = u64_str(b.binding.port as u64);
    sb.append(port.as_str());
    sb.append(",\"state\":\"");
    let state = escape_json(b.binding.state.as_str());
    sb.append(state.as_str());
    sb.append("\",\"pid\":");
    let pid = u64_str(b.binding.pid as u64);
    sb.append(pid.as_str());
    sb.append(",\"process_name\":\"");
    let name = escape_json(b.binding.process_name.as_str());
    sb.append(name.as_str());
    sb.append("\",\"local_address\":\"");
    let addr = escape_json(b.binding.local_address.as_str());
    sb.append(addr.as_str());
    sb.append("\"");
    match &b.service_info {
        Some(si) => {
            sb.append(",\"service\":\"");
            let sname = escape_json(si.name.as_str());
            sb.append(sname.as_str());
            sb.append("\"");
        },
        None => {},
    }
    sb.append("}");
    sb
}

} // verus!
