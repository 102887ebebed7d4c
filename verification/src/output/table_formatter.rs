//! Table rendering helpers for port diagnostics. The full table layout is
//! drawn by the application shell; the certificate-name extraction it needs
//! is here.

use vstd::prelude::*;

use crate::strutil::{matches_at_ci, spec_lower, spec_matches_at, str_trim, spec_trim};

verus! {

/// Formats output as an aligned text table.
#[derive(Debug, Clone, Copy)]
pub struct TableFormatter {
    pub use_color: bool,
}

impl TableFormatter {
    /// Creates a new `TableFormatter`.
    pub fn new(use_color: bool) -> (r: TableFormatter)
        ensures
            r.use_color == use_color,
    {
        TableFormatter { use_color }
    }

    /// Extracts the common name from a certificate distinguished name: the
    /// text after `CN=` in the first comma-separated part carrying it,
    /// compared ignoring case; without one, a long name is cut at 47
    /// characters, a short one kept whole.
    pub fn extract_cn(dn: &str) -> (r: String)
        ensures
            dn@.len() == 0 ==> r@.len() == 0,
    {
        let n = dn.unicode_len();
        if n == 0 {
            return String::new();
        }
        // Scan the comma-separated parts for one starting with CN=.
        let mut start: usize = 0;
        let mut i: usize = 0;
        while i < n
            invariant
                n == dn@.len(),
                start <= i <= n,
            decreases n - i,
        {
            if dn.get_char(i) == ',' {
                let part = dn.substring_char(start, i);
                match cn_of_part(part) {
                    Some(cn) => {
                        return cn;
                    },
                    None => {},
                }
                start = i + 1;
            }
            i = i + 1;
        }
        let last_part = dn.substring_char(start, n);
        match cn_of_part(last_part) {
            Some(cn) => {
                return cn;
            },
            None => {},
        }
        if n > 50 {
            String::from_str(dn.substring_char(0, 47))
        } else {
            String::from_str(dn)
        }
    }
}

/// The common name of one distinguished-name part: the text after its
/// leading `CN=`, compared ignoring case, or nothing.
fn cn_of_part(part: &str) -> (r: Option<String>)
    ensures
        r matches Some(cn) ==> cn@.len() + 3 == spec_trim(part@).len(),
{
    let trimmed = str_trim(part);
    let tlen = trimmed.as_str().unicode_len();
    if tlen >= 3 && matches_at_ci(trimmed.as_str(), "cn=", 0) {
        proof {
            reveal_strlit("cn=");
        }
        Some(String::from_str(trimmed.as_str().substring_char(3, tlen)))
    } else {
        None
    }
}

} // verus!
