//! CSV rendering of port diagnostics, quoted per the common CSV rules:
//! fields holding a delimiter, newline, or double quote are wrapped in
//! double quotes with inner quotes doubled.

use vstd::prelude::*;

use crate::portinfo::enriched::EnrichedPortBinding;
use crate::strutil::{spec_contains, str_contains};

verus! {

/// Formats output as CSV.
#[derive(Debug, Clone, Copy)]
pub struct CsvFormatter;

/// One character of a quoted CSV field: a double quote doubles itself.
pub open spec fn spec_csv_quote_char(c: char) -> Seq<char> {
    if c == '"' {
        seq!['"', '"']
    } else {
        seq![c]
    }
}

/// A text with its double quotes doubled.
pub open spec fn spec_csv_double_quotes(s: Seq<char>) -> Seq<char>
    decreases s.len(),
{
    if s.len() == 0 {
        Seq::<char>::empty()
    } else {
        spec_csv_double_quotes(s.drop_last()) + spec_csv_quote_char(s.last())
    }
}

/// Whether a CSV field needs quoting: it holds the delimiter, a newline, or
/// a double quote.
pub open spec fn spec_csv_needs_quoting(s: Seq<char>) -> bool {
    spec_contains(s, ","@) || spec_contains(s, "\n"@) || spec_contains(s, "\""@)
}

/// A CSV field escaped: quoted with doubled inner quotes when it needs
/// quoting, else verbatim.
pub open spec fn spec_escape_csv(s: Seq<char>) -> Seq<char> {
    if spec_csv_needs_quoting(s) {
        seq!['"'] + spec_csv_double_quotes(s) + seq!['"']
    } else {
        s
    }
}

/// Escapes a CSV field value.
pub fn escape_csv(value: &str) -> (r: String)
    ensures
        r@ == spec_escape_csv(value@),
{
    if str_contains(value, ",") || str_contains(value, "\n") || str_contains(value, "\"") {
        let mut out = String::new();
        out.push('"');
        let n = value.unicode_len();
        let mut i: usize = 0;
        proof {
            assert(value@.take(0) =~= Seq::<char>::empty());
            assert(out@ =~= seq!['"'] + spec_csv_double_quotes(value@.take(0)));
        }
        while i < n
            invariant
                n == value@.len(),
                i <= n,
                out@ == seq!['"'] + spec_csv_double_quotes(value@.take(i as int)),
            decreases n - i,
        {
            let c = value.get_char(i);
            proof {
                let t = value@.take(i + 1 as int);
                assert(t.drop_last() =~= value@.take(i as int));
                assert(t.last() == value@[i as int]);
            }
            if c == '"' {
                out.push('"');
                out.push('"');
            } else {
                out.push(c);
            }
            proof {
                assert(out@ =~= seq!['"'] + (spec_csv_double_quotes(value@.take(i as int))
                    + spec_csv_quote_char(value@[i as int])));
            }
            i = i + 1;
        }
        out.push('"');
        proof {
            assert(value@.take(n as int) =~= value@);
            assert(out@ =~= seq!['"'] + spec_csv_double_quotes(value@) + seq!['"']);
        }
        out
    } else {
        String::from_str(value)
    }
}

/// A CSV row: the escaped fields joined with commas, ended by a newline.
pub open spec fn spec_csv_row(values: Seq<Seq<char>>) -> Seq<char>
    decreases values.len(),
{
    if values.len() == 0 {
        "\n"@
    } else if values.len() == 1 {
        spec_escape_csv(values[0]) + "\n"@
    } else {
        spec_csv_row(values.drop_last()).drop_last() + ","@ + spec_escape_csv(values.last())
            + "\n"@
    }
}

/// Builds a CSV row from field values.
pub fn csv_row(values: &Vec<String>) -> (r: String)
    ensures
        r@ == spec_csv_row(values@.map_values(|s: String| s@)),
        r@.len() > 0,
{
    proof {
        reveal_strlit(",");
        reveal_strlit("\n");
    }
    let n = values.len();
    let mut out = String::new();
    let mut i: usize = 0;
    proof {
        assert(values@.take(0).map_values(|s: String| s@) =~= Seq::<Seq<char>>::empty());
    }
    while i < n
        invariant
            n == values@.len(),
            i <= n,
            i == 0 ==> out@ == Seq::<char>::empty(),
            i > 0 ==> out@ == spec_csv_row(
                values@.take(i as int).map_values(|s: String| s@),
            ).drop_last(),
        decreases n - i,
    {
        if i > 0 {
            out.append(",");
        }
        let esc = escape_csv(values[i].as_str());
        out.append(esc.as_str());
        proof {
            reveal_strlit(",");
            reveal_strlit("\n");
            let t = values@.take(i + 1 as int).map_values(|s: String| s@);
            assert(t.drop_last() =~= values@.take(i as int).map_values(|s: String| s@));
            assert(t.last() == values@[i as int]@);
            if i == 0 {
                assert(t.len() == 1);
                assert(t[0] == t.last());
                assert(spec_csv_row(t) == spec_escape_csv(t[0]) + "\n"@);
                assert((spec_escape_csv(t[0]) + "\n"@).drop_last() =~= spec_escape_csv(t[0]));
                assert(out@ =~= spec_escape_csv(t[0]));
            } else {
                assert(t.len() >= 2);
                let x = spec_csv_row(t.drop_last()).drop_last();
                assert(spec_csv_row(t.drop_last()) == spec_csv_row(
                    values@.take(i as int).map_values(|s: String| s@),
                ));
                assert(spec_csv_row(t) == x + ","@ + spec_escape_csv(t.last()) + "\n"@);
                assert((x + ","@ + spec_escape_csv(t.last()) + "\n"@).drop_last() =~= x + ","@
                    + spec_escape_csv(t.last()));
                assert(out@ =~= x + ","@ + spec_escape_csv(t.last()));
            }
            assert(spec_csv_row(t).drop_last() =~= out@);
        }
        i = i + 1;
    }
    out.append("\n");
    proof {
        assert(values@.take(n as int) =~= values@);
        if n == 0 {
            assert(out@ =~= "\n"@);
        } else {
            let t = values@.map_values(|s: String| s@);
            assert(out@ =~= spec_csv_row(t).drop_last().push('\n'));
            assert(spec_csv_row(t).last() == '\n');
            assert(spec_csv_row(t).drop_last().push('\n') =~= spec_csv_row(t));
        }
    }
    out
}

impl CsvFormatter {
    /// Creates a new `CsvFormatter`.
    pub fn new() -> (r: CsvFormatter) {
        CsvFormatter
    }

    /// Formats enriched bindings as CSV: the fixed header row, then one row
    /// per binding.
    pub fn format(&self, bindings: &[EnrichedPortBinding]) -> (r: String)
        ensures
            r@.len() > 0,
    {
        let mut header: Vec<String> = Vec::new();
        header.push(String::from_str("protocol"));
        header.push(String::from_str("port"));
        header.push(String::from_str("state"));
        header.push(String::from_str("local_address"));
        header.push(String::from_str("remote_address"));
        header.push(String::from_str("remote_port"));
        header.push(String::from_str("pid"));
        header.push(String::from_str("process_name"));
        header.push(String::from_str("user"));
        header.push(String::from_str("service"));
        header.push(String::from_str("category"));
        let mut sb = csv_row(&header);
        proof {
            assert(sb@.len() > 0);
        }
        let n = bindings.len();
        let mut i: usize = 0;
        while i < n
            invariant
                n == bindings@.len(),
                i <= n,
                sb@.len() > 0,
            decreases n - i,
        {
            let b = &bindings[i];
            let mut fields: Vec<String> = Vec::new();
            fields.push(String::from_str(b.binding.protocol.as_str()));
            fields.push(crate::numfmt::u64_str(b.binding.port as u64));
            fields.push(String::from_str(b.binding.state.as_str()));
            fields.push(b.binding.local_address.clone());
            fields.push(b.binding.remote_address.clone());
            fields.push(crate::numfmt::u64_str(b.binding.remote_port as u64));
            fields.push(crate::numfmt::u64_str(b.binding.pid as u64));
            fields.push(b.binding.process_name.clone());
            fields.push(b.binding.user.clone());
            match &b.service_info {
                Some(si) => {
                    fields.push(si.name.clone());
                    fields.push(String::from_str(si.category.display_name()));
                },
                None => {
                    fields.push(String::new());
                    fields.push(String::new());
                },
            }
            let row = csv_row(&fields);
            sb.append(row.as_str());
            i = i + 1;
        }
        sb
    }
}

} // verus!
