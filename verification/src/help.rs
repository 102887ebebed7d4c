//! Rendering of command help as plain lines, handed to whatever console
//! prints them.

use vstd::prelude::*;

use crate::command_meta::CommandInfo;

verus! {

/// Renders help information for commands.
#[derive(Debug, Clone, Copy)]
pub struct HelpRenderer;

impl HelpRenderer {
    /// Renders the one-line listing of each command: its name, description,
    /// and aliases, one line per command.
    pub fn render_all(commands: &Vec<CommandInfo>) -> (r: Vec<String>)
        ensures
            r@.len() == commands@.len(),
    {
        proof {
            reveal_strlit("  ");
            reveal_strlit(" (");
            reveal_strlit(", ");
            reveal_strlit(")");
        }
        let n = commands.len();
        let mut out: Vec<String> = Vec::new();
        let mut i: usize = 0;
        while i < n
            invariant
                n == commands@.len(),
                i <= n,
                out@.len() == i,
            decreases n - i,
        {
            let info = &commands[i];
            let mut line = info.name.clone();
            line.append("  ");
            line.append(info.description.as_str());
            let m = info.aliases.len();
            if m > 0 {
                line.append(" (");
                let mut j: usize = 0;
                while j < m
                    invariant
                        m == info.aliases@.len(),
                        j <= m,
                    decreases m - j,
                {
                    if j > 0 {
                        line.append(", ");
                    }
                    line.append(info.aliases[j].as_str());
                    j = j + 1;
                }
                line.append(")");
            }
            out.push(line);
            i = i + 1;
        }
        out
    }

    /// Renders detailed help for one command: its header, usage, long
    /// description, options and examples as plain lines.
    pub fn render_command(info: &CommandInfo) -> (r: Vec<String>)
        ensures
            r@.len() >= 1,
    {
        proof {
            reveal_strlit(" - ");
            reveal_strlit("Usage: ");
            reveal_strlit("Options:");
            reveal_strlit("  --");
            reveal_strlit(" <value>");
            reveal_strlit("  ");
            reveal_strlit("Examples:");
            reveal_strlit("  # ");
            reveal_strlit("-");
            reveal_strlit(", ");
        }
        let mut out: Vec<String> = Vec::new();
        let mut header = info.name.clone();
        header.append(" - ");
        header.append(info.description.as_str());
        out.push(header);
        if let Some(docs) = &info.documentation {
            if docs.usage.unicode_len() > 0 {
                let mut usage = String::from_str("Usage: ");
                usage.append(docs.usage.as_str());
                out.push(usage);
            }
            if docs.long_description.unicode_len() > 0 {
                out.push(docs.long_description.clone());
            }
            let m = docs.options.len();
            if m > 0 {
                out.push(String::from_str("Options:"));
                let mut j: usize = 0;
                while j < m
                    invariant
                        m == docs.options@.len(),
                        j <= m,
                        out@.len() >= 1,
                    decreases m - j,
                {
                    let opt = &docs.options[j];
                    let mut line = String::from_str("  --");
                    line.append(opt.name.as_str());
                    if opt.has_value {
                        line.append(" <value>");
                    }
                    line.append("  ");
                    line.append(opt.description.as_str());
                    out.push(line);
                    j = j + 1;
                }
            }
            let e = docs.examples.len();
            if e > 0 {
                out.push(String::from_str("Examples:"));
                let mut j: usize = 0;
                while j < e
                    invariant
                        e == docs.examples@.len(),
                        j <= e,
                        out@.len() >= 1,
                    decreases e - j,
                {
                    let ex = &docs.examples[j];
                    let mut line = String::from_str("  ");
                    line.append(ex.command.as_str());
                    line.append("  # ");
                    line.append(ex.description.as_str());
                    out.push(line);
                    j = j + 1;
                }
            }
        }
        out
    }
}

} // verus!
