//! The echo command: displays text with optional transformations.

use vstd::prelude::*;

use crate::command_meta::{CommandInfo, CommandResult, Documentation, ExampleDoc, OptionDoc};
use crate::command_parser::{parse, pairs_view, spec_lookup, ParsedArgs};
use crate::strutil::{spec_lower, spec_upper, to_ascii_lower, to_ascii_upper};

verus! {

/// Echo command - displays text with optional transformations.
#[derive(Debug)]
pub struct EchoCommand {
    pub info: CommandInfo,
}

/// Recovery of a boolean flag: taking the long name first, then the short
/// one, the flag is present when either has an entry; where the parser
/// consumed the following token as its value, that token is handed back to
/// be kept as text.
pub open spec fn spec_recover_flag(
    flags: Seq<(Seq<char>, Seq<char>)>,
    long: Seq<char>,
    short: Seq<char>,
) -> (bool, Option<Seq<char>>) {
    match spec_lookup(flags, long) {
        Some(v) => if v == "true"@ {
            (true, None)
        } else {
            (true, Some(v))
        },
        None => match spec_lookup(flags, short) {
            Some(v) => if v == "true"@ {
                (true, None)
            } else {
                (true, Some(v))
            },
            None => (false, None),
        },
    }
}

/// Checks if a flag is used as a boolean (value is `true`) or consumed a
/// value; a consumed value is recovered into `text_parts`.
pub fn recover_boolean_flag(
    parsed: &ParsedArgs,
    long: &str,
    short: &str,
    text_parts: &mut Vec<String>,
) -> (r: bool)
    ensures
        r == spec_recover_flag(pairs_view(parsed.flags@), long@, short@).0,
        spec_recover_flag(pairs_view(parsed.flags@), long@, short@).1 is Some
            ==> final(text_parts)@.len() == old(text_parts)@.len() + 1
            && final(text_parts)@ == old(text_parts)@.push(final(text_parts)@.last())
            && final(text_parts)@.last()@ == spec_recover_flag(
            pairs_view(parsed.flags@),
            long@,
            short@,
        ).1->Some_0,
        spec_recover_flag(pairs_view(parsed.flags@), long@, short@).1 is None
            ==> final(text_parts)@ == old(text_parts)@,
{
    proof {
        reveal_strlit("true");
    }
    let looked = match parsed.get_flag(long) {
        Some(v) => Some(v),
        None => parsed.get_flag(short),
    };
    match looked {
        Some(v) => {
            if crate::strutil::str_eq(v, "true") {
                true
            } else {
                let owned = String::from_str(v);
                text_parts.push(owned);
                true
            }
        },
        None => false,
    }
}

impl EchoCommand {
    /// Creates the echo command with its metadata and documentation.
    pub fn new() -> (r: EchoCommand)
        ensures
            r.info.name@ == "echo"@,
            r.info.category@ == "text"@,
            r.info.aliases@.len() == 1,
            r.info.documentation is Some,
    {
        let mut aliases: Vec<String> = Vec::new();
        aliases.push(String::from_str("e"));
        let info = CommandInfo::new("echo", "Muestra texto con transformaciones opcionales")
            .with_category("text").with_aliases(aliases).with_documentation(
            Documentation::new("echo [opciones] <texto>").with_long_description(
                "Muestra el texto proporcionado en la salida. Soporta transformaciones como mayusculas, minusculas y repeticion.",
            ).with_option(OptionDoc::flag("uppercase", "Convierte a mayusculas").with_short("u"))
                .with_option(
                OptionDoc::flag("lowercase", "Convierte a minusculas").with_short("l"),
            ).with_option(
                OptionDoc::with_value("repeat", "Numero de veces a repetir").with_short("r"),
            ).with_option(
                OptionDoc::with_value("separator", "Separador entre repeticiones").with_short("s"),
            ).with_example(ExampleDoc::new("echo Hola Mundo", "Muestra 'Hola Mundo'")).with_example(
                ExampleDoc::new("echo -u 'hola mundo'", "Muestra 'HOLA MUNDO'"),
            ).with_example(ExampleDoc::new("echo -r 3 -s '|' test", "Muestra 'test|test|test'")),
        );
        EchoCommand { info }
    }

    /// The command metadata.
    pub fn info(&self) -> (r: &CommandInfo)
        ensures
            *r == self.info,
    {
        &self.info
    }

    /// Runs the echo transformation over parsed arguments and returns the
    /// result with the lines to print: always success, with exactly one
    /// line of output.
    pub fn run(&self, args: &[String]) -> (r: (CommandResult, Vec<String>))
        ensures
            r.0 is Success,
            r.1@.len() == 1,
    {
        let mut lines: Vec<String> = Vec::new();
        if args.len() == 0 {
            lines.push(String::new());
            return (CommandResult::success(), lines);
        }
        let parsed = parse(args);
        let mut text_parts: Vec<String> = Vec::new();
        let n = parsed.positional.len();
        let mut i: usize = 0;
        while i < n
            invariant
                n == parsed.positional@.len(),
                i <= n,
            decreases n - i,
        {
            text_parts.push(parsed.positional[i].clone());
            i = i + 1;
        }
        let uppercase = recover_boolean_flag(&parsed, "uppercase", "u", &mut text_parts);
        let lowercase = recover_boolean_flag(&parsed, "lowercase", "l", &mut text_parts);
        let mut text = join_space(&text_parts);
        if text.unicode_len() == 0 {
            lines.push(String::new());
            return (CommandResult::success(), lines);
        }
        if uppercase {
            text = to_ascii_upper(text.as_str());
        } else if lowercase {
            text = to_ascii_lower(text.as_str());
        }
        let mut repeat = parsed.get_flag_as_int_or("repeat", 1);
        repeat = parsed.get_flag_as_int_or("r", repeat);
        if repeat < 1 {
            repeat = 1;
        }
        if repeat > 100 {
            repeat = 100;
        }
        let separator = if parsed.has_flag("s") {
            parsed.get_flag_or("s", " ")
        } else {
            parsed.get_flag_or("separator", " ")
        };
        let mut output = String::new();
        let mut k: i32 = 0;
        while k < repeat
            invariant
                repeat <= 100,
            decreases repeat - k,
        {
            if k > 0 {
                output.append(separator.as_str());
            }
            output.append(text.as_str());
            k = k + 1;
        }
        lines.push(output);
        (CommandResult::success(), lines)
    }
}

/// The parts joined with single spaces.
pub open spec fn spec_join_space(parts: Seq<Seq<char>>) -> Seq<char>
    decreases parts.len(),
{
    if parts.len() == 0 {
        Seq::<char>::empty()
    } else if parts.len() == 1 {
        parts[0]
    } else {
        spec_join_space(parts.drop_last()) + " "@ + parts.last()
    }
}

/// Joins strings with single spaces.
pub fn join_space(parts: &Vec<String>) -> (r: String)
    ensures
        r@ == spec_join_space(parts@.map_values(|s: String| s@)),
{
    proof {
        reveal_strlit(" ");
        assert(parts@.take(0).map_values(|s: String| s@) =~= Seq::<Seq<char>>::empty());
    }
    let n = parts.len();
    let mut out = String::new();
    let mut i: usize = 0;
    while i < n
        invariant
            n == parts@.len(),
            i <= n,
            out@ == spec_join_space(parts@.take(i as int).map_values(|s: String| s@)),
        decreases n - i,
    {
        if i > 0 {
            out.append(" ");
        }
        out.append(parts[i].as_str());
        proof {
            let t = parts@.take(i + 1 as int).map_values(|s: String| s@);
            assert(t.drop_last() =~= parts@.take(i as int).map_values(|s: String| s@));
            assert(t.last() == parts@[i as int]@);
        }
        i = i + 1;
    }
    proof {
        assert(parts@.take(n as int) =~= parts@);
    }
    out
}

} // verus!
