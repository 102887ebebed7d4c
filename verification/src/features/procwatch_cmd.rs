//! The proc-watch command's metadata and pure helpers: its documentation,
//! dump-type parsing, command-line filtering, and JSON escaping. The
//! monitoring loop itself lives in the application shell, which performs
//! the sampling cadence and printing.

use vstd::prelude::*;

use crate::command_meta::{CommandInfo, Documentation, ExampleDoc, OptionDoc};
use crate::procwatch::monitor::DumpType;
use crate::procwatch::sample::{same_sample, ProcessSample};
use crate::strutil::{spec_contains, spec_lower, str_contains, to_ascii_lower};

verus! {

/// The dump type a word resolves to, case-insensitively.
pub open spec fn spec_dump_type_of(w: Seq<char>) -> Option<DumpType> {
    if w == "lsof"@ {
        Some(DumpType::Lsof)
    } else if w == "pstack"@ {
        Some(DumpType::Pstack)
    } else {
        None
    }
}

/// Resolves a dump type name, case-insensitively; unknown names give
/// nothing.
pub fn parse_dump_type(s: &str) -> (r: Option<DumpType>)
    ensures
        r == spec_dump_type_of(spec_lower(s@)),
{
    let low = to_ascii_lower(s);
    if crate::strutil::str_eq(low.as_str(), "lsof") {
        Some(DumpType::Lsof)
    } else if crate::strutil::str_eq(low.as_str(), "pstack") {
        Some(DumpType::Pstack)
    } else {
        None
    }
}

/// Whether a sample passes the command-line filter: no filter or an empty
/// one passes everything; else the lower-cased command line must hold the
/// lower-cased filter.
pub open spec fn spec_passes_filter(s: &ProcessSample, m: Option<Seq<char>>) -> bool {
    match m {
        None => true,
        Some(f) => f.len() == 0 || spec_contains(spec_lower(s.command_line@), spec_lower(f)),
    }
}

/// Whether `src` lists exactly the indices of the samples passing the
/// filter among the first `upto`, strictly in order, and `r` holds their
/// copies.
pub open spec fn spec_filtered_samples(
    samples: Seq<ProcessSample>,
    r: Seq<ProcessSample>,
    src: Seq<int>,
    m: Seq<char>,
    upto: int,
) -> bool {
    &&& src.len() == r.len()
    &&& forall|k: int|
        0 <= k < src.len() ==> 0 <= #[trigger] src[k] < upto && same_sample(
            &r[k],
            &samples[src[k]],
        ) && spec_passes_filter(&samples[src[k]], Some(m))
    &&& forall|k1: int, k2: int| 0 <= k1 < k2 < src.len() ==> src[k1] < src[k2]
    &&& forall|j: int|
        0 <= j < upto && spec_passes_filter(&(#[trigger] samples[j]), Some(m)) ==> exists|k: int|
            0 <= k < src.len() && #[trigger] src[k] == j
}

/// Filters samples whose command line contains the filter,
/// case-insensitively, keeping copies of exactly the passing samples in
/// their original order; without a filter or with an empty one, everything
/// is kept.
pub fn filter_by_match(samples: &[ProcessSample], match_str: Option<&str>) -> (r: Vec<
    ProcessSample,
>)
    ensures
        r@.len() <= samples@.len(),
        match match_str {
            None => r@.len() == samples@.len() && (forall|i: int|
                0 <= i < r@.len() ==> same_sample(&(#[trigger] r@[i]), &samples@[i])),
            Some(m) => exists|src: Seq<int>|
                #[trigger] spec_filtered_samples(samples@, r@, src, m@, samples@.len() as int),
        },
{
    let n = samples.len();
    let mut out: Vec<ProcessSample> = Vec::new();
    match match_str {
        None => {
            let mut i: usize = 0;
            while i < n
                invariant
                    n == samples@.len(),
                    i <= n,
                    out@.len() == i,
                    forall|j: int| 0 <= j < i ==> same_sample(&(#[trigger] out@[j]), &samples@[j]),
                decreases n - i,
            {
                out.push(samples[i].clone());
                i = i + 1;
            }
            out
        },
        Some(m) => {
            let has_filter = m.unicode_len() > 0;
            let lower = to_ascii_lower(m);
            let ghost mut src: Seq<int> = Seq::empty();
            let mut i: usize = 0;
            proof {
                assert(spec_filtered_samples(samples@, out@, src, m@, 0));
            }
            while i < n
                invariant
                    n == samples@.len(),
                    i <= n,
                    has_filter == (m@.len() > 0),
                    lower@ == spec_lower(m@),
                    out@.len() <= i,
                    src.len() == out@.len(),
                    spec_filtered_samples(samples@, out@, src, m@, i as int),
                decreases n - i,
            {
                let ghost pre_out = out@;
                let ghost pre_src = src;
                let low_cmd = to_ascii_lower(samples[i].command_line.as_str());
                let keep = !has_filter || str_contains(low_cmd.as_str(), lower.as_str());
                if keep {
                    let kept = samples[i].clone();
                    proof {
                        assert(spec_passes_filter(&samples@[i as int], Some(m@)));
                        src = src.push(i as int);
                    }
                    out.push(kept);
                    proof {
                        assert forall|k: int|
                            0 <= k < src.len() implies 0 <= #[trigger] src[k] < i + 1
                            && same_sample(&out@[k], &samples@[src[k]]) && spec_passes_filter(
                            &samples@[src[k]],
                            Some(m@),
                        ) by {
                            if k < src.len() - 1 {
                                assert(src[k] == pre_src[k]);
                                assert(out@[k] == pre_out[k]);
                            } else {
                                assert(src[k] == i as int);
                                assert(out@[k] == kept);
                            }
                        }
                        assert forall|j: int|
                            0 <= j < i + 1 && spec_passes_filter(
                                &(#[trigger] samples@[j]),
                                Some(m@),
                            ) implies exists|k: int|
                            0 <= k < src.len() && #[trigger] src[k] == j by {
                            if j < i {
                                let k = choose|k: int|
                                    0 <= k < pre_src.len() && #[trigger] pre_src[k] == j;
                                assert(src[k] == j);
                            } else {
                                assert(src[src.len() - 1] == j);
                            }
                        }
                        assert(spec_filtered_samples(samples@, out@, src, m@, i + 1 as int));
                    }
                } else {
                    proof {
                        assert(!spec_passes_filter(&samples@[i as int], Some(m@)));
                        assert forall|j: int|
                            0 <= j < i + 1 && spec_passes_filter(
                                &(#[trigger] samples@[j]),
                                Some(m@),
                            ) implies exists|k: int|
                            0 <= k < src.len() && #[trigger] src[k] == j by {
                            assert(j < i);
                        }
                        assert(spec_filtered_samples(samples@, out@, src, m@, i + 1 as int));
                    }
                }
                i = i + 1;
            }
            out
        },
    }
}

/// One character escaped for a JSON string literal.
pub open spec fn spec_escape_json_char(c: char) -> Seq<char> {
    if c == '\\' {
        seq!['\\', '\\']
    } else if c == '"' {
        seq!['\\', '"']
    } else if c == '\n' {
        seq!['\\', 'n']
    } else if c == '\r' {
        seq!['\\', 'r']
    } else if c == '\t' {
        seq!['\\', 't']
    } else {
        seq![c]
    }
}

/// A text escaped for a JSON string literal, character by character.
pub open spec fn spec_escape_json(s: Seq<char>) -> Seq<char>
    decreases s.len(),
{
    if s.len() == 0 {
        Seq::<char>::empty()
    } else {
        spec_escape_json(s.drop_last()) + spec_escape_json_char(s.last())
    }
}

/// Escapes backslashes, quotes, and the newline, carriage-return and tab
/// characters for embedding in a JSON string literal.
pub fn escape_json(s: &str) -> (r: String)
    ensures
        r@ == spec_escape_json(s@),
{
    let n = s.unicode_len();
    let mut out = String::new();
    let mut i: usize = 0;
    proof {
        assert(s@.take(0) =~= Seq::<char>::empty());
        assert(out@ =~= Seq::<char>::empty());
    }
    while i < n
        invariant
            n == s@.len(),
            i <= n,
            out@ == spec_escape_json(s@.take(i as int)),
        decreases n - i,
    {
        let c = s.get_char(i);
        proof {
            let t = s@.take(i + 1 as int);
            assert(t.drop_last() =~= s@.take(i as int));
            assert(t.last() == s@[i as int]);
        }
        if c == '\\' {
            out.push('\\');
            out.push('\\');
        } else if c == '"' {
            out.push('\\');
            out.push('"');
        } else if c == '\n' {
            out.push('\\');
            out.push('n');
        } else if c == '\r' {
            out.push('\\');
            out.push('r');
        } else if c == '\t' {
            out.push('\\');
            out.push('t');
        } else {
            out.push(c);
        }
        proof {
            assert(out@ =~= spec_escape_json(s@.take(i as int)) + spec_escape_json_char(
                s@[i as int],
            ));
        }
        i = i + 1;
    }
    proof {
        assert(s@.take(n as int) =~= s@);
    }
    out
}


/// The first position at or after `i` that is not a digit.
pub open spec fn spec_scan_digits(s: Seq<char>, i: int) -> int
    recommends
        0 <= i <= s.len(),
    decreases s.len() - i,
{
    if i < s.len() && crate::procwatch::parser::spec_is_digit(s[i]) {
        spec_scan_digits(s, i + 1)
    } else {
        i
    }
}

/// The milliseconds of one interval unit suffix, or nothing for an unknown
/// suffix; the empty suffix reads as seconds.
pub open spec fn spec_interval_unit_ms(suffix: Seq<char>) -> Option<u64> {
    if suffix.len() == 0 || suffix == "s"@ {
        Some(1000u64)
    } else if suffix == "ms"@ {
        Some(1u64)
    } else if suffix == "m"@ {
        Some(60_000u64)
    } else if suffix == "h"@ {
        Some(3_600_000u64)
    } else {
        None
    }
}

/// A sampling interval read as milliseconds: digits with an optional
/// `ms`/`s`/`m`/`h` suffix, seconds by default; anything else, including an
/// empty digit run, gives one second, a digit run beyond 64 bits counts as
/// one unit, and the product saturates.
pub open spec fn spec_interval_ms(s: Seq<char>) -> u64 {
    let d = spec_scan_digits(s, 0);
    if d == 0 {
        1000u64
    } else {
        match spec_interval_unit_ms(s.subrange(d, s.len() as int)) {
            Some(unit_ms) => {
                let digits = crate::procwatch::parser::spec_digits_value(s.take(d));
                let value: u64 = if digits <= u64::MAX {
                    digits as u64
                } else {
                    1u64
                };
                if value * unit_ms > u64::MAX {
                    u64::MAX
                } else {
                    (value * unit_ms) as u64
                }
            },
            None => 1000u64,
        }
    }
}

/// Parses a sampling interval such as `500ms`, `1s`, `5m` or `1h` into
/// milliseconds; a malformed interval gives the one-second default.
pub fn parse_interval_ms(input: &str) -> (r: u64)
    ensures
        r == spec_interval_ms(input@),
{
    let n = input.unicode_len();
    let mut d: usize = 0;
    while d < n && digit_at(input, d)
        invariant
            n == input@.len(),
            d <= n,
            forall|j: int|
                0 <= j < d ==> crate::procwatch::parser::spec_is_digit(#[trigger] input@[j]),
            spec_scan_digits(input@, 0) == spec_scan_digits(input@, d as int),
        decreases n - d,
    {
        d = d + 1;
    }
    if d == 0 {
        return 1000;
    }
    let suffix = input.substring_char(d, n);
    proof {
        reveal_strlit("s");
        reveal_strlit("ms");
        reveal_strlit("m");
        reveal_strlit("h");
    }
    let unit_ms: u64 = if suffix.unicode_len() == 0 || crate::strutil::str_eq(suffix, "s") {
        1000
    } else if crate::strutil::str_eq(suffix, "ms") {
        1
    } else if crate::strutil::str_eq(suffix, "m") {
        60_000
    } else if crate::strutil::str_eq(suffix, "h") {
        3_600_000
    } else {
        return 1000;
    };
    let value = digits_value_or_one(input, d);
    proof {
        assert((value as u128) * (unit_ms as u128) <= u64::MAX as u128 * 3_600_000)
            by (nonlinear_arith)
            requires
                value as u128 <= u64::MAX as u128,
                unit_ms as u128 <= 3_600_000,
        ;
    }
    let total: u128 = (value as u128) * (unit_ms as u128);
    if total > u64::MAX as u128 {
        u64::MAX
    } else {
        total as u64
    }
}

/// Whether the character at a position is a digit.
fn digit_at(s: &str, i: usize) -> (r: bool)
    requires
        i < s@.len(),
    ensures
        r == crate::procwatch::parser::spec_is_digit(s@[i as int]),
{
    let u = s.get_char(i) as u32;
    48 <= u && u <= 57
}

/// The value of the digit prefix `[0, d)`, or one where it overflows 64
/// bits.
fn digits_value_or_one(s: &str, d: usize) -> (r: u64)
    requires
        d <= s@.len(),
        forall|j: int| 0 <= j < d ==> crate::procwatch::parser::spec_is_digit(#[trigger] s@[j]),
    ensures
        r == if crate::procwatch::parser::spec_digits_value(s@.take(d as int)) <= u64::MAX {
            crate::procwatch::parser::spec_digits_value(s@.take(d as int)) as u64
        } else {
            1u64
        },
{
    let mut v: u64 = 0;
    let mut i: usize = 0;
    proof {
        assert(s@.take(0) =~= Seq::<char>::empty());
    }
    while i < d
        invariant
            d <= s@.len(),
            i <= d,
            forall|j: int| 0 <= j < d ==> crate::procwatch::parser::spec_is_digit(#[trigger] s@[j]),
            v == crate::procwatch::parser::spec_digits_value(s@.take(i as int)),
            crate::procwatch::parser::spec_digits_value(s@.take(i as int)) <= u64::MAX,
        decreases d - i,
    {
        let u = s.get_char(i) as u32;
        proof {
            let pfx = s@.take(i as int);
            assert(s@.take(i + 1 as int) =~= pfx.push(s@[i as int]));
            crate::procwatch::parser::lemma_digits_value_push(pfx, s@[i as int]);
        }
        let dv = (u - 48) as u64;
        if v > (u64::MAX - dv) / 10 {
            // The digit run overflows 64 bits: the whole run counts as one.
            proof {
                lemma_digit_prefix_monotone(s@, i + 1 as int, d as int);
            }
            return 1;
        }
        v = v * 10 + dv;
        i = i + 1;
    }
    proof {
        assert(s@.take(d as int) == s@.take(d as int));
    }
    v
}

/// A digit prefix's value only grows as it extends.
proof fn lemma_digit_prefix_monotone(s: Seq<char>, k: int, d: int)
    requires
        0 <= k <= d <= s.len(),
    ensures
        crate::procwatch::parser::spec_digits_value(s.take(d))
            >= crate::procwatch::parser::spec_digits_value(s.take(k)),
    decreases d - k,
{
    if k < d {
        lemma_digit_prefix_monotone(s, k + 1, d);
        let a = s.take(k);
        let b = s.take(k + 1);
        assert(b =~= a.push(s[k]));
        crate::procwatch::parser::lemma_digits_value_push(a, s[k]);
    }
}

/// Builds the command metadata of the process monitor.
pub fn build_command_info() -> (r: CommandInfo)
    ensures
        r.name@ == "proc-watch"@,
        r.category@ == "system"@,
        r.aliases@.len() == 3,
        r.documentation is Some,
{
    let mut aliases: Vec<String> = Vec::new();
    aliases.push(String::from_str("pw"));
    aliases.push(String::from_str("pwatch"));
    aliases.push(String::from_str("procmon"));
    CommandInfo::new("proc-watch", "Monitor de procesos (CPU/RAM/threads/FD/IO) con alertas")
        .with_category("system").with_aliases(aliases).with_documentation(build_documentation())
}

/// Builds the documentation of the process monitor: its usage, options and
/// examples.
pub fn build_documentation() -> (r: Documentation)
    ensures
        r.usage@ == "proc-watch [opciones] [--pid <PID> | --name <proceso>]"@,
        r.options@.len() == 15,
        r.examples@.len() == 14,
{
    Documentation::new("proc-watch [opciones] [--pid <PID> | --name <proceso>]")
        .with_long_description(
        "Monitor avanzado de procesos del sistema. Muestra metricas en tiempo real de CPU, memoria, threads, descriptores de archivo e I/O. Soporta alertas configurables con DSL, monitoreo continuo y salida JSON/JSONL.",
    ).with_option(OptionDoc::with_value("pid", "ID del proceso a monitorear").with_short("p"))
        .with_option(
        OptionDoc::with_value("name", "Nombre del proceso (busqueda parcial)").with_short("n"),
    ).with_option(
        OptionDoc::with_value("match", "Filtro adicional en linea de comandos (con --name)")
            .with_short("m"),
    ).with_option(
        OptionDoc::with_value("top", "Modo top: cpu o memory (ej: --top cpu)").with_short("t"),
    ).with_option(
        OptionDoc::with_value("limit", "Limite de procesos en modo top (default: 10)").with_short(
            "l",
        ),
    ).with_option(
        OptionDoc::with_value("interval", "Intervalo de muestreo (ej: 1s, 500ms, 5m). Default: 1s")
            .with_short("i"),
    ).with_option(
        OptionDoc::with_value("count", "Numero de muestras (default: infinito)").with_short("c"),
    ).with_option(OptionDoc::flag("once", "Muestra una sola vez y termina")).with_option(
        OptionDoc::with_value("alert", "Regla de alerta DSL (puede repetirse)").with_short("a"),
    ).with_option(
        OptionDoc::with_value("dump-on-breach", "Ejecutar dump al violar alerta: lsof, pstack"),
    ).with_option(OptionDoc::flag("json", "Salida en formato JSON").with_short("j")).with_option(
        OptionDoc::flag("jsonl", "Salida en formato JSON Lines (una linea por muestra)"),
    ).with_option(OptionDoc::flag("compact", "Formato compacto de una linea")).with_option(
        OptionDoc::flag("quiet", "Solo mostrar alertas").with_short("q"),
    ).with_option(
        OptionDoc::flag("list-alerts", "Muestra sintaxis de alertas disponibles"),
    ).with_example(ExampleDoc::new("proc-watch --pid 4123", "Monitorea proceso por PID"))
        .with_example(
        ExampleDoc::new("proc-watch --name java", "Monitorea todos los procesos 'java'"),
    ).with_example(
        ExampleDoc::new("proc-watch --name java --match 'myservice'", "Filtra por comando"),
    ).with_example(
        ExampleDoc::new("proc-watch --top cpu --limit 10", "Top 10 por CPU en tiempo real"),
    ).with_example(
        ExampleDoc::new("proc-watch --top memory --interval 5s", "Top por memoria cada 5s"),
    ).with_example(ExampleDoc::new("proc-watch --pid 4123 --once", "Muestra metricas una vez"))
        .with_example(ExampleDoc::new("proc-watch --pid 4123 --json", "Salida JSON")).with_example(
        ExampleDoc::new("proc-watch --pid 4123 --jsonl --count 100", "100 muestras en JSONL"),
    ).with_example(
        ExampleDoc::new("proc-watch --pid 4123 --alert 'cpu>80%'", "Alerta si CPU > 80%"),
    ).with_example(
        ExampleDoc::new("proc-watch --pid 4123 --alert 'rss>1.5GB'", "Alerta si RAM > 1.5GB"),
    ).with_example(
        ExampleDoc::new("proc-watch --pid 4123 --alert 'cpu>80% for 30s'", "Sostenido 30s"),
    ).with_example(
        ExampleDoc::new("proc-watch --pid 4123 --alert 'threads>100'", "Alerta por threads"),
    ).with_example(
        ExampleDoc::new("proc-watch --pid 4123 --dump-on-breach lsof", "Dump al violar"),
    ).with_example(ExampleDoc::new("proc-watch --list-alerts", "Muestra sintaxis de alertas"))
}

} // verus!
