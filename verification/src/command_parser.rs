//! Tokenizing and parsing of command lines: quoted strings, long and short
//! flags, and positional arguments.
//!
//! The tokenizer and the argument parser are each mirrored by a spec
//! function written as the same left-to-right pass, and the contracts say
//! the two agree on every input.

use vstd::prelude::*;

use crate::procwatch::parser::{spec_digit_val, spec_digits_value, spec_is_digit};
use crate::strutil::{spec_trim, str_eq, str_trim};

verus! {

/// One step of the tokenizer: position `i` in `s`, inside double or single
/// quotes or neither, a token under construction, and the tokens finished
/// so far. Closing a quote always finishes a token, even an empty one;
/// whitespace outside quotes finishes a non-empty token.
pub open spec fn spec_tokenize_from(
    s: Seq<char>,
    i: int,
    dq: bool,
    sq: bool,
    cur: Seq<char>,
    acc: Seq<Seq<char>>,
) -> Seq<Seq<char>>
    recommends
        0 <= i <= s.len(),
    decreases s.len() - i,
{
    if i >= s.len() {
        if cur.len() > 0 {
            acc.push(cur)
        } else {
            acc
        }
    } else {
        let c = s[i];
        if c == '"' && !sq {
            if dq {
                spec_tokenize_from(s, i + 1, false, sq, Seq::empty(), acc.push(cur))
            } else if cur.len() > 0 {
                spec_tokenize_from(s, i + 1, true, sq, Seq::empty(), acc.push(cur))
            } else {
                spec_tokenize_from(s, i + 1, true, sq, cur, acc)
            }
        } else if c == '\'' && !dq {
            if sq {
                spec_tokenize_from(s, i + 1, dq, false, Seq::empty(), acc.push(cur))
            } else if cur.len() > 0 {
                spec_tokenize_from(s, i + 1, dq, true, Seq::empty(), acc.push(cur))
            } else {
                spec_tokenize_from(s, i + 1, dq, true, cur, acc)
            }
        } else if (c == ' ' || c == '\t') && !dq && !sq {
            if cur.len() > 0 {
                spec_tokenize_from(s, i + 1, dq, sq, Seq::empty(), acc.push(cur))
            } else {
                spec_tokenize_from(s, i + 1, dq, sq, cur, acc)
            }
        } else {
            spec_tokenize_from(s, i + 1, dq, sq, cur.push(c), acc)
        }
    }
}

/// The tokens of a trimmed command line.
pub open spec fn spec_tokenize(s: Seq<char>) -> Seq<Seq<char>> {
    spec_tokenize_from(spec_trim(s), 0, false, false, Seq::empty(), Seq::empty())
}

/// The views of a vector of strings.
pub open spec fn strings_view(v: Seq<String>) -> Seq<Seq<char>> {
    v.map_values(|s: String| s@)
}

/// Tokenizes a command line string respecting quoted strings.
pub fn tokenize(input: &str) -> (r: Vec<String>)
    ensures
        strings_view(r@) == spec_tokenize(input@),
{
    let trimmed = str_trim(input);
    let t = trimmed.as_str();
    let n = t.unicode_len();
    let mut tokens: Vec<String> = Vec::new();
    let mut current = String::new();
    let mut in_double_quote = false;
    let mut in_single_quote = false;
    proof {
        assert(strings_view(tokens@) =~= Seq::<Seq<char>>::empty());
        assert(current@ =~= Seq::<char>::empty());
    }
    let mut i: usize = 0;
    while i < n
        invariant
            n == t@.len(),
            i <= n,
            spec_tokenize(input@) == spec_tokenize_from(
                t@,
                i as int,
                in_double_quote,
                in_single_quote,
                current@,
                strings_view(tokens@),
            ),
        decreases n - i,
    {
        let c = t.get_char(i);
        if c == '"' && !in_single_quote {
            if in_double_quote {
                in_double_quote = false;
                let done = current;
                current = String::new();
                proof {
                    assert(strings_view(tokens@.push(done)) =~= strings_view(tokens@).push(done@));
                }
                tokens.push(done);
            } else if current.unicode_len() > 0 {
                in_double_quote = true;
                let done = current;
                current = String::new();
                proof {
                    assert(strings_view(tokens@.push(done)) =~= strings_view(tokens@).push(done@));
                }
                tokens.push(done);
            } else {
                in_double_quote = true;
            }
        } else if c == '\'' && !in_double_quote {
            if in_single_quote {
                in_single_quote = false;
                let done = current;
                current = String::new();
                proof {
                    assert(strings_view(tokens@.push(done)) =~= strings_view(tokens@).push(done@));
                }
                tokens.push(done);
            } else if current.unicode_len() > 0 {
                in_single_quote = true;
                let done = current;
                current = String::new();
                proof {
                    assert(strings_view(tokens@.push(done)) =~= strings_view(tokens@).push(done@));
                }
                tokens.push(done);
            } else {
                in_single_quote = true;
            }
        } else if (c == ' ' || c == '\t') && !in_double_quote && !in_single_quote {
            if current.unicode_len() > 0 {
                let done = current;
                current = String::new();
                proof {
                    assert(strings_view(tokens@.push(done)) =~= strings_view(tokens@).push(done@));
                }
                tokens.push(done);
            }
        } else {
            current.push(c);
        }
        i = i + 1;
    }
    if current.unicode_len() > 0 {
        proof {
            assert(strings_view(tokens@.push(current)) =~= strings_view(tokens@).push(current@));
        }
        tokens.push(current);
    }
    tokens
}

/// The value of a flag in an association list, searched from the most
/// recent entry backwards, so a later setting wins.
pub open spec fn spec_lookup(pairs: Seq<(Seq<char>, Seq<char>)>, name: Seq<char>) -> Option<
    Seq<char>,
>
    decreases pairs.len(),
{
    if pairs.len() == 0 {
        None
    } else if pairs.last().0 == name {
        Some(pairs.last().1)
    } else {
        spec_lookup(pairs.drop_last(), name)
    }
}

/// The views of a vector of string pairs.
pub open spec fn pairs_view(v: Seq<(String, String)>) -> Seq<(Seq<char>, Seq<char>)> {
    v.map_values(|p: (String, String)| (p.0@, p.1@))
}

/// A string parsed as a 32-bit signed integer: an optional sign, then
/// digits, refused when empty, stray-charactered, or out of range.
/// Whether every character is a decimal digit.
pub open spec fn spec_all_digits(s: Seq<char>) -> bool {
    forall|j: int| 0 <= j < s.len() ==> spec_is_digit(#[trigger] s[j])
}

pub open spec fn spec_parse_i32(s: Seq<char>) -> Option<i32> {
    let neg = s.len() >= 1 && s[0] == '-';
    let body = if s.len() >= 1 && (s[0] == '-' || s[0] == '+') {
        s.subrange(1, s.len() as int)
    } else {
        s
    };
    if body.len() == 0 || !spec_all_digits(body) {
        None
    } else {
        let v = spec_digits_value(body);
        if neg {
            if v <= 0x8000_0000 {
                Some((-(v as int)) as i32)
            } else {
                None
            }
        } else {
            if v <= 0x7fff_ffff {
                Some(v as i32)
            } else {
                None
            }
        }
    }
}

/// A value clamped at 2^32.
pub open spec fn spec_clamp32(v: nat) -> nat {
    if v > 0x1_0000_0000 {
        0x1_0000_0000
    } else {
        v
    }
}

/// Clamping at 2^32 commutes with accumulating a digit.
proof fn lemma_clamp32_step(tv: nat, d: nat)
    requires
        d < 10,
    ensures
        spec_clamp32(spec_clamp32(tv) * 10 + d) == spec_clamp32(tv * 10 + d),
{
    if tv > 0x1_0000_0000 {
        assert(spec_clamp32(tv) == 0x1_0000_0000nat);
        assert(tv * 10 + d > 0x1_0000_0000);
        assert(0x1_0000_0000nat * 10 + d > 0x1_0000_0000);
    }
}

/// Parses a decimal integer with an optional sign.
pub fn parse_i32(s: &str) -> (r: Option<i32>)
    ensures
        r == spec_parse_i32(s@),
{
    let n = s.unicode_len();
    if n == 0 {
        return None;
    }
    let c0 = s.get_char(0);
    let neg = c0 == '-';
    let start: usize = if c0 == '-' || c0 == '+' {
        1
    } else {
        0
    };
    let ghost body = if c0 == '-' || c0 == '+' {
        s@.subrange(1, n as int)
    } else {
        s@
    };
    if n == start {
        return None;
    }
    let mut v: u64 = 0;
    proof {
        assert(body.take(0) =~= Seq::<char>::empty());
        assert(spec_digits_value(Seq::<char>::empty()) == 0);
    }
    let mut i: usize = start;
    while i < n
        invariant
            n == s@.len(),
            1 <= n,
            start <= i <= n,
            start <= 1,
            (start == 1) == (s@[0] == '-' || s@[0] == '+'),
            neg == (s@[0] == '-'),
            body == if start == 1 {
                s@.subrange(1, n as int)
            } else {
                s@
            },
            forall|j: int| start <= j < i ==> spec_is_digit(#[trigger] s@[j]),
            v as nat == spec_clamp32(spec_digits_value(body.take(i - start))),
            v <= 0x1_0000_0000,
        decreases n - i,
    {
        let c = s.get_char(i);
        let u = c as u32;
        if !(48 <= u && u <= 57) {
            proof {
                assert(body.len() == n - start);
                assert(body[i - start] == s@[i as int]);
                assert(!spec_is_digit(body[i - start]));
                assert(!spec_all_digits(body)) by {
                    if spec_all_digits(body) {
                        assert(spec_is_digit(body[i - start]));
                    }
                }
                assert(spec_parse_i32(s@) is None) by {
                    let sbody = if s@.len() >= 1 && (s@[0] == '-' || s@[0] == '+') {
                        s@.subrange(1, s@.len() as int)
                    } else {
                        s@
                    };
                    assert(sbody =~= body);
                }
            }
            return None;
        }
        proof {
            let pfx = body.take(i - start);
            assert(body.take(i + 1 - start) =~= pfx.push(body[i - start]));
            assert(body[i - start] == s@[i as int]);
            crate::procwatch::parser::lemma_digits_value_push(pfx, s@[i as int]);
            lemma_clamp32_step(spec_digits_value(pfx), spec_digit_val(s@[i as int]));
        }
        let d = (u - 48) as u64;
        let nv = v * 10 + d;
        v = if nv > 0x1_0000_0000 {
            0x1_0000_0000
        } else {
            nv
        };
        i = i + 1;
    }
    proof {
        assert(body.take(n - start) =~= body);
        assert forall|j: int| 0 <= j < body.len() implies spec_is_digit(#[trigger] body[j]) by {
            assert(body[j] == s@[j + start]);
        }
        assert(spec_all_digits(body));
        let sbody = if s@.len() >= 1 && (s@[0] == '-' || s@[0] == '+') {
            s@.subrange(1, s@.len() as int)
        } else {
            s@
        };
        assert(sbody =~= body);
    }
    if neg {
        if v <= 0x8000_0000 {
            Some((-(v as i64)) as i32)
        } else {
            None
        }
    } else {
        if v <= 0x7fff_ffff {
            Some(v as i32)
        } else {
            None
        }
    }
}

/// Parsed arguments with flags and positional args. Flags are an
/// association list where the latest entry for a name wins, mirroring a map
/// whose insert overwrites.
#[derive(Debug)]
pub struct ParsedArgs {
    pub flags: Vec<(String, String)>,
    pub positional: Vec<String>,
}

impl ParsedArgs {
    /// The flag view of the association list.
    pub open spec fn spec_flag(&self, name: Seq<char>) -> Option<Seq<char>> {
        spec_lookup(pairs_view(self.flags@), name)
    }

    /// Whether a flag is present.
    pub fn has_flag(&self, name: &str) -> (r: bool)
        ensures
            r == (self.spec_flag(name@) is Some),
    {
        self.get_flag(name).is_some()
    }

    /// The value of a flag, if present.
    pub fn get_flag(&self, name: &str) -> (r: Option<&str>)
        ensures
            match r {
                Some(v) => self.spec_flag(name@) == Some(v@),
                None => self.spec_flag(name@) is None,
            },
    {
        let n = self.flags.len();
        proof {
            assert(pairs_view(self.flags@).take(n as int) =~= pairs_view(self.flags@));
        }
        let mut i: usize = n;
        while i > 0
            invariant
                n == self.flags@.len(),
                i <= n,
                spec_lookup(pairs_view(self.flags@), name@) == spec_lookup(
                    pairs_view(self.flags@).take(i as int),
                    name@,
                ),
            decreases i,
        {
            proof {
                assert(pairs_view(self.flags@).take(i as int).last() == (
                    self.flags@[i - 1].0@,
                    self.flags@[i - 1].1@,
                ));
                assert(pairs_view(self.flags@).take(i as int).drop_last() =~= pairs_view(
                    self.flags@,
                ).take(i - 1 as int));
            }
            if str_eq(self.flags[i - 1].0.as_str(), name) {
                return Some(self.flags[i - 1].1.as_str());
            }
            i = i - 1;
        }
        proof {
            assert(pairs_view(self.flags@).take(0) =~= Seq::<(Seq<char>, Seq<char>)>::empty());
        }
        None
    }

    /// The value of a flag, or a default.
    pub fn get_flag_or(&self, name: &str, default: &str) -> (r: String)
        ensures
            r@ == match self.spec_flag(name@) {
                Some(v) => v,
                None => default@,
            },
    {
        match self.get_flag(name) {
            Some(v) => String::from_str(v),
            None => String::from_str(default),
        }
    }

    /// The value of a flag read as an integer, if present and numeric.
    pub fn get_flag_as_int(&self, name: &str) -> (r: Option<i32>)
        ensures
            r == match self.spec_flag(name@) {
                Some(v) => spec_parse_i32(v),
                None => None::<i32>,
            },
    {
        match self.get_flag(name) {
            Some(v) => parse_i32(v),
            None => None,
        }
    }

    /// The value of a flag read as an integer, or a default.
    pub fn get_flag_as_int_or(&self, name: &str, default: i32) -> (r: i32)
        ensures
            r == match self.spec_flag(name@) {
                Some(v) => match spec_parse_i32(v) {
                    Some(x) => x,
                    None => default,
                },
                None => default,
            },
    {
        match self.get_flag_as_int(name) {
            Some(x) => x,
            None => default,
        }
    }

    /// Whether a boolean flag is present.
    pub fn get_boolean(&self, name: &str) -> (r: bool)
        ensures
            r == (self.spec_flag(name@) is Some),
    {
        self.has_flag(name)
    }

    /// The positional argument at an index, if present.
    pub fn positional(&self, index: usize) -> (r: Option<&str>)
        ensures
            match r {
                Some(v) => index < self.positional@.len() && v@ == self.positional@[
                    index as int
                ]@,
                None => index >= self.positional@.len(),
            },
    {
        if index < self.positional.len() {
            Some(self.positional[index].as_str())
        } else {
            None
        }
    }

    /// Whether any positional arguments are present.
    pub fn has_positional(&self) -> (r: bool)
        ensures
            r == (self.positional@.len() > 0),
    {
        self.positional.len() > 0
    }

    /// The number of positional arguments.
    pub fn positional_count(&self) -> (r: usize)
        ensures
            r == self.positional@.len(),
    {
        self.positional.len()
    }
}

/// One step of the argument grammar over the token list: `--flag=value`,
/// `--flag value`, `--flag`, `-f value`, `-f`, `-abc`, and positional
/// arguments.
pub open spec fn spec_parse_args_from(
    args: Seq<Seq<char>>,
    i: int,
    flags: Seq<(Seq<char>, Seq<char>)>,
    pos: Seq<Seq<char>>,
) -> (Seq<(Seq<char>, Seq<char>)>, Seq<Seq<char>>)
    recommends
        0 <= i,
    decreases args.len() - i,
{
    if i >= args.len() {
        (flags, pos)
    } else {
        let a = args[i];
        if a.len() >= 2 && a[0] == '-' && a[1] == '-' {
            let fp = a.subrange(2, a.len() as int);
            let eq = spec_first_eq(fp, 0);
            if eq < fp.len() {
                spec_parse_args_from(
                    args,
                    i + 1,
                    flags.push((fp.take(eq), fp.subrange(eq + 1, fp.len() as int))),
                    pos,
                )
            } else if i + 1 < args.len() && !(args[i + 1].len() >= 1 && args[i + 1][0] == '-') {
                spec_parse_args_from(args, i + 2, flags.push((fp, args[i + 1])), pos)
            } else {
                spec_parse_args_from(args, i + 1, flags.push((fp, "true"@)), pos)
            }
        } else if a.len() >= 2 && a[0] == '-' {
            let fc = a.subrange(1, a.len() as int);
            if fc.len() == 1 {
                if i + 1 < args.len() && !(args[i + 1].len() >= 1 && args[i + 1][0] == '-') {
                    spec_parse_args_from(args, i + 2, flags.push((fc, args[i + 1])), pos)
                } else {
                    spec_parse_args_from(args, i + 1, flags.push((fc, "true"@)), pos)
                }
            } else {
                let singles = Seq::new(fc.len(), |k: int| (seq![fc[k]], "true"@));
                spec_parse_args_from(args, i + 1, flags + singles, pos)
            }
        } else {
            spec_parse_args_from(args, i + 1, flags, pos.push(a))
        }
    }
}

/// The flags and positional arguments of a token list.
pub open spec fn spec_parse_args(args: Seq<Seq<char>>) -> (Seq<(Seq<char>, Seq<char>)>, Seq<
    Seq<char>,
>) {
    spec_parse_args_from(args, 0, Seq::empty(), Seq::empty())
}

/// The first position at or after `i` holding `=`, or the length.
pub open spec fn spec_first_eq(s: Seq<char>, i: int) -> int
    recommends
        0 <= i <= s.len(),
    decreases s.len() - i,
{
    if i < s.len() {
        if s[i] == '=' {
            i
        } else {
            spec_first_eq(s, i + 1)
        }
    } else {
        s.len() as int
    }
}

fn first_eq(s: &str, i: usize) -> (r: usize)
    requires
        i <= s@.len(),
    ensures
        r == spec_first_eq(s@, i as int),
        i <= r <= s@.len(),
    decreases s@.len() - i,
{
    if i < s.unicode_len() {
        if s.get_char(i) == '=' {
            i
        } else {
            first_eq(s, i + 1)
        }
    } else {
        i
    }
}

/// Parses tokens into flags and positional arguments.
///
/// Flags can be `--flag value`, `--flag=value`, `-f value`, `-f`, or a run
/// of boolean short flags `-abc`; everything else is positional. A flag
/// followed by a token that does not begin with `-` consumes that token as
/// its value.
pub fn parse(args: &[String]) -> (r: ParsedArgs)
    ensures
        pairs_view(r.flags@) == spec_parse_args(strings_view(args@)).0,
        strings_view(r.positional@) == spec_parse_args(strings_view(args@)).1,
{
    let n = args.len();
    let mut flags: Vec<(String, String)> = Vec::new();
    let mut positional: Vec<String> = Vec::new();
    proof {
        assert(pairs_view(flags@) =~= Seq::<(Seq<char>, Seq<char>)>::empty());
        assert(strings_view(positional@) =~= Seq::<Seq<char>>::empty());
    }
    let mut i: usize = 0;
    while i < n
        invariant
            n == args@.len(),
            i <= n,
            spec_parse_args(strings_view(args@)) == spec_parse_args_from(
                strings_view(args@),
                i as int,
                pairs_view(flags@),
                strings_view(positional@),
            ),
        decreases n - i,
    {
        let a = args[i].as_str();
        let alen = a.unicode_len();
        proof {
            assert(strings_view(args@)[i as int] == args@[i as int]@);
        }
        if alen >= 2 && a.get_char(0) == '-' && a.get_char(1) == '-' {
            // Long flag.
            let fp = a.substring_char(2, alen);
            let fplen = alen - 2;
            let eq = first_eq(fp, 0);
            if eq < fplen {
                let name = fp.substring_char(0, eq);
                let value = fp.substring_char(eq + 1, fplen);
                let pair = (String::from_str(name), String::from_str(value));
                proof {
                    assert(pairs_view(flags@.push(pair)) =~= pairs_view(flags@).push(
                        (pair.0@, pair.1@),
                    ));
                }
                flags.push(pair);
                i = i + 1;
            } else if i + 1 < n && !starts_with_dash(args[i + 1].as_str()) {
                let pair = (String::from_str(fp), args[i + 1].clone());
                proof {
                    assert(pairs_view(flags@.push(pair)) =~= pairs_view(flags@).push(
                        (pair.0@, pair.1@),
                    ));
                    assert(strings_view(args@)[i + 1] == args@[i + 1]@);
                }
                flags.push(pair);
                i = i + 2;
            } else {
                let pair = (String::from_str(fp), String::from_str("true"));
                proof {
                    assert(pairs_view(flags@.push(pair)) =~= pairs_view(flags@).push(
                        (pair.0@, pair.1@),
                    ));
                    if i + 1 < n {
                        assert(strings_view(args@)[i + 1] == args@[i + 1]@);
                    }
                }
                flags.push(pair);
                i = i + 1;
            }
        } else if alen >= 2 && a.get_char(0) == '-' {
            // Short flag(s).
            let fc = a.substring_char(1, alen);
            let fclen = alen - 1;
            if fclen == 1 {
                if i + 1 < n && !starts_with_dash(args[i + 1].as_str()) {
                    let pair = (String::from_str(fc), args[i + 1].clone());
                    proof {
                        assert(pairs_view(flags@.push(pair)) =~= pairs_view(flags@).push(
                            (pair.0@, pair.1@),
                        ));
                        assert(strings_view(args@)[i + 1] == args@[i + 1]@);
                    }
                    flags.push(pair);
                    i = i + 2;
                } else {
                    let pair = (String::from_str(fc), String::from_str("true"));
                    proof {
                        assert(pairs_view(flags@.push(pair)) =~= pairs_view(flags@).push(
                            (pair.0@, pair.1@),
                        ));
                        if i + 1 < n {
                            assert(strings_view(args@)[i + 1] == args@[i + 1]@);
                        }
                    }
                    flags.push(pair);
                    i = i + 1;
                }
            } else {
                // A run of boolean short flags.
                let ghost f0 = pairs_view(flags@);
                let ghost singles = Seq::new(fc@.len(), |k: int| (seq![fc@[k]], "true"@));
                let ghost outer = spec_parse_args_from(
                    strings_view(args@),
                    i as int,
                    pairs_view(flags@),
                    strings_view(positional@),
                );
                let mut k: usize = 0;
                while k < fclen
                    invariant
                        fclen == fc@.len(),
                        k <= fclen,
                        singles == Seq::new(fc@.len(), |q: int| (seq![fc@[q]], "true"@)),
                        pairs_view(flags@) == f0 + singles.take(k as int),
                    decreases fclen - k,
                {
                    let ch = fc.get_char(k);
                    let mut name = String::new();
                    name.push(ch);
                    let pair = (name, String::from_str("true"));
                    proof {
                        assert(pair.0@ =~= seq![fc@[k as int]]);
                        assert((pair.0@, pair.1@) == singles[k as int]);
                        assert(pairs_view(flags@.push(pair)) =~= pairs_view(flags@).push(
                            (pair.0@, pair.1@),
                        ));
                        assert(f0 + singles.take(k + 1 as int) =~= (f0 + singles.take(
                            k as int,
                        )).push(singles[k as int]));
                    }
                    flags.push(pair);
                    k = k + 1;
                }
                proof {
                    assert(singles.take(fclen as int) =~= singles);
                    assert(pairs_view(flags@) == f0 + singles);
                    let av = strings_view(args@)[i as int];
                    let fcs = av.subrange(1, av.len() as int);
                    assert(fcs =~= fc@);
                    assert(singles =~= Seq::new(fcs.len(), |q: int| (seq![fcs[q]], "true"@)));
                }
                i = i + 1;
            }
        } else {
            let v = args[i].clone();
            proof {
                assert(strings_view(positional@.push(v)) =~= strings_view(positional@).push(v@));
            }
            positional.push(v);
            i = i + 1;
        }
    }
    ParsedArgs { flags, positional }
}

/// Whether a string begins with `-`.
fn starts_with_dash(s: &str) -> (r: bool)
    ensures
        r == (s@.len() >= 1 && s@[0] == '-'),
{
    s.unicode_len() >= 1 && s.get_char(0) == '-'
}

/// Parses a raw command line string.
pub fn parse_line(command_line: &str) -> (r: ParsedArgs)
    ensures
        pairs_view(r.flags@) == spec_parse_args(spec_tokenize(command_line@)).0,
        strings_view(r.positional@) == spec_parse_args(spec_tokenize(command_line@)).1,
{
    let tokens = tokenize(command_line);
    parse(tokens.as_slice())
}

} // verus!
