//! Parser for alert rule DSL expressions.
//!
//! Supported syntax:
//! - `metric>threshold`          (e.g., `cpu>80`)
//! - `metric>thresholdUNIT`      (e.g., `rss>1.5GB`, `cpu>80%`)
//! - `metric>threshold for Ns`   (e.g., `cpu>80% for 30s`)
//! - `metric>threshold increasing Ns`
//! - `metric>threshold decreasing Ns`
//!
//! The grammar is matched in one left-to-right pass, anchored at both ends,
//! case-insensitively and tolerating whitespace around every token. The
//! whole grammar is mirrored by the spec function [`spec_parse`], and the
//! parser's contract says the two agree on every input.
//!
//! Numbers are read into milli units (thousandths): digits beyond the third
//! fractional place are dropped, and magnitudes beyond the 64-bit milli
//! range saturate at its maximum.

use vstd::prelude::*;

use crate::procwatch::rule::{AlertRule, ComparisonOperator, MetricType, ThresholdUnit, WindowCondition};
use crate::strutil::{
    matches_at,
    matches_at_ci,
    spec_is_space,
    spec_lower,
    spec_matches_at,
    spec_trim,
    str_trim,
    is_space,
};

verus! {

/// The largest threshold magnitude, in milli units.
pub const THRESHOLD_MAX_MILLI: u64 = 0x7fff_ffff_ffff_ffff;

/// The largest window length in seconds: chosen so a window in milliseconds
/// still fits in 64 bits.
pub const WINDOW_SECS_MAX: u64 = 0xffff_ffff_ffff_ffff / 1000;

/// Errors that can occur during alert expression parsing.
#[derive(Debug)]
pub enum AlertParserError {
    EmptyExpression,
    InvalidExpression(String),
    UnknownMetric(String),
    UnknownOperator(String),
    InvalidThreshold(String),
    UnknownCondition(String),
    InvalidDuration(String),
    UnknownDurationUnit(String),
}

/// The resolved parts of a parsed rule, before the expression text is
/// attached.
#[derive(Debug, Clone, Copy, PartialEq, Eq, Structural)]
pub struct ParsedRuleParts {
    pub metric: MetricType,
    pub operator: ComparisonOperator,
    pub threshold: i64,
    pub unit: ThresholdUnit,
    pub window_secs: Option<u64>,
    pub condition: Option<WindowCondition>,
}

/// The ways parsing can fail.
#[derive(Debug, Clone, Copy, PartialEq, Eq, Structural)]
pub enum ParseFailKind {
    Empty,
    Invalid,
    BadMetric,
    BadThreshold,
    BadDuration,
}

/// The outcome of parsing a trimmed expression.
#[derive(Debug, Clone, Copy, PartialEq, Eq, Structural)]
pub enum ParseOutcome {
    Parts(ParsedRuleParts),
    Fail(ParseFailKind),
}

// ── Character classes ──────────────────────────────────────────────────

/// Whether a character is a decimal digit.
pub open spec fn spec_is_digit(c: char) -> bool {
    48 <= c as u32 <= 57
}

/// The value of a decimal digit character.
pub open spec fn spec_digit_val(c: char) -> nat
    recommends
        spec_is_digit(c),
{
    (c as u32 - 48) as nat
}

/// Whether a character can stand in a metric word: letters, digits,
/// underscore, or the percent sign.
pub open spec fn spec_is_word_char(c: char) -> bool {
    spec_is_digit(c) || (65 <= c as u32 <= 90) || (97 <= c as u32 <= 122) || c == '_' || c == '%'
}

/// Whether a character can stand in a number token: a digit or a dot.
pub open spec fn spec_is_number_char(c: char) -> bool {
    spec_is_digit(c) || c == '.'
}

fn is_digit(c: char) -> (r: bool)
    ensures
        r == spec_is_digit(c),
{
    let u = c as u32;
    48 <= u && u <= 57
}

fn is_word_char(c: char) -> (r: bool)
    ensures
        r == spec_is_word_char(c),
{
    let u = c as u32;
    is_digit(c) || (65 <= u && u <= 90) || (97 <= u && u <= 122) || c == '_' || c == '%'
}

fn is_number_char(c: char) -> (r: bool)
    ensures
        r == spec_is_number_char(c),
{
    is_digit(c) || c == '.'
}

// ── Scanning ───────────────────────────────────────────────────────────

/// The first position at or after `i` that is not whitespace.
pub open spec fn spec_skip_space(s: Seq<char>, i: int) -> int
    recommends
        0 <= i <= s.len(),
    decreases s.len() - i,
{
    if i < s.len() && spec_is_space(s[i]) {
        spec_skip_space(s, i + 1)
    } else {
        i
    }
}

/// The first position at or after `i` that is not a word character.
pub open spec fn spec_scan_word(s: Seq<char>, i: int) -> int
    recommends
        0 <= i <= s.len(),
    decreases s.len() - i,
{
    if i < s.len() && spec_is_word_char(s[i]) {
        spec_scan_word(s, i + 1)
    } else {
        i
    }
}

/// The first position at or after `i` that is not a number character.
pub open spec fn spec_scan_number(s: Seq<char>, i: int) -> int
    recommends
        0 <= i <= s.len(),
    decreases s.len() - i,
{
    if i < s.len() && spec_is_number_char(s[i]) {
        spec_scan_number(s, i + 1)
    } else {
        i
    }
}

fn skip_space_from(s: &str, i: usize) -> (r: usize)
    requires
        i <= s@.len(),
    ensures
        r == spec_skip_space(s@, i as int),
        i <= r <= s@.len(),
    decreases s@.len() - i,
{
    if i < s.unicode_len() && is_space(s.get_char(i)) {
        skip_space_from(s, i + 1)
    } else {
        i
    }
}

fn scan_word_from(s: &str, i: usize) -> (r: usize)
    requires
        i <= s@.len(),
    ensures
        r == spec_scan_word(s@, i as int),
        i <= r <= s@.len(),
    decreases s@.len() - i,
{
    if i < s.unicode_len() && is_word_char(s.get_char(i)) {
        scan_word_from(s, i + 1)
    } else {
        i
    }
}

fn scan_number_from(s: &str, i: usize) -> (r: usize)
    requires
        i <= s@.len(),
    ensures
        r == spec_scan_number(s@, i as int),
        i <= r <= s@.len(),
    decreases s@.len() - i,
{
    if i < s.unicode_len() && is_number_char(s.get_char(i)) {
        scan_number_from(s, i + 1)
    } else {
        i
    }
}

// ── Token recognizers ──────────────────────────────────────────────────

/// The comparison operator standing at position `i`, with its end: the
/// two-character tokens are preferred over the bare `>`, `<` and `=`, so
/// `==` and `=` read as equality and `!=` and `<>` as inequality.
pub open spec fn spec_op_at(s: Seq<char>, i: int) -> (Option<ComparisonOperator>, int) {
    if spec_matches_at(s, ">="@, i) {
        (Some(ComparisonOperator::GreaterEq), i + 2)
    } else if spec_matches_at(s, "<="@, i) {
        (Some(ComparisonOperator::LessEq), i + 2)
    } else if spec_matches_at(s, "=="@, i) {
        (Some(ComparisonOperator::Equals), i + 2)
    } else if spec_matches_at(s, "!="@, i) {
        (Some(ComparisonOperator::NotEquals), i + 2)
    } else if spec_matches_at(s, "<>"@, i) {
        (Some(ComparisonOperator::NotEquals), i + 2)
    } else if 0 <= i < s.len() && s[i] == '>' {
        (Some(ComparisonOperator::Greater), i + 1)
    } else if 0 <= i < s.len() && s[i] == '<' {
        (Some(ComparisonOperator::Less), i + 1)
    } else if 0 <= i < s.len() && s[i] == '=' {
        (Some(ComparisonOperator::Equals), i + 1)
    } else {
        (None, i)
    }
}

fn op_at(s: &str, i: usize) -> (r: (Option<ComparisonOperator>, usize))
    requires
        i <= s@.len(),
    ensures
        r.0 == spec_op_at(s@, i as int).0,
        r.1 == spec_op_at(s@, i as int).1,
        i <= r.1 <= s@.len(),
{
    let slen: usize = s.unicode_len();
    proof {
        reveal_strlit(">=");
        reveal_strlit("<=");
        reveal_strlit("==");
        reveal_strlit("!=");
        reveal_strlit("<>");
        assert((">="@).len() == 2);
        assert(("<="@).len() == 2);
        assert(("=="@).len() == 2);
        assert(("!="@).len() == 2);
        assert(("<>"@).len() == 2);
    }
    if matches_at(s, ">=", i) {
        (Some(ComparisonOperator::GreaterEq), i + 2)
    } else if matches_at(s, "<=", i) {
        (Some(ComparisonOperator::LessEq), i + 2)
    } else if matches_at(s, "==", i) {
        (Some(ComparisonOperator::Equals), i + 2)
    } else if matches_at(s, "!=", i) {
        (Some(ComparisonOperator::NotEquals), i + 2)
    } else if matches_at(s, "<>", i) {
        (Some(ComparisonOperator::NotEquals), i + 2)
    } else if i < slen && s.get_char(i) == '>' {
        (Some(ComparisonOperator::Greater), i + 1)
    } else if i < slen && s.get_char(i) == '<' {
        (Some(ComparisonOperator::Less), i + 1)
    } else if i < slen && s.get_char(i) == '=' {
        (Some(ComparisonOperator::Equals), i + 1)
    } else {
        (None, i)
    }
}

/// The explicit unit token standing at position `i`, case-insensitively,
/// with its end: `%`, `GB`, `MB`, `KB` or `B`.
pub open spec fn spec_unit_at(s: Seq<char>, i: int) -> (Option<ThresholdUnit>, int) {
    let low = spec_lower(s);
    if spec_matches_at(low, "%"@, i) {
        (Some(ThresholdUnit::Percent), i + 1)
    } else if spec_matches_at(low, "gb"@, i) {
        (Some(ThresholdUnit::Gb), i + 2)
    } else if spec_matches_at(low, "mb"@, i) {
        (Some(ThresholdUnit::Mb), i + 2)
    } else if spec_matches_at(low, "kb"@, i) {
        (Some(ThresholdUnit::Kb), i + 2)
    } else if spec_matches_at(low, "b"@, i) {
        (Some(ThresholdUnit::Bytes), i + 1)
    } else {
        (None, i)
    }
}

fn unit_at(s: &str, i: usize) -> (r: (Option<ThresholdUnit>, usize))
    requires
        i <= s@.len(),
    ensures
        r.0 == spec_unit_at(s@, i as int).0,
        r.1 == spec_unit_at(s@, i as int).1,
        i <= r.1 <= s@.len(),
{
    let slen: usize = s.unicode_len();
    proof {
        assert(spec_lower(s@).len() == s@.len());
        reveal_strlit("%");
        reveal_strlit("gb");
        reveal_strlit("mb");
        reveal_strlit("kb");
        reveal_strlit("b");
        assert(("%"@).len() == 1);
        assert(("gb"@).len() == 2);
        assert(("mb"@).len() == 2);
        assert(("kb"@).len() == 2);
        assert(("b"@).len() == 1);
        assert(slen == s@.len());
    }
    if matches_at_ci(s, "%", i) {
        (Some(ThresholdUnit::Percent), i + 1)
    } else if matches_at_ci(s, "gb", i) {
        (Some(ThresholdUnit::Gb), i + 2)
    } else if matches_at_ci(s, "mb", i) {
        (Some(ThresholdUnit::Mb), i + 2)
    } else if matches_at_ci(s, "kb", i) {
        (Some(ThresholdUnit::Kb), i + 2)
    } else if matches_at_ci(s, "b", i) {
        (Some(ThresholdUnit::Bytes), i + 1)
    } else {
        (None, i)
    }
}

/// The window keyword standing at position `i`, case-insensitively, with
/// its end.
pub open spec fn spec_keyword_at(s: Seq<char>, i: int) -> (Option<WindowCondition>, int) {
    let low = spec_lower(s);
    if spec_matches_at(low, "for"@, i) {
        (Some(WindowCondition::For), i + 3)
    } else if spec_matches_at(low, "increasing"@, i) {
        (Some(WindowCondition::Increasing), i + 10)
    } else if spec_matches_at(low, "decreasing"@, i) {
        (Some(WindowCondition::Decreasing), i + 10)
    } else {
        (None, i)
    }
}

fn keyword_at(s: &str, i: usize) -> (r: (Option<WindowCondition>, usize))
    requires
        i <= s@.len(),
    ensures
        r.0 == spec_keyword_at(s@, i as int).0,
        r.1 == spec_keyword_at(s@, i as int).1,
        i <= r.1 <= s@.len(),
{
    let slen: usize = s.unicode_len();
    proof {
        assert(spec_lower(s@).len() == s@.len());
        reveal_strlit("for");
        reveal_strlit("increasing");
        reveal_strlit("decreasing");
        assert(("for"@).len() == 3);
        assert(("increasing"@).len() == 10);
        assert(("decreasing"@).len() == 10);
        assert(slen == s@.len());
    }
    if matches_at_ci(s, "for", i) {
        (Some(WindowCondition::For), i + 3)
    } else if matches_at_ci(s, "increasing", i) {
        (Some(WindowCondition::Increasing), i + 10)
    } else if matches_at_ci(s, "decreasing", i) {
        (Some(WindowCondition::Decreasing), i + 10)
    } else {
        (None, i)
    }
}

/// The duration unit character standing at position `i`, case-insensitively,
/// as its length in seconds: `s`, `m` or `h`.
pub open spec fn spec_dur_unit_at(s: Seq<char>, i: int) -> (Option<u64>, int) {
    let low = spec_lower(s);
    if spec_matches_at(low, "s"@, i) {
        (Some(1u64), i + 1)
    } else if spec_matches_at(low, "m"@, i) {
        (Some(60u64), i + 1)
    } else if spec_matches_at(low, "h"@, i) {
        (Some(3600u64), i + 1)
    } else {
        (None, i)
    }
}

fn dur_unit_at(s: &str, i: usize) -> (r: (Option<u64>, usize))
    requires
        i <= s@.len(),
    ensures
        r.0 == spec_dur_unit_at(s@, i as int).0,
        r.1 == spec_dur_unit_at(s@, i as int).1,
        i <= r.1 <= s@.len(),
{
    let slen: usize = s.unicode_len();
    proof {
        assert(spec_lower(s@).len() == s@.len());
        reveal_strlit("s");
        reveal_strlit("m");
        reveal_strlit("h");
        assert(("s"@).len() == 1);
        assert(("m"@).len() == 1);
        assert(("h"@).len() == 1);
        assert(slen == s@.len());
    }
    if matches_at_ci(s, "s", i) {
        (Some(1u64), i + 1)
    } else if matches_at_ci(s, "m", i) {
        (Some(60u64), i + 1)
    } else if matches_at_ci(s, "h", i) {
        (Some(3600u64), i + 1)
    } else {
        (None, i)
    }
}

// ── Token positions over a trimmed expression ──────────────────────────

/// End of the metric word.
pub open spec fn spec_metric_end(t: Seq<char>) -> int {
    spec_scan_word(t, 0)
}

/// Start of the operator token.
pub open spec fn spec_op_start(t: Seq<char>) -> int {
    spec_skip_space(t, spec_metric_end(t))
}

/// Start of the threshold number.
pub open spec fn spec_thr_start(t: Seq<char>) -> int {
    spec_skip_space(t, spec_op_at(t, spec_op_start(t)).1)
}

/// End of the threshold number.
pub open spec fn spec_thr_end(t: Seq<char>) -> int {
    spec_scan_number(t, spec_thr_start(t))
}

/// Start of the optional unit token.
pub open spec fn spec_unit_start(t: Seq<char>) -> int {
    spec_skip_space(t, spec_thr_end(t))
}

/// Position after the optional unit token and following whitespace.
pub open spec fn spec_window_start(t: Seq<char>) -> int {
    spec_skip_space(t, spec_unit_at(t, spec_unit_start(t)).1)
}

/// Start of the duration number of a windowed rule.
pub open spec fn spec_dur_start(t: Seq<char>) -> int {
    spec_skip_space(t, spec_keyword_at(t, spec_window_start(t)).1)
}

/// End of the duration number of a windowed rule.
pub open spec fn spec_dur_end(t: Seq<char>) -> int {
    spec_scan_number(t, spec_dur_start(t))
}

/// Whether the expression carries an explicit unit token.
pub open spec fn spec_has_unit(t: Seq<char>) -> bool {
    spec_unit_at(t, spec_unit_start(t)).0 is Some
}

/// The default unit of a metric when the expression names none: percent for
/// CPU, bytes for the byte-valued metrics, nothing for counts.
pub open spec fn spec_default_unit(metric: MetricType) -> ThresholdUnit {
    match metric {
        MetricType::Cpu => ThresholdUnit::Percent,
        MetricType::Rss | MetricType::Virtual | MetricType::ReadBytes | MetricType::WriteBytes =>
            ThresholdUnit::Bytes,
        MetricType::Threads | MetricType::Fd => ThresholdUnit::NoUnit,
    }
}

/// The window length in seconds: the duration value in milli units times
/// the unit length, truncated to whole seconds, saturating at
/// [`WINDOW_SECS_MAX`].
pub open spec fn spec_window_secs(dur_milli: int, unit_secs: u64) -> u64 {
    let secs = (dur_milli * unit_secs) / 1000;
    if secs > WINDOW_SECS_MAX {
        WINDOW_SECS_MAX
    } else {
        secs as u64
    }
}

// ── Numbers ────────────────────────────────────────────────────────────

/// The value of a string of decimal digits, most significant first.
pub open spec fn spec_digits_value(s: Seq<char>) -> nat
    decreases s.len(),
{
    if s.len() == 0 {
        0
    } else {
        spec_digits_value(s.drop_last()) * 10 + spec_digit_val(s.last())
    }
}

/// The first position at or after `i` holding a dot, or the length.
pub open spec fn spec_first_dot(s: Seq<char>, i: int) -> int
    recommends
        0 <= i <= s.len(),
    decreases s.len() - i,
{
    if i < s.len() {
        if s[i] == '.' {
            i
        } else {
            spec_first_dot(s, i + 1)
        }
    } else {
        s.len() as int
    }
}

/// Whether every character of the token is a digit or a dot.
pub open spec fn spec_all_number_chars(s: Seq<char>) -> bool {
    forall|j: int| 0 <= j < s.len() ==> spec_is_number_char(#[trigger] s[j])
}

/// The value of the fractional digits in milli units: the first three
/// digits, padded with zeros; further digits are dropped.
pub open spec fn spec_frac_milli(f: Seq<char>) -> nat {
    if f.len() == 0 {
        0
    } else if f.len() == 1 {
        spec_digit_val(f[0]) * 100
    } else if f.len() == 2 {
        spec_digit_val(f[0]) * 100 + spec_digit_val(f[1]) * 10
    } else {
        spec_digit_val(f[0]) * 100 + spec_digit_val(f[1]) * 10 + spec_digit_val(f[2])
    }
}

/// The milli-unit value of a decimal token, or nothing where the token is
/// not a number: empty, more than one dot, a dot alone, or a stray
/// character.
pub open spec fn spec_token_milli(t: Seq<char>) -> Option<int> {
    if t.len() == 0 || !spec_all_number_chars(t) {
        None
    } else {
        let d = spec_first_dot(t, 0);
        if d == t.len() {
            Some(spec_digits_value(t) * 1000 as int)
        } else if spec_first_dot(t, d + 1) != t.len() {
            None
        } else if t.len() == 1 {
            None
        } else {
            Some(
                spec_digits_value(t.take(d)) * 1000 + spec_frac_milli(
                    t.subrange(d + 1, t.len() as int),
                ) as int,
            )
        }
    }
}

/// The milli-unit value of a decimal token, saturated at the largest
/// 64-bit milli magnitude.
pub open spec fn spec_token_milli_sat(t: Seq<char>) -> Option<int> {
    match spec_token_milli(t) {
        Some(v) => Some(
            if v > THRESHOLD_MAX_MILLI {
                THRESHOLD_MAX_MILLI as int
            } else {
                v
            },
        ),
        None => None,
    }
}

/// Appending a digit multiplies the value by ten and adds the digit.
pub proof fn lemma_digits_value_push(s: Seq<char>, c: char)
    ensures
        spec_digits_value(s.push(c)) == spec_digits_value(s) * 10 + spec_digit_val(c),
{
    assert(s.push(c).drop_last() =~= s);
    assert(s.push(c).last() == c);
}

/// Where the characters of `[a, k)` are not dots and `s[k]` is one, the
/// first dot at or after `a` is `k`.
proof fn lemma_first_dot_found(s: Seq<char>, a: int, k: int)
    requires
        0 <= a <= k < s.len(),
        forall|j: int| a <= j < k ==> s[j] != '.',
        s[k] == '.',
    ensures
        spec_first_dot(s, a) == k,
    decreases k - a,
{
    if a < k {
        lemma_first_dot_found(s, a + 1, k);
    }
}

/// Where no character of `[a, len)` is a dot, there is no first dot.
proof fn lemma_first_dot_none(s: Seq<char>, a: int)
    requires
        0 <= a <= s.len(),
        forall|j: int| a <= j < s.len() ==> s[j] != '.',
    ensures
        spec_first_dot(s, a) == s.len(),
    decreases s.len() - a,
{
    if a < s.len() {
        lemma_first_dot_none(s, a + 1);
    }
}

/// Accumulates one more digit into a clamped milli value.
fn accum_digit(v: u128, c: char) -> (r: u128)
    requires
        v <= THRESHOLD_MAX_MILLI,
        spec_is_digit(c),
    ensures
        r <= THRESHOLD_MAX_MILLI,
        r as nat == spec_clamp(v as nat * 10 + spec_digit_val(c)),
{
    let d = (c as u32 - 48) as u128;
    let nv = v * 10 + d;
    if nv > THRESHOLD_MAX_MILLI as u128 {
        THRESHOLD_MAX_MILLI as u128
    } else {
        nv
    }
}

/// A value clamped at the largest 64-bit milli magnitude.
pub open spec fn spec_clamp(v: nat) -> nat {
    if v > THRESHOLD_MAX_MILLI {
        THRESHOLD_MAX_MILLI as nat
    } else {
        v
    }
}

/// Clamping commutes with accumulating a digit.
proof fn lemma_clamp_step(tv: nat, d: nat)
    requires
        d < 10,
    ensures
        spec_clamp(spec_clamp(tv) * 10 + d) == spec_clamp(tv * 10 + d),
{
    if tv > THRESHOLD_MAX_MILLI {
        assert(spec_clamp(tv) == THRESHOLD_MAX_MILLI as nat);
    }
}

/// Reads a decimal token (digits with at most one dot) into milli units,
/// dropping digits beyond the third fractional place and saturating at the
/// largest 64-bit milli magnitude. Returns nothing exactly where the token
/// is not a number.
pub fn parse_decimal_milli(s: &str) -> (r: Option<i64>)
    ensures
        match r {
            Some(v) => spec_token_milli_sat(s@) == Some(v as int),
            None => spec_token_milli_sat(s@) is None,
        },
{
    let n = s.unicode_len();
    if n == 0 {
        return None;
    }
    // Validate the characters and find the dot, refusing a second one.
    let mut i: usize = 0;
    let mut dot: usize = n;
    while i < n
        invariant
            n == s@.len(),
            i <= n,
            dot <= n,
            forall|j: int| 0 <= j < i ==> spec_is_number_char(#[trigger] s@[j]),
            dot == n ==> forall|j: int| 0 <= j < i ==> s@[j] != '.',
            dot < n ==> dot < i && s@[dot as int] == '.' && (forall|j: int|
                0 <= j < dot ==> s@[j] != '.') && (forall|j: int| dot < j < i ==> s@[j] != '.'),
        decreases n - i,
    {
        let c = s.get_char(i);
        if c == '.' {
            if dot < n {
                // A second dot: not a number.
                proof {
                    lemma_first_dot_found(s@, 0, dot as int);
                    lemma_first_dot_found(s@, dot as int + 1, i as int);
                }
                return None;
            }
            dot = i;
        } else if is_digit(c) {
        } else {
            // A stray character: not a number.
            proof {
                assert(!spec_all_number_chars(s@)) by {
                    assert(!spec_is_number_char(s@[i as int]));
                }
            }
            return None;
        }
        i = i + 1;
    }
    proof {
        if dot == n {
            lemma_first_dot_none(s@, 0);
        } else {
            lemma_first_dot_found(s@, 0, dot as int);
            lemma_first_dot_none(s@, dot as int + 1);
        }
    }
    if dot < n && n == 1 {
        // The token is a dot alone.
        return None;
    }
    // Accumulate the whole part.
    let dend: usize = if dot < n {
        dot
    } else {
        n
    };
    let mut v: u128 = 0;
    let mut j: usize = 0;
    while j < dend
        invariant
            n == s@.len(),
            dend <= n,
            dot == n || (dot < n && dend == dot),
            dot == n ==> dend == n,
            j <= dend,
            forall|k: int| 0 <= k < n ==> spec_is_number_char(#[trigger] s@[k]),
            forall|k: int| 0 <= k < dend ==> s@[k] != '.',
            v <= THRESHOLD_MAX_MILLI,
            v as nat == spec_clamp(spec_digits_value(s@.take(j as int))),
        decreases dend - j,
    {
        let c = s.get_char(j);
        proof {
            assert(s@[j as int] != '.');
            assert(spec_is_digit(s@[j as int]));
            assert(s@.take(j + 1 as int) =~= s@.take(j as int).push(s@[j as int]));
            lemma_digits_value_push(s@.take(j as int), s@[j as int]);
            lemma_clamp_step(spec_digits_value(s@.take(j as int)), spec_digit_val(s@[j as int]));
        }
        v = accum_digit(v, c);
        j = j + 1;
    }
    proof {
        assert(s@.take(dend as int) =~= if dot < n {
            s@.take(dot as int)
        } else {
            s@
        });
    }
    // Accumulate up to three fractional digits, then pad to three.
    let ghost int_digits = s@.take(dend as int);
    let mut k: usize = 0;
    if dot < n {
        let mut p: usize = dot + 1;
        while p < n && k < 3
            invariant
                n == s@.len(),
                dot < n,
                dot + 1 <= p <= n,
                k <= 3,
                p == dot + 1 + k,
                forall|q: int| 0 <= q < n ==> spec_is_number_char(#[trigger] s@[q]),
                forall|q: int| dot < q < n ==> s@[q] != '.',
                int_digits == s@.take(dot as int),
                v <= THRESHOLD_MAX_MILLI,
                v as nat == spec_clamp(
                    spec_digits_value(int_digits + s@.subrange(dot + 1 as int, p as int)),
                ),
            decreases n - p,
        {
            let c = s.get_char(p);
            proof {
                assert(spec_is_digit(s@[p as int]));
                let prev = int_digits + s@.subrange(dot + 1 as int, p as int);
                assert(int_digits + s@.subrange(dot + 1 as int, p + 1 as int) =~= prev.push(
                    s@[p as int],
                ));
                lemma_digits_value_push(prev, s@[p as int]);
                lemma_clamp_step(spec_digits_value(prev), spec_digit_val(s@[p as int]));
            }
            v = accum_digit(v, c);
            k = k + 1;
            p = p + 1;
        }
    }
    // Scale by the missing fractional places, so exactly three fractional
    // digits are accounted for.
    let ghost frac_taken = if dot < n {
        s@.subrange(dot + 1 as int, dot + 1 + k as int)
    } else {
        Seq::<char>::empty()
    };
    proof {
        if dot == n {
            assert(int_digits + frac_taken =~= int_digits);
        }
        assert(v as nat == spec_clamp(spec_digits_value(int_digits + frac_taken)));
    }
    let p_mult: u128 = if k == 0 {
        1000
    } else if k == 1 {
        100
    } else if k == 2 {
        10
    } else {
        1
    };
    proof {
        lemma_clamp_mul(spec_digits_value(int_digits + frac_taken), p_mult as nat);
        assert(v * p_mult <= 0x7fff_ffff_ffff_ffffu128 * 1000) by (nonlinear_arith)
            requires
                v <= 0x7fff_ffff_ffff_ffffu128,
                p_mult <= 1000,
        ;
    }
    let nv = v * p_mult;
    let w: u128 = if nv > THRESHOLD_MAX_MILLI as u128 {
        THRESHOLD_MAX_MILLI as u128
    } else {
        nv
    };
    proof {
        lemma_pow10_vals();
        let frac = if dot < n {
            s@.subrange(dot + 1 as int, n as int)
        } else {
            Seq::<char>::empty()
        };
        assert(k as nat == if frac.len() < 3 {
            frac.len()
        } else {
            3nat
        });
        assert(forall|q: int| 0 <= q < frac.len() ==> spec_is_digit(#[trigger] frac[q])) by {
            assert(forall|q: int|
                0 <= q < frac.len() ==> frac[q] == s@[dot + 1 + q] && spec_is_number_char(
                    #[trigger] s@[dot + 1 + q],
                ) && s@[dot + 1 + q] != '.');
        }
        if dot < n {
            assert(frac_taken =~= frac.take(k as int));
        } else {
            assert(frac_taken =~= frac.take(k as int));
        }
        lemma_token_milli_assembled(int_digits, frac, k as nat, p_mult as nat);
        let total = spec_digits_value(int_digits) * 1000 + spec_frac_milli(frac);
        assert(w as nat == spec_clamp(total));
        if dot == n {
            assert(int_digits =~= s@);
            assert(spec_token_milli(s@) == Some(total as int));
        } else {
            assert(int_digits =~= s@.take(dot as int));
            assert(spec_token_milli(s@) == Some(total as int));
        }
        assert(spec_token_milli_sat(s@) == Some(spec_clamp(total) as int));
    }
    Some(w as i64)
}

/// Ten to a power.
pub open spec fn spec_pow10(n: nat) -> nat
    decreases n,
{
    if n == 0 {
        1
    } else {
        10 * spec_pow10((n - 1) as nat)
    }
}

/// The value of concatenated digit strings.
proof fn lemma_digits_concat(a: Seq<char>, b: Seq<char>)
    ensures
        spec_digits_value(a + b) == spec_digits_value(a) * spec_pow10(b.len()) + spec_digits_value(
            b,
        ),
    decreases b.len(),
{
    if b.len() == 0 {
        assert(a + b =~= a);
        assert(spec_digits_value(b) == 0);
        assert(spec_pow10(b.len()) == 1);
        assert(spec_digits_value(a) * 1 == spec_digits_value(a));
    } else {
        let dl = b.drop_last();
        lemma_digits_concat(a, dl);
        assert((a + b).drop_last() =~= a + dl);
        assert((a + b).last() == b.last());
        let p = spec_pow10((b.len() - 1) as nat);
        assert(spec_digits_value(a + b) == spec_digits_value(a + dl) * 10 + spec_digit_val(
            b.last(),
        ));
        assert(spec_digits_value(b) == spec_digits_value(dl) * 10 + spec_digit_val(b.last()));
        assert(spec_digits_value(a + dl) == spec_digits_value(a) * p + spec_digits_value(dl));
        assert((spec_digits_value(a) * p + spec_digits_value(dl)) * 10 == spec_digits_value(a) * (p
            * 10) + spec_digits_value(dl) * 10) by (nonlinear_arith);
        assert(spec_digits_value(a + b) == spec_digits_value(a) * (p * 10) + spec_digits_value(b));
        assert(spec_pow10(b.len()) == p * 10) by {
            assert(spec_pow10(b.len()) == 10 * spec_pow10((b.len() - 1) as nat));
        }
        assert(spec_digits_value(a) * spec_pow10(b.len()) == spec_digits_value(a) * (p * 10));
    }
}

/// Clamping commutes with scaling by a positive constant.
proof fn lemma_clamp_mul(tv: nat, c: nat)
    requires
        1 <= c <= 1000,
    ensures
        spec_clamp(spec_clamp(tv) * c) == spec_clamp(tv * c),
{
    if tv > THRESHOLD_MAX_MILLI {
        assert(spec_clamp(tv) == THRESHOLD_MAX_MILLI as nat);
        assert(THRESHOLD_MAX_MILLI as nat * c >= THRESHOLD_MAX_MILLI as nat) by (nonlinear_arith)
            requires
                c >= 1,
        ;
        assert(tv * c >= tv) by (nonlinear_arith)
            requires
                c >= 1,
        ;
        assert(spec_clamp(spec_clamp(tv) * c) == THRESHOLD_MAX_MILLI as nat);
        assert(spec_clamp(tv * c) == THRESHOLD_MAX_MILLI as nat);
    }
}

/// The concrete small powers of ten.
proof fn lemma_pow10_vals()
    ensures
        spec_pow10(0) == 1,
        spec_pow10(1) == 10,
        spec_pow10(2) == 100,
        spec_pow10(3) == 1000,
{
    assert(spec_pow10(0) == 1);
    assert(spec_pow10(1) == 10 * spec_pow10(0));
    assert(spec_pow10(2) == 10 * spec_pow10(1));
    assert(spec_pow10(3) == 10 * spec_pow10(2));
}

/// The clamped accumulated value, scaled by the missing fractional places,
/// is the clamped milli value of the token.
proof fn lemma_token_milli_assembled(int_digits: Seq<char>, frac: Seq<char>, k: nat, p_mult: nat)
    requires
        k == if frac.len() < 3 {
            frac.len()
        } else {
            3nat
        },
        p_mult == spec_pow10((3 - k) as nat),
        forall|q: int| 0 <= q < frac.len() ==> spec_is_digit(#[trigger] frac[q]),
    ensures
        spec_digits_value(int_digits + frac.take(k as int)) * p_mult == spec_digits_value(
            int_digits,
        ) * 1000 + spec_frac_milli(frac),
{
    lemma_pow10_vals();
    let taken = frac.take(k as int);
    lemma_digits_concat(int_digits, taken);
    let a = spec_digits_value(int_digits);
    let b = spec_digits_value(taken);
    assert(spec_digits_value(int_digits + taken) == a * spec_pow10(k) + b);
    if k == 0 {
        assert(p_mult == spec_pow10(3));
        assert(taken =~= Seq::<char>::empty());
        assert(b == 0);
        assert(frac.len() == 0);
        assert((a * 1 + 0) * 1000 == a * 1000 + 0);
    } else if k == 1 {
        assert(p_mult == spec_pow10(2));
        assert(taken =~= seq![frac[0]]);
        lemma_digits_value_small1(frac[0]);
        assert(frac.len() == 1);
        assert((a * 10 + b) * 100 == a * 1000 + b * 100);
    } else if k == 2 {
        assert(p_mult == spec_pow10(1));
        assert(taken =~= seq![frac[0], frac[1]]);
        lemma_digits_value_small2(frac[0], frac[1]);
        assert(frac.len() == 2);
        assert((a * 100 + b) * 10 == a * 1000 + b * 10);
        assert(b * 10 == spec_digit_val(frac[0]) * 100 + spec_digit_val(frac[1]) * 10);
    } else {
        assert(k == 3);
        assert(p_mult == spec_pow10(0));
        assert(taken =~= seq![frac[0], frac[1], frac[2]]);
        lemma_digits_value_small3(frac[0], frac[1], frac[2]);
        assert(frac.len() >= 3);
        assert((a * 1000 + b) * 1 == a * 1000 + b);
    }
}

/// The value of a one-digit string.
proof fn lemma_digits_value_small1(c0: char)
    ensures
        spec_digits_value(seq![c0]) == spec_digit_val(c0),
{
    assert(seq![c0].drop_last() =~= Seq::<char>::empty());
    assert(spec_digits_value(Seq::<char>::empty()) == 0);
    assert(seq![c0].last() == c0);
}

/// The value of a two-digit string.
proof fn lemma_digits_value_small2(c0: char, c1: char)
    ensures
        spec_digits_value(seq![c0, c1]) == spec_digit_val(c0) * 10 + spec_digit_val(c1),
{
    assert(seq![c0, c1].drop_last() =~= seq![c0]);
    assert(seq![c0, c1].last() == c1);
    lemma_digits_value_small1(c0);
}

/// The value of a three-digit string.
proof fn lemma_digits_value_small3(c0: char, c1: char, c2: char)
    ensures
        spec_digits_value(seq![c0, c1, c2]) == spec_digit_val(c0) * 100 + spec_digit_val(c1) * 10
            + spec_digit_val(c2),
{
    assert(seq![c0, c1, c2].drop_last() =~= seq![c0, c1]);
    lemma_digits_value_small2(c0, c1);
}

// ── The grammar as one spec function ───────────────────────────────────

/// The outcome of matching a trimmed expression against the rule grammar
/// and resolving its tokens: the reference the parser is held to.
pub open spec fn spec_parse(t: Seq<char>) -> ParseOutcome {
    if t.len() == 0 {
        ParseOutcome::Fail(ParseFailKind::Empty)
    } else if spec_metric_end(t) == 0 {
        ParseOutcome::Fail(ParseFailKind::Invalid)
    } else if spec_op_at(t, spec_op_start(t)).0 is None {
        ParseOutcome::Fail(ParseFailKind::Invalid)
    } else if spec_thr_end(t) == spec_thr_start(t) {
        ParseOutcome::Fail(ParseFailKind::Invalid)
    } else if spec_window_start(t) == t.len() {
        spec_resolve(t, None)
    } else if spec_keyword_at(t, spec_window_start(t)).0 is None {
        ParseOutcome::Fail(ParseFailKind::Invalid)
    } else if !(spec_keyword_at(t, spec_window_start(t)).1 < t.len() && spec_is_space(
        t[spec_keyword_at(t, spec_window_start(t)).1],
    )) {
        ParseOutcome::Fail(ParseFailKind::Invalid)
    } else if spec_dur_end(t) == spec_dur_start(t) {
        ParseOutcome::Fail(ParseFailKind::Invalid)
    } else if spec_dur_unit_at(t, spec_skip_space(t, spec_dur_end(t))).0 is None {
        ParseOutcome::Fail(ParseFailKind::Invalid)
    } else if spec_skip_space(t, spec_dur_unit_at(t, spec_skip_space(t, spec_dur_end(t))).1)
        != t.len() {
        ParseOutcome::Fail(ParseFailKind::Invalid)
    } else {
        spec_resolve(
            t,
            Some(
                (
                    spec_keyword_at(t, spec_window_start(t)).0->Some_0,
                    spec_dur_unit_at(t, spec_skip_space(t, spec_dur_end(t))).0->Some_0,
                ),
            ),
        )
    }
}

/// Resolves the extracted tokens of a grammatical expression: the metric
/// word through the alias table, the threshold and duration numbers into
/// milli units, and the unit with its metric-dependent default.
pub open spec fn spec_resolve(t: Seq<char>, window: Option<(WindowCondition, u64)>) -> ParseOutcome {
    match MetricType::spec_of_word(spec_lower(t.take(spec_metric_end(t)))) {
        None => ParseOutcome::Fail(ParseFailKind::BadMetric),
        Some(metric) => match spec_token_milli_sat(t.subrange(spec_thr_start(t), spec_thr_end(t))) {
            None => ParseOutcome::Fail(ParseFailKind::BadThreshold),
            Some(thr) => {
                let unit = match spec_unit_at(t, spec_unit_start(t)).0 {
                    Some(u) => u,
                    None => spec_default_unit(metric),
                };
                let operator = spec_op_at(t, spec_op_start(t)).0->Some_0;
                match window {
                    None => ParseOutcome::Parts(
                        ParsedRuleParts {
                            metric,
                            operator,
                            threshold: thr as i64,
                            unit,
                            window_secs: None,
                            condition: None,
                        },
                    ),
                    Some((cond, mult)) => match spec_token_milli_sat(
                        t.subrange(spec_dur_start(t), spec_dur_end(t)),
                    ) {
                        None => ParseOutcome::Fail(ParseFailKind::BadDuration),
                        Some(dm) => ParseOutcome::Parts(
                            ParsedRuleParts {
                                metric,
                                operator,
                                threshold: thr as i64,
                                unit,
                                window_secs: Some(spec_window_secs(dm, mult)),
                                condition: Some(cond),
                            },
                        ),
                    },
                }
            },
        },
    }
}

/// Resolves the unit with its metric-dependent default.
fn resolve_unit(unit_opt: Option<ThresholdUnit>, metric: &MetricType) -> (r: ThresholdUnit)
    ensures
        r == match unit_opt {
            Some(u) => u,
            None => spec_default_unit(*metric),
        },
{
    match unit_opt {
        Some(u) => u,
        None => match metric {
            MetricType::Cpu => ThresholdUnit::Percent,
            MetricType::Rss | MetricType::Virtual | MetricType::ReadBytes
                | MetricType::WriteBytes => ThresholdUnit::Bytes,
            MetricType::Threads | MetricType::Fd => ThresholdUnit::NoUnit,
        },
    }
}

/// Converts a duration value in milli units and a unit length in seconds
/// into whole seconds, saturating at [`WINDOW_SECS_MAX`].
fn window_secs(dur_milli: i64, unit_secs: u64) -> (r: u64)
    requires
        dur_milli >= 0,
        unit_secs <= 3600,
    ensures
        r == spec_window_secs(dur_milli as int, unit_secs),
{
    proof {
        assert((dur_milli as u128) * (unit_secs as u128) <= 0x7fff_ffff_ffff_ffffu128 * 3600)
            by (nonlinear_arith)
            requires
                0 <= dur_milli as u128 <= 0x7fff_ffff_ffff_ffffu128,
                unit_secs as u128 <= 3600,
        ;
    }
    let total: u128 = (dur_milli as u128) * (unit_secs as u128) / 1000;
    if total > WINDOW_SECS_MAX as u128 {
        WINDOW_SECS_MAX
    } else {
        total as u64
    }
}

/// Parser for alert rule DSL expressions.
#[derive(Debug)]
pub struct AlertParser;

impl AlertParser {
    /// Creates a new alert parser.
    pub fn new() -> (r: AlertParser) {
        AlertParser
    }

    /// Parses an alert rule expression such as `"rss>1.5GB"` or
    /// `"cpu>80% for 30s"`.
    ///
    /// The outcome agrees with [`spec_parse`] on the trimmed expression: a
    /// rule carrying the resolved parts and the trimmed text verbatim, or
    /// the error the grammar run dictates, holding the offending token.
    pub fn parse(&self, expression: &str) -> (r: Result<AlertRule, AlertParserError>)
        ensures
            ({
                let t = spec_trim(expression@);
                match r {
                    Ok(rule) => {
                        &&& spec_parse(t) matches ParseOutcome::Parts(p) && rule.metric == p.metric
                            && rule.operator == p.operator && rule.threshold == p.threshold
                            && rule.unit == p.unit && rule.window == p.window_secs
                            && rule.window_condition == p.condition
                        &&& rule.expression@ == t
                    },
                    Err(e) => match e {
                        AlertParserError::EmptyExpression => spec_parse(t) == ParseOutcome::Fail(
                            ParseFailKind::Empty,
                        ),
                        AlertParserError::InvalidExpression(s) => spec_parse(t)
                            == ParseOutcome::Fail(ParseFailKind::Invalid) && s@ == t,
                        AlertParserError::UnknownMetric(s) => spec_parse(t) == ParseOutcome::Fail(
                            ParseFailKind::BadMetric,
                        ) && s@ == t.take(spec_metric_end(t)),
                        AlertParserError::InvalidThreshold(s) => spec_parse(t)
                            == ParseOutcome::Fail(ParseFailKind::BadThreshold) && s@ == t.subrange(
                            spec_thr_start(t),
                            spec_thr_end(t),
                        ),
                        AlertParserError::InvalidDuration(s) => spec_parse(t) == ParseOutcome::Fail(
                            ParseFailKind::BadDuration,
                        ) && s@ == t.subrange(spec_dur_start(t), spec_dur_end(t)),
                        _ => false,
                    },
                }
            }),
    {
        let trimmed = str_trim(expression);
        let t = trimmed.as_str();
        let n = t.unicode_len();
        if n == 0 {
            return Err(AlertParserError::EmptyExpression);
        }
        let m_end = scan_word_from(t, 0);
        if m_end == 0 {
            return Err(AlertParserError::InvalidExpression(trimmed));
        }
        let i1 = skip_space_from(t, m_end);
        let (op_opt, op_end) = op_at(t, i1);
        let operator = match op_opt {
            Some(o) => o,
            None => {
                return Err(AlertParserError::InvalidExpression(trimmed));
            },
        };
        let thr_start = skip_space_from(t, op_end);
        let thr_end = scan_number_from(t, thr_start);
        if thr_end == thr_start {
            return Err(AlertParserError::InvalidExpression(trimmed));
        }
        let unit_start = skip_space_from(t, thr_end);
        let (unit_opt, unit_end) = unit_at(t, unit_start);
        let w_start = skip_space_from(t, unit_end);
        let mut window_info: Option<(WindowCondition, u64, usize, usize)> = None;
        if w_start < n {
            let (cond_opt, k_end) = keyword_at(t, w_start);
            let cond = match cond_opt {
                Some(c) => c,
                None => {
                    return Err(AlertParserError::InvalidExpression(trimmed));
                },
            };
            if !(k_end < n && is_space(t.get_char(k_end))) {
                return Err(AlertParserError::InvalidExpression(trimmed));
            }
            let d_start = skip_space_from(t, k_end);
            let d_end = scan_number_from(t, d_start);
            if d_end == d_start {
                return Err(AlertParserError::InvalidExpression(trimmed));
            }
            let du_pos = skip_space_from(t, d_end);
            let (du_opt, du_end) = dur_unit_at(t, du_pos);
            let mult = match du_opt {
                Some(m) => m,
                None => {
                    return Err(AlertParserError::InvalidExpression(trimmed));
                },
            };
            let rest = skip_space_from(t, du_end);
            if rest != n {
                return Err(AlertParserError::InvalidExpression(trimmed));
            }
            window_info = Some((cond, mult, d_start, d_end));
        }
        // Grammar matched: resolve the tokens.
        let metric_word = t.substring_char(0, m_end);
        let metric = match MetricType::parse(metric_word) {
            Ok(m) => m,
            Err(_) => {
                return Err(AlertParserError::UnknownMetric(String::from_str(metric_word)));
            },
        };
        let thr_tok = t.substring_char(thr_start, thr_end);
        let threshold = match parse_decimal_milli(thr_tok) {
            Some(v) => v,
            None => {
                return Err(AlertParserError::InvalidThreshold(String::from_str(thr_tok)));
            },
        };
        let unit = resolve_unit(unit_opt, &metric);
        let mut window: Option<u64> = None;
        let mut window_condition: Option<WindowCondition> = None;
        if let Some((cond, mult, d_start, d_end)) = window_info {
            let dur_tok = t.substring_char(d_start, d_end);
            let dur_milli = match parse_decimal_milli(dur_tok) {
                Some(v) => v,
                None => {
                    return Err(AlertParserError::InvalidDuration(String::from_str(dur_tok)));
                },
            };
            window = Some(window_secs(dur_milli, mult));
            window_condition = Some(cond);
        }
        Ok(
            AlertRule {
                expression: trimmed,
                metric,
                operator,
                threshold,
                unit,
                window,
                window_condition,
            },
        )
    }

    /// Validates an expression without keeping the parsed value.
    pub fn is_valid(&self, expression: &str) -> (r: bool)
        ensures
            r == (spec_parse(spec_trim(expression@)) matches ParseOutcome::Parts(_)),
    {
        match self.parse(expression) {
            Ok(_) => true,
            Err(_) => false,
        }
    }

    /// Returns a description of the supported DSL syntax.
    pub fn syntax_help() -> &'static str {
        r#"Alert DSL Syntax:

Basic format:
  metric OPERATOR threshold[UNIT]

With time window:
  metric OPERATOR threshold[UNIT] CONDITION DURATION

Metrics:
  cpu, cpu%     - CPU percentage
  rss, mem      - Resident memory (RAM)
  virtual, vsz  - Virtual memory
  threads       - Thread count
  fd, fds       - File descriptors
  read          - Read bytes
  write         - Write bytes

Operators:
  >  >=  <  <=  ==  !=

Units:
  %  - Percentage (for cpu)
  B, KB, MB, GB - Bytes (for memory/io)
  (none) - Raw number (for threads, fd)

Conditions:
  for         - Condition must hold for duration
  increasing  - Value increasing over duration
  decreasing  - Value decreasing over duration

Duration:
  Ns  - N seconds (e.g., 30s)
  Nm  - N minutes (e.g., 5m)
  Nh  - N hours (e.g., 1h)

Examples:
  cpu>80%
  rss>1.5GB
  cpu>80% for 30s
  threads>100
  fd>1000
  rss>2GB increasing 5m"#
    }
}

// ── Laws of the grammar ────────────────────────────────────────────────

/// Law: a grammatical expression without an explicit unit token resolves to
/// the metric's default unit: percent for CPU, bytes for byte-valued
/// metrics, nothing for counts.
pub proof fn lemma_default_unit_when_absent(t: Seq<char>)
    requires
        !spec_has_unit(t),
    ensures
        spec_parse(t) matches ParseOutcome::Parts(p) ==> p.unit == spec_default_unit(p.metric),
{
}

/// Law: a parsed rule carries a window exactly when it carries a window
/// condition: never one without the other.
pub proof fn lemma_window_pair(t: Seq<char>)
    ensures
        spec_parse(t) matches ParseOutcome::Parts(p) ==> (p.window_secs is Some <==> p.condition
            is Some),
{
}

} // verus!
