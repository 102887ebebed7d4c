//! Extended process information gathering: the pure parsing behind the
//! platform commands the application shell runs.

use vstd::prelude::*;

use crate::command_parser::spec_all_digits;
use crate::procwatch::parser::spec_digits_value;

verus! {

/// Service for enriching process information with extended details.
#[derive(Debug, Clone, Copy)]
pub struct ProcessEnrichmentService;

impl ProcessEnrichmentService {
    /// Creates a new `ProcessEnrichmentService`.
    pub fn new() -> (r: ProcessEnrichmentService) {
        ProcessEnrichmentService
    }
}

/// A number token read as milliseconds-free seconds: all digits give the
/// value, anything else zero.
pub open spec fn spec_num_or_zero(s: Seq<char>) -> nat {
    if s.len() > 0 && spec_all_digits(s) && spec_digits_value(s) <= u64::MAX {
        spec_digits_value(s)
    } else {
        0
    }
}

/// Reads a digit token, giving zero for anything that is not a plain
/// number within 64 bits.
fn num_or_zero(s: &str) -> (r: u64)
    ensures
        r == spec_num_or_zero(s@),
{
    let n = s.unicode_len();
    if n == 0 {
        return 0;
    }
    let mut v: u64 = 0;
    let mut i: usize = 0;
    while i < n
        invariant
            n == s@.len(),
            i <= n,
            forall|j: int| 0 <= j < i ==> crate::procwatch::parser::spec_is_digit(#[trigger] s@[j]),
            v == spec_digits_value(s@.take(i as int)),
            spec_digits_value(s@.take(i as int)) <= u64::MAX,
        decreases n - i,
    {
        let c = s.get_char(i);
        let u = c as u32;
        if !(48 <= u && u <= 57) {
            proof {
                assert(!crate::procwatch::parser::spec_is_digit(s@[i as int]));
                assert(!spec_all_digits(s@));
            }
            return 0;
        }
        proof {
            let pfx = s@.take(i as int);
            assert(s@.take(i + 1 as int) =~= pfx.push(s@[i as int]));
            crate::procwatch::parser::lemma_digits_value_push(pfx, s@[i as int]);
        }
        let d = (u - 48) as u64;
        if v > (u64::MAX - d) / 10 {
            // The number overflows 64 bits: treated as not a number.
            proof {
                lemma_digits_monotone(s@, i + 1 as int);
            }
            return 0;
        }
        v = v * 10 + d;
        i = i + 1;
    }
    proof {
        assert(s@.take(n as int) =~= s@);
        assert(spec_all_digits(s@));
    }
    v
}

/// A digit string's value only grows as it extends.
proof fn lemma_digits_monotone(s: Seq<char>, k: int)
    requires
        0 <= k <= s.len(),
    ensures
        spec_digits_value(s) >= spec_digits_value(s.take(k)),
    decreases s.len() - k,
{
    if k < s.len() {
        lemma_digits_monotone(s, k + 1);
        let a = s.take(k);
        let b = s.take(k + 1);
        assert(b =~= a.push(s[k]));
        crate::procwatch::parser::lemma_digits_value_push(a, s[k]);
    } else {
        assert(s.take(k) =~= s);
    }
}

/// Parses a CPU time string in the format `HH:MM:SS` or `MM:SS` into
/// milliseconds; fields that are not plain numbers count as zero, and other
/// shapes give zero outright. The result is always a whole number of
/// seconds in milliseconds.
pub fn parse_cpu_time(time: &str) -> (r: u64)
    ensures
        r % 1000 == 0,
{
    let n = time.unicode_len();
    // Find the colon positions.
    let mut first: usize = n;
    let mut second: usize = n;
    let mut count: u32 = 0;
    let mut i: usize = 0;
    while i < n
        invariant
            n == time@.len(),
            i <= n,
            count == 0 ==> first == n && second == n,
            count >= 1 ==> first < i && first < n,
            count >= 2 ==> second < i && first < second && second < n,
            count <= 3,
        decreases n - i,
    {
        if time.get_char(i) == ':' {
            if count == 0 {
                first = i;
            } else if count == 1 {
                second = i;
            }
            if count < 3 {
                count = count + 1;
            }
        }
        i = i + 1;
    }
    if count == 2 {
        // HH:MM:SS, with fractional seconds dropped.
        let hours = num_or_zero(time.substring_char(0, first));
        let minutes = num_or_zero(time.substring_char(first + 1, second));
        let sec_tok = time.substring_char(second + 1, n);
        let seconds = seconds_before_dot(sec_tok);
        saturating_ms(hours, minutes, seconds)
    } else if count == 1 {
        // MM:SS, with fractional seconds dropped.
        let minutes = num_or_zero(time.substring_char(0, first));
        let sec_tok = time.substring_char(first + 1, n);
        let seconds = seconds_before_dot(sec_tok);
        saturating_ms(0, minutes, seconds)
    } else {
        0
    }
}

/// The seconds field up to an optional dot.
fn seconds_before_dot(s: &str) -> (r: u64) {
    let n = s.unicode_len();
    let mut dot: usize = n;
    let mut i: usize = 0;
    while i < n
        invariant
            n == s@.len(),
            i <= n,
            dot <= n,
        decreases n - i,
    {
        if s.get_char(i) == '.' && dot == n {
            dot = i;
        }
        i = i + 1;
    }
    num_or_zero(s.substring_char(0, dot))
}

/// Combines hours, minutes and seconds into milliseconds, saturating.
fn saturating_ms(hours: u64, minutes: u64, seconds: u64) -> (r: u64)
    ensures
        r % 1000 == 0,
{
    let h = hours as u128;
    let m = minutes as u128;
    let s = seconds as u128;
    let total = (h * 3600 + m * 60 + s) * 1000;
    if total > 18_446_744_073_709_551_000u128 {
        // Saturate at a whole number of seconds.
        18_446_744_073_709_551_000u64
    } else {
        proof {
            assert(total % 1000 == 0) by (nonlinear_arith)
                requires
                    total == (h * 3600 + m * 60 + s) * 1000,
            ;
        }
        total as u64
    }
}

} // verus!
