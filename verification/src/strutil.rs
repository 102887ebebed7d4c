//! Character-level string helpers shared by the parsers and formatters.
//!
//! Everything here works on `Seq<char>` views, so contracts elsewhere can
//! speak of string contents exactly.

use vstd::prelude::*;

verus! {

/// Relies on `String::push`: appends the given character to the end of the
/// string.
pub assume_specification[ String::push ](s: &mut String, c: char)
    ensures
        final(s)@ == old(s)@.push(c),
;

/// ASCII lower-casing of one character; everything outside `A..Z` is kept.
pub open spec fn spec_char_lower(c: char) -> char {
    if 65 <= c as u32 <= 90 {
        ((c as u32 + 32) as u8) as char
    } else {
        c
    }
}

/// ASCII upper-casing of one character; everything outside `a..z` is kept.
pub open spec fn spec_char_upper(c: char) -> char {
    if 97 <= c as u32 <= 122 {
        ((c as u32 - 32) as u8) as char
    } else {
        c
    }
}

/// ASCII lower-casing of a character sequence.
pub open spec fn spec_lower(s: Seq<char>) -> Seq<char> {
    s.map_values(|c: char| spec_char_lower(c))
}

/// ASCII upper-casing of a character sequence.
pub open spec fn spec_upper(s: Seq<char>) -> Seq<char> {
    s.map_values(|c: char| spec_char_upper(c))
}

/// Lower-cases one ASCII letter, leaving every other character alone.
pub fn char_lower(c: char) -> (r: char)
    ensures
        r == spec_char_lower(c),
{
    let u = c as u32;
    if 65 <= u && u <= 90 {
        ((u + 32) as u8) as char
    } else {
        c
    }
}

/// Upper-cases one ASCII letter, leaving every other character alone.
pub fn char_upper(c: char) -> (r: char)
    ensures
        r == spec_char_upper(c),
{
    let u = c as u32;
    if 97 <= u && u <= 122 {
        ((u - 32) as u8) as char
    } else {
        c
    }
}

/// Returns the ASCII lower-cased copy of a string.
pub fn to_ascii_lower(s: &str) -> (r: String)
    ensures
        r@ == spec_lower(s@),
{
    let n = s.unicode_len();
    let mut out = String::new();
    let mut i: usize = 0;
    while i < n
        invariant
            n == s@.len(),
            i <= n,
            out@ == spec_lower(s@.take(i as int)),
        decreases n - i,
    {
        let c = char_lower(s.get_char(i));
        out.push(c);
        proof {
            assert(spec_lower(s@.take(i + 1 as int)) =~= spec_lower(s@.take(i as int)).push(
                spec_char_lower(s@[i as int]),
            ));
        }
        i = i + 1;
    }
    proof {
        assert(s@.take(n as int) =~= s@);
    }
    out
}

/// Returns the ASCII upper-cased copy of a string.
pub fn to_ascii_upper(s: &str) -> (r: String)
    ensures
        r@ == spec_upper(s@),
{
    let n = s.unicode_len();
    let mut out = String::new();
    let mut i: usize = 0;
    while i < n
        invariant
            n == s@.len(),
            i <= n,
            out@ == spec_upper(s@.take(i as int)),
        decreases n - i,
    {
        let c = char_upper(s.get_char(i));
        out.push(c);
        proof {
            assert(spec_upper(s@.take(i + 1 as int)) =~= spec_upper(s@.take(i as int)).push(
                spec_char_upper(s@[i as int]),
            ));
        }
        i = i + 1;
    }
    proof {
        assert(s@.take(n as int) =~= s@);
    }
    out
}

/// Whether two strings hold the same characters.
pub fn str_eq(a: &str, b: &str) -> (r: bool)
    ensures
        r == (a@ == b@),
{
    let na = a.unicode_len();
    let nb = b.unicode_len();
    if na != nb {
        proof {
            assert(a@ != b@) by {
                if a@ == b@ {
                    assert(a@.len() == b@.len());
                }
            }
        }
        return false;
    }
    let mut i: usize = 0;
    while i < na
        invariant
            na == a@.len() == b@.len(),
            i <= na,
            forall|j: int| 0 <= j < i ==> a@[j] == b@[j],
        decreases na - i,
    {
        if a.get_char(i) != b.get_char(i) {
            return false;
        }
        i = i + 1;
    }
    proof {
        assert(a@ =~= b@);
    }
    true
}

/// Whether two strings are equal ignoring ASCII case.
pub fn str_eq_ignore_case(a: &str, b: &str) -> (r: bool)
    ensures
        r == (spec_lower(a@) == spec_lower(b@)),
{
    let la = to_ascii_lower(a);
    let lb = to_ascii_lower(b);
    str_eq(la.as_str(), lb.as_str())
}

/// Whether `needle` occurs in `hay` starting at position `i`.
pub open spec fn spec_matches_at(hay: Seq<char>, needle: Seq<char>, i: int) -> bool {
    0 <= i && i + needle.len() <= hay.len() && hay.subrange(i, i + needle.len()) == needle
}

/// Whether `needle` occurs anywhere in `hay`.
pub open spec fn spec_contains(hay: Seq<char>, needle: Seq<char>) -> bool {
    exists|i: int| spec_matches_at(hay, needle, i)
}

/// Whether `needle` occurs in `hay` starting at character position `i`.
pub fn matches_at(hay: &str, needle: &str, i: usize) -> (r: bool)
    requires
        i <= hay@.len(),
    ensures
        r == spec_matches_at(hay@, needle@, i as int),
{
    let nh = hay.unicode_len();
    let nn = needle.unicode_len();
    if nn > nh - i {
        return false;
    }
    let mut j: usize = 0;
    while j < nn
        invariant
            nh == hay@.len(),
            nn == needle@.len(),
            i + nn <= nh,
            j <= nn,
            forall|k: int| 0 <= k < j ==> hay@[i + k] == needle@[k],
        decreases nn - j,
    {
        if hay.get_char(i + j) != needle.get_char(j) {
            proof {
                assert(hay@.subrange(i as int, i + nn) != needle@) by {
                    if hay@.subrange(i as int, i + nn) == needle@ {
                        assert(hay@.subrange(i as int, i + nn)[j as int] == needle@[j as int]);
                    }
                }
            }
            return false;
        }
        j = j + 1;
    }
    proof {
        assert(hay@.subrange(i as int, i + nn) =~= needle@);
    }
    true
}

/// Whether the lower-cased `hay` holds `needle` (itself lowercase) starting
/// at position `i`.
pub fn matches_at_ci(hay: &str, needle: &str, i: usize) -> (r: bool)
    requires
        i <= hay@.len(),
    ensures
        r == spec_matches_at(spec_lower(hay@), needle@, i as int),
{
    let nh = hay.unicode_len();
    let nn = needle.unicode_len();
    proof {
        assert(spec_lower(hay@).len() == hay@.len());
    }
    if nn > nh - i {
        return false;
    }
    let mut j: usize = 0;
    while j < nn
        invariant
            nh == hay@.len(),
            nn == needle@.len(),
            i + nn <= nh,
            j <= nn,
            forall|k: int| 0 <= k < j ==> spec_lower(hay@)[i + k] == needle@[k],
        decreases nn - j,
    {
        if char_lower(hay.get_char(i + j)) != needle.get_char(j) {
            proof {
                assert(spec_lower(hay@)[i + j] == spec_char_lower(hay@[i + j]));
                assert(spec_lower(hay@).subrange(i as int, i + nn) != needle@) by {
                    if spec_lower(hay@).subrange(i as int, i + nn) == needle@ {
                        assert(spec_lower(hay@).subrange(i as int, i + nn)[j as int]
                            == needle@[j as int]);
                    }
                }
            }
            return false;
        }
        proof {
            assert(spec_lower(hay@)[i + j] == spec_char_lower(hay@[i + j]));
        }
        j = j + 1;
    }
    proof {
        assert(spec_lower(hay@).subrange(i as int, i + nn) =~= needle@);
    }
    true
}

/// Whether `needle` occurs anywhere in `hay`.
pub fn str_contains(hay: &str, needle: &str) -> (r: bool)
    ensures
        r == spec_contains(hay@, needle@),
{
    let nh = hay.unicode_len();
    let nn = needle.unicode_len();
    if nn > nh {
        return false;
    }
    if nn == 0 {
        proof {
            assert(hay@.subrange(0, 0) =~= needle@);
            assert(spec_matches_at(hay@, needle@, 0));
        }
        return true;
    }
    let limit = nh - nn;
    let mut i: usize = 0;
    while i <= limit
        invariant
            nh == hay@.len(),
            nn == needle@.len(),
            1 <= nn <= nh,
            limit == nh - nn,
            i <= limit + 1,
            forall|k: int| 0 <= k < i ==> !spec_matches_at(hay@, needle@, k),
        decreases limit + 1 - i,
    {
        if matches_at(hay, needle, i) {
            return true;
        }
        i = i + 1;
    }
    proof {
        assert forall|k: int| !spec_matches_at(hay@, needle@, k) by {
            if 0 <= k < i {
                assert(!spec_matches_at(hay@, needle@, k));
            }
        }
    }
    false
}

/// The ASCII whitespace characters the tokenizers and the rule parser skip.
pub open spec fn spec_is_space(c: char) -> bool {
    c == ' ' || c == '\t' || c == '\n' || c == '\r'
}

/// Whether a character is ASCII whitespace.
pub fn is_space(c: char) -> (r: bool)
    ensures
        r == spec_is_space(c),
{
    c == ' ' || c == '\t' || c == '\n' || c == '\r'
}

/// The trimmed view of a string: the subrange with leading and trailing
/// ASCII whitespace removed.
pub open spec fn spec_trim(s: Seq<char>) -> Seq<char>
    decreases s.len(),
{
    if s.len() == 0 {
        s
    } else if spec_is_space(s[0]) {
        spec_trim(s.subrange(1, s.len() as int))
    } else if spec_is_space(s[s.len() - 1]) {
        spec_trim(s.subrange(0, s.len() - 1))
    } else {
        s
    }
}

/// Removes leading and trailing ASCII whitespace.
pub fn str_trim(s: &str) -> (r: String)
    ensures
        r@ == spec_trim(s@),
        r@.len() > 0 ==> !spec_is_space(r@[0]) && !spec_is_space(r@[r@.len() - 1]),
{
    let n = s.unicode_len();
    let mut lo: usize = 0;
    while lo < n && is_space(s.get_char(lo))
        invariant
            n == s@.len(),
            lo <= n,
            forall|k: int| 0 <= k < lo ==> spec_is_space(s@[k]),
        decreases n - lo,
    {
        lo = lo + 1;
    }
    let mut hi: usize = n;
    while hi > lo && is_space(s.get_char(hi - 1))
        invariant
            n == s@.len(),
            lo <= hi <= n,
            forall|k: int| 0 <= k < lo ==> spec_is_space(s@[k]),
            lo < n ==> !spec_is_space(s@[lo as int]),
            forall|k: int| hi <= k < n ==> spec_is_space(s@[k]),
        decreases hi,
    {
        hi = hi - 1;
    }
    let mid = s.substring_char(lo, hi);
    proof {
        lemma_trim_range(s@, lo as int, hi as int);
    }
    String::from_str(mid)
}

/// Trimming a sequence whose outer whitespace runs are exactly
/// `[0, lo)` and `[hi, len)` yields the subrange `[lo, hi)`.
proof fn lemma_trim_range(s: Seq<char>, lo: int, hi: int)
    requires
        0 <= lo <= hi <= s.len(),
        forall|k: int| 0 <= k < lo ==> spec_is_space(s[k]),
        forall|k: int| hi <= k < s.len() ==> spec_is_space(s[k]),
        lo < hi ==> !spec_is_space(s[lo]) && !spec_is_space(s[hi - 1]),
    ensures
        spec_trim(s) == s.subrange(lo, hi),
    decreases s.len(),
{
    if s.len() == 0 {
        assert(spec_trim(s) =~= s.subrange(lo, hi));
    } else if spec_is_space(s[0]) {
        let t = s.subrange(1, s.len() as int);
        if lo == 0 {
            assert(hi == 0);
            lemma_trim_range(t, 0, 0);
            assert(t.subrange(0, 0) =~= s.subrange(lo, hi));
        } else {
            lemma_trim_range(t, lo - 1, hi - 1);
            assert(t.subrange(lo - 1, hi - 1) =~= s.subrange(lo, hi));
        }
    } else if spec_is_space(s[s.len() - 1]) {
        let t = s.subrange(0, s.len() - 1);
        assert(lo == 0);
        assert(hi < s.len());
        lemma_trim_range(t, lo, hi);
        assert(t.subrange(lo, hi) =~= s.subrange(lo, hi));
    } else {
        assert(lo == 0 && hi == s.len());
        assert(spec_trim(s) =~= s.subrange(lo, hi));
    }
}

} // verus!
