//! Decimal rendering of integers and fixed-point milli values.
//!
//! Every metric value and threshold in this crate is carried as an integer
//! count of milli units (thousandths), so all human-readable output reduces
//! to rendering integers and rounding milli values to a given number of
//! decimal places. Rounding is half-to-even, matching the usual rendering of
//! binary floating point at a fixed precision.

use vstd::prelude::*;

verus! {

/// The character for a single decimal digit.
pub open spec fn digit_char(d: int) -> char {
    if d == 0 {
        '0'
    } else if d == 1 {
        '1'
    } else if d == 2 {
        '2'
    } else if d == 3 {
        '3'
    } else if d == 4 {
        '4'
    } else if d == 5 {
        '5'
    } else if d == 6 {
        '6'
    } else if d == 7 {
        '7'
    } else if d == 8 {
        '8'
    } else {
        '9'
    }
}

/// Decimal digits of a natural number, most significant first.
pub open spec fn spec_digits(n: nat) -> Seq<char>
    decreases n,
{
    if n < 10 {
        seq![digit_char(n as int)]
    } else {
        spec_digits(n / 10).push(digit_char((n % 10) as int))
    }
}

/// Decimal rendering of an integer, with a leading minus sign when negative.
pub open spec fn spec_int_str(n: int) -> Seq<char> {
    if n < 0 {
        seq!['-'] + spec_digits((-n) as nat)
    } else {
        spec_digits(n as nat)
    }
}

/// A milli value rounded half-to-even to a whole multiple of `scale`
/// (`scale` of 1000 keeps no decimals, 100 one decimal, 10 two decimals),
/// returned as a count of `scale` units.
pub open spec fn spec_round_half_even(v: nat, scale: nat) -> nat
    recommends
        scale > 0,
{
    let q = v / scale;
    let r = v % scale;
    if 2 * r < scale {
        q
    } else if 2 * r > scale {
        q + 1
    } else if q % 2 == 0 {
        q
    } else {
        q + 1
    }
}

/// One decimal digit as a string slice.
fn digit_str(d: u8) -> (r: &'static str)
    requires
        d < 10,
    ensures
        r@ == seq![digit_char(d as int)],
{
    proof {
        reveal_strlit("0");
        reveal_strlit("1");
        reveal_strlit("2");
        reveal_strlit("3");
        reveal_strlit("4");
        reveal_strlit("5");
        reveal_strlit("6");
        reveal_strlit("7");
        reveal_strlit("8");
        reveal_strlit("9");
    }
    match d {
        0 => "0",
        1 => "1",
        2 => "2",
        3 => "3",
        4 => "4",
        5 => "5",
        6 => "6",
        7 => "7",
        8 => "8",
        _ => "9",
    }
}

/// One decimal digit of a larger value as a string slice.
pub fn digit_of(d: u128) -> (r: &'static str)
    requires
        d < 10,
    ensures
        r@ == seq![digit_char(d as int)],
{
    digit_str(d as u8)
}

/// Renders a natural number in decimal.
pub fn u128_str(n: u128) -> (s: String)
    ensures
        s@ == spec_digits(n as nat),
    decreases n,
{
    if n < 10 {
        String::from_str(digit_str(n as u8))
    } else {
        let mut s = u128_str(n / 10);
        s.append(digit_str((n % 10) as u8));
        s
    }
}

/// Renders a `u64` in decimal.
pub fn u64_str(n: u64) -> (s: String)
    ensures
        s@ == spec_digits(n as nat),
{
    u128_str(n as u128)
}

/// Renders a signed integer in decimal.
pub fn i128_str(n: i128) -> (s: String)
    requires
        n > i128::MIN,
    ensures
        s@ == spec_int_str(n as int),
{
    if n < 0 {
        proof {
            reveal_strlit("-");
        }
        let mut s = String::from_str("-");
        let m = u128_str((-n) as u128);
        s.append(m.as_str());
        s
    } else {
        u128_str(n as u128)
    }
}

/// Rounds a non-negative milli value half-to-even to a multiple of `scale`.
pub fn round_half_even(v: u128, scale: u128) -> (r: u128)
    requires
        2 <= scale <= 0x1_0000_0000,
        v <= u128::MAX / 2,
    ensures
        r == spec_round_half_even(v as nat, scale as nat),
{
    let q = v / scale;
    let r = v % scale;
    if 2 * r < scale {
        q
    } else if 2 * r > scale {
        q + 1
    } else if q % 2 == 0 {
        q
    } else {
        q + 1
    }
}

/// A non-negative milli value rendered with no decimal places, rounded
/// half-to-even: the rendering a binary float would get at precision 0.
pub open spec fn spec_milli_0dp(v: nat) -> Seq<char> {
    spec_digits(spec_round_half_even(v, 1000))
}

/// A non-negative milli value rendered with one decimal place.
pub open spec fn spec_milli_1dp(v: nat) -> Seq<char> {
    let t = spec_round_half_even(v, 100);
    spec_digits(t / 10) + seq!['.'] + seq![digit_char((t % 10) as int)]
}

/// A non-negative milli value rendered with two decimal places.
pub open spec fn spec_milli_2dp(v: nat) -> Seq<char> {
    let h = spec_round_half_even(v, 10);
    spec_digits(h / 100) + seq!['.'] + seq![digit_char(((h / 10) % 10) as int)] + seq![
        digit_char((h % 10) as int),
    ]
}

/// A signed milli value rendered with the given spec; negative values get a
/// leading minus sign even when the magnitude rounds to zero, as binary
/// floats are rendered.
pub open spec fn spec_signed(v: int, body: Seq<char>) -> Seq<char> {
    if v < 0 {
        seq!['-'] + body
    } else {
        body
    }
}

/// A milli value rendered the way a float with no formatting width is: the
/// integer part alone when the value is whole, else a decimal point and the
/// fractional digits with trailing zeros dropped.
pub open spec fn spec_milli_plain(v: int) -> Seq<char> {
    let m = abs(v) as nat;
    let whole = spec_digits(m / 1000);
    let f = m % 1000;
    let body = if f == 0 {
        whole
    } else if f % 100 == 0 {
        whole + seq!['.'] + seq![digit_char((f / 100) as int)]
    } else if f % 10 == 0 {
        whole + seq!['.'] + seq![digit_char((f / 100) as int)] + seq![
            digit_char(((f / 10) % 10) as int),
        ]
    } else {
        whole + seq!['.'] + seq![digit_char((f / 100) as int)] + seq![
            digit_char(((f / 10) % 10) as int),
        ] + seq![digit_char((f % 10) as int)]
    };
    spec_signed(v, body)
}

/// The magnitude of an integer.
pub open spec fn abs(v: int) -> int {
    if v < 0 {
        -v
    } else {
        v
    }
}

/// Splits a signed milli value into its sign prefix and magnitude.
fn sign_split(v: i128) -> (r: (String, u128))
    requires
        v > i128::MIN,
    ensures
        r.0@ == if v < 0 {
            seq!['-']
        } else {
            Seq::<char>::empty()
        },
        r.1 == abs(v as int),
{
    if v < 0 {
        proof {
            reveal_strlit("-");
        }
        (String::from_str("-"), (-v) as u128)
    } else {
        proof {
            reveal_strlit("");
        }
        (String::from_str(""), v as u128)
    }
}

/// Renders a signed milli value with no decimal places.
pub fn milli_0dp(v: i128) -> (s: String)
    requires
        v > i128::MIN,
    ensures
        s@ == spec_signed(v as int, spec_milli_0dp(abs(v as int) as nat)),
{
    let (mut out, m) = sign_split(v);
    let q = round_half_even(m, 1000);
    let d = u128_str(q);
    out.append(d.as_str());
    out
}

/// Renders a signed milli value with one decimal place.
pub fn milli_1dp(v: i128) -> (s: String)
    requires
        v > i128::MIN,
    ensures
        s@ == spec_signed(v as int, spec_milli_1dp(abs(v as int) as nat)),
{
    let (mut out, m) = sign_split(v);
    let t = round_half_even(m, 100);
    let d = u128_str(t / 10);
    out.append(d.as_str());
    proof {
        reveal_strlit(".");
    }
    out.append(".");
    out.append(digit_str((t % 10) as u8));
    out
}

/// Renders a signed milli value with two decimal places.
pub fn milli_2dp(v: i128) -> (s: String)
    requires
        v > i128::MIN,
    ensures
        s@ == spec_signed(v as int, spec_milli_2dp(abs(v as int) as nat)),
{
    let (mut out, m) = sign_split(v);
    let h = round_half_even(m, 10);
    let d = u128_str(h / 100);
    out.append(d.as_str());
    proof {
        reveal_strlit(".");
    }
    out.append(".");
    out.append(digit_str(((h / 10) % 10) as u8));
    out.append(digit_str((h % 10) as u8));
    out
}

/// Renders a signed milli value the way a float with no formatting width is
/// rendered: no decimal point for whole values, trailing zeros dropped.
pub fn milli_plain(v: i128) -> (s: String)
    requires
        v > i128::MIN,
    ensures
        s@ == spec_milli_plain(v as int),
{
    let (mut out, m) = sign_split(v);
    let d = u128_str(m / 1000);
    out.append(d.as_str());
    let f = m % 1000;
    if f == 0 {
        return out;
    }
    proof {
        reveal_strlit(".");
    }
    out.append(".");
    out.append(digit_str((f / 100) as u8));
    if f % 100 == 0 {
        return out;
    }
    out.append(digit_str(((f / 10) % 10) as u8));
    if f % 10 == 0 {
        return out;
    }
    out.append(digit_str((f % 10) as u8));
    out
}

} // verus!
