//! Verified decimal rendering of integers: plain, zero-padded, and
//! fixed-point micro-degree forms, each pinned to a spec-level sequence.

use vstd::prelude::*;
use vstd::string::StringExecFns;

verus! {

/// The decimal digit character for `d` in 0..=9 (otherwise `'9'`).
pub open spec fn dec_digit(d: int) -> char {
    if d == 0 {
        '0'
    } else if d == 1 {
        '1'
    } else if d == 2 {
        '2'
    } else if d == 3 {
        '3'
    } else if d == 4 {
        '4'
    } else if d == 5 {
        '5'
    } else if d == 6 {
        '6'
    } else if d == 7 {
        '7'
    } else if d == 8 {
        '8'
    } else {
        '9'
    }
}

/// The decimal digits of a non-negative integer, most significant first.
pub open spec fn dec_seq(n: int) -> Seq<char>
    decreases n,
{
    if n < 10 {
        seq![dec_digit(n)]
    } else {
        dec_seq(n / 10).push(dec_digit(n % 10))
    }
}

/// The decimal form of an integer, with `'-'` for negative values.
pub open spec fn int_seq(n: int) -> Seq<char> {
    if n < 0 {
        seq!['-'] + dec_seq(-n)
    } else {
        dec_seq(n)
    }
}

/// A one-character string slice holding the digit for `d`.
fn digit_str(d: u64) -> (r: &'static str)
    requires
        d < 10,
    ensures
        r@ == seq![dec_digit(d as int)],
{
    proof {
        reveal_strlit("0");
        reveal_strlit("1");
        reveal_strlit("2");
        reveal_strlit("3");
        reveal_strlit("4");
        reveal_strlit("5");
        reveal_strlit("6");
        reveal_strlit("7");
        reveal_strlit("8");
        reveal_strlit("9");
    }
    match d {
        0 => "0",
        1 => "1",
        2 => "2",
        3 => "3",
        4 => "4",
        5 => "5",
        6 => "6",
        7 => "7",
        8 => "8",
        _ => "9",
    }
}

/// Render an unsigned integer in decimal.
pub fn u64_to_string(n: u64) -> (r: String)
    ensures
        r@ == dec_seq(n as int),
    decreases n,
{
    if n < 10 {
        let mut s = String::new();
        s.append(digit_str(n));
        s
    } else {
        let mut s = u64_to_string(n / 10);
        s.append(digit_str(n % 10));
        s
    }
}

/// Render a signed integer in decimal with a leading `'-'` when negative.
pub fn i64_to_string(n: i64) -> (r: String)
    requires
        n > i64::MIN,
    ensures
        r@ == int_seq(n as int),
{
    if n < 0 {
        let mut s = String::from_str("-");
        proof {
            reveal_strlit("-");
        }
        let m = u64_to_string((-n) as u64);
        s.append(m.as_str());
        proof {
            assert(s@ =~= int_seq(n as int));
        }
        s
    } else {
        u64_to_string(n as u64)
    }
}

/// Render an `i32` in decimal.
pub fn i32_to_string(n: i32) -> (r: String)
    ensures
        r@ == int_seq(n as int),
{
    i64_to_string(n as i64)
}

/// Two decimal digits, zero-padded.
pub open spec fn pad2_seq(n: int) -> Seq<char> {
    if n < 10 {
        seq!['0', dec_digit(n)]
    } else {
        dec_seq(n)
    }
}

/// Render `n < 100` as exactly two digits.
pub fn pad2(n: u64) -> (r: String)
    requires
        n < 100,
    ensures
        r@ == pad2_seq(n as int),
        r@.len() == 2,
{
    if n < 10 {
        let mut s = String::from_str("0");
        proof {
            reveal_strlit("0");
        }
        s.append(digit_str(n));
        proof {
            assert(s@ =~= pad2_seq(n as int));
        }
        s
    } else {
        let s = u64_to_string(n);
        proof {
            assert(dec_seq(n as int).len() == 2) by {
                assert(dec_seq(n as int / 10).len() == 1);
            }
        }
        s
    }
}

/// Four decimal digits, zero-padded (more for values over 9999).
pub open spec fn pad4_seq(n: int) -> Seq<char> {
    if n < 10 {
        seq!['0', '0', '0'] + dec_seq(n)
    } else if n < 100 {
        seq!['0', '0'] + dec_seq(n)
    } else if n < 1000 {
        seq!['0'] + dec_seq(n)
    } else {
        dec_seq(n)
    }
}

/// Render `n` as at least four digits, zero-padded on the left.
pub fn pad4(n: u64) -> (r: String)
    ensures
        r@ == pad4_seq(n as int),
{
    proof {
        reveal_strlit("000");
        reveal_strlit("00");
        reveal_strlit("0");
        reveal_strlit("");
    }
    let mut s = if n < 10 {
        String::from_str("000")
    } else if n < 100 {
        String::from_str("00")
    } else if n < 1000 {
        String::from_str("0")
    } else {
        String::from_str("")
    };
    let d = u64_to_string(n);
    s.append(d.as_str());
    proof {
        assert(s@ =~= pad4_seq(n as int));
    }
    s
}

/// `width` zero-padded decimal digits of `f` (low digits of `f`).
pub open spec fn padded_seq(f: int, width: nat) -> Seq<char>
    decreases width,
{
    if width == 0 {
        Seq::empty()
    } else {
        padded_seq(f / 10, (width - 1) as nat).push(dec_digit(f % 10))
    }
}

/// The fractional digits of a micro-unit remainder `f`, with trailing
/// zeros removed; empty when every digit within `width` is zero.
pub open spec fn frac_seq(f: int, width: nat) -> Seq<char>
    decreases width,
{
    if width == 0 {
        Seq::empty()
    } else if f % 10 == 0 {
        frac_seq(f / 10, (width - 1) as nat)
    } else {
        padded_seq(f, width)
    }
}

/// The decimal rendering of a micro-scaled value `v` (units of 1e-6):
/// integer part, then a fractional part only when it is non-zero,
/// matching how the plain degree values were printed.
pub open spec fn micro_seq(v: int) -> Seq<char> {
    let a = if v < 0 {
        -v
    } else {
        v
    };
    let sign: Seq<char> = if v < 0 {
        seq!['-']
    } else {
        Seq::empty()
    };
    if a % 1000000 == 0 {
        sign + dec_seq(a / 1000000)
    } else {
        sign + dec_seq(a / 1000000) + seq!['.'] + frac_seq(a % 1000000, 6)
    }
}

/// Low `width` digits of `f`, zero-padded.
fn padded_digits(f: u64, width: u64) -> (r: String)
    requires
        width <= 6,
    ensures
        r@ == padded_seq(f as int, width as nat),
    decreases width,
{
    if width == 0 {
        String::new()
    } else {
        let mut s = padded_digits(f / 10, width - 1);
        s.append(digit_str(f % 10));
        s
    }
}

/// Fractional digits of `f` with trailing zeros removed.
fn frac_digits(f: u64, width: u64) -> (r: String)
    requires
        width <= 6,
    ensures
        r@ == frac_seq(f as int, width as nat),
    decreases width,
{
    if width == 0 {
        String::new()
    } else if f % 10 == 0 {
        frac_digits(f / 10, width - 1)
    } else {
        padded_digits(f, width)
    }
}

/// Render a micro-scaled value (units of 1e-6) in plain decimal form.
pub fn micro_to_string(v: i64) -> (r: String)
    ensures
        r@ == micro_seq(v as int),
{
    let a: u64 = if v < 0 {
        ((-(v + 1)) as u64) + 1
    } else {
        v as u64
    };
    let mut s = if v < 0 {
        proof {
            reveal_strlit("-");
        }
        String::from_str("-")
    } else {
        String::new()
    };
    let whole = u64_to_string(a / 1000000);
    s.append(whole.as_str());
    if a % 1000000 != 0 {
        proof {
            reveal_strlit(".");
        }
        s.append(".");
        let frac = frac_digits(a % 1000000, 6);
        s.append(frac.as_str());
    }
    proof {
        assert(s@ =~= micro_seq(v as int));
    }
    s
}

/// Whether `c` is one of the ten decimal digit characters.
pub open spec fn is_dec_digit_char(c: char) -> bool {
    c == '0' || c == '1' || c == '2' || c == '3' || c == '4' || c == '5' || c == '6' || c == '7'
        || c == '8' || c == '9'
}

/// Every character of a plain decimal rendering is a digit.
pub proof fn lemma_dec_seq_digits(n: int)
    ensures
        forall|i: int| 0 <= i < dec_seq(n).len() ==> is_dec_digit_char(#[trigger] dec_seq(n)[i]),
    decreases n,
{
    if n < 10 {
    } else {
        lemma_dec_seq_digits(n / 10);
        assert forall|i: int| 0 <= i < dec_seq(n).len() implies is_dec_digit_char(
            #[trigger] dec_seq(n)[i],
        ) by {
            if i < dec_seq(n).len() - 1 {
                assert(dec_seq(n)[i] == dec_seq(n / 10)[i]);
            }
        }
    }
}

/// Every character of a two-digit rendering is a digit.
pub proof fn lemma_pad2_seq_digits(n: int)
    ensures
        forall|i: int| 0 <= i < pad2_seq(n).len() ==> is_dec_digit_char(#[trigger] pad2_seq(n)[i]),
{
    lemma_dec_seq_digits(n);
}

/// Every character of a four-digit rendering is a digit.
pub proof fn lemma_pad4_seq_digits(n: int)
    ensures
        forall|i: int| 0 <= i < pad4_seq(n).len() ==> is_dec_digit_char(#[trigger] pad4_seq(n)[i]),
{
    lemma_dec_seq_digits(n);
}

/// Decimal lengths by magnitude, up to four digits.
pub proof fn lemma_dec_seq_len_small(n: int)
    requires
        0 <= n < 10000,
    ensures
        n < 10 ==> dec_seq(n).len() == 1,
        10 <= n < 100 ==> dec_seq(n).len() == 2,
        100 <= n < 1000 ==> dec_seq(n).len() == 3,
        1000 <= n ==> dec_seq(n).len() == 4,
    decreases n,
{
    if n >= 10 {
        lemma_dec_seq_len_small(n / 10);
    }
}

/// A two-digit rendering is exactly two characters.
pub proof fn lemma_pad2_seq_len(n: int)
    requires
        0 <= n < 100,
    ensures
        pad2_seq(n).len() == 2,
{
    lemma_dec_seq_len_small(n);
}

/// A four-digit rendering of a value up to 9999 is exactly four
/// characters.
pub proof fn lemma_pad4_seq_len(n: int)
    requires
        0 <= n < 10000,
    ensures
        pad4_seq(n).len() == 4,
{
    lemma_dec_seq_len_small(n);
}

} // verus!
