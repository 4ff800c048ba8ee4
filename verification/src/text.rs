//! Verified rendering of integers and fixed-point coordinates as decimal text.
//!
//! Query parameters are plain strings, so the builders need a proven way to
//! turn counts and micro-degree coordinates into their decimal spelling.

use vstd::prelude::*;

verus! {

/// The character for a single decimal digit.
pub open spec fn digit_char(d: nat) -> char {
    if d == 0 {
        '0'
    } else if d == 1 {
        '1'
    } else if d == 2 {
        '2'
    } else if d == 3 {
        '3'
    } else if d == 4 {
        '4'
    } else if d == 5 {
        '5'
    } else if d == 6 {
        '6'
    } else if d == 7 {
        '7'
    } else if d == 8 {
        '8'
    } else {
        '9'
    }
}

/// The decimal digits of `n`, most significant first, with no leading zeros
/// (a single `'0'` for zero itself).
pub open spec fn dec_digits(n: nat) -> Seq<char>
    decreases n,
{
    if n < 10 {
        seq![digit_char(n)]
    } else {
        dec_digits(n / 10).push(digit_char(n % 10))
    }
}

/// Exactly six digits, zero padded, of a micro-degree fraction.
pub open spec fn frac_digits(f: nat) -> Seq<char> {
    seq![
        digit_char((f / 100000) % 10),
        digit_char((f / 10000) % 10),
        digit_char((f / 1000) % 10),
        digit_char((f / 100) % 10),
        digit_char((f / 10) % 10),
        digit_char(f % 10),
    ]
}

/// `s` with every trailing `'0'` removed.
pub open spec fn trim_trailing_zeros(s: Seq<char>) -> Seq<char>
    decreases s.len(),
{
    if s.len() > 0 && s.last() == '0' {
        trim_trailing_zeros(s.drop_last())
    } else {
        s
    }
}

/// Decimal text of a magnitude in micro-degrees: the whole degrees, then a
/// `'.'` and the fractional digits with trailing zeros removed; the fraction
/// is omitted entirely when it is zero.
pub open spec fn magnitude_text(m: nat) -> Seq<char> {
    let whole = m / 1000000;
    let frac = m % 1000000;
    if frac == 0 {
        dec_digits(whole)
    } else {
        dec_digits(whole) + seq!['.'] + trim_trailing_zeros(frac_digits(frac))
    }
}

/// Decimal text of a signed coordinate given in micro-degrees.
pub open spec fn coord_text(udeg: int) -> Seq<char> {
    if udeg < 0 {
        seq!['-'] + magnitude_text((-udeg) as nat)
    } else {
        magnitude_text(udeg as nat)
    }
}

fn digit_to_string(d: u64) -> (r: String)
    requires
        d < 10,
    ensures
        r@ == seq![digit_char(d as nat)],
{
    proof {
        reveal_strlit("0");
        reveal_strlit("1");
        reveal_strlit("2");
        reveal_strlit("3");
        reveal_strlit("4");
        reveal_strlit("5");
        reveal_strlit("6");
        reveal_strlit("7");
        reveal_strlit("8");
        reveal_strlit("9");
    }
    let s = if d == 0 {
        String::from_str("0")
    } else if d == 1 {
        String::from_str("1")
    } else if d == 2 {
        String::from_str("2")
    } else if d == 3 {
        String::from_str("3")
    } else if d == 4 {
        String::from_str("4")
    } else if d == 5 {
        String::from_str("5")
    } else if d == 6 {
        String::from_str("6")
    } else if d == 7 {
        String::from_str("7")
    } else if d == 8 {
        String::from_str("8")
    } else {
        String::from_str("9")
    };
    proof {
        assert(s@ =~= seq![digit_char(d as nat)]);
    }
    s
}

/// Renders an unsigned integer as decimal text.
pub fn u64_to_string(n: u64) -> (r: String)
    ensures
        r@ == dec_digits(n as nat),
    decreases n,
{
    if n < 10 {
        digit_to_string(n)
    } else {
        let mut s = u64_to_string(n / 10);
        let d = digit_to_string(n % 10);
        s.append(d.as_str());
        proof {
            assert(s@ =~= dec_digits(n as nat));
        }
        s
    }
}

fn frac_to_string(frac: u64) -> (r: String)
    requires
        frac < 1000000,
    ensures
        r@ == trim_trailing_zeros(frac_digits(frac as nat)),
{
    let mut ds: Vec<u64> = Vec::new();
    ds.push(frac / 100000);
    ds.push((frac / 10000) % 10);
    ds.push((frac / 1000) % 10);
    ds.push((frac / 100) % 10);
    ds.push((frac / 10) % 10);
    ds.push(frac % 10);
    proof {
        assert(ds@.map_values(|d: u64| digit_char(d as nat)) =~= frac_digits(frac as nat));
    }
    while ds.len() > 0 && ds[ds.len() - 1] == 0
        invariant
            forall|j: int| 0 <= j < ds@.len() ==> ds@[j] < 10,
            trim_trailing_zeros(ds@.map_values(|d: u64| digit_char(d as nat)))
                == trim_trailing_zeros(frac_digits(frac as nat)),
        decreases ds.len(),
    {
        let ghost before = ds@;
        ds.pop();
        proof {
            assert(ds@ =~= before.drop_last());
            assert(ds@.map_values(|d: u64| digit_char(d as nat)) =~= before.map_values(
                |d: u64| digit_char(d as nat),
            ).drop_last());
        }
    }
    let ghost digits = ds@.map_values(|d: u64| digit_char(d as nat));
    proof {
        assert(trim_trailing_zeros(digits) == digits);
    }
    let mut s = String::new();
    let mut i: usize = 0;
    while i < ds.len()
        invariant
            i <= ds@.len(),
            forall|j: int| 0 <= j < ds@.len() ==> ds@[j] < 10,
            digits == ds@.map_values(|d: u64| digit_char(d as nat)),
            s@ == digits.take(i as int),
        decreases ds@.len() - i,
    {
        let d = digit_to_string(ds[i]);
        s.append(d.as_str());
        proof {
            assert(s@ =~= digits.take(i + 1 as int));
        }
        i = i + 1;
    }
    proof {
        assert(s@ =~= digits);
    }
    s
}

fn magnitude_to_string(m: u64) -> (r: String)
    ensures
        r@ == magnitude_text(m as nat),
{
    let whole = m / 1000000;
    let frac = m % 1000000;
    if frac == 0 {
        u64_to_string(whole)
    } else {
        let mut s = u64_to_string(whole);
        let dot = String::from_str(".");
        proof {
            reveal_strlit(".");
        }
        s.append(dot.as_str());
        let f = frac_to_string(frac);
        s.append(f.as_str());
        proof {
            assert(s@ =~= magnitude_text(m as nat));
        }
        s
    }
}

/// Renders a signed micro-degree coordinate as decimal text.
pub fn coord_to_string(udeg: i64) -> (r: String)
    requires
        udeg != i64::MIN,
    ensures
        r@ == coord_text(udeg as int),
{
    if udeg < 0 {
        let mut s = String::from_str("-");
        proof {
            reveal_strlit("-");
        }
        let m = magnitude_to_string((-udeg) as u64);
        s.append(m.as_str());
        proof {
            assert(s@ =~= coord_text(udeg as int));
        }
        s
    } else {
        magnitude_to_string(udeg as u64)
    }
}

/// Character-for-character equality of two string slices.
pub fn str_eq(a: &str, b: &str) -> (r: bool)
    ensures
        r == (a@ == b@),
{
    let n = a.unicode_len();
    let m = b.unicode_len();
    if n != m {
        return false;
    }
    let mut i: usize = 0;
    while i < n
        invariant
            n == a@.len(),
            n == b@.len(),
            i <= n,
            forall|j: int| 0 <= j < i ==> a@[j] == b@[j],
        decreases n - i,
    {
        if a.get_char(i) != b.get_char(i) {
            return false;
        }
        i = i + 1;
    }
    proof {
        assert(a@ =~= b@);
    }
    true
}

} // verus!
