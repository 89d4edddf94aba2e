//! Decimal string formatting, and the human-readable rendering of byte
//! sizes.
//!
//! A size is shown in the largest unit from bytes up to petabytes that
//! keeps its value at least one, with two decimal places for every unit
//! above bytes. The two decimals are rounded to nearest with ties to
//! even, the rounding that fixed-precision formatting of an exactly
//! representable quotient performs.

use vstd::prelude::*;

verus! {

/// The character for one decimal digit.
pub open spec fn digit_char(d: int) -> char {
    if d == 0 {
        '0'
    } else if d == 1 {
        '1'
    } else if d == 2 {
        '2'
    } else if d == 3 {
        '3'
    } else if d == 4 {
        '4'
    } else if d == 5 {
        '5'
    } else if d == 6 {
        '6'
    } else if d == 7 {
        '7'
    } else if d == 8 {
        '8'
    } else {
        '9'
    }
}

/// The decimal rendering of a number, most significant digit first, with
/// no leading zeros (a single zero for zero itself).
pub open spec fn spec_decimal(n: nat) -> Seq<char>
    decreases n,
{
    if n < 10 {
        seq![digit_char(n as int)]
    } else {
        spec_decimal(n / 10).push(digit_char((n % 10) as int))
    }
}

/// A number below one hundred, zero-padded to exactly two digits.
pub open spec fn spec_pad2(n: int) -> Seq<char> {
    seq![digit_char(n / 10), digit_char(n % 10)]
}

/// A number zero-padded to at least four digits.
pub open spec fn spec_pad4(n: nat) -> Seq<char> {
    if n < 10 {
        seq![digit_char(0), digit_char(0), digit_char(0)] + spec_decimal(n)
    } else if n < 100 {
        seq![digit_char(0), digit_char(0)] + spec_decimal(n)
    } else if n < 1000 {
        seq![digit_char(0)] + spec_decimal(n)
    } else {
        spec_decimal(n)
    }
}

/// The one-character string for a decimal digit.
pub fn digit_str(d: u8) -> (r: &'static str)
    requires
        d < 10,
    ensures
        r@ == seq![digit_char(d as int)],
{
    if d == 0 {
        proof {
            reveal_strlit("0");
            assert("0"@ =~= seq![digit_char(0)]);
        }
        "0"
    } else if d == 1 {
        proof {
            reveal_strlit("1");
            assert("1"@ =~= seq![digit_char(1)]);
        }
        "1"
    } else if d == 2 {
        proof {
            reveal_strlit("2");
            assert("2"@ =~= seq![digit_char(2)]);
        }
        "2"
    } else if d == 3 {
        proof {
            reveal_strlit("3");
            assert("3"@ =~= seq![digit_char(3)]);
        }
        "3"
    } else if d == 4 {
        proof {
            reveal_strlit("4");
            assert("4"@ =~= seq![digit_char(4)]);
        }
        "4"
    } else if d == 5 {
        proof {
            reveal_strlit("5");
            assert("5"@ =~= seq![digit_char(5)]);
        }
        "5"
    } else if d == 6 {
        proof {
            reveal_strlit("6");
            assert("6"@ =~= seq![digit_char(6)]);
        }
        "6"
    } else if d == 7 {
        proof {
            reveal_strlit("7");
            assert("7"@ =~= seq![digit_char(7)]);
        }
        "7"
    } else if d == 8 {
        proof {
            reveal_strlit("8");
            assert("8"@ =~= seq![digit_char(8)]);
        }
        "8"
    } else {
        proof {
            reveal_strlit("9");
            assert("9"@ =~= seq![digit_char(9)]);
        }
        "9"
    }
}

/// The decimal rendering of a number as a string.
pub fn u64_to_string(n: u64) -> (r: String)
    ensures
        r@ == spec_decimal(n as nat),
    decreases n,
{
    if n < 10 {
        digit_str(n as u8).to_owned()
    } else {
        let mut s = u64_to_string(n / 10);
        s.append(digit_str((n % 10) as u8));
        s
    }
}

/// Append a number below one hundred as exactly two digits.
pub fn append_pad2(out: &mut String, n: u64)
    requires
        n < 100,
    ensures
        final(out)@ == old(out)@ + spec_pad2(n as int),
{
    out.append(digit_str((n / 10) as u8));
    out.append(digit_str((n % 10) as u8));
}

/// Append a number as at least four digits, zero-padded.
pub fn append_pad4(out: &mut String, n: u64)
    ensures
        final(out)@ == old(out)@ + spec_pad4(n as nat),
{
    if n < 10 {
        out.append(digit_str(0));
        out.append(digit_str(0));
        out.append(digit_str(0));
    } else if n < 100 {
        out.append(digit_str(0));
        out.append(digit_str(0));
    } else if n < 1000 {
        out.append(digit_str(0));
    }
    let tail = u64_to_string(n);
    out.append(tail.as_str());
}

/// 1024 to the power `k`.
pub open spec fn pow1024(k: nat) -> int
    decreases k,
{
    if k == 0 {
        1
    } else {
        1024 * pow1024((k - 1) as nat)
    }
}

/// The concrete values of the six unit thresholds.
proof fn lemma_pow1024_values()
    ensures
        pow1024(0) == 1,
        pow1024(1) == 1024,
        pow1024(2) == 1048576,
        pow1024(3) == 1073741824,
        pow1024(4) == 1099511627776,
        pow1024(5) == 1125899906842624,
{
    assert(pow1024(0) == 1);
    assert(pow1024(1) == 1024 * pow1024(0));
    assert(pow1024(2) == 1024 * pow1024(1));
    assert(pow1024(3) == 1024 * pow1024(2));
    assert(pow1024(4) == 1024 * pow1024(3));
    assert(pow1024(5) == 1024 * pow1024(4));
}

/// The unit a size is shown in: the largest of the six units that keeps
/// the shown value at least one.
pub open spec fn size_unit_index(n: u64) -> nat {
    if n < 1024 {
        0
    } else if n < 1048576 {
        1
    } else if n < 1073741824 {
        2
    } else if n < 1099511627776 {
        3
    } else if n < 1125899906842624 {
        4
    } else {
        5
    }
}

/// The unit suffix, with its separating space.
pub open spec fn spec_unit_suffix(k: nat) -> Seq<char> {
    if k == 0 {
        " B"@
    } else if k == 1 {
        " KB"@
    } else if k == 2 {
        " MB"@
    } else if k == 3 {
        " GB"@
    } else if k == 4 {
        " TB"@
    } else {
        " PB"@
    }
}

/// One hundredth steps of the quotient `n / d`, rounded to nearest with
/// ties to even.
pub open spec fn rounded_centi(n: int, d: int) -> int {
    let q = (n * 100) / d;
    let r = (n * 100) % d;
    if 2 * r > d {
        q + 1
    } else if 2 * r == d && q % 2 == 1 {
        q + 1
    } else {
        q
    }
}

/// The human-readable rendering of a byte size: the plain byte count up
/// to 1023 bytes, and above that the size in its unit with two rounded
/// decimal places.
pub open spec fn spec_human_size(n: u64) -> Seq<char> {
    let k = size_unit_index(n);
    if k == 0 {
        spec_decimal(n as nat) + spec_unit_suffix(0)
    } else {
        let c = rounded_centi(n as int, pow1024(k));
        spec_decimal((c / 100) as nat) + "."@ + spec_pad2(c % 100) + spec_unit_suffix(k)
    }
}

/// Render a byte size for people: `987 B`, `1.21 KB`, `2.00 MB`, up to
/// petabytes.
pub fn human_readable_size(size: u64) -> (r: String)
    ensures
        r@ == spec_human_size(size),
{
    let mut k: usize = 0;
    let mut p: u64 = 1;
    proof {
        lemma_pow1024_values();
    }
    while k < 5 && size >= p * 1024
        invariant
            0 <= k <= 5,
            p == pow1024(k as nat),
            p <= 1125899906842624,
            k == 0 || size as int >= pow1024(k as nat),
        decreases 5 - k,
    {
        proof {
            lemma_pow1024_values();
            assert(pow1024((k + 1) as nat) == 1024 * pow1024(k as nat));
        }
        p = p * 1024;
        k = k + 1;
    }
    proof {
        lemma_pow1024_values();
        assert(pow1024((k + 1) as nat) == 1024 * pow1024(k as nat));
        assert(k as nat == size_unit_index(size));
    }
    if k == 0 {
        let mut out = u64_to_string(size);
        proof {
            reveal_strlit(" B");
            assert(" B"@ =~= spec_unit_suffix(0));
        }
        out.append(" B");
        return out;
    }
    let num: u128 = size as u128 * 100;
    let d: u128 = p as u128;
    let q: u128 = num / d;
    let r: u128 = num % d;
    let mut c: u64 = q as u64;
    proof {
        assert(d >= 1024);
        assert(q <= num / 1024) by (nonlinear_arith)
            requires
                d >= 1024,
                q == num / d,
                num >= 0,
        ;
        assert(num <= 0xffffffffffffffffu128 * 100);
        assert(num / 1024 <= 0xffffffffffffffffu128 * 100 / 1024) by (nonlinear_arith)
            requires
                num <= 0xffffffffffffffffu128 * 100,
                num >= 0,
        ;
    }
    if 2 * r > d {
        c = c + 1;
    } else if 2 * r == d && c % 2 == 1 {
        c = c + 1;
    }
    assert(c as int == rounded_centi(size as int, pow1024(k as nat)));
    let whole: u64 = c / 100;
    let frac: u64 = c % 100;
    let mut out = u64_to_string(whole);
    proof {
        reveal_strlit(".");
        assert("."@ =~= seq!['.']);
    }
    out.append(".");
    append_pad2(&mut out, frac);
    let suffix = unit_suffix(k);
    out.append(suffix);
    proof {
        assert(out@ =~= spec_human_size(size));
    }
    out
}

/// The unit suffix for a unit index.
fn unit_suffix(k: usize) -> (r: &'static str)
    requires
        k <= 5,
    ensures
        r@ == spec_unit_suffix(k as nat),
{
    if k == 0 {
        proof {
            reveal_strlit(" B");
        }
        " B"
    } else if k == 1 {
        proof {
            reveal_strlit(" KB");
        }
        " KB"
    } else if k == 2 {
        proof {
            reveal_strlit(" MB");
        }
        " MB"
    } else if k == 3 {
        proof {
            reveal_strlit(" GB");
        }
        " GB"
    } else if k == 4 {
        proof {
            reveal_strlit(" TB");
        }
        " TB"
    } else {
        proof {
            reveal_strlit(" PB");
        }
        " PB"
    }
}

} // verus!
