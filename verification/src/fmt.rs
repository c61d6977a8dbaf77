//! Human-readable rendering of byte counts.
//!
//! A count below 1 KiB is shown in whole bytes; larger counts are scaled to
//! KiB, MiB or GiB and shown with one decimal digit, rounded to nearest
//! with ties to even.

use vstd::prelude::*;

use vstd::arithmetic::div_mod::lemma_fundamental_div_mod;

verus! {

pub open spec fn digit_char(d: int) -> char {
    if d == 0 {
        '0'
    } else if d == 1 {
        '1'
    } else if d == 2 {
        '2'
    } else if d == 3 {
        '3'
    } else if d == 4 {
        '4'
    } else if d == 5 {
        '5'
    } else if d == 6 {
        '6'
    } else if d == 7 {
        '7'
    } else if d == 8 {
        '8'
    } else {
        '9'
    }
}

/// The decimal digits of `n`, most significant first.
pub open spec fn dec_digits(n: nat) -> Seq<char>
    decreases n,
{
    if n < 10 {
        seq![digit_char(n as int)]
    } else {
        dec_digits(n / 10).push(digit_char((n % 10) as int))
    }
}

/// `10 * bytes / unit`, rounded to the nearest integer with ties to even:
/// the scaled value in tenths of a unit.
pub open spec fn tenths_of(bytes: nat, unit: nat) -> nat
    recommends
        unit > 0,
{
    let n = 10 * bytes;
    let q = n / unit;
    let r = n % unit;
    if 2 * r > unit {
        q + 1
    } else if 2 * r < unit {
        q
    } else if q % 2 == 0 {
        q
    } else {
        q + 1
    }
}

/// The scaled value written with one decimal digit: `whole.tenth`.
pub open spec fn scaled_digits(bytes: nat, unit: nat) -> Seq<char> {
    let t = tenths_of(bytes, unit);
    dec_digits(t / 10) + seq!['.'] + seq![digit_char((t % 10) as int)]
}

/// What `format_bytes` returns for each magnitude of its argument.
pub open spec fn format_bytes_spec(bytes: u64) -> Seq<char> {
    if bytes < 1024 {
        dec_digits(bytes as nat) + " B"@
    } else if bytes < 1048576 {
        scaled_digits(bytes as nat, 1024) + " KB"@
    } else if bytes < 1073741824 {
        scaled_digits(bytes as nat, 1048576) + " MB"@
    } else {
        scaled_digits(bytes as nat, 1073741824) + " GB"@
    }
}

fn digit_str(d: u64) -> (r: &'static str)
    requires
        d < 10,
    ensures
        r@ == seq![digit_char(d as int)],
{
    proof {
        reveal_strlit("0");
        reveal_strlit("1");
        reveal_strlit("2");
        reveal_strlit("3");
        reveal_strlit("4");
        reveal_strlit("5");
        reveal_strlit("6");
        reveal_strlit("7");
        reveal_strlit("8");
        reveal_strlit("9");
        assert("0"@ =~= seq![digit_char(0)]);
        assert("1"@ =~= seq![digit_char(1)]);
        assert("2"@ =~= seq![digit_char(2)]);
        assert("3"@ =~= seq![digit_char(3)]);
        assert("4"@ =~= seq![digit_char(4)]);
        assert("5"@ =~= seq![digit_char(5)]);
        assert("6"@ =~= seq![digit_char(6)]);
        assert("7"@ =~= seq![digit_char(7)]);
        assert("8"@ =~= seq![digit_char(8)]);
        assert("9"@ =~= seq![digit_char(9)]);
    }
    match d {
        0 => "0",
        1 => "1",
        2 => "2",
        3 => "3",
        4 => "4",
        5 => "5",
        6 => "6",
        7 => "7",
        8 => "8",
        _ => "9",
    }
}

/// Render `n` in decimal.
fn u64_to_dec(n: u64) -> (r: String)
    ensures
        r@ == dec_digits(n as nat),
    decreases n,
{
    if n < 10 {
        String::from_str(digit_str(n))
    } else {
        let mut s = u64_to_dec(n / 10);
        s.append(digit_str(n % 10));
        proof {
            assert(dec_digits((n / 10) as nat).push(digit_char((n % 10) as int)) =~= dec_digits(
                (n / 10) as nat,
            ) + seq![digit_char((n % 10) as int)]);
        }
        s
    }
}

/// The scaled count in tenths of `unit`, rounded half to even.
fn scaled_part(bytes: u64, unit: u64) -> (t: u64)
    requires
        1024 <= unit,
    ensures
        t == tenths_of(bytes as nat, unit as nat),
{
    let n: u128 = (bytes as u128) * 10;
    let u: u128 = unit as u128;
    let q: u128 = n / u;
    let r: u128 = n % u;
    proof {
        lemma_fundamental_div_mod(n as int, u as int);
        assert(q < 0x400000000000000) by (nonlinear_arith)
            requires
                q >= 0,
                u >= 1024,
                (u as int) * (q as int) + (r as int) == n as int,
                r >= 0,
                n < 0x100000000000000000,
        ;
    }
    let t128: u128 = if 2 * r > u {
        q + 1
    } else if 2 * r < u {
        q
    } else if q % 2 == 0 {
        q
    } else {
        q + 1
    };
    t128 as u64
}

fn scaled_string(bytes: u64, unit: u64, suffix: &'static str) -> (r: String)
    requires
        1024 <= unit,
    ensures
        r@ == scaled_digits(bytes as nat, unit as nat) + suffix@,
{
    let t = scaled_part(bytes, unit);
    let mut s = u64_to_dec(t / 10);
    s.append(".");
    s.append(digit_str(t % 10));
    s.append(suffix);
    proof {
        reveal_strlit(".");
        assert("."@ =~= seq!['.']);
        assert(s@ =~= scaled_digits(bytes as nat, unit as nat) + suffix@);
    }
    s
}

/// Render a byte count for display, scaled to the largest binary unit that
/// keeps the value at or above one.
pub fn format_bytes(bytes: u64) -> (r: String)
    ensures
        r@ == format_bytes_spec(bytes),
{
    if bytes < 1024 {
        let mut s = u64_to_dec(bytes);
        s.append(" B");
        s
    } else if bytes < 1048576 {
        scaled_string(bytes, 1024, " KB")
    } else if bytes < 1073741824 {
        scaled_string(bytes, 1048576, " MB")
    } else {
        scaled_string(bytes, 1073741824, " GB")
    }
}

} // verus!
