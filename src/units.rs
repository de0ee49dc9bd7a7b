//! Human-readable sizes and transfer rates.
//!
//! Every value is computed exactly over the integers: a quantity is divided
//! by its unit (powers of 1024) and rounded to two decimals, ties to even.
use vstd::prelude::*;

verus! {

pub const KILO: u128 = 1024;

pub const MEGA: u128 = 1048576;

pub const GIGA: u128 = 1073741824;

/// Nanoseconds in one second.
pub const NANOS_PER_SEC: u128 = 1000000000;

/// The decimal digit `d` as a character.
pub open spec fn digit_char(d: nat) -> char {
    if d == 0 {
        '0'
    } else if d == 1 {
        '1'
    } else if d == 2 {
        '2'
    } else if d == 3 {
        '3'
    } else if d == 4 {
        '4'
    } else if d == 5 {
        '5'
    } else if d == 6 {
        '6'
    } else if d == 7 {
        '7'
    } else if d == 8 {
        '8'
    } else {
        '9'
    }
}

/// The decimal notation of `n`, without leading zeros.
pub open spec fn decimal(n: nat) -> Seq<char>
    decreases n,
{
    if n < 10 {
        seq![digit_char(n)]
    } else {
        decimal(n / 10).push(digit_char(n % 10))
    }
}

/// `num / den` rounded to the nearest integer, ties to the even neighbour.
pub open spec fn round_half_even(num: nat, den: nat) -> nat
    recommends
        den > 0,
{
    let q = num / den;
    let r = num % den;
    if 2 * r > den || (2 * r == den && q % 2 == 1) {
        q + 1
    } else {
        q
    }
}

/// A count of hundredths written with exactly two decimals (`150` is `1.50`).
pub open spec fn two_decimals(hundredths: nat) -> Seq<char> {
    decimal(hundredths / 100) + seq!['.', digit_char((hundredths / 10) % 10), digit_char(hundredths % 10)]
}

/// The quotient `num / den` written with two decimals.
pub open spec fn ratio_text(num: nat, den: nat) -> Seq<char> {
    two_decimals(round_half_even(num * 100, den))
}

/// The text of `format_bytes`.
pub open spec fn bytes_text(bytes: nat) -> Seq<char> {
    if bytes >= GIGA {
        ratio_text(bytes, GIGA as nat) + seq![' ', 'G', 'i', 'B']
    } else if bytes >= MEGA {
        ratio_text(bytes, MEGA as nat) + seq![' ', 'M', 'i', 'B']
    } else if bytes >= KILO {
        ratio_text(bytes, KILO as nat) + seq![' ', 'K', 'i', 'B']
    } else {
        decimal(bytes) + seq![' ', 'B']
    }
}

/// The bit rate of `bytes` bytes moved in `elapsed_nanos` nanoseconds,
/// `bytes * 8 / seconds`, in the largest binary unit it reaches, with two
/// decimals. No time at all gives an infinite rate, or none for no bytes.
pub open spec fn bandwidth_text(elapsed_nanos: nat, bytes: nat) -> Seq<char> {
    let bits: nat = bytes * 8 * (NANOS_PER_SEC as nat);
    if elapsed_nanos == 0 {
        if bytes == 0 {
            seq!['N', 'a', 'N', ' ', 'b', 'i', 't', '/', 's']
        } else {
            seq!['i', 'n', 'f', ' ', 'G', 'b', 'i', 't', '/', 's']
        }
    } else if bits >= (GIGA as nat) * elapsed_nanos {
        ratio_text(bits, (GIGA as nat) * elapsed_nanos) + seq![' ', 'G', 'b', 'i', 't', '/', 's']
    } else if bits >= (MEGA as nat) * elapsed_nanos {
        ratio_text(bits, (MEGA as nat) * elapsed_nanos) + seq![' ', 'M', 'b', 'i', 't', '/', 's']
    } else if bits >= (KILO as nat) * elapsed_nanos {
        ratio_text(bits, (KILO as nat) * elapsed_nanos) + seq![' ', 'K', 'b', 'i', 't', '/', 's']
    } else {
        ratio_text(bits, elapsed_nanos) + seq![' ', 'b', 'i', 't', '/', 's']
    }
}

fn push_digit(out: &mut String, d: u128)
    requires
        d < 10,
    ensures
        final(out)@ == old(out)@.push(digit_char(d as nat)),
{
    proof {
        reveal_strlit("0");
        reveal_strlit("1");
        reveal_strlit("2");
        reveal_strlit("3");
        reveal_strlit("4");
        reveal_strlit("5");
        reveal_strlit("6");
        reveal_strlit("7");
        reveal_strlit("8");
        reveal_strlit("9");
    }
    let s = if d == 0 {
        "0"
    } else if d == 1 {
        "1"
    } else if d == 2 {
        "2"
    } else if d == 3 {
        "3"
    } else if d == 4 {
        "4"
    } else if d == 5 {
        "5"
    } else if d == 6 {
        "6"
    } else if d == 7 {
        "7"
    } else if d == 8 {
        "8"
    } else {
        "9"
    };
    out.append(s);
    assert(final(out)@ =~= old(out)@.push(digit_char(d as nat)));
}

fn push_decimal(out: &mut String, n: u128)
    ensures
        final(out)@ == old(out)@ + decimal(n as nat),
    decreases n,
{
    if n >= 10 {
        push_decimal(out, n / 10);
    }
    push_digit(out, n % 10);
    assert(final(out)@ =~= old(out)@ + decimal(n as nat));
}

fn push_two_decimals(out: &mut String, hundredths: u128)
    ensures
        final(out)@ == old(out)@ + two_decimals(hundredths as nat),
{
    proof {
        reveal_strlit(".");
    }
    push_decimal(out, hundredths / 100);
    out.append(".");
    push_digit(out, (hundredths / 10) % 10);
    push_digit(out, hundredths % 10);
    assert(final(out)@ =~= old(out)@ + two_decimals(hundredths as nat));
}

/// `num / den` rounded to the nearest integer, ties to even.
fn div_round_half_even(num: u128, den: u128) -> (r: u128)
    requires
        den > 0,
        num < u128::MAX,
    ensures
        r == round_half_even(num as nat, den as nat),
{
    let q = num / den;
    let rem = num % den;
    // `rem < den`, so `rem >= den - rem` says `2 * rem >= den` without overflow.
    if rem > den - rem || (rem == den - rem && q % 2 == 1) {
        assert(q < u128::MAX) by (nonlinear_arith)
            requires
                q == num / den,
                den > 0,
                num < u128::MAX,
        ;
        q + 1
    } else {
        q
    }
}

/// A byte count in the largest binary unit it reaches (B, KiB, MiB, GiB),
/// with two decimals for the scaled units: `1536` is `1.50 KiB`, `512` is `512 B`.
pub fn format_bytes(bytes: usize) -> (r: String)
    ensures
        r@ == bytes_text(bytes as nat),
{
    proof {
        reveal_strlit(" GiB");
        reveal_strlit(" MiB");
        reveal_strlit(" KiB");
        reveal_strlit(" B");
    }
    let b = bytes as u128;
    let mut out = String::new();
    if b >= GIGA {
        push_two_decimals(&mut out, div_round_half_even(b * 100, GIGA));
        out.append(" GiB");
    } else if b >= MEGA {
        push_two_decimals(&mut out, div_round_half_even(b * 100, MEGA));
        out.append(" MiB");
    } else if b >= KILO {
        push_two_decimals(&mut out, div_round_half_even(b * 100, KILO));
        out.append(" KiB");
    } else {
        push_decimal(&mut out, b);
        out.append(" B");
    }
    assert(out@ =~= bytes_text(bytes as nat));
    out
}

/// The rate of a transfer of `bytes` bytes that took `elapsed_nanos`
/// nanoseconds, in bits per second and the largest binary unit it reaches
/// (bit/s, Kbit/s, Mbit/s, Gbit/s), with two decimals.
pub fn format_bandwidth(elapsed_nanos: u64, bytes: usize) -> (r: String)
    ensures
        r@ == bandwidth_text(elapsed_nanos as nat, bytes as nat),
{
    proof {
        reveal_strlit("NaN bit/s");
        reveal_strlit("inf Gbit/s");
        reveal_strlit(" Gbit/s");
        reveal_strlit(" Mbit/s");
        reveal_strlit(" Kbit/s");
        reveal_strlit(" bit/s");
    }
    let mut out = String::new();
    if elapsed_nanos == 0 {
        if bytes == 0 {
            out.append("NaN bit/s");
        } else {
            out.append("inf Gbit/s");
        }
        assert(out@ =~= bandwidth_text(elapsed_nanos as nat, bytes as nat));
        return out;
    }
    let bits = bytes as u128 * 8 * NANOS_PER_SEC;
    let t = elapsed_nanos as u128;
    assert(bits * 100 < u128::MAX) by (nonlinear_arith)
        requires
            bits == bytes as u128 * 8 * NANOS_PER_SEC,
            bytes <= usize::MAX,
    ;
    if bits >= GIGA * t {
        push_two_decimals(&mut out, div_round_half_even(bits * 100, GIGA * t));
        out.append(" Gbit/s");
    } else if bits >= MEGA * t {
        push_two_decimals(&mut out, div_round_half_even(bits * 100, MEGA * t));
        out.append(" Mbit/s");
    } else if bits >= KILO * t {
        push_two_decimals(&mut out, div_round_half_even(bits * 100, KILO * t));
        out.append(" Kbit/s");
    } else {
        push_two_decimals(&mut out, div_round_half_even(bits * 100, t));
        out.append(" bit/s");
    }
    assert(out@ =~= bandwidth_text(elapsed_nanos as nat, bytes as nat));
    out
}

} // verus!
