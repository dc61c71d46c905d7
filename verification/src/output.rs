use vstd::prelude::*;

use crate::text::{dec, digit_char, digit_to_char, push_char, push_decimal};

verus! {

broadcast use vstd::string::group_string_axioms;

/// `2^e`.
pub open spec fn pow2(e: nat) -> nat
    decreases e,
{
    if e == 0 {
        1
    } else {
        2 * pow2((e - 1) as nat)
    }
}

/// The number of binary digits of `n` (0 for 0).
pub open spec fn bit_length(n: nat) -> nat
    decreases n,
{
    if n == 0 {
        0
    } else {
        1 + bit_length(n / 2)
    }
}

/// `num / den` rounded to the nearest integer, ties to the even one.
pub open spec fn round_half_even(num: nat, den: nat) -> nat
    recommends
        den > 0,
{
    let q = num / den;
    let r = num % den;
    if 2 * r > den || (2 * r == den && q % 2 == 1) {
        q + 1
    } else {
        q
    }
}

/// The spacing of the `f64` values near `n`: 1 up to 53 binary digits, then
/// doubling with each further digit.
pub open spec fn f64_spacing(n: nat) -> nat {
    if bit_length(n) <= 53 {
        1
    } else {
        pow2((bit_length(n) - 53) as nat)
    }
}

/// The value of `n as f64`: `n` rounded to the nearest `f64`, ties to even.
pub open spec fn f64_value(n: nat) -> nat {
    round_half_even(n, f64_spacing(n)) * f64_spacing(n)
}

/// `v / 10` written with one decimal place.
pub open spec fn one_place(v: nat) -> Seq<char> {
    dec(v / 10).push('.').push(digit_char(v % 10))
}

/// `v / 100` written with two decimal places.
pub open spec fn two_places(v: nat) -> Seq<char> {
    dec(v / 100).push('.').push(digit_char((v % 100) / 10)).push(digit_char(v % 10))
}

/// A byte count as the summary shows it: from 1 MiB on, mebibytes with two
/// decimals ("MB"), else kibibytes with one decimal ("KB"); each rounded to
/// the nearest, ties to even, as `format!("{:.2}")` rounds the `f64` that
/// `bytes as f64 / 1024.0` (and `/ 1024.0` again) gives.
pub open spec fn size_text(bytes: nat) -> Seq<char> {
    if bytes >= 1048576 {
        two_places(round_half_even(f64_value(bytes) * 100, 1048576)) + seq![' ', 'M', 'B']
    } else {
        one_place(round_half_even(bytes * 10, 1024)) + seq![' ', 'K', 'B']
    }
}

/// `num / den` rounded to the nearest integer, ties to even.
fn round_half_even_exec(num: u128, den: u128) -> (q: u128)
    requires
        den > 0,
        num / den < u128::MAX,
    ensures
        q == round_half_even(num as nat, den as nat),
{
    let q = num / den;
    let r = num % den;
    if (r > den - r) || (r == den - r && q % 2 == 1) {
        q + 1
    } else {
        q
    }
}

proof fn lemma_pow2_11()
    ensures
        pow2(11) == 2048,
{
    reveal_with_fuel(pow2, 12);
}

proof fn lemma_pow2_64()
    ensures
        pow2(64) == 0x1_0000_0000_0000_0000,
{
    reveal_with_fuel(pow2, 65);
}

proof fn lemma_bit_length_le(n: nat, k: nat)
    requires
        n < pow2(k),
    ensures
        bit_length(n) <= k,
    decreases k,
{
    if n > 0 {
        if k == 0 {
            assert(pow2(0) == 1);
        } else {
            lemma_bit_length_le(n / 2, (k - 1) as nat);
        }
    }
}

proof fn lemma_pow2_positive(e: nat)
    ensures
        pow2(e) >= 1,
    decreases e,
{
    if e > 0 {
        lemma_pow2_positive((e - 1) as nat);
    }
}

proof fn lemma_pow2_monotone(a: nat, b: nat)
    requires
        a <= b,
    ensures
        pow2(a) <= pow2(b),
    decreases b,
{
    if a < b {
        lemma_pow2_monotone(a, (b - 1) as nat);
        lemma_pow2_positive((b - 1) as nat);
    }
}

proof fn lemma_bit_length_bound(n: nat)
    ensures
        n < pow2(bit_length(n)),
        n > 0 ==> pow2((bit_length(n) - 1) as nat) <= n,
    decreases n,
{
    if n > 0 {
        lemma_bit_length_bound(n / 2);
        lemma_pow2_positive(bit_length(n / 2));
        if n / 2 > 0 {
            assert(bit_length(n / 2) >= 1);
        }
    }
}

/// `n as f64`, as an exact integer.
fn f64_value_exec(n: u64) -> (f: u128)
    ensures
        f == f64_value(n as nat),
        f <= n + 2048,
{
    // bit length
    proof {
        lemma_pow2_64();
        lemma_bit_length_le(n as nat, 64);
    }
    let mut m: u64 = n;
    let mut len: u32 = 0;
    while m > 0
        invariant
            bit_length(n as nat) == len + bit_length(m as nat),
            bit_length(n as nat) <= 64,
            m <= n,
        decreases m,
    {
        proof {
            lemma_bit_length_bound(m as nat);
        }
        m = m / 2;
        len = len + 1;
    }
    proof {
        lemma_bit_length_bound(n as nat);
    }
    let mut spacing: u128 = 1;
    if len > 53 {
        let mut k: u32 = 0;
        while k < len - 53
            invariant
                len > 53,
                len <= 64,
                k <= len - 53,
                spacing == pow2(k as nat),
            decreases len - 53 - k,
        {
            proof {
                lemma_pow2_monotone(k as nat, 11);
                lemma_pow2_11();
            }
            spacing = spacing * 2;
            k = k + 1;
        }
    }
    assert(spacing == f64_spacing(n as nat));
    proof {
        if len > 53 {
            lemma_pow2_positive((len - 53) as nat);
            lemma_pow2_monotone((len - 53) as nat, 11);
            lemma_pow2_11();
        }
    }
    let q = round_half_even_exec(n as u128, spacing);
    proof {
        lemma_round_scaled(n as nat, spacing as nat);
    }
    q * spacing
}

/// Rounding to a multiple of `s` moves a number up by less than `s`.
proof fn lemma_round_scaled(n: nat, s: nat)
    requires
        s >= 1,
    ensures
        round_half_even(n, s) * s <= n + s,
{
    let q = n / s;
    assert(q * s <= n) by (nonlinear_arith)
        requires
            s >= 1,
            q == n / s,
    ;
    assert((q + 1) * s == q * s + s) by (nonlinear_arith);
}

/// A byte count as the summary shows it (see `size_text`).
pub fn format_size(bytes: u64) -> (s: String)
    ensures
        s@ == size_text(bytes as nat),
{
    let mut s = String::new();
    if bytes >= 1048576 {
        let f = f64_value_exec(bytes);
        let v = round_half_even_exec(f * 100, 1048576);
        assert(v <= 0x1_0000_0000_0000_0000);
        push_decimal(&mut s, (v / 100) as u64);
        push_char(&mut s, '.');
        push_char(&mut s, digit_to_char(((v % 100) / 10) as u8));
        push_char(&mut s, digit_to_char((v % 10) as u8));
        push_char(&mut s, ' ');
        push_char(&mut s, 'M');
        push_char(&mut s, 'B');
    } else {
        let v = round_half_even_exec(bytes as u128 * 10, 1024);
        push_decimal(&mut s, (v / 10) as u64);
        push_char(&mut s, '.');
        push_char(&mut s, digit_to_char((v % 10) as u8));
        push_char(&mut s, ' ');
        push_char(&mut s, 'K');
        push_char(&mut s, 'B');
    }
    assert(s@ =~= size_text(bytes as nat));
    s
}

/// The two lines of the final summary after a GIF was written: where it was
/// saved, and how large it is.
pub fn summary(path: &str, size_bytes: u64) -> (lines: (String, String))
    ensures
        lines.0@ == "Saved: "@ + path@,
        lines.1@ == "Size: "@ + size_text(size_bytes as nat),
{
    let mut saved = String::from_str("Saved: ");
    saved.append(path);
    let mut size = String::from_str("Size: ");
    let text = format_size(size_bytes);
    size.append(text.as_str());
    (saved, size)
}

} // verus!
