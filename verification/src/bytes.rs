//! Human-readable byte sizes with one decimal, as `{:.1}` prints the
//! size converted to `f64` and divided by the unit.
use vstd::prelude::*;
use crate::text::{dec, dec_int, i64_text, u64_text};

verus! {

/// `2^e`.
pub open spec fn p2(e: nat) -> nat
    decreases e,
{
    if e == 0 { 1 } else { 2 * p2((e - 1) as nat) }
}

/// Number of binary digits of `n` (0 for 0).
pub open spec fn bit_len(n: nat) -> nat
    decreases n,
{
    if n == 0 { 0 } else { 1 + bit_len(n / 2) }
}

/// `num / den` rounded to the nearest integer, ties to the even one.
pub open spec fn round_half_even(num: nat, den: nat) -> nat {
    let q = num / den;
    let r = num % den;
    if 2 * r > den || (2 * r == den && q % 2 == 1) { q + 1 } else { q }
}

/// The integer value of `b` converted to `f64`: `b` rounded to 53
/// significant bits, ties to even.
pub open spec fn f64_value(b: nat) -> nat {
    if bit_len(b) <= 53 {
        b
    } else {
        let e = (bit_len(b) - 53) as nat;
        round_half_even(b, p2(e)) * p2(e)
    }
}

/// Tenths of `b / 2^shift` after conversion to `f64`, rounded to the
/// nearest tenth (ties to even), as `{:.1}` prints it.
pub open spec fn tenths(b: nat, shift: nat) -> nat {
    round_half_even(f64_value(b) * 10, p2(shift))
}

/// A count of tenths written with one decimal.
pub open spec fn one_decimal(t: nat) -> Seq<char> {
    dec(t / 10) + "."@ + dec(t % 10)
}

/// How a byte count is shown: with one decimal in GB, MB or KB from one
/// unit up, in whole bytes below.
pub open spec fn bytes_text(b: nat) -> Seq<char> {
    if b >= p2(30) {
        one_decimal(tenths(b, 30)) + " GB"@
    } else if b >= p2(20) {
        one_decimal(tenths(b, 20)) + " MB"@
    } else if b >= p2(10) {
        one_decimal(tenths(b, 10)) + " KB"@
    } else {
        dec(b) + " B"@
    }
}

/// How a signed byte count is shown (negative counts in whole bytes).
pub open spec fn signed_bytes_text(b: int) -> Seq<char> {
    if b >= p2(10) { bytes_text(b as nat) } else { dec_int(b) + " B"@ }
}

proof fn lemma_p2_values()
    ensures
        p2(10) == 1024,
        p2(20) == 1048576,
        p2(30) == 1073741824,
{
    reveal_with_fuel(p2, 31);
}

proof fn lemma_p2_pos(e: nat)
    ensures
        p2(e) >= 1,
    decreases e,
{
    if e > 0 {
        lemma_p2_pos((e - 1) as nat);
    }
}

proof fn lemma_p2_mono(a: nat, b: nat)
    requires
        a <= b,
    ensures
        p2(a) <= p2(b),
    decreases b,
{
    if a < b {
        lemma_p2_mono(a, (b - 1) as nat);
        lemma_p2_pos((b - 1) as nat);
    }
}

proof fn lemma_bit_len_bound(n: nat)
    ensures
        n < p2(bit_len(n)),
        n > 0 ==> p2((bit_len(n) - 1) as nat) <= n,
    decreases n,
{
    if n > 0 {
        lemma_bit_len_bound(n / 2);
    }
}

/// `num / den` rounded half to even.
fn round_half_even_exec(num: u128, den: u128) -> (r: u128)
    requires
        den > 0,
        num < 0x1_0000_0000_0000_0000_0000_0000_0000u128,
    ensures
        r == round_half_even(num as nat, den as nat),
{
    let q = num / den;
    let rem = num % den;
    proof {
        assert(q <= num) by (nonlinear_arith)
            requires q == num / den, den > 0;
    }
    if (rem > den - rem) || (rem == den - rem && q % 2 == 1) {
        q + 1
    } else {
        q
    }
}

/// The value of `b` as an `f64`, as an integer.
fn f64_value_exec(b: u64) -> (r: u128)
    ensures
        r == f64_value(b as nat),
        r <= 0x1_0000_0000_0000_0000u128,
{
    let mut n: u64 = b;
    let mut len: u64 = 0;
    proof {
        lemma_bit_len_le64(b);
    }
    while n > 0
        invariant
            bit_len(b as nat) == len + bit_len(n as nat),
            len <= 64,
            n <= b,
            len + bit_len(n as nat) <= 64,
        decreases n,
    {
        n = n / 2;
        len = len + 1;
    }
    proof {
        lemma_bit_len_le64(b);
    }
    if len <= 53 {
        proof {
            lemma_p2_values();
        }
        b as u128
    } else {
        let e = len - 53;
        let mut den: u128 = 1;
        let mut i: u64 = 0;
        while i < e
            invariant
                i <= e,
                e <= 11,
                den == p2(i as nat),
                den >= 1,
                den <= 2048,
            decreases e - i,
        {
            proof {
                lemma_p2_mono((i + 1) as nat, 11);
                lemma_p2_values();
                lemma_p2_add(10, 1);
                reveal_with_fuel(p2, 2);
            }
            den = den * 2;
            i = i + 1;
        }
        let q = round_half_even_exec(b as u128, den);
        proof {
            lemma_bit_len_bound(b as nat);
            lemma_p2_pos(e as nat);
            lemma_round_bound(b as nat, den as nat, e as nat);
        }
        q * den
    }
}

proof fn lemma_p2_add(a: nat, b: nat)
    ensures
        p2(a + b) == p2(a) * p2(b),
    decreases a,
{
    if a == 0 {
        assert(p2(0) == 1);
        assert(a + b == b);
    } else {
        lemma_p2_add((a - 1) as nat, b);
        assert(p2(a) == 2 * p2((a - 1) as nat));
        assert((a - 1 + b) as nat + 1 == a + b);
        assert(p2(a + b) == 2 * p2((a - 1 + b) as nat));
        assert(2 * (p2((a - 1) as nat) * p2(b)) == (2 * p2((a - 1) as nat)) * p2(b)) by (nonlinear_arith);
    }
}

proof fn lemma_p2_64()
    ensures
        p2(64) == 0x1_0000_0000_0000_0000nat,
{
    lemma_p2_values();
    lemma_p2_add(30, 2);
    reveal_with_fuel(p2, 3);
    lemma_p2_add(32, 32);
    assert(p2(32) == 0x1_0000_0000nat);
    assert(0x1_0000_0000nat * 0x1_0000_0000nat == 0x1_0000_0000_0000_0000nat);
}

proof fn lemma_bit_len_below(n: nat, k: nat)
    requires
        n < p2(k),
    ensures
        bit_len(n) <= k,
    decreases k,
{
    if n == 0 {
    } else if k == 0 {
        assert(p2(0) == 1);
    } else {
        lemma_bit_len_below(n / 2, (k - 1) as nat);
    }
}

proof fn lemma_bit_len_le64(b: u64)
    ensures
        bit_len(b as nat) <= 64,
{
    lemma_p2_64();
    lemma_bit_len_below(b as nat, 64);
}

proof fn lemma_round_bound(b: nat, den: nat, e: nat)
    requires
        den == p2(e),
        den >= 1,
        b < 0x1_0000_0000_0000_0000nat,
        e <= 11,
    ensures
        round_half_even(b, den) * den <= 0x1_0000_0000_0000_0000nat,
{
    let q = b / den;
    assert(round_half_even(b, den) <= q + 1);
    lemma_pow_divides(e);
    let m = 0x1_0000_0000_0000_0000nat / den;
    assert(m * den == 0x1_0000_0000_0000_0000nat);
    assert(q < m) by (nonlinear_arith)
        requires q == b / den, den >= 1, b < m * den;
    assert((q + 1) * den <= m * den) by (nonlinear_arith)
        requires q + 1 <= m, den >= 1;
    assert(round_half_even(b, den) * den <= (q + 1) * den) by (nonlinear_arith)
        requires round_half_even(b, den) <= q + 1, den >= 1;
}

proof fn lemma_pow_divides(e: nat)
    requires
        e <= 11,
    ensures
        (0x1_0000_0000_0000_0000nat / p2(e)) * p2(e) == 0x1_0000_0000_0000_0000nat,
{
    lemma_p2_64();
    lemma_p2_add(e, (64 - e) as nat);
    lemma_p2_pos(e);
    let a = p2(e);
    let b = p2((64 - e) as nat);
    assert((a * b) / a == b) by (nonlinear_arith)
        requires a > 0;
    assert(b * a == a * b) by (nonlinear_arith);
}

/// One-decimal text of `b / 2^shift`, followed by `unit`.
fn scaled_text(b: u64, shift: u64, unit: &str) -> (r: String)
    requires
        shift == 10 || shift == 20 || shift == 30,
    ensures
        r@ == one_decimal(tenths(b as nat, shift as nat)) + unit@,
{
    let x = f64_value_exec(b);
    let den: u128 = if shift == 10 {
        1024
    } else if shift == 20 {
        1048576
    } else {
        1073741824
    };
    proof {
        lemma_p2_values();
    }
    let t = round_half_even_exec(x * 10, den);
    proof {
        let n: int = x as int * 10;
        let d: int = den as int;
        assert(t as int <= n / d + 1);
        assert(n / d <= n / 1024) by (nonlinear_arith)
            requires d >= 1024, n >= 0;
        assert(n / 1024 <= 0x1_0000_0000_0000_0000int * 10 / 1024) by (nonlinear_arith)
            requires n <= 0x1_0000_0000_0000_0000int * 10;
    }
    let whole = (t / 10) as u64;
    let frac = (t % 10) as u64;
    let mut s = u64_text(whole);
    s.append(".");
    let f = u64_text(frac);
    s.append(f.as_str());
    s.append(unit);
    proof {
        reveal_strlit(".");
    }
    s
}

/// A byte count for display, e.g. `512 B`, `1.0 KB`, `2.0 GB`.
pub fn format_bytes(bytes: u64) -> (r: String)
    ensures
        r@ == bytes_text(bytes as nat),
{
    proof {
        lemma_p2_values();
    }
    if bytes >= 1073741824 {
        let r = scaled_text(bytes, 30, " GB");
        r
    } else if bytes >= 1048576 {
        scaled_text(bytes, 20, " MB")
    } else if bytes >= 1024 {
        scaled_text(bytes, 10, " KB")
    } else {
        let mut s = u64_text(bytes);
        s.append(" B");
        s
    }
}

/// A signed byte count for display; counts below one kilobyte (negative
/// ones included) are shown in whole bytes.
pub fn format_bytes_signed(bytes: i64) -> (r: String)
    ensures
        r@ == signed_bytes_text(bytes as int),
{
    proof {
        lemma_p2_values();
    }
    if bytes >= 1024 {
        format_bytes(bytes as u64)
    } else {
        let mut s = i64_text(bytes);
        s.append(" B");
        s
    }
}

} // verus!
