//! Percentages held as the bits of an IEEE 754 single-precision number, as
//! the settings store them, with the comparisons and the one-decimal text
//! that the program computes on them, exactly.
//!
//! A finite value with bits `b` has the magnitude
//! `f32_mant(b) * 2^(f32_scale(b) - 150)`; the comparisons below state
//! that magnitude against a natural number without leaving the integers.

use vstd::prelude::*;
use crate::text::{decimal, digit_char, push_decimal, push_decimal_wide, digit};
use crate::units::{round_half_even, round_half_even_exec};

verus! {

/// Bits of the single-precision number 20.0.
pub const F32_TWENTY_BITS: u32 = 0x41A0_0000;
/// 2^24: every natural number below it is exactly a single-precision number.
pub const F32_EXACT_LIMIT: u64 = 16777216;

/// 2 to the power `n`.
pub open spec fn pow2(n: nat) -> nat
    decreases n,
{
    if n == 0 {
        1
    } else {
        2 * pow2((n - 1) as nat)
    }
}

/// The biased exponent field.
pub open spec fn f32_exp_field(b: u32) -> nat {
    (b as nat / 8388608) % 256
}

/// The fraction field.
pub open spec fn f32_frac_field(b: u32) -> nat {
    b as nat % 8388608
}

/// The sign bit is set.
pub open spec fn f32_negative(b: u32) -> bool {
    b >= 0x8000_0000
}

/// Not a number.
pub open spec fn f32_is_nan(b: u32) -> bool {
    f32_exp_field(b) == 255 && f32_frac_field(b) != 0
}

/// An infinity.
pub open spec fn f32_is_inf(b: u32) -> bool {
    f32_exp_field(b) == 255 && f32_frac_field(b) == 0
}

/// The significand, with its implicit leading bit for normal numbers.
pub open spec fn f32_mant(b: u32) -> nat {
    if f32_exp_field(b) == 0 {
        f32_frac_field(b)
    } else {
        f32_frac_field(b) + 8388608
    }
}

/// The exponent of the magnitude, offset by 150.
pub open spec fn f32_scale(b: u32) -> nat {
    if f32_exp_field(b) == 0 {
        1
    } else {
        f32_exp_field(b)
    }
}

/// The magnitude of a finite `b` is at most `n`.
pub open spec fn mag_at_most(b: u32, n: nat) -> bool {
    if f32_scale(b) >= 150 {
        n >= f32_mant(b) * pow2((f32_scale(b) - 150) as nat)
    } else {
        n * pow2((150 - f32_scale(b)) as nat) >= f32_mant(b)
    }
}

/// The magnitude of a finite `b` is at least `n`.
pub open spec fn mag_at_least(b: u32, n: nat) -> bool {
    if f32_scale(b) >= 150 {
        f32_mant(b) * pow2((f32_scale(b) - 150) as nat) >= n
    } else {
        f32_mant(b) >= n * pow2((150 - f32_scale(b)) as nat)
    }
}

/// The natural number `u` (itself a single-precision value) is at least the
/// value with bits `b`: never for NaN or positive infinity, always for a
/// negative value.
pub open spec fn nat_reaches(u: nat, b: u32) -> bool {
    if f32_is_nan(b) {
        false
    } else if f32_negative(b) {
        true
    } else if f32_is_inf(b) {
        false
    } else {
        mag_at_most(b, u)
    }
}

/// `f32::max(value, 20.0)` takes 20.0: the value is NaN or below 20.
pub open spec fn below_twenty(b: u32) -> bool {
    f32_is_nan(b) || f32_negative(b) || (!f32_is_inf(b) && !mag_at_least(b, 20))
}

/// Ten times the magnitude, rounded to a natural number half to even.
pub open spec fn tenths_rounded(b: u32) -> nat {
    if f32_scale(b) >= 150 {
        10 * f32_mant(b) * pow2((f32_scale(b) - 150) as nat)
    } else {
        round_half_even(10 * f32_mant(b), pow2((150 - f32_scale(b)) as nat))
    }
}

/// The value with one decimal, as `{:.1}` prints it.
pub open spec fn f32_one_decimal(b: u32) -> Seq<char> {
    if f32_is_nan(b) {
        "NaN"@
    } else {
        (if f32_negative(b) { seq!['-'] } else { seq![] }) + if f32_is_inf(b) {
            "inf"@
        } else {
            let q = tenths_rounded(b);
            decimal(q / 10) + seq!['.', digit_char(q % 10)]
        }
    }
}

/// The spacing of single-precision values around `n`: 1 below 2^24,
/// doubling with each binade above.
pub open spec fn f32_spacing(n: nat) -> nat
    decreases n,
{
    if n < F32_EXACT_LIMIT {
        1
    } else {
        2 * f32_spacing(n / 2)
    }
}

/// The value of `n as f32`: `n` rounded to the nearest single-precision
/// value, ties to even.
pub open spec fn as_f32(n: nat) -> nat {
    round_half_even(n, f32_spacing(n)) * f32_spacing(n)
}

proof fn lemma_pow2_positive(n: nat)
    ensures
        pow2(n) >= 1,
    decreases n,
{
    if n > 0 {
        lemma_pow2_positive((n - 1) as nat);
    }
}

proof fn lemma_pow2_monotone(a: nat, b: nat)
    requires
        a <= b,
    ensures
        pow2(a) <= pow2(b),
    decreases b,
{
    lemma_pow2_positive(b);
    if a < b {
        lemma_pow2_monotone(a, (b - 1) as nat);
    }
}

proof fn lemma_pow2_values()
    ensures
        pow2(23) == 8388608,
        pow2(24) == 16777216,
        pow2(25) == 33554432,
        pow2(28) == 268435456,
        pow2(29) == 536870912,
        pow2(32) == 4294967296,
        pow2(33) == 8589934592,
{
    reveal_with_fuel(pow2, 34);
}

proof fn lemma_pow2_split(a: nat, b: nat)
    ensures
        pow2(a) * pow2(b) == pow2(a + b),
    decreases b,
{
    if b > 0 {
        let b1 = (b - 1) as nat;
        lemma_pow2_split(a, b1);
        assert(pow2(a + b) == 2 * pow2(a + b1));
        assert(pow2(b) == 2 * pow2(b1));
        assert(pow2(a) * (2 * pow2(b1)) == 2 * (pow2(a) * pow2(b1))) by (nonlinear_arith);
    } else {
        assert(pow2(0) == 1);
        assert(pow2(a) * 1 == pow2(a));
    }
}

proof fn lemma_pow2_127()
    ensures
        pow2(127) == 0x8000_0000_0000_0000_0000_0000_0000_0000,
{
    lemma_pow2_values();
    lemma_pow2_split(32, 32);
    lemma_pow2_split(64, 64);
    assert(pow2(64) == 0x1_0000_0000_0000_0000);
    assert(pow2(128) == 0x1_0000_0000_0000_0000 * 0x1_0000_0000_0000_0000);
    assert(pow2(128) == 2 * pow2(127));
}

/// `2^n`, for `n` up to 33.
fn pow2_exec(n: u32) -> (r: u64)
    requires
        n <= 33,
    ensures
        r == pow2(n as nat),
{
    proof {
        lemma_pow2_values();
    }
    let mut r: u64 = 1;
    let mut i: u32 = 0;
    while i < n
        invariant
            i <= n <= 33,
            r == pow2(i as nat),
            pow2(33) == 8589934592,
        decreases n - i,
    {
        proof {
            lemma_pow2_monotone((i + 1) as nat, 33);
        }
        r = r * 2;
        i = i + 1;
    }
    r
}

/// The decoded fields of `b`: sign, exponent field, significand, scale.
fn decode(b: u32) -> (r: (bool, u32, u32, u32))
    ensures
        r.0 == f32_negative(b),
        r.1 == f32_exp_field(b),
        r.2 == f32_mant(b),
        r.3 == f32_scale(b),
        r.2 < 16777216,
        1 <= r.3 <= 255,
        r.1 != 0 ==> r.2 >= 8388608,
{
    let e = (b / 8388608) % 256;
    let f = b % 8388608;
    let m = if e == 0 {
        f
    } else {
        f + 8388608
    };
    let sc = if e == 0 {
        1
    } else {
        e
    };
    (b >= 0x8000_0000, e, m, sc)
}

/// `mant * 2^k`, for `k` up to 104.
fn scaled(mant: u32, k: u32) -> (r: u128)
    requires
        mant < 16777216,
        k <= 104,
    ensures
        r == mant * pow2(k as nat),
{
    proof {
        lemma_pow2_127();
        lemma_pow2_values();
    }
    let mut r: u128 = mant as u128;
    let mut i: u32 = 0;
    assert(mant * pow2(0) == mant) by {
        assert(pow2(0) == 1);
    }
    while i < k
        invariant
            i <= k <= 104,
            r == mant * pow2(i as nat),
            mant < 16777216,
            pow2(24) == 16777216,
            pow2(127) == 0x8000_0000_0000_0000_0000_0000_0000_0000,
        decreases k - i,
    {
        proof {
            lemma_pow2_split(24, i as nat);
            lemma_pow2_monotone(24 + i as nat, 127);
            lemma_pow2_positive(i as nat);
            assert(mant * pow2(i as nat) < 16777216 * pow2(i as nat)) by (nonlinear_arith)
                requires
                    mant < 16777216,
                    pow2(i as nat) >= 1,
            ;
            assert(pow2((i + 1) as nat) == 2 * pow2(i as nat));
            assert(mant * (2 * pow2(i as nat)) == 2 * (mant * pow2(i as nat))) by (nonlinear_arith);
        }
        r = r * 2;
        i = i + 1;
    }
    r
}

/// `n as f32`, as an exact natural number.
pub fn f32_value_of(n: u32) -> (v: u64)
    ensures
        v == as_f32(n as nat),
        v <= 0x1_0000_0200,
{
    let mut m: u32 = n;
    let mut u: u32 = 1;
    while m as u64 >= F32_EXACT_LIMIT
        invariant
            1 <= u <= 512,
            m as nat == n as nat / (u as nat),
            f32_spacing(n as nat) == u * f32_spacing(m as nat),
        decreases m,
    {
        proof {
            vstd::arithmetic::div_mod::lemma_fundamental_div_mod(n as int, u as int);
            assert(u * m <= n) by (nonlinear_arith)
                requires
                    n == u * (n as int / u as int) + (n as int % u as int),
                    m == n as int / u as int,
                    n as int % u as int >= 0,
            ;
            assert(u < 256) by (nonlinear_arith)
                requires
                    u * m <= n,
                    m >= F32_EXACT_LIMIT,
                    n <= u32::MAX,
            ;
            vstd::arithmetic::div_mod::lemma_div_denominator(n as int, u as int, 2);
            let sp = f32_spacing((m / 2) as nat);
            assert(f32_spacing(m as nat) == 2 * sp);
            assert(u * (2 * sp) == (2 * u) * sp) by (nonlinear_arith);
        }
        m = m / 2;
        u = u * 2;
    }
    let u = u as u128;
    proof {
        vstd::arithmetic::div_mod::lemma_fundamental_div_mod(n as int, u as int);
        assert(f32_spacing(m as nat) == 1);
        assert(f32_spacing(n as nat) == u) by (nonlinear_arith)
            requires
                f32_spacing(m as nat) == 1,
                f32_spacing(n as nat) == u * f32_spacing(m as nat),
        ;
        assert(u * (n as int / u as int) <= n) by (nonlinear_arith)
            requires
                n == u * (n as int / u as int) + (n as int % u as int),
                n as int % u as int >= 0,
        ;
    }
    let r = round_half_even_exec(n as u128, u);
    proof {
        let q = n as int / u as int;
        assert(r * u <= (q + 1) * u) by (nonlinear_arith)
            requires
                r <= q + 1,
                u >= 1,
        ;
        assert((q + 1) * u == q * u + u) by (nonlinear_arith);
        assert(u * q == q * u) by (nonlinear_arith);
        assert(u <= 512);
    }
    (r * u) as u64
}

/// Whether a memory load of `usage_percent` (taken as an `f32`, as the
/// system's load is) reaches the threshold with bits `bits`.
pub fn reaches_threshold(usage_percent: u32, bits: u32) -> (b: bool)
    ensures
        b == nat_reaches(as_f32(usage_percent as nat), bits),
{
    let u = f32_value_of(usage_percent);
    let (neg, e, m, sc) = decode(bits);
    if e == 255 && m != 8388608 {
        return false;
    }
    if neg {
        return true;
    }
    if e == 255 {
        return false;
    }
    proof {
        lemma_pow2_values();
    }
    if sc >= 150 {
        let k = sc - 150;
        if k >= 33 {
            proof {
                lemma_pow2_monotone(33, k as nat);
                assert(m * pow2(k as nat) >= 8388608 * 8589934592) by (nonlinear_arith)
                    requires
                        m >= 8388608,
                        pow2(k as nat) >= 8589934592,
                ;
            }
            false
        } else {
            let v = scaled(m, k);
            u as u128 >= v
        }
    } else {
        let j = 150 - sc;
        if j >= 25 {
            proof {
                lemma_pow2_monotone(25, j as nat);
                if u >= 1 {
                    assert(u * pow2(j as nat) >= pow2(j as nat)) by (nonlinear_arith)
                        requires
                            u >= 1,
                    ;
                } else {
                    assert(u * pow2(j as nat) == 0) by (nonlinear_arith)
                        requires
                            u == 0,
                    ;
                }
            }
            u >= 1 || m == 0
        } else {
            let p = pow2_exec(j);
            proof {
                lemma_pow2_monotone(j as nat, 25);
                assert(u * p <= 0x1_0000_0200 * 33554432) by (nonlinear_arith)
                    requires
                        u <= 0x1_0000_0200,
                        p <= 33554432,
                ;
            }
            (u as u128) * (p as u128) >= m as u128
        }
    }
}

/// The threshold `f32::max(value, 20.0)` gives for the threshold with bits `bits`.
pub fn raise_to_twenty(bits: u32) -> (r: u32)
    ensures
        r == if below_twenty(bits) {
            F32_TWENTY_BITS
        } else {
            bits
        },
{
    let (neg, e, m, sc) = decode(bits);
    if e == 255 && m != 8388608 {
        return F32_TWENTY_BITS;
    }
    if neg {
        return F32_TWENTY_BITS;
    }
    if e == 255 {
        return bits;
    }
    proof {
        lemma_pow2_values();
    }
    let at_least = if sc >= 150 {
        proof {
            lemma_pow2_positive((sc - 150) as nat);
            assert(m * pow2((sc - 150) as nat) >= m) by (nonlinear_arith)
                requires
                    pow2((sc - 150) as nat) >= 1,
            ;
        }
        true
    } else {
        let j = 150 - sc;
        if j >= 25 {
            proof {
                lemma_pow2_monotone(25, j as nat);
            }
            false
        } else {
            let p = pow2_exec(j);
            proof {
                lemma_pow2_monotone(j as nat, 25);
            }
            m as u64 >= 20 * p
        }
    };
    if at_least {
        bits
    } else {
        F32_TWENTY_BITS
    }
}

/// Appends the value with bits `bits` with one decimal, as `{:.1}` prints it.
pub fn push_one_decimal(s: &mut String, bits: u32)
    ensures
        final(s)@ == old(s)@ + f32_one_decimal(bits),
{
    let (neg, e, m, sc) = decode(bits);
    if e == 255 && m != 8388608 {
        s.append("NaN");
        return;
    }
    let ghost before = s@;
    if neg {
        s.push('-');
    }
    let ghost signed = s@;
    assert(signed == before + (if f32_negative(bits) { seq!['-'] } else { seq![] })) by {
        if !neg {
            assert(signed =~= before + Seq::<char>::empty());
        }
    }
    if e == 255 {
        s.append("inf");
        proof {
            assert(s@ =~= old(s)@ + f32_one_decimal(bits));
        }
        return;
    }
    proof {
        lemma_pow2_values();
    }
    if sc >= 150 {
        let k = sc - 150;
        let v = scaled(m, k);
        push_decimal_wide(s, v);
        s.push('.');
        s.push(digit(0));
        proof {
            let q = tenths_rounded(bits);
            assert(q == 10 * v) by (nonlinear_arith)
                requires
                    q == 10 * m * pow2(k as nat),
                    v == m * pow2(k as nat),
            ;
            assert(q / 10 == v && q % 10 == 0);
            assert(s@ =~= old(s)@ + f32_one_decimal(bits));
        }
    } else {
        let j = 150 - sc;
        let q: u64 = if j >= 29 {
            proof {
                lemma_pow2_monotone(29, j as nat);
                let x = 10 * m as nat;
                let p = pow2(j as nat);
                vstd::arithmetic::div_mod::lemma_basic_div(x as int, p as int);
                vstd::arithmetic::div_mod::lemma_small_mod(x, p);
                assert(round_half_even(x, p) == 0);
            }
            0
        } else {
            let p = pow2_exec(j);
            proof {
                lemma_pow2_positive(j as nat);
            }
            let q = round_half_even_exec(10 * m as u128, p as u128);
            proof {
                assert(q <= 10 * m) by (nonlinear_arith)
                    requires
                        q <= (10 * m) / (p as int) + 1,
                        p >= 1,
                        q == round_half_even(10 * m as nat, p as nat),
                ;
            }
            q as u64
        };
        push_decimal(s, q / 10);
        s.push('.');
        s.push(digit((q % 10) as u8));
        proof {
            assert(q as nat == tenths_rounded(bits));
            assert(s@ =~= old(s)@ + f32_one_decimal(bits));
        }
    }
}

/// 20.0 is not below 20: raising to the minimum keeps it.
pub proof fn lemma_twenty_not_below()
    ensures
        !below_twenty(F32_TWENTY_BITS),
        f32_mant(F32_TWENTY_BITS) == 10485760,
        f32_scale(F32_TWENTY_BITS) == 131,
{
    reveal_with_fuel(pow2, 20);
    assert(pow2(19) == 524288);
}

} // verus!
