//! Human-readable byte sizes: two decimals in the largest binary unit that
//! fits, as `bytes as f64 / unit as f64` renders with `{:.2}`.

use vstd::prelude::*;
use crate::text::{decimal, two_digits, push_decimal, push_two_digits};

verus! {

pub const KB: u64 = 1024;
pub const MB: u64 = 1048576;
pub const GB: u64 = 1073741824;
pub const TB: u64 = 1099511627776;

/// 2^53: every natural number below it is exactly an `f64`.
pub const F64_EXACT_LIMIT: u64 = 9007199254740992;

/// Rounds `num / den` to the nearest natural number, ties to the even one.
pub open spec fn round_half_even(num: nat, den: nat) -> nat
    recommends
        den > 0,
{
    let q = num / den;
    let r = num % den;
    if 2 * r > den || (2 * r == den && q % 2 == 1) {
        q + 1
    } else {
        q
    }
}

/// The spacing of `f64` values around `n`: 1 below 2^53, doubling with each binade above.
pub open spec fn f64_spacing(n: nat) -> nat
    decreases n,
{
    if n < F64_EXACT_LIMIT {
        1
    } else {
        2 * f64_spacing(n / 2)
    }
}

/// The value of `n as f64`: `n` rounded to the nearest representable value, ties to even.
pub open spec fn as_f64(n: nat) -> nat {
    round_half_even(n, f64_spacing(n)) * f64_spacing(n)
}

/// `num / unit` with exactly two decimals, rounded half to even, as `{:.2}` prints it.
pub open spec fn fixed_two(num: nat, unit: nat) -> Seq<char> {
    let c = round_half_even(num * 100, unit);
    decimal(c / 100) + seq!['.'] + two_digits(c % 100)
}

/// The text of a byte count: in TB, GB, MB or KB with two decimals, or in plain bytes.
pub open spec fn format_bytes_text(bytes: nat) -> Seq<char> {
    if bytes >= TB {
        fixed_two(as_f64(bytes), TB as nat) + seq![' ', 'T', 'B']
    } else if bytes >= GB {
        fixed_two(as_f64(bytes), GB as nat) + seq![' ', 'G', 'B']
    } else if bytes >= MB {
        fixed_two(as_f64(bytes), MB as nat) + seq![' ', 'M', 'B']
    } else if bytes >= KB {
        fixed_two(as_f64(bytes), KB as nat) + seq![' ', 'K', 'B']
    } else {
        decimal(bytes) + seq![' ', 'B']
    }
}

proof fn lemma_exact_below_limit(n: nat)
    requires
        n < F64_EXACT_LIMIT,
    ensures
        as_f64(n) == n,
{
    assert(f64_spacing(n) == 1);
    assert(n / 1 == n && n % 1 == 0) by (nonlinear_arith);
}

pub(crate) fn round_half_even_exec(num: u128, den: u128) -> (c: u128)
    requires
        den > 0,
        num < u128::MAX,
    ensures
        c == round_half_even(num as nat, den as nat),
{
    let q = num / den;
    let r = num % den;
    assert(q <= num) by (nonlinear_arith)
        requires
            den > 0,
            q == num / den,
    ;
    if r > den - r || (r == den - r && q % 2 == 1) {
        proof {
            if den == 1 {
                assert(r == 0);
            } else {
                assert(q < num || num == 0) by (nonlinear_arith)
                    requires
                        den >= 2,
                        q == num / den,
                ;
            }
        }
        q + 1
    } else {
        q
    }
}

proof fn lemma_fixed_two_bound(num: nat, unit: nat, c: nat)
    requires
        unit >= 2,
        num <= 0x1_0000_0000_0000_0800,
        c == round_half_even(num * 100, unit),
    ensures
        c / 100 <= u64::MAX,
        c < u128::MAX,
{
    let n = num * 100;
    let q = n / unit;
    assert(q * 2 <= n) by (nonlinear_arith)
        requires
            unit >= 2,
            q == n / unit,
            n >= 0,
    ;
    assert(c <= q + 1);
}

/// Appends `num / unit` with two decimals, rounded half to even.
fn push_fixed_two(s: &mut String, num: u128, unit: u128)
    requires
        unit >= 2,
        num <= 0x1_0000_0000_0000_0800,
    ensures
        final(s)@ == old(s)@ + fixed_two(num as nat, unit as nat),
{
    proof {
        lemma_fixed_two_bound(num as nat, unit as nat, round_half_even((num * 100) as nat, unit as nat));
    }
    let c = round_half_even_exec(num * 100, unit);
    push_decimal(s, (c / 100) as u64);
    s.push('.');
    push_two_digits(s, (c % 100) as u64);
    proof {
        assert(s@ =~= old(s)@ + fixed_two(num as nat, unit as nat));
    }
}

/// `bytes as f64`, as an exact natural number.
fn f64_value(bytes: u64) -> (v: u128)
    ensures
        v == as_f64(bytes as nat),
        v <= 0x1_0000_0000_0000_0800,
{
    let mut m: u64 = bytes;
    let mut u: u64 = 1;
    while m >= F64_EXACT_LIMIT
        invariant
            1 <= u <= 4096,
            m as nat == bytes as nat / (u as nat),
            f64_spacing(bytes as nat) == u * f64_spacing(m as nat),
        decreases m,
    {
        proof {
            vstd::arithmetic::div_mod::lemma_fundamental_div_mod(bytes as int, u as int);
            assert(u * m <= bytes) by (nonlinear_arith)
                requires
                    bytes == u * (bytes as int / u as int) + (bytes as int % u as int),
                    m == bytes as int / u as int,
                    bytes as int % u as int >= 0,
            ;
            assert(u < 2048) by (nonlinear_arith)
                requires
                    u * m <= bytes,
                    m >= F64_EXACT_LIMIT,
                    bytes <= u64::MAX,
            ;
            vstd::arithmetic::div_mod::lemma_div_denominator(bytes as int, u as int, 2);
            let sp = f64_spacing((m / 2) as nat);
            assert(f64_spacing(m as nat) == 2 * sp);
            assert(u * (2 * sp) == (2 * u) * sp) by (nonlinear_arith);
        }
        m = m / 2;
        u = u * 2;
    }
    let u = u as u128;
    proof {
        vstd::arithmetic::div_mod::lemma_fundamental_div_mod(bytes as int, u as int);
        assert(f64_spacing(m as nat) == 1);
        assert(f64_spacing(bytes as nat) == u) by (nonlinear_arith)
            requires
                f64_spacing(m as nat) == 1,
                f64_spacing(bytes as nat) == u * f64_spacing(m as nat),
        ;
        assert(u * (bytes as int / u as int) <= bytes) by (nonlinear_arith)
            requires
                bytes == u * (bytes as int / u as int) + (bytes as int % u as int),
                bytes as int % u as int >= 0,
        ;
    }
    let r = round_half_even_exec(bytes as u128, u);
    proof {
        let q = bytes as int / u as int;
        assert(r * u <= (q + 1) * u) by (nonlinear_arith)
            requires
                r <= q + 1,
                u >= 1,
        ;
        assert((q + 1) * u == q * u + u) by (nonlinear_arith);
        assert(u * q == q * u) by (nonlinear_arith);
    }
    r * u
}

/// Renders a byte count for people: "1.50 GB", "512 B", ...
pub fn format_bytes(bytes: u64) -> (s: String)
    ensures
        s@ == format_bytes_text(bytes as nat),
{
    let mut s = String::new();
    if bytes >= TB {
        let v = f64_value(bytes);
        push_fixed_two(&mut s, v, TB as u128);
        s.push(' ');
        s.push('T');
        s.push('B');
    } else {
        proof {
            lemma_exact_below_limit(bytes as nat);
        }
        if bytes >= GB {
            push_fixed_two(&mut s, bytes as u128, GB as u128);
            s.push(' ');
            s.push('G');
            s.push('B');
        } else if bytes >= MB {
            push_fixed_two(&mut s, bytes as u128, MB as u128);
            s.push(' ');
            s.push('M');
            s.push('B');
        } else if bytes >= KB {
            push_fixed_two(&mut s, bytes as u128, KB as u128);
            s.push(' ');
            s.push('K');
            s.push('B');
        } else {
            push_decimal(&mut s, bytes);
            s.push(' ');
            s.push('B');
        }
    }
    proof {
        assert(s@ =~= format_bytes_text(bytes as nat));
    }
    s
}

/// `text` is the number `x` hundredths written with two decimals, then `unit_name`.
pub open spec fn shows_hundredths(text: Seq<char>, x: nat, unit_name: Seq<char>) -> bool {
    text == decimal(x / 100) + seq!['.'] + two_digits(x % 100) + unit_name
}

/// `x` hundredths of `unit` lie within half a hundredth of a unit of `amount`:
/// `|x * unit - 100 * amount| <= unit / 2`.
pub open spec fn near_hundredths(x: nat, amount: nat, unit: nat) -> bool {
    &&& 2 * x * unit <= 200 * amount + unit
    &&& 200 * amount <= 2 * x * unit + unit
}

proof fn lemma_round_half_even_close(n: nat, d: nat)
    requires
        d > 0,
    ensures
        2 * round_half_even(n, d) * d <= 2 * n + d,
        2 * n <= 2 * round_half_even(n, d) * d + d,
{
    let q = n / d;
    let r = n % d;
    vstd::arithmetic::div_mod::lemma_fundamental_div_mod(n as int, d as int);
    let c = round_half_even(n, d);
    if 2 * r > d || (2 * r == d && q % 2 == 1) {
        assert(c == q + 1);
        assert(2 * c * d == 2 * (q * d) + 2 * d) by (nonlinear_arith)
            requires
                c == q + 1,
        ;
    } else {
        assert(c == q);
        assert(2 * c * d == 2 * (q * d)) by (nonlinear_arith)
            requires
                c == q,
        ;
    }
    assert(n == q * d + r) by (nonlinear_arith)
        requires
            n == d * (n as int / d as int) + (n as int % d as int),
            q == n / d,
            r == n % d,
    ;
}

proof fn lemma_fixed_two_near(amount: nat, unit: nat, unit_name: Seq<char>)
    requires
        unit > 0,
    ensures
        shows_hundredths(
            fixed_two(amount, unit) + unit_name,
            round_half_even(amount * 100, unit),
            unit_name,
        ),
        near_hundredths(round_half_even(amount * 100, unit), amount, unit),
{
    lemma_round_half_even_close(amount * 100, unit);
    assert(200 * amount == 2 * (amount * 100)) by (nonlinear_arith);
}

/// A byte count is written in the largest unit it reaches (bytes below a
/// kilobyte as a plain number), and the number shown is the count in that unit
/// rounded to two decimals: within half a hundredth of the exact quotient. From
/// a terabyte on, the count first goes through `f64`, which leaves every count
/// below 2^53 as it is.
pub proof fn lemma_format_bytes_rounds(bytes: nat)
    ensures
        bytes < KB ==> format_bytes_text(bytes) == decimal(bytes) + seq![' ', 'B'],
        KB <= bytes < MB ==> exists|x: nat|
            shows_hundredths(format_bytes_text(bytes), x, seq![' ', 'K', 'B'])
                && near_hundredths(x, bytes, KB as nat),
        MB <= bytes < GB ==> exists|x: nat|
            shows_hundredths(format_bytes_text(bytes), x, seq![' ', 'M', 'B'])
                && near_hundredths(x, bytes, MB as nat),
        GB <= bytes < TB ==> exists|x: nat|
            shows_hundredths(format_bytes_text(bytes), x, seq![' ', 'G', 'B'])
                && near_hundredths(x, bytes, GB as nat),
        TB <= bytes ==> exists|x: nat|
            shows_hundredths(format_bytes_text(bytes), x, seq![' ', 'T', 'B'])
                && near_hundredths(x, as_f64(bytes), TB as nat),
        bytes < F64_EXACT_LIMIT ==> as_f64(bytes) == bytes,
{
    if bytes < F64_EXACT_LIMIT {
        lemma_exact_below_limit(bytes);
    }
    if TB <= bytes {
        lemma_fixed_two_near(as_f64(bytes), TB as nat, seq![' ', 'T', 'B']);
    } else if GB <= bytes {
        lemma_fixed_two_near(bytes, GB as nat, seq![' ', 'G', 'B']);
    } else if MB <= bytes {
        lemma_fixed_two_near(bytes, MB as nat, seq![' ', 'M', 'B']);
    } else if KB <= bytes {
        lemma_fixed_two_near(bytes, KB as nat, seq![' ', 'K', 'B']);
    }
}

} // verus!
