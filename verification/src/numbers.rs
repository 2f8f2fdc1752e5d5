//! Large numbers in few characters, rounded as double-precision arithmetic rounds them.
use vstd::prelude::*;
use vstd::arithmetic::power2::{
    lemma2_to64, lemma2_to64_rest, lemma_pow2_adds, lemma_pow2_pos, lemma_pow2_unfold, pow2,
};
use crate::json::{round_half_even, rounded};
use crate::text::{cat, dec, dec_u64, decimal};

verus! {

// ── Doubles ─────────────────────────────────────────────────────────────────

/// How far a number has to be shifted right to have 53 bits.
pub open spec fn excess(n: nat) -> nat
    decreases n,
{
    if n < 0x20_0000_0000_0000 {
        0
    } else {
        excess(n / 2) + 1
    }
}

/// The nearest number that a double holds; a tie goes to the even neighbour.
pub open spec fn to_double(n: nat) -> nat {
    rounded(n, pow2(excess(n))) * pow2(excess(n))
}

/// A quotient of a million, brought to 53 bits: the dividend times a power of two, and
/// the power.
pub open spec fn scaled(x: nat, s: nat) -> (nat, nat)
    decreases 0x20_0000_0000_0000 * 1_000_000 - x,
{
    if 0 < x && 2 * x < 0x20_0000_0000_0000 * 1_000_000 {
        scaled(2 * x, s + 1)
    } else {
        (x, s)
    }
}

/// The tenths of the double nearest to a number of millionths.
pub open spec fn million_tenths(n: nat) -> nat {
    let (x, s) = scaled(to_double(n), 0);
    rounded(rounded(x, 1_000_000) * 10, pow2(s))
}

/// A count in few characters: millions with one decimal, thousands, or as it is.
pub open spec fn human_v(a: nat) -> Seq<char> {
    if a >= 1_000_000 {
        let t = million_tenths(a);
        dec(t / 10) + "."@ + dec(t % 10) + "M"@
    } else if a >= 1_000 {
        dec(rounded(a, 1_000)) + "K"@
    } else {
        dec(a)
    }
}

/// A signed count in few characters.
pub open spec fn tokens_v(n: int) -> Seq<char> {
    if n < 0 {
        "-"@ + human_v((-n) as nat)
    } else {
        human_v(n as nat)
    }
}

fn shift_of(n: u64) -> (e: u64)
    ensures
        e == excess(n as nat),
        e <= 11,
        n < 0x20_0000_0000_0000 ==> e == 0,
{
    proof {
        reveal_with_fuel(excess, 13);
    }
    if n < 0x20_0000_0000_0000 {
        0
    } else if n < 0x40_0000_0000_0000 {
        1
    } else if n < 0x80_0000_0000_0000 {
        2
    } else if n < 0x100_0000_0000_0000 {
        3
    } else if n < 0x200_0000_0000_0000 {
        4
    } else if n < 0x400_0000_0000_0000 {
        5
    } else if n < 0x800_0000_0000_0000 {
        6
    } else if n < 0x1000_0000_0000_0000 {
        7
    } else if n < 0x2000_0000_0000_0000 {
        8
    } else if n < 0x4000_0000_0000_0000 {
        9
    } else if n < 0x8000_0000_0000_0000 {
        10
    } else {
        11
    }
}

fn power_of_two(e: u64) -> (r: u128)
    requires
        e <= 60,
    ensures
        r == pow2(e as nat),
        1 <= r <= 0x1000_0000_0000_0000,
{
    let mut r: u128 = 1;
    proof {
        lemma2_to64();
    }
    for i in 0..e
        invariant
            e <= 60,
            r == pow2(i as nat),
            r >= 1,
            r <= 0x1000_0000_0000_0000,
    {
        proof {
            lemma_pow2_unfold((i + 1) as nat);
            lemma2_to64();
            lemma2_to64_rest();
            pow2_grows((i + 1) as nat, 60);
        }
        r = r * 2;
    }
    r
}

proof fn pow2_grows(a: nat, b: nat)
    requires
        a <= b,
    ensures
        pow2(a) <= pow2(b),
    decreases b - a,
{
    if a < b {
        pow2_grows(a, (b - 1) as nat);
        lemma_pow2_unfold(b);
        lemma_pow2_pos((b - 1) as nat);
    }
}

fn double(n: u64) -> (r: u128)
    ensures
        r == to_double(n as nat),
        r <= 0x1_0000_0000_0000_0000,
        n < 0x20_0000_0000_0000 ==> r == n,
        n >= 1_000_000 ==> r >= 1_000_000,
{
    let e: u64 = shift_of(n);
    let p: u128 = power_of_two(e);
    let q: u128 = round_half_even(n as u128, p);
    proof {
        lemma2_to64();
        let r = rounded(n as nat, p as nat);
        let ghost m = n as int;
        let ghost u = p as int;
        assert(u <= 2048) by {
            pow2_grows(e as nat, 11);
        }
        assert(m / u * u <= m && m - m / u * u < u) by (nonlinear_arith)
            requires
                u > 0,
                m >= 0,
        ;
        assert(r == m / u || r == m / u + 1);
        assert((m / u + 1) * u == m / u * u + u) by (nonlinear_arith);
        if e == 0 {
            assert(u == 1);
            assert(m / 1 == m && m % 1 == 0);
            assert(r * 1 == r);
        } else {
            assert(n >= 0x20_0000_0000_0000) by {
                reveal_with_fuel(excess, 2);
            }
            assert(r * u >= m / u * u) by (nonlinear_arith)
                requires
                    r >= m / u,
                    u > 0,
            ;
            double_upper(m, u, r as int, e as int);
        }
    }
    q * p
}

proof fn double_upper(m: int, u: int, r: int, e: int)
    requires
        0 <= m <= 0xffff_ffff_ffff_ffff,
        0 < u <= 2048,
        u == pow2(e as nat),
        0 <= e <= 11,
        r == m / u || r == m / u + 1,
    ensures
        r * u <= 0x1_0000_0000_0000_0000,
{
    lemma2_to64();
    assert(u == 1 || u == 2 || u == 4 || u == 8 || u == 16 || u == 32 || u == 64 || u == 128 || u
        == 256 || u == 512 || u == 1024 || u == 2048) by {
        assert(e == 0 || e == 1 || e == 2 || e == 3 || e == 4 || e == 5 || e == 6 || e == 7 || e
            == 8 || e == 9 || e == 10 || e == 11);
    }
    let k = if u == 1 {
        0x10000000000000000int
    } else if u == 2 {
        0x8000000000000000int
    } else if u == 4 {
        0x4000000000000000int
    } else if u == 8 {
        0x2000000000000000int
    } else if u == 16 {
        0x1000000000000000int
    } else if u == 32 {
        0x800000000000000int
    } else if u == 64 {
        0x400000000000000int
    } else if u == 128 {
        0x200000000000000int
    } else if u == 256 {
        0x100000000000000int
    } else if u == 512 {
        0x80000000000000int
    } else if u == 1024 {
        0x40000000000000int
    } else {
        0x20000000000000int
    };
    assert(k * u == 0x1_0000_0000_0000_0000int) by (nonlinear_arith)
        requires
            (u == 1 && k == 0x10000000000000000)
                || (u == 2 && k == 0x8000000000000000)
                || (u == 4 && k == 0x4000000000000000)
                || (u == 8 && k == 0x2000000000000000)
                || (u == 16 && k == 0x1000000000000000)
                || (u == 32 && k == 0x800000000000000)
                || (u == 64 && k == 0x400000000000000)
                || (u == 128 && k == 0x200000000000000)
                || (u == 256 && k == 0x100000000000000)
                || (u == 512 && k == 0x80000000000000)
                || (u == 1024 && k == 0x40000000000000)
                || (u == 2048 && k == 0x20000000000000),
    ;
    assert(m / u < k) by (nonlinear_arith)
        requires
            0 <= m < k * u,
            u > 0,
    ;
    assert(r * u <= k * u) by (nonlinear_arith)
        requires
            r <= k,
            u > 0,
    ;
}

fn scale(x: u128) -> (r: (u128, u64))
    requires
        1_000_000 <= x <= 0x1_0000_0000_0000_0000,
    ensures
        (r.0 as nat, r.1 as nat) == scaled(x as nat, 0),
        r.0 < 0x20_0000_0000_0000 * 1_000_000,
        r.1 <= 60,
{
    let mut y: u128 = x;
    let mut s: u64 = 0;
    proof {
        lemma2_to64();
        lemma2_to64_rest();
    }
    while 2 * y < 0x20_0000_0000_0000 * 1_000_000
        invariant
            1_000_000 <= x <= y,
            y < 0x20_0000_0000_0000 * 1_000_000,
            scaled(y as nat, s as nat) == scaled(x as nat, 0),
            y >= 1_000_000 * pow2(s as nat),
            s <= 60,
        decreases 0x20_0000_0000_0000 * 1_000_000 - y,
    {
        proof {
            lemma_pow2_unfold((s + 1) as nat);
            lemma2_to64();
            lemma2_to64_rest();
            if s >= 53 {
                pow2_grows(53, s as nat);
            }
        }
        y = 2 * y;
        s = s + 1;
    }
    (y, s)
}

fn tenths_of_millions(n: u64) -> (t: u128)
    requires
        n >= 1_000_000,
    ensures
        t == million_tenths(n as nat),
{
    let (x, s) = scale(double(n));
    let m: u128 = round_half_even(x, 1_000_000);
    proof {
        assert(m <= x / 1_000_000 + 1);
    }
    let p: u128 = power_of_two(s);
    round_half_even(m * 10, p)
}

fn human(a: u64) -> (r: String)
    ensures
        r@ == human_v(a as nat),
{
    if a >= 1_000_000 {
        let t: u128 = tenths_of_millions(a);
        let mut out = decimal(t / 10);
        out.append(".");
        out.append(decimal(t % 10).as_str());
        out.append("M");
        out
    } else if a >= 1_000 {
        cat(decimal(round_half_even(a as u128, 1_000)).as_str(), "K")
    } else {
        dec_u64(a)
    }
}

/// A signed count in few characters.
pub fn humanize_tokens(n: i64) -> (r: String)
    ensures
        r@ == tokens_v(n as int),
{
    if n < 0 {
        let m: i128 = -(n as i128);
        cat("-", human(m as u64).as_str())
    } else {
        human(n as u64)
    }
}

/// A size in few characters: megabytes with one decimal, kilobytes, or bytes.
pub open spec fn size_v(bytes: nat) -> Seq<char> {
    if bytes >= 0x10_0000 {
        let t = rounded(to_double(bytes) * 10, 0x10_0000);
        dec(t / 10) + "."@ + dec(t % 10) + " MB"@
    } else if bytes >= 0x400 {
        dec(rounded(bytes, 0x400)) + " KB"@
    } else {
        dec(bytes) + " B"@
    }
}

/// A size in few characters.
pub fn human_size(bytes: u64) -> (r: String)
    ensures
        r@ == size_v(bytes as nat),
{
    if bytes >= 0x10_0000 {
        let t: u128 = round_half_even(double(bytes) * 10, 0x10_0000);
        let mut out = decimal(t / 10);
        out.append(".");
        out.append(decimal(t % 10).as_str());
        out.append(" MB");
        out
    } else if bytes >= 0x400 {
        cat(decimal(round_half_even(bytes as u128, 0x400)).as_str(), " KB")
    } else {
        cat(dec_u64(bytes).as_str(), " B")
    }
}

// ── Proportions ─────────────────────────────────────────────────────────────

/// A dividend doubled until its quotient by `b` has 53 bits, and how often it was.
pub open spec fn lifted(x: nat, b: nat, s: nat) -> (nat, nat)
    decreases 0x20_0000_0000_0000 * b - x,
{
    if 0 < x && x < 0x10_0000_0000_0000 * b {
        lifted(2 * x, b, s + 1)
    } else {
        (x, s)
    }
}

/// `n` times the quotient of `a` and `b`, both operations in doubles, without its
/// fraction.
pub open spec fn shrunk(n: nat, a: nat, b: nat) -> nat {
    let (x, s) = lifted(a, b, 0);
    to_double(n * rounded(x, b)) / pow2(s)
}

fn high_power(e: u64) -> (r: u128)
    requires
        e <= 84,
    ensures
        r == pow2(e as nat),
        r > 0,
{
    if e <= 60 {
        power_of_two(e)
    } else {
        let a: u128 = power_of_two(60);
        let b: u128 = power_of_two(e - 60);
        proof {
            lemma_pow2_adds(60, (e - 60) as nat);
            lemma2_to64();
            lemma2_to64_rest();
            pow2_grows((e - 60) as nat, 24);
            assert(a * b <= 0x1000_0000_0000_0000 * 0x100_0000) by (nonlinear_arith)
                requires
                    0 <= a <= 0x1000_0000_0000_0000,
                    0 <= b <= 0x100_0000,
            ;
            assert(a * b > 0) by (nonlinear_arith)
                requires
                    a > 0,
                    b > 0,
            ;
        }
        a * b
    }
}

fn lift(a: u32, b: u32) -> (r: (u128, u64))
    requires
        0 < a < b,
    ensures
        (r.0 as nat, r.1 as nat) == lifted(a as nat, b as nat, 0),
        r.0 == a * pow2(r.1 as nat),
        0x10_0000_0000_0000 * b <= r.0 < 0x20_0000_0000_0000 * b,
        r.1 <= 84,
{
    let top: u128 = 0x10_0000_0000_0000 * b as u128;
    let mut x: u128 = a as u128;
    let mut s: u64 = 0;
    proof {
        lemma2_to64();
    }
    while x < top
        invariant
            0 < a < b,
            top == 0x10_0000_0000_0000 * b,
            a <= x < 2 * top,
            lifted(x as nat, b as nat, s as nat) == lifted(a as nat, b as nat, 0),
            x == a * pow2(s as nat),
            s <= 84,
        decreases 2 * top - x,
    {
        proof {
            lemma_pow2_unfold((s + 1) as nat);
            assert(a * (2 * pow2(s as nat)) == 2 * (a * pow2(s as nat))) by (nonlinear_arith);
            assert(pow2(s as nat) <= a * pow2(s as nat)) by (nonlinear_arith)
                requires
                    a >= 1,
            ;
            if s >= 84 {
                lemma_pow2_adds(52, 32);
                lemma2_to64();
                lemma2_to64_rest();
                pow2_grows(84, s as nat);
            }
        }
        x = 2 * x;
        s = s + 1;
    }
    (x, s)
}

fn wide_double(p: u128) -> (r: u128)
    requires
        p <= 0x20_0000_0000_0000 * 0x1_0000_0000,
    ensures
        r == to_double(p as nat),
        r <= p + 0x2_0000_0000,
{
    let mut y: u128 = p;
    let mut e: u64 = 0;
    proof {
        lemma2_to64();
    }
    while y >= 0x20_0000_0000_0000
        invariant
            p <= 0x20_0000_0000_0000 * 0x1_0000_0000,
            excess(p as nat) == e + excess(y as nat),
            y * pow2(e as nat) <= p,
            e <= 33,
        decreases y,
    {
        proof {
            lemma_pow2_unfold((e + 1) as nat);
            assert((y / 2) * (2 * pow2(e as nat)) <= y * pow2(e as nat)) by (nonlinear_arith)
                requires
                    y >= 0,
            ;
            if e >= 33 {
                lemma2_to64();
                lemma2_to64_rest();
                pow2_grows(33, e as nat);
                assert(y * pow2(e as nat) >= 0x20_0000_0000_0000 * 0x2_0000_0000) by (nonlinear_arith)
                    requires
                        y >= 0x20_0000_0000_0000,
                        pow2(e as nat) >= 0x2_0000_0000,
                ;
            }
        }
        y = y / 2;
        e = e + 1;
    }
    let u: u128 = power_of_two(e);
    let q: u128 = round_half_even(p, u);
    proof {
        lemma2_to64();
        lemma2_to64_rest();
        pow2_grows(e as nat, 33);
        rounding_is_near(p as int, u as int);
    }
    q * u
}

/// A rounded quotient is off by half a unit at most.
proof fn rounding_is_near(m: int, u: int)
    requires
        0 <= m,
        0 < u,
    ensures
        2 * (rounded(m as nat, u as nat) * u) <= 2 * m + u,
        2 * (rounded(m as nat, u as nat) * u) >= 2 * m - u,
{
    let q = m / u;
    let r = m % u;
    assert(m == q * u + r && 0 <= r < u) by (nonlinear_arith)
        requires
            q == m / u,
            r == m % u,
            u > 0,
    ;
    assert((q + 1) * u == q * u + u) by (nonlinear_arith);
}

/// What is shrunk by a quotient below one stays within every whole bound that the exact
/// product stays within.
pub proof fn shrinking_fits(n: nat, a: nat, b: nat, bound: nat)
    requires
        0 < a < b <= 0xffff_ffff,
        n <= 0xffff_ffff,
        n * a <= bound * b,
    ensures
        shrunk(n, a, b) <= bound,
{
    let (x, s) = lifted(a, b, 0);
    lemma2_to64();
    lifted_bounds(a, b, a, 0);
    lemma_pow2_pos(s);
    let m = rounded(x, b) as int;
    let p = n * rounded(x, b);
    let k = pow2(s) as int;
    rounding_is_near(x as int, b as int);
    assert(2 * (m * b) <= 2 * x + b);
    // The product is hardly above the bound.
    assert(n * (2 * (m * b)) <= n * (2 * x + b)) by (nonlinear_arith)
        requires
            2 * (m * b) <= 2 * x + b,
            n >= 0,
    ;
    assert(n * (2 * (m * b)) == 2 * (p * b)) by (nonlinear_arith)
        requires
            p == n * m,
    ;
    assert(n * (2 * x + b) == 2 * ((n * a) * k) + n * b) by (nonlinear_arith)
        requires
            x == a * k,
    ;
    assert((n * a) * k <= (bound * b) * k) by (nonlinear_arith)
        requires
            n * a <= bound * b,
            k > 0,
    ;
    assert(2 * ((bound * b) * k) + n * b == b * (2 * (bound * k) + n)) by (nonlinear_arith);
    assert(2 * (p * b) == b * (2 * p)) by (nonlinear_arith);
    assert(2 * p <= 2 * (bound * k) + n) by (nonlinear_arith)
        requires
            b * (2 * p) <= b * (2 * (bound * k) + n),
            b > 0,
    ;
    // Rounding the product adds little.
    assert(m <= 0x20_0000_0000_0000) by (nonlinear_arith)
        requires
            2 * (m * b) <= 2 * x + b,
            x < 0x20_0000_0000_0000 * b,
            b > 0,
    ;
    assert(p <= 0xffff_ffff * 0x20_0000_0000_0000) by (nonlinear_arith)
        requires
            p == n * m,
            0 <= n <= 0xffff_ffff,
            0 <= m <= 0x20_0000_0000_0000,
    ;
    double_is_near(p);
    let d = to_double(p) as int;
    assert(d <= bound * k + 0x3_0000_0000);
    assert(k >= 0x10_0000_0000_0000) by (nonlinear_arith)
        requires
            a * k >= 0x10_0000_0000_0000 * b,
            a < b,
            a > 0,
            k > 0,
    ;
    assert(d / k <= bound) by (nonlinear_arith)
        requires
            0 <= d < bound * k + k,
            k > 0,
    ;
}

proof fn lifted_bounds(a: nat, b: nat, x: nat, s: nat)
    requires
        0 < a < b,
        x == a * pow2(s),
        0 < x < 0x20_0000_0000_0000 * b,
    ensures
        ({
            let (y, t) = lifted(x, b, s);
            &&& y == a * pow2(t)
            &&& 0x10_0000_0000_0000 * b <= y < 0x20_0000_0000_0000 * b
        }),
    decreases 0x20_0000_0000_0000 * b - x,
{
    lemma2_to64();
    if x < 0x10_0000_0000_0000 * b {
        lemma_pow2_unfold(s + 1);
        assert(a * (2 * pow2(s)) == 2 * (a * pow2(s))) by (nonlinear_arith);
        lifted_bounds(a, b, 2 * x, s + 1);
    }
}

proof fn excess_is_small(n: nat, e: nat)
    requires
        n < 0x20_0000_0000_0000 * pow2(e),
    ensures
        excess(n) <= e,
    decreases n,
{
    if n >= 0x20_0000_0000_0000 {
        if e == 0 {
            lemma2_to64();
        } else {
            lemma_pow2_unfold(e);
            excess_is_small(n / 2, (e - 1) as nat);
        }
    }
}

proof fn double_is_near(p: nat)
    requires
        p <= 0xffff_ffff * 0x20_0000_0000_0000,
    ensures
        to_double(p) <= p + 0x1_0000_0000,
{
    lemma2_to64();
    lemma2_to64_rest();
    excess_is_small(p, 33);
    let u = pow2(excess(p));
    lemma_pow2_pos(excess(p));
    pow2_grows(excess(p), 33);
    rounding_is_near(p as int, u as int);
}

/// `n` times the quotient of `a` and `b`, both operations in doubles, without its
/// fraction.
pub fn shrink(n: u32, a: u32, b: u32) -> (r: u32)
    requires
        0 < a < b,
    ensures
        r == shrunk(n as nat, a as nat, b as nat),
{
    let (x, s) = lift(a, b);
    let m: u128 = round_half_even(x, b as u128);
    proof {
        rounding_is_near(x as int, b as int);
        assert(m <= 0x20_0000_0000_0000) by (nonlinear_arith)
            requires
                2 * (m * b) <= 2 * x + b,
                x < 0x20_0000_0000_0000 * b,
                b > 0,
        ;
        assert(n * m <= 0xffff_ffff * 0x20_0000_0000_0000) by (nonlinear_arith)
            requires
                0 <= n <= 0xffff_ffff,
                0 <= m <= 0x20_0000_0000_0000,
        ;
        assert(n * a <= n * b) by (nonlinear_arith)
            requires
                0 <= a <= b,
                0 <= n,
        ;
        shrinking_fits(n as nat, a as nat, b as nat, n as nat);
    }
    let d: u128 = wide_double(n as u128 * m);
    (d / high_power(s)) as u32
}

} // verus!
