//! Floating point in decimal: rounded to so many places, or in full.
use vstd::prelude::*;
use vstd::arithmetic::div_mod::lemma_fundamental_div_mod_converse;
use vstd::arithmetic::power2::{
    lemma2_to64, lemma_pow2_adds, lemma_pow2_pos, lemma_pow2_unfold, pow2,
};
use crate::floats::{
    fits, lowered, one, power, power_fits, powers_grow, raised, room_enough, singles_are_doubles,
    units_of, Float, FloatV, Single, Width,
};
use crate::json::{round_half_even, rounded};
use crate::text::{copy, dec, decimal, digit, digit_char};

verus! {

// ── Rounded ─────────────────────────────────────────────────────────────────

/// The sign of a number in decimal.
pub open spec fn minus_sign(neg: bool) -> Seq<char> {
    if neg {
        "-"@
    } else {
        ""@
    }
}

/// What is no finite number, in letters.
pub open spec fn letters(v: FloatV) -> Seq<char> {
    match v {
        FloatV::Nan => "NaN"@,
        FloatV::Inf { neg } => minus_sign(neg) + "inf"@,
        FloatV::Fin { .. } => ""@,
    }
}

/// A number with one decimal.
pub open spec fn one_decimal(v: FloatV) -> Seq<char> {
    match v {
        FloatV::Fin { neg, units } => {
            let t = rounded(units * 10, one());
            minus_sign(neg) + dec(t / 10) + "."@ + seq![digit(t % 10)]
        },
        _ => letters(v),
    }
}

/// A number with two decimals.
pub open spec fn two_decimals(v: FloatV) -> Seq<char> {
    match v {
        FloatV::Fin { neg, units } => {
            let t = rounded(units * 100, one());
            minus_sign(neg) + dec(t / 100) + "."@ + seq![digit((t / 10) % 10), digit(t % 10)]
        },
        _ => letters(v),
    }
}

/// A number without decimals.
pub open spec fn no_decimal(v: FloatV) -> Seq<char> {
    match v {
        FloatV::Fin { neg, units } => minus_sign(neg) + dec(rounded(units, one())),
        _ => letters(v),
    }
}

/// A number without its fraction, as a whole number of 32 bits, or the nearest to it.
pub open spec fn whole_v(v: FloatV) -> i32 {
    match v {
        FloatV::Nan => 0,
        FloatV::Inf { neg } => if neg {
            i32::MIN
        } else {
            i32::MAX
        },
        FloatV::Fin { neg, units } => {
            let n = units / one();
            if neg {
                if n >= 0x8000_0000 {
                    i32::MIN
                } else {
                    (-(n as int)) as i32
                }
            } else {
                if n > 0x7fff_ffff {
                    i32::MAX
                } else {
                    n as i32
                }
            }
        },
    }
}

/// A number without its fraction, as a count of 64 bits, or the nearest to it.
pub open spec fn seconds_v(v: FloatV) -> nat {
    match v {
        FloatV::Inf { neg: false } => u64::MAX as nat,
        FloatV::Fin { neg: false, units } => if units / one() > u64::MAX {
            u64::MAX as nat
        } else {
            units / one()
        },
        _ => 0,
    }
}

fn sign_text(neg: bool) -> (r: String)
    ensures
        r@ == minus_sign(neg),
{
    if neg {
        copy("-")
    } else {
        copy("")
    }
}

fn spelled(neg: bool, word: &str) -> (r: String)
    ensures
        r@ == minus_sign(neg) + word@,
{
    let mut out = sign_text(neg);
    out.append(word);
    out
}

/// Rounding is the same in finer units.
proof fn rounding_scales(a: nat, b: nat, c: nat)
    requires
        b > 0,
        c > 0,
    ensures
        rounded(a * c, b * c) == rounded(a, b),
{
    let q = a / b;
    let r = a % b;
    assert(a == q * b + r && r < b) by (nonlinear_arith)
        requires
            q == a / b,
            r == a % b,
            b > 0,
    ;
    assert(a * c == q * (b * c) + r * c) by (nonlinear_arith)
        requires
            a == q * b + r,
    ;
    assert(0 <= r * c < b * c) by (nonlinear_arith)
        requires
            0 <= r < b,
            c > 0,
    ;
    lemma_fundamental_div_mod_converse((a * c) as int, (b * c) as int, q as int, (r * c) as int);
    assert(2 * (r * c) > b * c <==> 2 * r > b) by (nonlinear_arith)
        requires
            c > 0,
    ;
    assert(2 * (r * c) == b * c <==> 2 * r == b) by (nonlinear_arith)
        requires
            c > 0,
    ;
}

proof fn rounded_to_nothing(a: nat, b: nat)
    requires
        2 * a < b,
    ensures
        rounded(a, b) == 0,
{
    lemma_fundamental_div_mod_converse(a as int, b as int, 0, a as int);
}

proof fn rounded_exactly(a: nat, t: nat)
    requires
        a > 0,
    ensures
        rounded(t * a, a) == t,
        (t * a) / a == t,
{
    lemma_fundamental_div_mod_converse((t * a) as int, a as int, t as int, 0);
}

/// `x` times a power of two below one, rounded to a whole number.
fn rounded_below(x: u64, exp: u32) -> (r: u128)
    requires
        x <= 0x1000_0000_0000_0000,
        exp < 1074,
    ensures
        r == rounded(x as nat * pow2(exp as nat), one()),
{
    let k: u32 = 1074 - exp;
    proof {
        room_enough();
        lemma_pow2_adds(k as nat, exp as nat);
        lemma_pow2_pos(k as nat);
        lemma_pow2_pos(exp as nat);
        rounding_scales(x as nat, pow2(k as nat), pow2(exp as nat));
        if k > 64 {
            powers_grow(64, k as nat);
            rounded_to_nothing(x as nat, pow2(k as nat));
        } else {
            powers_grow(k as nat, 64);
        }
    }
    if k > 64 {
        0
    } else {
        round_half_even(x as u128, power(k))
    }
}

/// A count of units that makes a whole number, as that number.
proof fn whole_units(man: u64, exp: u32)
    requires
        exp >= 1074,
    ensures
        units_of(man, exp) == (man as nat * pow2((exp - 1074) as nat)) * one(),
        rounded(units_of(man, exp), one()) == man as nat * pow2((exp - 1074) as nat),
        units_of(man, exp) / one() == man as nat * pow2((exp - 1074) as nat),
{
    let d = (exp - 1074) as nat;
    lemma_pow2_pos(1074);
    lowered(man as nat, exp as nat, d);
    rounded_exactly(one(), man as nat * pow2(d));
}

/// The whole number that a single without fraction is.
fn whole_single(man: u64, exp: u32) -> (r: u128)
    requires
        man <= 0x100_0000,
        1074 <= exp <= 1202,
        units_of(man, exp) < pow2(1202),
    ensures
        r == man as nat * pow2((exp - 1074) as nat),
        units_of(man, exp) == r * one(),
{
    let d: u32 = exp - 1074;
    let ghost want = man as nat * pow2(d as nat);
    proof {
        whole_units(man, exp);
        lemma_pow2_adds(128, 1074);
        lemma_pow2_pos(1074);
        assert(want < pow2(128)) by (nonlinear_arith)
            requires
                want * one() < pow2(128) * one(),
                one() > 0,
        ;
        power_fits(127);
        lemma_pow2_unfold(128);
        largest_power();
    }
    if man == 0 {
        assert(want == 0) by (nonlinear_arith)
            requires
                want == man * pow2(d as nat),
                man == 0,
        ;
        return 0;
    }
    proof {
        if d == 128 {
            assert(want >= pow2(128)) by (nonlinear_arith)
                requires
                    want == man * pow2(128),
                    man >= 1,
            ;
        }
    }
    man as u128 * power(d)
}

proof fn largest_power()
    ensures
        pow2(128) == 0x1_0000_0000_0000_0000_0000_0000_0000_0000,
{
    room_enough();
    lemma_pow2_adds(64, 64);
    assert(pow2(128) == 0x1_0000_0000_0000_0000_0000_0000_0000_0000) by (nonlinear_arith)
        requires
            pow2(128) == pow2(64) * pow2(64),
            pow2(64) == 0x1_0000_0000_0000_0000,
    ;
}

impl Float {
    /// The number with one decimal.
    pub fn one_place(self) -> (r: String)
        requires
            fits(self, Width::Double),
        ensures
            r@ == one_decimal(self@),
    {
        match self {
            Float::Nan => copy("NaN"),
            Float::Inf { neg } => spelled(neg, "inf"),
            Float::Fin { neg, man, exp } => {
                let mut out = sign_text(neg);
                proof {
                    room_enough();
                }
                if exp >= 1074 {
                    proof {
                        times_ten(man, exp);
                    }
                    out.append(large_text(man, exp - 1074).as_str());
                    out.append(".");
                    let last = decimal(0);
                    assert(last@ =~= seq![digit(0)]);
                    out.append(last.as_str());
                } else {
                    proof {
                        let u = pow2(exp as nat);
                        assert((man * u) * 10 == (man * 10) * u) by (nonlinear_arith);
                    }
                    let t: u128 = rounded_below(man * 10, exp);
                    out.append(decimal(t / 10).as_str());
                    out.append(".");
                    let last = decimal(t % 10);
                    assert(last@ =~= seq![digit((t % 10) as nat)]);
                    out.append(last.as_str());
                }
                out
            },
        }
    }

    /// The number with two decimals.
    pub fn two_places(self) -> (r: String)
        requires
            fits(self, Width::Double),
        ensures
            r@ == two_decimals(self@),
    {
        match self {
            Float::Nan => copy("NaN"),
            Float::Inf { neg } => spelled(neg, "inf"),
            Float::Fin { neg, man, exp } => {
                let mut out = sign_text(neg);
                proof {
                    room_enough();
                }
                if exp >= 1074 {
                    proof {
                        times_ten(man, exp);
                    }
                    out.append(large_text(man, exp - 1074).as_str());
                    out.append(".");
                    let mut tail = decimal(0);
                    tail.append(decimal(0).as_str());
                    assert(tail@ =~= seq![digit(0), digit(0)]);
                    out.append(tail.as_str());
                } else {
                    proof {
                        let u = pow2(exp as nat);
                        assert((man * u) * 100 == (man * 100) * u) by (nonlinear_arith);
                    }
                    let t: u128 = rounded_below(man * 100, exp);
                    out.append(decimal(t / 100).as_str());
                    out.append(".");
                    let mut tail = decimal((t / 10) % 10);
                    tail.append(decimal(t % 10).as_str());
                    assert(tail@ =~= seq![digit(((t / 10) % 10) as nat), digit((t % 10) as nat)]);
                    out.append(tail.as_str());
                }
                out
            },
        }
    }
}

/// A whole number has no decimals but zeros.
proof fn times_ten(man: u64, exp: u32)
    requires
        exp >= 1074,
    ensures
        ({
            let n = man as nat * pow2((exp - 1074) as nat);
            let t = rounded(units_of(man, exp) * 10, one());
            let h = rounded(units_of(man, exp) * 100, one());
            &&& t / 10 == n && t % 10 == 0
            &&& h / 100 == n && (h / 10) % 10 == 0 && h % 10 == 0
        }),
{
    let n = man as nat * pow2((exp - 1074) as nat);
    whole_units(man, exp);
    lemma_pow2_pos(1074);
    assert((n * one()) * 10 == (n * 10) * one()) by (nonlinear_arith);
    assert((n * one()) * 100 == (n * 100) * one()) by (nonlinear_arith);
    rounded_exactly(one(), n * 10);
    rounded_exactly(one(), n * 100);
}

impl Single {
    /// The number with one decimal.
    pub fn tenths(self) -> (r: String)
        ensures
            r@ == one_decimal(self@),
    {
        let f = self.open();
        proof {
            singles_are_doubles(f);
        }
        f.one_place()
    }

    /// The number without its fraction, as a whole number of 32 bits, or the nearest to it.
    pub fn whole(self) -> (r: i32)
        ensures
            r == whole_v(self@),
    {
        match self.open() {
            Float::Nan => 0,
            Float::Inf { neg } => if neg {
                i32::MIN
            } else {
                i32::MAX
            },
            Float::Fin { neg, man, exp } => {
                proof {
                    room_enough();
                }
                let n: u128 = if exp >= 1074 {
                    proof {
                        whole_units(man, exp);
                    }
                    whole_single(man, exp)
                } else {
                    whole_below(man, exp)
                };
                if neg {
                    if n >= 0x8000_0000 {
                        i32::MIN
                    } else {
                        (-(n as i64)) as i32
                    }
                } else if n > 0x7fff_ffff {
                    i32::MAX
                } else {
                    n as i32
                }
            },
        }
    }
}

impl Single {
    /// The number without its fraction, as a count of 64 bits, or the nearest to it.
    pub fn seconds(self) -> (r: u64)
        ensures
            r == seconds_v(self@),
    {
        match self.open() {
            Float::Inf { neg: false } => u64::MAX,
            Float::Fin { neg: false, man, exp } => {
                proof {
                    room_enough();
                }
                let n: u128 = if exp >= 1074 {
                    proof {
                        whole_units(man, exp);
                    }
                    whole_single(man, exp)
                } else {
                    whole_below(man, exp)
                };
                if n > u64::MAX as u128 {
                    u64::MAX
                } else {
                    n as u64
                }
            },
            _ => 0,
        }
    }
}

/// The whole part of digits times a power of two below one.
fn whole_below(man: u64, exp: u32) -> (r: u128)
    requires
        man <= 0x20_0000_0000_0000,
        exp < 1074,
    ensures
        r == units_of(man, exp) / one(),
        r == man as nat / pow2((1074 - exp) as nat),
{
    let k: u32 = 1074 - exp;
    let ghost p = pow2(k as nat);
    let ghost u = pow2(exp as nat);
    let ghost q = man as nat / p;
    let ghost r = man as nat % p;
    proof {
        room_enough();
        lemma_pow2_adds(k as nat, exp as nat);
        lemma_pow2_pos(k as nat);
        lemma_pow2_pos(exp as nat);
        assert(man == q * p + r && r < p) by (nonlinear_arith)
            requires
                q == man as nat / p,
                r == man as nat % p,
                p > 0,
        ;
        assert(man * u == q * (p * u) + r * u) by (nonlinear_arith)
            requires
                man == q * p + r,
        ;
        assert(0 <= r * u < p * u) by (nonlinear_arith)
            requires
                0 <= r < p,
                u > 0,
        ;
        lemma_fundamental_div_mod_converse(
            (man * u) as int,
            (p * u) as int,
            q as int,
            (r * u) as int,
        );
        if k >= 64 {
            powers_grow(64, k as nat);
            lemma_fundamental_div_mod_converse(man as int, p as int, 0, man as int);
        }
    }
    if k >= 64 {
        0
    } else {
        man as u128 / power(k)
    }
}

// ── Large whole numbers ─────────────────────────────────────────────────────

/// The decimal digits of a number.
pub open spec fn digits(n: nat) -> Seq<u8>
    decreases n,
{
    if n < 10 {
        seq![n as u8]
    } else {
        digits(n / 10).push((n % 10) as u8)
    }
}

/// The digits of twice a number and a carry.
fn twice(v: Vec<u8>, carry: u8, Ghost(n): Ghost<nat>) -> (r: Vec<u8>)
    requires
        v@ == digits(n),
        carry <= 1,
    ensures
        r@ == digits(2 * n + carry as nat),
    decreases v@.len(),
{
    let mut rest = v;
    let last: u8 = match rest.pop() {
        Some(d) => d,
        None => 0,
    };
    assert(last == n % 10 && last < 10) by {
        assert(digits(n).last() == n % 10);
    }
    let x: u8 = 2 * last + carry;
    if rest.len() == 0 {
        proof {
            if n >= 10 {
                digits_are_there(n / 10);
            }
            assert(n < 10);
            reveal_with_fuel(digits, 3);
        }
        let mut out: Vec<u8> = Vec::new();
        if x >= 10 {
            out.push(x / 10);
        }
        out.push(x % 10);
        assert(out@ =~= digits(2 * n + carry as nat));
        out
    } else {
        proof {
            assert(rest@ =~= digits(n).drop_last());
            assert(n >= 10);
            assert(digits(n).drop_last() =~= digits(n / 10));
        }
        let mut out = twice(rest, x / 10, Ghost(n / 10));
        out.push(x % 10);
        proof {
            let m = 2 * n + carry as nat;
            assert(m / 10 == 2 * (n / 10) + (x / 10) as nat && m % 10 == (x % 10) as nat);
        }
        out
    }
}

proof fn digits_are_there(n: nat)
    ensures
        digits(n).len() > 0,
    decreases n,
{
}

proof fn digits_in_letters(n: nat)
    ensures
        digits(n).len() == dec(n).len(),
        forall|i: int|
            0 <= i < digits(n).len() ==> (#[trigger] digits(n)[i]) < 10 && dec(n)[i] == digit(
                digits(n)[i] as nat,
            ),
    decreases n,
{
    if n >= 10 {
        digits_in_letters(n / 10);
    }
}

fn digits_of(n: u128) -> (r: Vec<u8>)
    ensures
        r@ == digits(n as nat),
    decreases n,
{
    if n < 10 {
        let mut v: Vec<u8> = Vec::new();
        v.push(n as u8);
        assert(v@ =~= digits(n as nat));
        v
    } else {
        let mut v = digits_of(n / 10);
        v.push((n % 10) as u8);
        v
    }
}

fn digits_text(v: &Vec<u8>, Ghost(n): Ghost<nat>) -> (r: String)
    requires
        v@ == digits(n),
    ensures
        r@ == dec(n),
{
    proof {
        digits_in_letters(n);
    }
    let mut out = String::new();
    for i in 0..v.len()
        invariant
            v@ == digits(n),
            v@.len() == dec(n).len(),
            forall|j: int|
                0 <= j < v@.len() ==> (#[trigger] v@[j]) < 10 && dec(n)[j] == digit(v@[j] as nat),
            out@ =~= dec(n).take(i as int),
    {
        assert(v@[i as int] < 10);
        out.push(digit_char(v[i]));
    }
    assert(dec(n).take(v@.len() as int) =~= dec(n));
    out
}

/// Digits times a power of two, in decimal.
fn large_text(man: u64, d: u32) -> (r: String)
    requires
        man <= 0x20_0000_0000_0000,
    ensures
        r@ == dec(man as nat * pow2(d as nat)),
{
    if d <= 64 {
        return decimal(raised(man, d));
    }
    let mut v = digits_of(raised(man, 64));
    let mut at: u32 = 64;
    while at < d
        invariant
            64 <= at <= d,
            v@ == digits(man as nat * pow2(at as nat)),
        decreases d - at,
    {
        let ghost n = man as nat * pow2(at as nat);
        proof {
            lemma_pow2_unfold(at as nat + 1);
            let u = pow2(at as nat);
            assert(man * (2 * u) == 2 * (man * u)) by (nonlinear_arith);
        }
        v = twice(v, 0, Ghost(n));
        at = at + 1;
    }
    digits_text(&v, Ghost(man as nat * pow2(d as nat)))
}

impl Float {
    /// The number without decimals.
    pub fn rounded_text(self) -> (r: String)
        requires
            fits(self, Width::Double),
        ensures
            r@ == no_decimal(self@),
    {
        match self {
            Float::Nan => copy("NaN"),
            Float::Inf { neg } => spelled(neg, "inf"),
            Float::Fin { neg, man, exp } => {
                let mut out = sign_text(neg);
                proof {
                    room_enough();
                }
                if exp >= 1074 {
                    proof {
                        whole_units(man, exp);
                    }
                    out.append(large_text(man, exp - 1074).as_str());
                } else {
                    out.append(decimal(rounded_below(man, exp)).as_str());
                }
                out
            },
        }
    }
}

// ── In full ─────────────────────────────────────────────────────────────────

/// The decimals of `s` over the `k`th power of two, of which there are `k`.
pub open spec fn decimals_of(s: nat, k: nat) -> Seq<char>
    decreases k,
{
    if k == 0 {
        Seq::empty()
    } else {
        let p = pow2((k - 1) as nat);
        seq![digit((5 * s) / p)] + decimals_of((5 * s) % p, (k - 1) as nat)
    }
}

/// A single in decimal, with all of its decimals.
pub open spec fn full_text(neg: bool, units: nat) -> Seq<char> {
    minus_sign(neg) + dec(units / one()) + "."@ + decimals_of(
        (units % one()) / pow2(925),
        149,
    )
}

/// So many zeros.
pub open spec fn zeros(n: nat) -> Seq<char> {
    Seq::new(n, |i: int| digit(0))
}

/// A finer power of two adds zeros.
proof fn finer_decimals(s: nat, k: nat, j: nat)
    requires
        s < pow2(k),
    ensures
        decimals_of(s * pow2(j), k + j) == decimals_of(s, k) + zeros(j),
    decreases k + j,
{
    lemma_pow2_pos(j);
    lemma2_to64();
    if k == 0 {
        assert(s == 0);
        assert(0 * pow2(j) == 0) by (nonlinear_arith);
        no_decimals(j);
        assert(decimals_of(0, 0) + zeros(j) =~= zeros(j));
    } else {
        let p = pow2((k - 1) as nat);
        let u = pow2(j);
        let q = (5 * s) / p;
        let r = (5 * s) % p;
        lemma_pow2_pos((k - 1) as nat);
        lemma_pow2_adds((k - 1) as nat, j);
        assert((k + j - 1) as nat == (k - 1) as nat + j);
        assert(5 * s == q * p + r && r < p) by (nonlinear_arith)
            requires
                q == (5 * s) / p,
                r == (5 * s) % p,
                p > 0,
        ;
        assert(5 * (s * u) == q * (p * u) + r * u) by (nonlinear_arith)
            requires
                5 * s == q * p + r,
        ;
        assert(0 <= r * u < p * u) by (nonlinear_arith)
            requires
                0 <= r < p,
                u > 0,
        ;
        lemma_fundamental_div_mod_converse(
            (5 * (s * u)) as int,
            (p * u) as int,
            q as int,
            (r * u) as int,
        );
        finer_decimals(r, (k - 1) as nat, j);
        assert(decimals_of(s * u, k + j) =~= decimals_of(s, k) + zeros(j));
    }
}

proof fn no_decimals(k: nat)
    ensures
        decimals_of(0, k) == zeros(k),
    decreases k,
{
    if k > 0 {
        lemma_pow2_pos((k - 1) as nat);
        let p = pow2((k - 1) as nat);
        lemma_fundamental_div_mod_converse(0, p as int, 0, 0);
        no_decimals((k - 1) as nat);
        assert(decimals_of(0, k) =~= zeros(k));
    } else {
        assert(decimals_of(0, k) =~= zeros(k));
    }
}

fn push_zeros(out: &mut String, n: u32)
    ensures
        final(out)@ == old(out)@ + zeros(n as nat),
{
    assert(old(out)@ + zeros(0) =~= old(out)@);
    for i in 0..n
        invariant
            out@ == old(out)@ + zeros(i as nat),
    {
        let ghost before = out@;
        out.push(digit_char(0));
        assert(before.push(digit(0)) =~= old(out)@ + zeros(i as nat + 1));
    }
}

fn push_decimals(out: &mut String, first: u64, count: u32)
    requires
        first <= 0x100_0000,
        first < pow2(count as nat),
        count <= 149,
    ensures
        final(out)@ == old(out)@ + decimals_of(first as nat, count as nat),
{
    let ghost all = old(out)@ + decimals_of(first as nat, count as nat);
    let mut s: u128 = first as u128;
    let mut k: u32 = count;
    proof {
        room_enough();
    }
    while k > 0
        invariant
            k <= count <= 149,
            s < pow2(k as nat),
            s < pow2((25 + 3 * (count - k)) as nat),
            out@ + decimals_of(s as nat, k as nat) == all,
        decreases k,
    {
        let ghost done = out@;
        let ghost p = pow2((k - 1) as nat);
        proof {
            let i = (count - k) as nat;
            lemma_pow2_unfold(k as nat);
            lemma_pow2_pos((k - 1) as nat);
            lemma_pow2_adds(25 + 3 * i, 3);
            lemma2_to64();
            assert(25 + 3 * i + 3 == 25 + 3 * (i + 1));
            // The next product is small enough to be counted with.
            if i <= 33 {
                powers_grow(25 + 3 * i, 124);
            } else {
                powers_grow(k as nat, 124);
            }
            power_fits(127);
            lemma_pow2_unfold(127);
            lemma_pow2_unfold(126);
            lemma_pow2_unfold(125);
            assert(s < pow2(124));
        }
        let x: u128 = 5 * s;
        let d: u8;
        let rest: u128;
        if k > 127 {
            proof {
                let i = (count - k) as nat;
                powers_grow(25 + 3 * (i + 1), (k - 1) as nat);
                lemma_fundamental_div_mod_converse(x as int, p as int, 0, x as int);
            }
            d = 0;
            rest = x;
        } else {
            let unit: u128 = power(k - 1);
            proof {
                assert(x / unit < 10 && x % unit < unit && x % unit <= x) by (nonlinear_arith)
                    requires
                        x == 5 * s,
                        s < 2 * unit,
                        unit > 0,
                ;
            }
            d = (x / unit) as u8;
            rest = x % unit;
        }
        out.push(digit_char(d));
        assert(decimals_of(s as nat, k as nat) == seq![digit(d as nat)] + decimals_of(
            rest as nat,
            (k - 1) as nat,
        ));
        assert(out@ =~= done + seq![digit(d as nat)]);
        assert(done + (seq![digit(d as nat)] + decimals_of(rest as nat, (k - 1) as nat)) =~= out@
            + decimals_of(rest as nat, (k - 1) as nat));
        s = rest;
        k = k - 1;
    }
    assert(out@ + decimals_of(s as nat, 0) =~= out@);
}

impl Single {
    /// A finite number in decimal, with all of its decimals; none for the others.
    pub fn in_full(self) -> (r: Option<String>)
        ensures
            r matches Some(s) ==> (self@ matches FloatV::Fin { neg, units } && s@ == full_text(
                neg,
                units,
            )),
            r is None <==> !(self@ is Fin),
    {
        match self.open() {
            Float::Fin { neg, man, exp } => {
                let mut out = sign_text(neg);
                let ghost units = units_of(man, exp);
                proof {
                    room_enough();
                    lemma_pow2_pos(1074);
                    lemma_pow2_pos(925);
                }
                if exp >= 1074 {
                    let n: u128 = whole_single(man, exp);
                    proof {
                        whole_units(man, exp);
                        lemma_fundamental_div_mod_converse(units as int, one() as int, n as int, 0);
                        lemma_fundamental_div_mod_converse(0, pow2(925) as int, 0, 0);
                        no_decimals(149);
                    }
                    out.append(decimal(n).as_str());
                    out.append(".");
                    push_zeros(&mut out, 149);
                } else {
                    let k: u32 = 1074 - exp;
                    let n: u128 = whole_below(man, exp);
                    let s: u64 = rest_below(man, exp);
                    proof {
                        finer_decimals(s as nat, k as nat, (149 - k) as nat);
                    }
                    out.append(decimal(n).as_str());
                    out.append(".");
                    let ghost lead = out@;
                    push_decimals(&mut out, s, k);
                    push_zeros(&mut out, 149 - k);
                    assert(out@ =~= lead + (decimals_of(s as nat, k as nat) + zeros(
                        (149 - k) as nat,
                    )));
                }
                Some(out)
            },
            _ => None,
        }
    }
}

/// What digits times a power of two below one leave behind the point.
fn rest_below(man: u64, exp: u32) -> (r: u64)
    requires
        man <= 0x100_0000,
        925 <= exp < 1074,
        units_of(man, exp) < pow2(1202),
    ensures
        r < pow2((1074 - exp) as nat),
        r <= 0x100_0000,
        (units_of(man, exp) % one()) / pow2(925) == r * pow2((exp - 925) as nat),
{
    let k: u32 = 1074 - exp;
    let ghost p = pow2(k as nat);
    let ghost u = pow2(exp as nat);
    let ghost q = man as nat / p;
    let ghost r = man as nat % p;
    let ghost v = pow2((exp - 925) as nat);
    proof {
        room_enough();
        lemma_pow2_adds(k as nat, exp as nat);
        lemma_pow2_adds(925, (exp - 925) as nat);
        lemma_pow2_pos(k as nat);
        lemma_pow2_pos(exp as nat);
        lemma_pow2_pos(925);
        assert(man == q * p + r && r < p && r <= man) by (nonlinear_arith)
            requires
                q == man as nat / p,
                r == man as nat % p,
                p > 0,
        ;
        assert(man * u == q * (p * u) + r * u) by (nonlinear_arith)
            requires
                man == q * p + r,
        ;
        assert(0 <= r * u < p * u) by (nonlinear_arith)
            requires
                0 <= r < p,
                u > 0,
        ;
        lemma_fundamental_div_mod_converse(
            (man * u) as int,
            (p * u) as int,
            q as int,
            (r * u) as int,
        );
        assert(r * u == (r * v) * pow2(925) + 0) by (nonlinear_arith)
            requires
                u == pow2(925) * v,
        ;
        lemma_fundamental_div_mod_converse((r * u) as int, pow2(925) as int, (r * v) as int, 0);
        if k >= 25 {
            powers_grow(25, k as nat);
            lemma_fundamental_div_mod_converse(man as int, p as int, 0, man as int);
        } else {
            powers_grow(k as nat, 24);
        }
    }
    if k >= 25 {
        man
    } else {
        (man as u128 % power(k)) as u64
    }
}

} // verus!
