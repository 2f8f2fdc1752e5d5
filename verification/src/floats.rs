//! Floating point in whole numbers: sums, products, quotients and their rounding, as IEEE
//! 754 has them for numbers of 32 and of 64 bits.
//!
//! A finite number is a sign and a count of units. The unit is the least positive double,
//! so every number of either width is a whole count of them.
use vstd::prelude::*;
use vstd::arithmetic::div_mod::lemma_fundamental_div_mod_converse;
use vstd::arithmetic::power2::{
    lemma2_to64, lemma2_to64_rest, lemma_pow2_adds, lemma_pow2_pos, lemma_pow2_strictly_increases,
    lemma_pow2_unfold, pow2,
};
use crate::json::rounded;

verus! {

/// How wide a number is.
#[derive(Clone, Copy, Debug, PartialEq, Eq, Structural)]
pub enum Width {
    Single,
    Double,
}

/// A number: none, one beyond all bounds, or a count of units.
pub enum FloatV {
    Nan,
    Inf { neg: bool },
    Fin { neg: bool, units: nat },
}

/// How many units make one.
pub open spec fn one() -> nat {
    pow2(1074)
}

/// How many binary digits a number has.
pub open spec fn bits(w: Width) -> nat {
    match w {
        Width::Single => 24,
        Width::Double => 53,
    }
}

/// The power of two that is the least positive number, in units.
pub open spec fn low(w: Width) -> nat {
    match w {
        Width::Single => 925,
        Width::Double => 0,
    }
}

/// The power of two by which the largest numbers are apart, in units.
pub open spec fn top(w: Width) -> nat {
    match w {
        Width::Single => 1178,
        Width::Double => 2045,
    }
}

/// The power of two by which the numbers near `num` over `den` are apart, from `k` on.
pub open spec fn spacing(num: nat, den: nat, w: Width, k: nat) -> nat
    decreases top(w) - k,
{
    if k >= top(w) || num < den * pow2(bits(w) + k) {
        k
    } else {
        spacing(num, den, w, k + 1)
    }
}

/// The number nearest to `num` over `den`; of two that are equally near, the even one.
/// There is none where that is beyond the largest.
pub open spec fn nearest(num: nat, den: nat, w: Width) -> Option<nat> {
    let k = spacing(num, den, w, low(w));
    let v = rounded(num, den * pow2(k)) * pow2(k);
    if v < pow2(bits(w) + top(w)) {
        Some(v)
    } else {
        None
    }
}

/// A sign and `num` over `den`, rounded.
pub open spec fn settled(neg: bool, num: nat, den: nat, w: Width) -> FloatV {
    match nearest(num, den, w) {
        Some(units) => FloatV::Fin { neg, units },
        None => FloatV::Inf { neg },
    }
}

/// The number with the other sign.
pub open spec fn negated(a: FloatV) -> FloatV {
    match a {
        FloatV::Nan => FloatV::Nan,
        FloatV::Inf { neg } => FloatV::Inf { neg: !neg },
        FloatV::Fin { neg, units } => FloatV::Fin { neg: !neg, units },
    }
}

/// The sum of two numbers.
pub open spec fn plus_v(a: FloatV, b: FloatV, w: Width) -> FloatV {
    match (a, b) {
        (FloatV::Nan, _) => FloatV::Nan,
        (_, FloatV::Nan) => FloatV::Nan,
        (FloatV::Inf { neg: m }, FloatV::Inf { neg: n }) => if m == n {
            a
        } else {
            FloatV::Nan
        },
        (FloatV::Inf { .. }, _) => a,
        (_, FloatV::Inf { .. }) => b,
        (FloatV::Fin { neg: m, units: x }, FloatV::Fin { neg: n, units: y }) => if m == n {
            settled(m, x + y, 1, w)
        } else if x > y {
            settled(m, (x - y) as nat, 1, w)
        } else if y > x {
            settled(n, (y - x) as nat, 1, w)
        } else {
            FloatV::Fin { neg: false, units: 0 }
        },
    }
}

/// The difference of two numbers.
pub open spec fn minus_v(a: FloatV, b: FloatV, w: Width) -> FloatV {
    plus_v(a, negated(b), w)
}

/// The product of two numbers.
pub open spec fn times_v(a: FloatV, b: FloatV, w: Width) -> FloatV {
    match (a, b) {
        (FloatV::Nan, _) => FloatV::Nan,
        (_, FloatV::Nan) => FloatV::Nan,
        (FloatV::Inf { neg: m }, FloatV::Inf { neg: n }) => FloatV::Inf { neg: m != n },
        (FloatV::Inf { neg: m }, FloatV::Fin { neg: n, units: y }) => if y == 0 {
            FloatV::Nan
        } else {
            FloatV::Inf { neg: m != n }
        },
        (FloatV::Fin { neg: m, units: x }, FloatV::Inf { neg: n }) => if x == 0 {
            FloatV::Nan
        } else {
            FloatV::Inf { neg: m != n }
        },
        (FloatV::Fin { neg: m, units: x }, FloatV::Fin { neg: n, units: y }) => settled(
            m != n,
            x * y,
            one(),
            w,
        ),
    }
}

/// The quotient of two numbers.
pub open spec fn over_v(a: FloatV, b: FloatV, w: Width) -> FloatV {
    match (a, b) {
        (FloatV::Nan, _) => FloatV::Nan,
        (_, FloatV::Nan) => FloatV::Nan,
        (FloatV::Inf { .. }, FloatV::Inf { .. }) => FloatV::Nan,
        (FloatV::Inf { neg: m }, FloatV::Fin { neg: n, .. }) => FloatV::Inf { neg: m != n },
        (FloatV::Fin { neg: m, .. }, FloatV::Inf { neg: n }) => FloatV::Fin {
            neg: m != n,
            units: 0,
        },
        (FloatV::Fin { neg: m, units: x }, FloatV::Fin { neg: n, units: y }) => if y > 0 {
            settled(m != n, x * one(), y, w)
        } else if x > 0 {
            FloatV::Inf { neg: m != n }
        } else {
            FloatV::Nan
        },
    }
}

/// Whether one number is less than another; none is less than what is no number.
pub open spec fn less_v(a: FloatV, b: FloatV) -> bool {
    match (a, b) {
        (FloatV::Nan, _) => false,
        (_, FloatV::Nan) => false,
        (FloatV::Inf { neg: m }, FloatV::Inf { neg: n }) => m && !n,
        (FloatV::Inf { neg: m }, _) => m,
        (_, FloatV::Inf { neg: n }) => !n,
        (FloatV::Fin { neg: m, units: x }, FloatV::Fin { neg: n, units: y }) => signed(m, x)
            < signed(n, y),
    }
}

/// A count of units with its sign.
pub open spec fn signed(neg: bool, units: nat) -> int {
    if neg {
        -(units as int)
    } else {
        units as int
    }
}

// ── Rounding ────────────────────────────────────────────────────────────────

/// A number taken apart: a sign, some binary digits and a power of two, in units.
#[derive(Clone, Copy, Debug)]
pub enum Float {
    Nan,
    Inf { neg: bool },
    Fin { neg: bool, man: u64, exp: u32 },
}

impl View for Float {
    type V = FloatV;

    open spec fn view(&self) -> FloatV {
        match self {
            Float::Nan => FloatV::Nan,
            Float::Inf { neg } => FloatV::Inf { neg: *neg },
            Float::Fin { neg, man, exp } => FloatV::Fin {
                neg: *neg,
                units: (*man as nat) * pow2(*exp as nat),
            },
        }
    }
}

/// Whether the digits and the power of two are those of a number of a width.
pub open spec fn fits(f: Float, w: Width) -> bool {
    match f {
        Float::Fin { man, exp, .. } => {
            &&& man <= pow2(bits(w))
            &&& low(w) <= exp <= top(w) + bits(w)
            &&& (man as nat) * pow2(exp as nat) < pow2(bits(w) + top(w))
        },
        _ => true,
    }
}

fn digits_of(w: Width) -> (r: u32)
    ensures
        r == bits(w),
{
    match w {
        Width::Single => 24,
        Width::Double => 53,
    }
}

fn low_of(w: Width) -> (r: u32)
    ensures
        r == low(w),
{
    match w {
        Width::Single => 925,
        Width::Double => 0,
    }
}

fn top_of(w: Width) -> (r: u32)
    ensures
        r == top(w),
{
    match w {
        Width::Single => 1178,
        Width::Double => 2045,
    }
}

pub(crate) fn power(e: u32) -> (r: u128)
    requires
        e < 128,
    ensures
        r == pow2(e as nat),
        r >= 1,
{
    let mut r: u128 = 1;
    proof {
        lemma2_to64();
    }
    for i in 0..e
        invariant
            e < 128,
            r == pow2(i as nat),
            r >= 1,
    {
        proof {
            lemma_pow2_unfold(i as nat + 1);
            power_fits(i as nat + 1);
        }
        r = r * 2;
    }
    r
}

pub proof fn power_fits(e: nat)
    requires
        e < 128,
    ensures
        pow2(e) <= 0x8000_0000_0000_0000_0000_0000_0000_0000,
{
    lemma2_to64_rest();
    lemma_pow2_adds(63, 64);
    lemma2_to64();
    assert(pow2(127) == 0x8000_0000_0000_0000_0000_0000_0000_0000) by (nonlinear_arith)
        requires
            pow2(127) == pow2(63) * pow2(64),
            pow2(63) == 0x8000_0000_0000_0000,
            pow2(64) == 0x1_0000_0000_0000_0000,
    ;
    if e < 127 {
        lemma_pow2_strictly_increases(e, 127);
    }
}

/// How many binary digits a number has.
fn length(m: u128) -> (n: u32)
    requires
        m < pow2(120),
    ensures
        n <= 120,
        m < pow2(n as nat),
        n > 0 ==> m >= pow2((n - 1) as nat),
{
    let mut n: u32 = 0;
    let mut p: u128 = 1;
    proof {
        lemma2_to64();
        power_fits(120);
    }
    while p <= m
        invariant
            n <= 120,
            p == pow2(n as nat),
            m < pow2(120),
            n > 0 ==> m >= pow2((n - 1) as nat),
        decreases 120 - n,
    {
        proof {
            if n >= 120 {
                assert(false);
            }
            lemma_pow2_unfold(n as nat + 1);
            power_fits(n as nat + 1);
        }
        p = p * 2;
        n = n + 1;
    }
    n
}

pub proof fn powers_grow(a: nat, b: nat)
    requires
        a <= b,
    ensures
        pow2(a) <= pow2(b),
{
    if a < b {
        lemma_pow2_strictly_increases(a, b);
    }
}

proof fn spacing_from(num: nat, den: nat, w: Width, j: nat, k: nat)
    requires
        j <= k <= top(w),
        num < den * pow2(bits(w) + k) || k == top(w),
        j < k ==> num >= den * pow2((bits(w) + k - 1) as nat),
    ensures
        spacing(num, den, w, j) == k,
    decreases k - j,
{
    if j < k {
        powers_grow(bits(w) + j, (bits(w) + k - 1) as nat);
        assert(den * pow2(bits(w) + j) <= den * pow2((bits(w) + k - 1) as nat)) by (nonlinear_arith)
            requires
                pow2(bits(w) + j) <= pow2((bits(w) + k - 1) as nat),
        ;
        spacing_from(num, den, w, j + 1, k);
    }
}

/// How `a` times `m` and a rest is rounded to a multiple of `a` times a power of two.
proof fn rounding_in_parts(a: nat, d: nat, m: nat, q: nat, r: nat, h: nat)
    requires
        d < a,
        h > 0,
        r < 2 * h,
        m == q * (2 * h) + r,
    ensures
        rounded(a * m + d, a * (2 * h)) == q + if r > h || (r == h && (d > 0 || q % 2 == 1)) {
            1int
        } else {
            0int
        },
{
    let s = 2 * h;
    let x = a * m + d;
    let rest = a * r + d;
    assert(x == q * (a * s) + rest) by (nonlinear_arith)
        requires
            x == a * m + d,
            m == q * s + r,
            rest == a * r + d,
    ;
    assert(0 <= rest < a * s) by (nonlinear_arith)
        requires
            rest == a * r + d,
            d < a,
            r < s,
    ;
    lemma_fundamental_div_mod_converse(x as int, (a * s) as int, q as int, rest as int);
    assert(r < h ==> 2 * rest < a * s) by (nonlinear_arith)
        requires
            rest == a * r + d,
            d < a,
            s == 2 * h,
    ;
    assert(r > h ==> 2 * rest > a * s) by (nonlinear_arith)
        requires
            rest == a * r + d,
            a > 0,
            s == 2 * h,
    ;
    assert(r == h ==> 2 * rest == a * s + 2 * d) by (nonlinear_arith)
        requires
            rest == a * r + d,
            s == 2 * h,
    ;
}

proof fn exact_rounding(a: nat, t: nat)
    requires
        a > 0,
    ensures
        rounded(a * t, a) == t,
{
    assert(a * t == t * a + 0) by (nonlinear_arith);
    lemma_fundamental_div_mod_converse((a * t) as int, a as int, t as int, 0);
}

/// Whether digits and a power of two are what `num` over `den` is rounded to.
pub open spec fn is_nearest(r: Option<(u64, u32)>, num: nat, den: nat, w: Width) -> bool {
    match r {
        Some(f) => {
            &&& nearest(num, den, w) == Some((f.0 as nat) * pow2(f.1 as nat))
            &&& f.0 <= pow2(bits(w))
            &&& low(w) <= f.1 <= top(w) + bits(w)
        },
        None => nearest(num, den, w) is None,
    }
}

/// Whether `num` over `den` is `m` times a power of two, or a little more.
pub open spec fn bracketed(num: nat, den: nat, m: nat, e: nat) -> bool {
    den * (m * pow2(e)) <= num < den * ((m + 1) * pow2(e))
}

/// What is left of a bracketed quotient.
proof fn left_over(num: nat, den: nat, m: nat, e: nat) -> (r: (nat, nat))
    requires
        den > 0,
        bracketed(num, den, m, e),
    ensures
        r.0 == den * pow2(e) > 0,
        num == r.0 * m + r.1,
        r.1 < r.0,
        r.1 > 0 <==> num != den * (m * pow2(e)),
{
    let pe = pow2(e);
    let a = den * pe;
    lemma_pow2_pos(e);
    assert(a > 0) by (nonlinear_arith)
        requires
            a == den * pe,
            den > 0,
            pe > 0,
    ;
    assert(den * (m * pe) == a * m) by (nonlinear_arith)
        requires
            a == den * pe,
    ;
    assert(den * ((m + 1) * pe) == a * m + a) by (nonlinear_arith)
        requires
            a == den * pe,
    ;
    (a, (num - a * m) as nat)
}

/// A bracketed quotient is below a power of two where its digits are.
proof fn below_a_power(num: nat, den: nat, m: nat, e: nat, j: nat)
    requires
        den > 0,
        bracketed(num, den, m, e),
        e <= j,
    ensures
        num < den * pow2(j) <==> m < pow2((j - e) as nat),
{
    let (a, d) = left_over(num, den, m, e);
    lemma_pow2_adds(e, (j - e) as nat);
    let s = pow2((j - e) as nat);
    assert(den * pow2(j) == a * s) by (nonlinear_arith)
        requires
            pow2(j) == pow2(e) * s,
            a == den * pow2(e),
    ;
    assert(m < s ==> a * m + a <= a * s) by (nonlinear_arith)
        requires
            a > 0,
    ;
    assert(m >= s ==> a * m >= a * s) by (nonlinear_arith)
        requires
            a > 0,
    ;
}

/// What needs no rounding stays.
pub proof fn exact_is_nearest(num: nat, den: nat, m: nat, e: nat, k: nat, w: Width)
    requires
        den > 0,
        num == den * (m * pow2(e)),
        k <= e,
        spacing(num, den, w, low(w)) == k,
        m * pow2(e) < pow2(bits(w) + top(w)),
    ensures
        nearest(num, den, w) == Some(m * pow2(e)),
{
    let up = pow2((e - k) as nat);
    let pk = pow2(k);
    let unit = den * pk;
    lemma_pow2_adds(k, (e - k) as nat);
    lemma_pow2_pos(k);
    assert(num == unit * (m * up)) by (nonlinear_arith)
        requires
            num == den * (m * pow2(e)),
            pow2(e) == pk * up,
            unit == den * pk,
    ;
    assert(unit > 0) by (nonlinear_arith)
        requires
            unit == den * pk,
            den > 0,
            pk > 0,
    ;
    exact_rounding(unit, m * up);
    assert((m * up) * pk == m * pow2(e)) by (nonlinear_arith)
        requires
            pow2(e) == pk * up,
    ;
}

/// Where digits have to go, what is left is rounded.
proof fn rounded_is_nearest(
    num: nat,
    den: nat,
    m: nat,
    e: nat,
    k: nat,
    q: nat,
    r: nat,
    w: Width,
)
    requires
        den > 0,
        bracketed(num, den, m, e),
        e < k,
        spacing(num, den, w, low(w)) == k,
        m == q * pow2((k - e) as nat) + r,
        r < pow2((k - e) as nat),
    ensures
        ({
            let h = pow2((k - e - 1) as nat);
            let more = num != den * (m * pow2(e));
            let v = q + if r > h || (r == h && (more || q % 2 == 1)) {
                1int
            } else {
                0int
            };
            let x = v * pow2(k);
            nearest(num, den, w) == if x < pow2(bits(w) + top(w)) {
                Some(x as nat)
            } else {
                None::<nat>
            }
        }),
{
    let (a, d) = left_over(num, den, m, e);
    let s = (k - e) as nat;
    let h = pow2((s - 1) as nat);
    lemma_pow2_unfold(s);
    lemma_pow2_pos((s - 1) as nat);
    lemma_pow2_adds(e, s);
    assert(den * pow2(k) == a * (2 * h)) by (nonlinear_arith)
        requires
            pow2(k) == pow2(e) * (2 * h),
            a == den * pow2(e),
    ;
    rounding_in_parts(a, d, m, q, r, h);
}

/// Rounds digits off.
fn round_off(
    m: u128,
    e: u32,
    k: u32,
    more: bool,
    w: Width,
    Ghost(num): Ghost<nat>,
    Ghost(den): Ghost<nat>,
) -> (r: Option<(u64, u32)>)
    requires
        den > 0,
        m < pow2(120),
        bracketed(num, den, m as nat, e as nat),
        more <==> num != den * (m as nat * pow2(e as nat)),
        e < k,
        low(w) <= k <= top(w),
        spacing(num, den, w, low(w)) == k,
        m < pow2((bits(w) + k - e) as nat),
    ensures
        is_nearest(r, num, den, w),
{
    let p: u32 = digits_of(w);
    let t: u32 = top_of(w);
    let s: u32 = k - e;
    proof {
        lemma_pow2_pos(bits(w) + top(w));
        lemma_pow2_pos(k as nat);
        room_enough();
    }
    if s > 120 {
        proof {
            powers_grow(120, (s - 1) as nat);
            lemma_pow2_unfold(s as nat);
            assert(m == 0 * pow2(s as nat) + m) by (nonlinear_arith);
            rounded_is_nearest(num, den, m as nat, e as nat, k as nat, 0, m as nat, w);
            assert(0 * pow2(k as nat) == 0) by (nonlinear_arith);
        }
        return Some((0, k));
    }
    let size: u128 = power(s);
    let half: u128 = power(s - 1);
    let q: u128 = m / size;
    let r: u128 = m % size;
    let up = r > half || (r == half && (more || q % 2 == 1));
    let ghost pp = pow2(p as nat);
    proof {
        assert(m == q * size + r && r < size) by (nonlinear_arith)
            requires
                q == m / size,
                r == m % size,
                size > 0,
        ;
        rounded_is_nearest(num, den, m as nat, e as nat, k as nat, q as nat, r as nat, w);
        lemma_pow2_adds(p as nat, s as nat);
        assert(q < pp) by (nonlinear_arith)
            requires
                m == q * size + r,
                m < pp * size,
                size > 0,
                r >= 0,
        ;
        powers_grow(p as nat, 53);
    }
    let v: u128 = if up {
        q + 1
    } else {
        q
    };
    proof {
        let pk = pow2(k as nat);
        lemma_pow2_adds(p as nat, k as nat);
        assert(v < pp ==> v * pk < pp * pk) by (nonlinear_arith)
            requires
                pk > 0,
        ;
        assert(v <= pp ==> v * pk <= pp * pk) by (nonlinear_arith)
            requires
                pk > 0,
        ;
        powers_grow((p + k) as nat, (p + t) as nat);
        if k < t {
            lemma_pow2_strictly_increases((p + k) as nat, (p + t) as nat);
        }
    }
    if k == t && v == power(p) {
        return None;
    }
    Some((v as u64, k))
}

/// The number nearest to `num` over `den`, of which `m` times a power of two is known, and
/// whether there is more behind it.
fn settle(m: u128, e: u32, more: bool, w: Width, Ghost(num): Ghost<nat>, Ghost(den): Ghost<nat>)
    -> (r: Option<(u64, u32)>)
    requires
        den > 0,
        m < pow2(120),
        e <= 5000,
        bracketed(num, den, m as nat, e as nat),
        more <==> num != den * (m as nat * pow2(e as nat)),
        more ==> m >= pow2(bits(w) + 1) || e < low(w),
    ensures
        is_nearest(r, num, den, w),
{
    let p: u32 = digits_of(w);
    let l: u32 = low_of(w);
    let t: u32 = top_of(w);
    if m == 0 && !more {
        proof {
            nothing_stays(den, w);
            assert(den * (m as nat * pow2(e as nat)) == 0) by (nonlinear_arith)
                requires
                    m == 0,
            ;
            assert(0 * pow2(l as nat) == 0) by (nonlinear_arith);
        }
        return Some((0, l));
    }
    let n: u32 = length(m);
    proof {
        lemma2_to64();
        lemma_pow2_pos(bits(w) + 1);
        if n == 0 {
            assert(m == 0 && e < l);
        } else {
            lemma_pow2_pos((n - 1) as nat);
        }
    }
    let k: u32 = if e + n > p && e + n - p > l {
        e + n - p
    } else {
        l
    };
    if k > t {
        proof {
            let (a, d) = left_over(num, den, m as nat, e as nat);
            if e <= p + t {
                powers_grow((p + t - e) as nat, (n - 1) as nat);
                below_a_power(num, den, m as nat, e as nat, (p + t) as nat);
            } else {
                powers_grow((p + t) as nat, e as nat);
                let pt = pow2((p + t) as nat);
                assert(den * pt <= a) by (nonlinear_arith)
                    requires
                        pt <= pow2(e as nat),
                        a == den * pow2(e as nat),
                ;
                assert(a * m >= a) by (nonlinear_arith)
                    requires
                        m >= 1,
                ;
            }
            beyond_the_largest(num, den, w);
        }
        return None;
    }
    proof {
        assert(p + k >= e + n);
        powers_grow(n as nat, (p + k - e) as nat);
        below_a_power(num, den, m as nat, e as nat, (p + k) as nat);
        if k > l {
            assert((p + k - 1) as nat == (e + n - 1) as nat);
            below_a_power(num, den, m as nat, e as nat, (p + k - 1) as nat);
        }
        spacing_from(num, den, w, l as nat, k as nat);
    }
    if k > e {
        return round_off(m, e, k, more, w, Ghost(num), Ghost(den));
    }
    proof {
        powers_grow(n as nat, p as nat);
        powers_grow(p as nat, (p + 1) as nat);
        assert(!more);
        let pe = pow2(e as nat);
        lemma_pow2_pos(e as nat);
        lemma_pow2_adds(n as nat, e as nat);
        powers_grow((n + e) as nat, (p + t) as nat);
        assert(m * pe < pow2(n as nat) * pe) by (nonlinear_arith)
            requires
                m < pow2(n as nat),
                pe > 0,
        ;
        exact_is_nearest(num, den, m as nat, e as nat, k as nat, w);
        room_enough();
        powers_grow(p as nat, 53);
    }
    Some((m as u64, e))
}

/// Nothing is rounded to nothing.
proof fn nothing_stays(den: nat, w: Width)
    requires
        den > 0,
    ensures
        nearest(0, den, w) == Some(0nat),
{
    let l = low(w);
    lemma_pow2_pos(bits(w) + l);
    lemma_pow2_pos(l);
    lemma_pow2_pos(bits(w) + top(w));
    assert(0 < den * pow2(bits(w) + l)) by (nonlinear_arith)
        requires
            den > 0,
            pow2(bits(w) + l) > 0,
    ;
    assert(den * pow2(l) > 0) by (nonlinear_arith)
        requires
            den > 0,
            pow2(l) > 0,
    ;
    exact_rounding(den * pow2(l), 0);
    assert(den * pow2(l) * 0 == 0) by (nonlinear_arith);
    assert(0 * pow2(l) == 0) by (nonlinear_arith);
}

proof fn beyond_the_largest(num: nat, den: nat, w: Width)
    requires
        den > 0,
        num >= den * pow2(bits(w) + top(w)),
    ensures
        nearest(num, den, w) is None,
{
    let t = top(w);
    let pt = pow2(t);
    let all = pow2(bits(w) + t);
    let q0 = pow2(bits(w));
    lemma_pow2_pos(t);
    lemma_pow2_adds(bits(w), t);
    assert(num >= den * pow2((bits(w) + t - 1) as nat)) by {
        powers_grow((bits(w) + t - 1) as nat, bits(w) + t);
        assert(den * pow2((bits(w) + t - 1) as nat) <= den * all) by (nonlinear_arith)
            requires
                pow2((bits(w) + t - 1) as nat) <= all,
        ;
    }
    spacing_from(num, den, w, low(w), t);
    let unit = den * pt;
    let q = num / unit;
    assert(unit > 0) by (nonlinear_arith)
        requires
            unit == den * pt,
            den > 0,
            pt > 0,
    ;
    assert(q >= q0) by (nonlinear_arith)
        requires
            q == num / unit,
            unit > 0,
            num >= den * all,
            all == q0 * pt,
            unit == den * pt,
    ;
    let x = rounded(num, unit);
    assert(x * pt >= q0 * pt) by (nonlinear_arith)
        requires
            x >= q,
            q >= q0,
    ;
}

// ── Arithmetic ──────────────────────────────────────────────────────────────

/// The count of units of some digits and a power of two.
pub open spec fn units_of(m: u64, e: u32) -> nat {
    (m as nat) * pow2(e as nat)
}

/// Digits and a power of two that are small enough to be counted with.
pub open spec fn handy(m: u64, e: u32) -> bool {
    m <= 0x20_0000_0000_0000 && e <= 2098
}

proof fn fitting_is_handy(f: Float, w: Width)
    requires
        fits(f, w),
    ensures
        f matches Float::Fin { man, exp, .. } ==> handy(man, exp),
{
    lemma2_to64();
    lemma2_to64_rest();
}

/// Shifts digits to the left.
pub(crate) fn raised(m: u64, d: u32) -> (r: u128)
    requires
        m <= 0x20_0000_0000_0000,
        d <= 64,
    ensures
        r == m * pow2(d as nat),
        r <= 0x20_0000_0000_0000 * 0x1_0000_0000_0000_0000,
{
    let p: u128 = power(d);
    proof {
        lemma2_to64();
        powers_grow(d as nat, 64);
        assert(m * p <= 0x20_0000_0000_0000 * 0x1_0000_0000_0000_0000) by (nonlinear_arith)
            requires
                m <= 0x20_0000_0000_0000,
                p <= 0x1_0000_0000_0000_0000,
        ;
    }
    m as u128 * p
}

pub proof fn room_enough()
    ensures
        pow2(120) == 0x100_0000_0000_0000_0000_0000_0000_0000,
        pow2(53) == 0x20_0000_0000_0000,
        pow2(54) == 0x40_0000_0000_0000,
        pow2(24) == 0x100_0000,
        pow2(25) == 0x200_0000,
        pow2(64) == 0x1_0000_0000_0000_0000,
{
    lemma2_to64();
    lemma2_to64_rest();
    lemma_pow2_adds(60, 60);
    assert(pow2(120) == 0x100_0000_0000_0000_0000_0000_0000_0000) by (nonlinear_arith)
        requires
            pow2(120) == pow2(60) * pow2(60),
            pow2(60) == 0x1000_0000_0000_0000,
    ;
}

/// Units in terms of a lower power of two.
pub proof fn lowered(m: nat, e: nat, d: nat)
    requires
        d <= e,
    ensures
        m * pow2(e) == (m * pow2(d)) * pow2((e - d) as nat),
{
    lemma_pow2_adds(d, (e - d) as nat);
    assert(m * pow2(e) == (m * pow2(d)) * pow2((e - d) as nat)) by (nonlinear_arith)
        requires
            pow2(e) == pow2(d) * pow2((e - d) as nat),
    ;
}

/// Whether one count of units is larger than another.
fn bigger(m1: u64, e1: u32, m2: u64, e2: u32) -> (r: bool)
    requires
        handy(m1, e1),
        handy(m2, e2),
    ensures
        r == (units_of(m1, e1) > units_of(m2, e2)),
{
    if e1 >= e2 {
        let d: u32 = e1 - e2;
        proof {
            room_enough();
            lowered(m1 as nat, e1 as nat, d as nat);
            lemma_pow2_pos(e2 as nat);
            let x = m1 * pow2(d as nat);
            let u = pow2(e2 as nat);
            assert(x > m2 <==> x * u > m2 * u) by (nonlinear_arith)
                requires
                    u > 0,
            ;
            if d > 64 {
                powers_grow(64, d as nat);
                assert(m1 > 0 ==> x > m2) by (nonlinear_arith)
                    requires
                        x == m1 * pow2(d as nat),
                        pow2(d as nat) >= 0x1_0000_0000_0000_0000,
                        m2 <= 0x20_0000_0000_0000,
                ;
                assert(m1 == 0 ==> x == 0) by (nonlinear_arith)
                    requires
                        x == m1 * pow2(d as nat),
                ;
            }
        }
        if d > 64 {
            m1 > 0
        } else {
            raised(m1, d) > m2 as u128
        }
    } else {
        let d: u32 = e2 - e1;
        proof {
            room_enough();
            lowered(m2 as nat, e2 as nat, d as nat);
            lemma_pow2_pos(e1 as nat);
            let y = m2 * pow2(d as nat);
            let u = pow2(e1 as nat);
            assert(m1 > y <==> m1 * u > y * u) by (nonlinear_arith)
                requires
                    u > 0,
            ;
            if d > 64 {
                powers_grow(64, d as nat);
                assert(m2 > 0 ==> y > m1) by (nonlinear_arith)
                    requires
                        y == m2 * pow2(d as nat),
                        pow2(d as nat) >= 0x1_0000_0000_0000_0000,
                        m1 <= 0x20_0000_0000_0000,
                ;
                assert(m2 == 0 ==> y == 0) by (nonlinear_arith)
                    requires
                        y == m2 * pow2(d as nat),
                ;
            }
        }
        if d > 64 {
            m2 == 0 && m1 > 0
        } else {
            m1 as u128 > raised(m2, d)
        }
    }
}

/// The digits of a number that are left of a power of two far above it, and whether there
/// are more.
fn far_below(m: u64, t: u32) -> (r: (u64, bool))
    requires
        m <= 0x20_0000_0000_0000,
    ensures
        r.0 * pow2(t as nat) <= m < (r.0 + 1) * pow2(t as nat),
        r.1 <==> m != r.0 * pow2(t as nat),
        r.0 <= m,
{
    proof {
        room_enough();
        lemma_pow2_pos(t as nat);
    }
    if t >= 64 {
        proof {
            powers_grow(64, t as nat);
            assert(0 * pow2(t as nat) == 0 && (0 + 1) * pow2(t as nat) == pow2(t as nat))
                by (nonlinear_arith);
        }
        (0, m > 0)
    } else {
        let p: u128 = power(t);
        let h: u128 = m as u128 / p;
        proof {
            let l = m as u128 % p;
            assert(h * p <= m < (h + 1) * p && h <= m && (l != 0 <==> m != h * p))
                by (nonlinear_arith)
                requires
                    h == m as u128 / p,
                    l == m as u128 % p,
                    p > 0,
            ;
        }
        (h as u64, m as u128 % p != 0)
    }
}

/// The sum of two counts, the first with the higher power of two.
fn sum_down(m1: u64, e1: u32, m2: u64, e2: u32, w: Width) -> (r: Option<(u64, u32)>)
    requires
        handy(m1, e1),
        handy(m2, e2),
        e1 >= e2,
    ensures
        is_nearest(r, units_of(m1, e1) + units_of(m2, e2), 1, w),
{
    let ghost num = units_of(m1, e1) + units_of(m2, e2);
    let d: u32 = e1 - e2;
    proof {
        room_enough();
        lowered(m1 as nat, e1 as nat, d as nat);
        lemma_pow2_pos(e2 as nat);
        lemma_pow2_pos(e1 as nat);
    }
    if m1 == 0 {
        assert(m1 * pow2(e1 as nat) == 0) by (nonlinear_arith)
            requires
                m1 == 0,
        ;
        proof {
            one_step(m2 as nat, e2 as nat);
        }
        return settle(m2 as u128, e2, false, w, Ghost(num), Ghost(1));
    }
    if d <= 64 {
        let m: u128 = raised(m1, d) + m2 as u128;
        proof {
            let u = pow2(e2 as nat);
            let x = m1 * pow2(d as nat);
            assert(m * u == x * u + m2 * u) by (nonlinear_arith)
                requires
                    m == x + m2,
            ;
            one_step(m as nat, e2 as nat);
        }
        return settle(m, e2, false, w, Ghost(num), Ghost(1));
    }
    let t: u32 = d - 64;
    let (h, more) = far_below(m2, t);
    let e: u32 = e1 - 64;
    let m: u128 = raised(m1, 64) + h as u128;
    proof {
        let u = pow2(e as nat);
        lowered(m1 as nat, e1 as nat, 64);
        in_between(m2 as nat, h as nat, t as nat, e2 as nat);
        let x = m1 * pow2(64);
        assert(m * u == x * u + h * u) by (nonlinear_arith)
            requires
                m == x + h,
        ;
        one_step(m as nat, e as nat);
        one_step(h as nat, e as nat);
        assert(x >= 0x1_0000_0000_0000_0000) by (nonlinear_arith)
            requires
                x == m1 * pow2(64),
                pow2(64) == 0x1_0000_0000_0000_0000,
                m1 >= 1,
        ;
    }
    settle(m, e, more, w, Ghost(num), Ghost(1))
}

proof fn one_step(m: nat, e: nat)
    ensures
        1 * ((m + 1) * pow2(e)) == m * pow2(e) + pow2(e),
        1 * (m * pow2(e)) == m * pow2(e),
        pow2(e) > 0,
{
    lemma_pow2_pos(e);
    assert((m + 1) * pow2(e) == m * pow2(e) + pow2(e)) by (nonlinear_arith);
}

/// Digits that were cut off, in units.
proof fn in_between(m: nat, h: nat, t: nat, e: nat)
    requires
        h * pow2(t) <= m < (h + 1) * pow2(t),
    ensures
        h * pow2(t + e) <= m * pow2(e) < (h + 1) * pow2(t + e),
        m == h * pow2(t) <==> m * pow2(e) == h * pow2(t + e),
{
    lemma_pow2_adds(t, e);
    lemma_pow2_pos(e);
    let u = pow2(e);
    let p = pow2(t);
    assert(h * (p * u) == (h * p) * u) by (nonlinear_arith);
    assert((h + 1) * (p * u) == ((h + 1) * p) * u) by (nonlinear_arith);
    assert((h * p) * u <= m * u < ((h + 1) * p) * u && (m == h * p <==> m * u == (h * p) * u))
        by (nonlinear_arith)
        requires
            h * p <= m < (h + 1) * p,
            u > 0,
    ;
}

/// The difference of two counts, the first of which is larger.
fn take_away(m1: u64, e1: u32, m2: u64, e2: u32, w: Width) -> (r: Option<(u64, u32)>)
    requires
        handy(m1, e1),
        handy(m2, e2),
        units_of(m1, e1) > units_of(m2, e2),
    ensures
        is_nearest(r, (units_of(m1, e1) - units_of(m2, e2)) as nat, 1, w),
{
    let ghost num = (units_of(m1, e1) - units_of(m2, e2)) as nat;
    proof {
        room_enough();
        lemma_pow2_pos(e2 as nat);
        lemma_pow2_pos(e1 as nat);
        if m1 == 0 {
            assert(m1 * pow2(e1 as nat) == 0) by (nonlinear_arith)
                requires
                    m1 == 0,
            ;
            assert(false);
        }
    }
    if m2 == 0 {
        assert(m2 * pow2(e2 as nat) == 0) by (nonlinear_arith)
            requires
                m2 == 0,
        ;
        proof {
            one_step(m1 as nat, e1 as nat);
        }
        return settle(m1 as u128, e1, false, w, Ghost(num), Ghost(1));
    }
    if e1 < e2 {
        let d: u32 = e2 - e1;
        let ghost u = pow2(e1 as nat);
        let ghost y = m2 * pow2(d as nat);
        proof {
            lowered(m2 as nat, e2 as nat, d as nat);
            assert(m1 > y) by (nonlinear_arith)
                requires
                    m1 * u > y * u,
                    u > 0,
            ;
            if d > 64 {
                powers_grow(64, d as nat);
                assert(y >= 0x1_0000_0000_0000_0000) by (nonlinear_arith)
                    requires
                        y == m2 * pow2(d as nat),
                        pow2(d as nat) >= 0x1_0000_0000_0000_0000,
                        m2 >= 1,
                ;
            }
        }
        let m: u128 = m1 as u128 - raised(m2, d);
        proof {
            assert(m * u == m1 * u - y * u) by (nonlinear_arith)
                requires
                    m == m1 - y,
            ;
            one_step(m as nat, e1 as nat);
        }
        return settle(m, e1, false, w, Ghost(num), Ghost(1));
    }
    let d: u32 = e1 - e2;
    if d <= 64 {
        let ghost u = pow2(e2 as nat);
        let ghost x = m1 * pow2(d as nat);
        proof {
            lowered(m1 as nat, e1 as nat, d as nat);
            assert(x > m2) by (nonlinear_arith)
                requires
                    x * u > m2 * u,
                    u > 0,
            ;
        }
        let m: u128 = raised(m1, d) - m2 as u128;
        proof {
            assert(m * u == x * u - m2 * u) by (nonlinear_arith)
                requires
                    m == x - m2,
            ;
            one_step(m as nat, e2 as nat);
        }
        return settle(m, e2, false, w, Ghost(num), Ghost(1));
    }
    let t: u32 = d - 64;
    let (h, more) = far_below(m2, t);
    let e: u32 = e1 - 64;
    let ghost x = m1 * pow2(64);
    proof {
        assert(x >= 0x1_0000_0000_0000_0000) by (nonlinear_arith)
            requires
                x == m1 * pow2(64),
                pow2(64) == 0x1_0000_0000_0000_0000,
                m1 >= 1,
        ;
    }
    let m: u128 = if more {
        raised(m1, 64) - h as u128 - 1
    } else {
        raised(m1, 64) - h as u128
    };
    proof {
        let u = pow2(e as nat);
        lowered(m1 as nat, e1 as nat, 64);
        in_between(m2 as nat, h as nat, t as nat, e2 as nat);
        one_step(m as nat, e as nat);
        one_step(h as nat, e as nat);
        let g = x - h;
        assert(g * u == x * u - h * u) by (nonlinear_arith)
            requires
                g == x - h,
        ;
        if more {
            assert(m * u == g * u - u) by (nonlinear_arith)
                requires
                    m == g - 1,
            ;
        }
    }
    settle(m, e, more, w, Ghost(num), Ghost(1))
}

fn with_sign(neg: bool, r: Option<(u64, u32)>, w: Width, Ghost(num): Ghost<nat>, Ghost(den): Ghost<nat>)
    -> (f: Float)
    requires
        is_nearest(r, num, den, w),
    ensures
        f@ == settled(neg, num, den, w),
        fits(f, w),
{
    match r {
        Some((man, exp)) => Float::Fin { neg, man, exp },
        None => Float::Inf { neg },
    }
}

impl Float {
    /// The number with the other sign.
    pub fn negative(self) -> (r: Float)
        ensures
            r@ == negated(self@),
            forall|w: Width| fits(self, w) ==> #[trigger] fits(r, w),
    {
        match self {
            Float::Nan => Float::Nan,
            Float::Inf { neg } => Float::Inf { neg: !neg },
            Float::Fin { neg, man, exp } => Float::Fin { neg: !neg, man, exp },
        }
    }

    /// The sum of two numbers.
    pub fn plus(self, other: Float, w: Width) -> (r: Float)
        requires
            fits(self, w),
            fits(other, w),
        ensures
            r@ == plus_v(self@, other@, w),
            fits(r, w),
    {
        proof {
            fitting_is_handy(self, w);
            fitting_is_handy(other, w);
        }
        match (self, other) {
            (Float::Nan, _) => Float::Nan,
            (_, Float::Nan) => Float::Nan,
            (Float::Inf { neg: m }, Float::Inf { neg: n }) => if m == n {
                self
            } else {
                Float::Nan
            },
            (Float::Inf { .. }, _) => self,
            (_, Float::Inf { .. }) => other,
            (
                Float::Fin { neg: m, man: m1, exp: e1 },
                Float::Fin { neg: n, man: m2, exp: e2 },
            ) => {
                let ghost x = units_of(m1, e1);
                let ghost y = units_of(m2, e2);
                if m == n {
                    let r = if e1 >= e2 {
                        sum_down(m1, e1, m2, e2, w)
                    } else {
                        sum_down(m2, e2, m1, e1, w)
                    };
                    with_sign(m, r, w, Ghost(x + y), Ghost(1))
                } else if bigger(m1, e1, m2, e2) {
                    let r = take_away(m1, e1, m2, e2, w);
                    with_sign(m, r, w, Ghost((x - y) as nat), Ghost(1))
                } else if bigger(m2, e2, m1, e1) {
                    let r = take_away(m2, e2, m1, e1, w);
                    with_sign(n, r, w, Ghost((y - x) as nat), Ghost(1))
                } else {
                    let exp: u32 = low_of(w);
                    assert(0 * pow2(exp as nat) == 0) by (nonlinear_arith);
                    proof {
                        lemma_pow2_pos(bits(w) + top(w));
                    }
                    Float::Fin { neg: false, man: 0, exp }
                }
            },
        }
    }

    /// The difference of two numbers.
    pub fn minus(self, other: Float, w: Width) -> (r: Float)
        requires
            fits(self, w),
            fits(other, w),
        ensures
            r@ == minus_v(self@, other@, w),
            fits(r, w),
    {
        self.plus(other.negative(), w)
    }

    /// Whether it is less than another.
    pub(crate) fn less(self, other: Float, Ghost(w): Ghost<Width>) -> (r: bool)
        requires
            fits(self, w),
            fits(other, w),
        ensures
            r == less_v(self@, other@),
    {
        proof {
            fitting_is_handy(self, w);
            fitting_is_handy(other, w);
        }
        match (self, other) {
            (Float::Nan, _) => false,
            (_, Float::Nan) => false,
            (Float::Inf { neg: m }, Float::Inf { neg: n }) => m && !n,
            (Float::Inf { neg: m }, _) => m,
            (_, Float::Inf { neg: n }) => !n,
            (
                Float::Fin { neg: m, man: m1, exp: e1 },
                Float::Fin { neg: n, man: m2, exp: e2 },
            ) => {
                proof {
                    lemma_pow2_pos(e1 as nat);
                    lemma_pow2_pos(e2 as nat);
                    nothing_of_nothing(m1, e1);
                    nothing_of_nothing(m2, e2);
                }
                if m && n {
                    bigger(m1, e1, m2, e2)
                } else if !m && !n {
                    bigger(m2, e2, m1, e1)
                } else {
                    m && (m1 > 0 || m2 > 0)
                }
            },
        }
    }
}

/// A single is also a double.
pub proof fn singles_are_doubles(f: Float)
    requires
        fits(f, Width::Single),
    ensures
        fits(f, Width::Double),
{
    powers_grow(24, 53);
    powers_grow(1202, 2098);
}

impl Float {
    /// The product of two singles.
    pub fn times(self, other: Float) -> (r: Float)
        requires
            fits(self, Width::Single),
            fits(other, Width::Single),
        ensures
            r@ == times_v(self@, other@, Width::Single),
            fits(r, Width::Single),
    {
        match (self, other) {
            (Float::Nan, _) => Float::Nan,
            (_, Float::Nan) => Float::Nan,
            (Float::Inf { neg: m }, Float::Inf { neg: n }) => Float::Inf { neg: m != n },
            (Float::Inf { neg: m }, Float::Fin { neg: n, man, exp }) => {
                proof {
                    nothing_of_nothing(man, exp);
                }
                if man == 0 {
                    Float::Nan
                } else {
                    Float::Inf { neg: m != n }
                }
            },
            (Float::Fin { neg: m, man, exp }, Float::Inf { neg: n }) => {
                proof {
                    nothing_of_nothing(man, exp);
                }
                if man == 0 {
                    Float::Nan
                } else {
                    Float::Inf { neg: m != n }
                }
            },
            (
                Float::Fin { neg: m, man: m1, exp: e1 },
                Float::Fin { neg: n, man: m2, exp: e2 },
            ) => {
                let ghost num = units_of(m1, e1) * units_of(m2, e2);
                proof {
                    room_enough();
                    assert(m1 * m2 <= 0x100_0000 * 0x100_0000) by (nonlinear_arith)
                        requires
                            m1 <= 0x100_0000,
                            m2 <= 0x100_0000,
                    ;
                }
                let p: u128 = (m1 * m2) as u128;
                let e: u32 = e1 + e2 - 1074;
                proof {
                    lemma_pow2_adds(e1 as nat, e2 as nat);
                    lemma_pow2_adds(1074, e as nat);
                    lemma_pow2_pos(1074);
                    lemma_pow2_pos(e as nat);
                    let (a, b, u) = (pow2(e1 as nat), pow2(e2 as nat), pow2(e as nat));
                    assert((m1 * a) * (m2 * b) == (m1 * m2) * (a * b)) by (nonlinear_arith);
                    assert(p * (one() * u) == one() * (p * u)) by (nonlinear_arith);
                    assert(one() * ((p + 1) * u) == one() * (p * u) + one() * u)
                        by (nonlinear_arith);
                    assert(one() * u > 0) by (nonlinear_arith)
                        requires
                            one() > 0,
                            u > 0,
                    ;
                }
                let r = settle(p, e, false, Width::Single, Ghost(num), Ghost(one()));
                with_sign(m != n, r, Width::Single, Ghost(num), Ghost(one()))
            },
        }
    }

    /// The quotient of two singles. As a double, the divisor is to have few digits.
    pub fn over(self, other: Float, w: Width) -> (r: Float)
        requires
            fits(self, Width::Single),
            fits(other, Width::Single),
            w == Width::Double ==> (other matches Float::Fin { man, .. } ==> man <= 1024),
        ensures
            r@ == over_v(self@, other@, w),
            fits(r, w),
    {
        let least: u32 = low_of(w);
        proof {
            lemma_pow2_pos(bits(w) + top(w));
            lemma_pow2_pos(bits(w));
            assert(0 * pow2(least as nat) == 0) by (nonlinear_arith);
        }
        match (self, other) {
            (Float::Nan, _) => Float::Nan,
            (_, Float::Nan) => Float::Nan,
            (Float::Inf { .. }, Float::Inf { .. }) => Float::Nan,
            (Float::Inf { neg: m }, Float::Fin { neg: n, .. }) => Float::Inf { neg: m != n },
            (Float::Fin { neg: m, .. }, Float::Inf { neg: n }) => Float::Fin {
                neg: m != n,
                man: 0,
                exp: least,
            },
            (
                Float::Fin { neg: m, man: m1, exp: e1 },
                Float::Fin { neg: n, man: m2, exp: e2 },
            ) => {
                proof {
                    nothing_of_nothing(m1, e1);
                    nothing_of_nothing(m2, e2);
                    room_enough();
                }
                if m2 == 0 {
                    return if m1 == 0 {
                        Float::Nan
                    } else {
                        Float::Inf { neg: m != n }
                    };
                }
                let ghost num = units_of(m1, e1) * one();
                let ghost den = units_of(m2, e2);
                let r = quotient(m1, e1, m2, e2, w);
                with_sign(m != n, r, w, Ghost(num), Ghost(den))
            },
        }
    }
}

fn quotient(m1: u64, e1: u32, m2: u64, e2: u32, w: Width) -> (r: Option<(u64, u32)>)
    requires
        m1 <= 0x20_0000_0000_0000,
        0 < m2 <= 0x100_0000,
        925 <= e1 <= 1202,
        925 <= e2 <= 1202,
        w == Width::Double ==> m2 <= 1024,
    ensures
        is_nearest(r, units_of(m1, e1) * one(), units_of(m2, e2), w),
{
    let ghost num = units_of(m1, e1) * one();
    let ghost den = units_of(m2, e2);
    let x: u128 = raised(m1, 64);
    let y: u128 = m2 as u128;
    let q: u128 = x / y;
    let more = x % y != 0;
    let e: u32 = e1 + 1010 - e2;
    proof {
        room_enough();
        nothing_of_nothing(m2, e2);
        let r = x % y;
        assert(x == q * y + r && r < y && q <= x) by (nonlinear_arith)
            requires
                q == x / y,
                r == x % y,
                y > 0,
        ;
        let u = pow2((e1 + 1010) as nat);
        lemma_pow2_pos((e1 + 1010) as nat);
        lemma_pow2_adds(e2 as nat, e as nat);
        lemma_pow2_adds(e1 as nat, 1010);
        lemma_pow2_adds(64, 1010);
        let (a, b, c) = (pow2(e1 as nat), pow2(e2 as nat), pow2(e as nat));
        // Both sides as multiples of one power of two.
        assert(num == x * u) by (nonlinear_arith)
            requires
                num == (m1 * a) * (pow2(64) * pow2(1010)),
                x == m1 * pow2(64),
                u == a * pow2(1010),
        ;
        assert(den * (q * c) == (q * y) * u) by (nonlinear_arith)
            requires
                den == y * b,
                u == b * c,
        ;
        assert(den * ((q + 1) * c) == (q * y) * u + y * u) by (nonlinear_arith)
            requires
                den == y * b,
                u == b * c,
        ;
        assert(x * u == (q * y) * u + r * u) by (nonlinear_arith)
            requires
                x == q * y + r,
        ;
        assert(0 <= r * u < y * u && (r == 0 <==> r * u == 0)) by (nonlinear_arith)
            requires
                0 <= r < y,
                u > 0,
        ;
        // There are digits enough to round.
        if more {
            assert(m1 > 0) by {
                if m1 == 0 {
                    assert(x == 0) by (nonlinear_arith)
                        requires
                            x == m1 * pow2(64),
                            m1 == 0,
                    ;
                    assert(0u128 % y == 0) by (nonlinear_arith)
                        requires
                            y > 0,
                    ;
                }
            }
            assert(x >= 0x1_0000_0000_0000_0000) by (nonlinear_arith)
                requires
                    x == m1 * pow2(64),
                    pow2(64) == 0x1_0000_0000_0000_0000,
                    m1 >= 1,
            ;
            assert(y <= 1024 ==> q >= 0x40_0000_0000_0000) by (nonlinear_arith)
                requires
                    x == q * y + r,
                    r < y,
                    x >= 0x1_0000_0000_0000_0000,
                    y > 0,
            ;
            assert(q >= 0x200_0000) by (nonlinear_arith)
                requires
                    x == q * y + r,
                    r < y,
                    x >= 0x1_0000_0000_0000_0000,
                    0 < y <= 0x100_0000,
            ;
        }
    }
    settle(q, e, more, w, Ghost(num), Ghost(den))
}

// ── Singles ─────────────────────────────────────────────────────────────────

/// A number of 32 bits, as the machine stores it.
#[derive(Clone, Copy, Debug, PartialEq, Eq, Structural)]
pub struct Single {
    pub bits: u32,
}

/// The number that 32 bits stand for.
pub open spec fn single_v(b: u32) -> FloatV {
    let neg = b >= 0x8000_0000;
    let e = (b / 0x80_0000) % 256;
    let f = b % 0x80_0000;
    if e == 255 {
        if f == 0 {
            FloatV::Inf { neg }
        } else {
            FloatV::Nan
        }
    } else if e == 0 {
        FloatV::Fin { neg, units: (f as nat) * pow2(925) }
    } else {
        FloatV::Fin { neg, units: (f + 0x80_0000) as nat * pow2((924 + e) as nat) }
    }
}

impl View for Single {
    type V = FloatV;

    open spec fn view(&self) -> FloatV {
        single_v(self.bits)
    }
}

impl Single {
    /// Takes the number apart.
    pub fn open(self) -> (r: Float)
        ensures
            r@ == self@,
            fits(r, Width::Single),
    {
        let b: u32 = self.bits;
        let neg = b >= 0x8000_0000;
        let e: u32 = (b / 0x80_0000) % 256;
        let f: u32 = b % 0x80_0000;
        proof {
            room_enough();
        }
        if e == 255 {
            if f == 0 {
                Float::Inf { neg }
            } else {
                Float::Nan
            }
        } else if e == 0 {
            proof {
                small_enough(f as nat, 925);
            }
            Float::Fin { neg, man: f as u64, exp: 925 }
        } else {
            proof {
                small_enough((f + 0x80_0000) as nat, (924 + e) as nat);
            }
            Float::Fin { neg, man: (f + 0x80_0000) as u64, exp: 924 + e }
        }
    }

    /// Puts a number together.
    pub fn close(f: Float) -> (r: Single)
        requires
            fits(f, Width::Single),
        ensures
            r@ == f@,
    {
        match f {
            Float::Nan => Single { bits: 0x7fc0_0000 },
            Float::Inf { neg } => Single {
                bits: if neg {
                    0xff80_0000
                } else {
                    0x7f80_0000
                },
            },
            Float::Fin { neg, man, exp } => {
                let sign: u32 = if neg {
                    0x8000_0000
                } else {
                    0
                };
                proof {
                    room_enough();
                }
                let (m, e) = normal(man, exp);
                if m < 0x80_0000 {
                    let bits: u32 = sign + m as u32;
                    assert((bits / 0x80_0000) % 256 == 0 && bits % 0x80_0000 == m);
                    Single { bits }
                } else {
                    let bits: u32 = sign + (e - 924) * 0x80_0000 + (m - 0x80_0000) as u32;
                    assert((bits / 0x80_0000) % 256 == e - 924 && bits % 0x80_0000 == m - 0x80_0000);
                    Single { bits }
                }
            },
        }
    }
}

/// Zero.
pub open spec fn zero_v() -> FloatV {
    FloatV::Fin { neg: false, units: 0 }
}

/// A whole number, rounded.
pub open spec fn count_v(n: nat, w: Width) -> FloatV {
    settled(false, n * one(), 1, w)
}

/// The larger of two numbers; the other one where one is none.
pub open spec fn larger_v(a: FloatV, b: FloatV) -> FloatV {
    if a is Nan || less_v(a, b) {
        b
    } else {
        a
    }
}

/// The smaller of two numbers; the other one where one is none.
pub open spec fn smaller_v(a: FloatV, b: FloatV) -> FloatV {
    if a is Nan || less_v(b, a) {
        b
    } else {
        a
    }
}

impl Single {
    /// Zero.
    pub fn zero() -> (r: Single)
        ensures
            r@ == zero_v(),
    {
        assert(0 * pow2(925) == 0) by (nonlinear_arith);
        Single { bits: 0 }
    }

    /// A whole number, rounded.
    pub fn count(n: u64) -> (r: Single)
        ensures
            r@ == count_v(n as nat, Width::Single),
    {
        let ghost num = n as nat * one();
        proof {
            room_enough();
            lemma2_to64();
            one_step(n as nat, 1074);
        }
        let r = settle(n as u128, 1074, false, Width::Single, Ghost(num), Ghost(1));
        Single::close(with_sign(false, r, Width::Single, Ghost(num), Ghost(1)))
    }

    /// The sum of two numbers.
    pub fn plus(self, other: Single) -> (r: Single)
        ensures
            r@ == plus_v(self@, other@, Width::Single),
    {
        Single::close(self.open().plus(other.open(), Width::Single))
    }

    /// The difference of two numbers.
    pub fn minus(self, other: Single) -> (r: Single)
        ensures
            r@ == minus_v(self@, other@, Width::Single),
    {
        Single::close(self.open().minus(other.open(), Width::Single))
    }

    /// The product of two numbers.
    pub fn times(self, other: Single) -> (r: Single)
        ensures
            r@ == times_v(self@, other@, Width::Single),
    {
        Single::close(self.open().times(other.open()))
    }

    /// The quotient of two numbers.
    pub fn over(self, other: Single) -> (r: Single)
        ensures
            r@ == over_v(self@, other@, Width::Single),
    {
        Single::close(self.open().over(other.open(), Width::Single))
    }

    /// Whether it is less than another.
    pub fn less(self, other: Single) -> (r: bool)
        ensures
            r == less_v(self@, other@),
    {
        self.open().less(other.open(), Ghost(Width::Single))
    }

    /// Whether it is no number.
    pub fn is_nan(self) -> (r: bool)
        ensures
            r == self@ is Nan,
    {
        match self.open() {
            Float::Nan => true,
            _ => false,
        }
    }

    /// The larger of two numbers; the other one where one is none.
    pub fn larger(self, other: Single) -> (r: Single)
        ensures
            r@ == larger_v(self@, other@),
    {
        if self.is_nan() || self.less(other) {
            other
        } else {
            self
        }
    }

    /// The smaller of two numbers; the other one where one is none.
    pub fn smaller(self, other: Single) -> (r: Single)
        ensures
            r@ == smaller_v(self@, other@),
    {
        if self.is_nan() || other.less(self) {
            other
        } else {
            self
        }
    }
}

proof fn small_enough(m: nat, e: nat)
    requires
        m < 0x100_0000,
        e <= 1178,
    ensures
        m * pow2(e) < pow2(1202),
{
    room_enough();
    lemma_pow2_adds(24, e);
    lemma_pow2_pos(e);
    powers_grow(24 + e, 1202);
    assert(m * pow2(e) < pow2(24) * pow2(e)) by (nonlinear_arith)
        requires
            m < pow2(24),
            pow2(e) > 0,
    ;
}

/// The same count of units with as many digits as a single has, or with the least power of
/// two.
fn normal(man: u64, exp: u32) -> (r: (u64, u32))
    requires
        man <= 0x100_0000,
        925 <= exp <= 1202,
        units_of(man, exp) < pow2(1202),
    ensures
        units_of(r.0, r.1) == units_of(man, exp),
        r.0 < 0x100_0000,
        925 <= r.1 <= 1178,
        r.0 < 0x80_0000 ==> r.1 == 925,
{
    let mut m: u64 = man;
    let mut e: u32 = exp;
    proof {
        room_enough();
    }
    if m == 0 {
        assert(0 * pow2(exp as nat) == 0 && 0 * pow2(925) == 0) by (nonlinear_arith);
        return (0, 925);
    }
    if m == 0x100_0000 {
        proof {
            lemma_pow2_unfold(e as nat + 1);
            assert(0x100_0000 * pow2(e as nat) == 0x80_0000 * (2 * pow2(e as nat)))
                by (nonlinear_arith);
        }
        m = 0x80_0000;
        e = e + 1;
    }
    while m < 0x80_0000 && e > 925
        invariant
            m < 0x100_0000,
            925 <= e <= 1203,
            units_of(m, e) == units_of(man, exp),
        decreases e,
    {
        proof {
            lemma_pow2_unfold(e as nat);
            let u = pow2((e - 1) as nat);
            assert(m * (2 * u) == (2 * m) * u) by (nonlinear_arith);
        }
        m = m * 2;
        e = e - 1;
    }
    proof {
        if e > 1178 {
            lemma_pow2_adds(23, e as nat);
            lemma2_to64();
            lemma_pow2_pos(e as nat);
            powers_grow(1202, (23 + e) as nat);
            assert(m * pow2(e as nat) >= pow2(23) * pow2(e as nat)) by (nonlinear_arith)
                requires
                    m >= pow2(23),
            ;
            assert(false);
        }
    }
    (m, e)
}

proof fn nothing_of_nothing(m: u64, e: u32)
    ensures
        units_of(m, e) == 0 <==> m == 0,
{
    lemma_pow2_pos(e as nat);
    assert(m * pow2(e as nat) == 0 <==> m == 0) by (nonlinear_arith)
        requires
            pow2(e as nat) > 0,
    ;
}

// ── What is exact ───────────────────────────────────────────────────────────

proof fn spacing_stays_below(num: nat, den: nat, w: Width, j: nat, k: nat)
    requires
        j <= k <= top(w),
        num < den * pow2(bits(w) + k) || k == top(w),
    ensures
        spacing(num, den, w, j) <= k,
    decreases k - j,
{
    if j < k {
        spacing_stays_below(num, den, w, j + 1, k);
    }
}

/// A quotient that is a whole number of few digits is exact.
pub proof fn whole_quotients_are_exact(num: nat, den: nat, n: nat)
    requires
        den > 0,
        num == den * (n * one()),
        n < 0x100_0000,
    ensures
        nearest(num, den, Width::Single) == Some(n * one()),
{
    let w = Width::Single;
    room_enough();
    lemma_pow2_pos(1074);
    lemma_pow2_adds(24, 1074);
    powers_grow(1098, 1202);
    assert(n * one() < pow2(24) * one()) by (nonlinear_arith)
        requires
            n < pow2(24),
            one() > 0,
    ;
    assert(den * (n * one()) < den * pow2(1098)) by (nonlinear_arith)
        requires
            n * one() < pow2(1098),
            den > 0,
    ;
    spacing_stays_below(num, den, w, 925, 1074);
    exact_is_nearest(num, den, n, 1074, spacing(num, den, w, 925), w);
}

impl Float {
    /// A number of thousandths, rounded to a double.
    pub fn thousandths(neg: bool, n: u32) -> (r: Float)
        ensures
            r@ == over_v(FloatV::Fin { neg, units: n as nat * one() }, exactly(1000), Width::Double),
            fits(r, Width::Double),
    {
        let ghost num = (n as nat * one()) * one();
        let ghost den = 1000 * one();
        proof {
            nothing_of_nothing(1000, 1074);
        }
        let r = quotient(n as u64, 1074, 1000, 1074, Width::Double);
        with_sign(neg, r, Width::Double, Ghost(num), Ghost(den))
    }
}

/// A whole number, as it is.
pub open spec fn exactly(n: nat) -> FloatV {
    FloatV::Fin { neg: false, units: n * one() }
}

/// Sums, differences, products and quotients of whole numbers are exact, where they are
/// whole numbers of few digits.
pub proof fn whole_numbers_are_exact(a: nat, b: nat)
    requires
        a < 0x100_0000,
        b < 0x100_0000,
    ensures
        count_v(a, Width::Single) == exactly(a),
        a + b < 0x100_0000 ==> plus_v(exactly(a), exactly(b), Width::Single) == exactly(a + b),
        a >= b ==> minus_v(exactly(a), exactly(b), Width::Single) == exactly((a - b) as nat),
        a * b < 0x100_0000 ==> times_v(exactly(a), exactly(b), Width::Single) == exactly(a * b),
        less_v(exactly(a), exactly(b)) <==> a < b,
{
    lemma_pow2_pos(1074);
    assert(1 * (a * one()) == a * one()) by (nonlinear_arith);
    whole_quotients_are_exact(a * one(), 1, a);
    if a + b < 0x100_0000 {
        assert(a * one() + b * one() == (a + b) * one()) by (nonlinear_arith);
        whole_quotients_are_exact((a + b) * one(), 1, a + b);
    }
    assert(a > b ==> a * one() > b * one()) by (nonlinear_arith)
        requires
            one() > 0,
    ;
    assert(a < b ==> a * one() < b * one()) by (nonlinear_arith)
        requires
            one() > 0,
    ;
    if a >= b {
        let d = (a - b) as nat;
        assert(a * one() - b * one() == d * one()) by (nonlinear_arith)
            requires
                d == a - b,
        ;
        whole_quotients_are_exact(d * one(), 1, d);
        assert(a == b ==> d * one() == 0) by (nonlinear_arith)
            requires
                d == a - b,
        ;
    }
    if a * b < 0x100_0000 {
        assert((a * one()) * (b * one()) == one() * ((a * b) * one())) by (nonlinear_arith);
        whole_quotients_are_exact((a * one()) * (b * one()), one(), a * b);
    }
}

/// A quotient of whole numbers is exact, where it is one of few digits.
pub proof fn whole_shares_are_exact(q: nat, n: nat)
    requires
        0 < n,
        q < 0x100_0000,
    ensures
        over_v(exactly(n * q), exactly(n), Width::Single) == exactly(q),
{
    lemma_pow2_pos(1074);
    assert(n * one() > 0) by (nonlinear_arith)
        requires
            n > 0,
            one() > 0,
    ;
    assert(((n * q) * one()) * one() == (n * one()) * (q * one())) by (nonlinear_arith);
    whole_quotients_are_exact(((n * q) * one()) * one(), n * one(), q);
}

} // verus!
