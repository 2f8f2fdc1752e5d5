//! The thermal camera's picture: a palette, and a frame of temperatures painted with it.
use vstd::prelude::*;
use crate::decimals::whole_v;
use crate::floats::{
    count_v, larger_v, less_v, minus_v, over_v, plus_v, single_v, smaller_v, times_v, zero_v, FloatV,
    Single, Width,
};
use crate::geometry::{held, hold};
use crate::pictures::{Picture, PictureV};
use crate::readings::THERMAL_POINTS;
use crate::text::views;

verus! {

broadcast use {crate::text::views_push, crate::text::views_empty};

// ── The palette ─────────────────────────────────────────────────────────────

/// A stop of the palette: where it lies, in hundredths, and its colour.
#[derive(Clone, Copy, Debug, PartialEq, Eq, Structural)]
pub struct Stop {
    pub at: u64,
    pub r: u64,
    pub g: u64,
    pub b: u64,
}

/// The stops from black over purple, magenta, red, orange and yellow to white.
pub open spec fn stop_v(i: int) -> Stop {
    if i <= 0 {
        Stop { at: 0, r: 0, g: 0, b: 0 }
    } else if i == 1 {
        Stop { at: 15, r: 40, g: 0, b: 80 }
    } else if i == 2 {
        Stop { at: 35, r: 140, g: 0, b: 120 }
    } else if i == 3 {
        Stop { at: 55, r: 220, g: 40, b: 40 }
    } else if i == 4 {
        Stop { at: 75, r: 255, g: 140, b: 0 }
    } else if i == 5 {
        Stop { at: 90, r: 255, g: 230, b: 60 }
    } else {
        Stop { at: 100, r: 255, g: 255, b: 255 }
    }
}

/// A whole number.
pub open spec fn number(n: u64) -> FloatV {
    count_v(n as nat, Width::Single)
}

/// A number of hundredths.
pub open spec fn hundredths(n: u64) -> FloatV {
    over_v(number(n), number(100), Width::Single)
}

/// A number without its fraction, as a byte, or the nearest to it.
pub open spec fn byte_v(v: FloatV) -> u8 {
    let n = whole_v(v);
    if n < 0 {
        0
    } else if n > 255 {
        255
    } else {
        n as u8
    }
}

/// A channel of the colour that lies a part `f` of the way from one stop to another.
pub open spec fn channel_v(from: u64, to: u64, f: FloatV) -> u8 {
    byte_v(
        plus_v(
            number(from),
            times_v(minus_v(number(to), number(from), Width::Single), f, Width::Single),
            Width::Single,
        ),
    )
}

/// The colour of a number between two stops.
pub open spec fn mixed(a: Stop, b: Stop, t: FloatV) -> (u8, u8, u8) {
    let f = over_v(
        minus_v(t, hundredths(a.at), Width::Single),
        minus_v(hundredths(b.at), hundredths(a.at), Width::Single),
        Width::Single,
    );
    (channel_v(a.r, b.r, f), channel_v(a.g, b.g, f), channel_v(a.b, b.b, f))
}

/// The colour of a number, looked for from the stop `i` on; white behind the last.
pub open spec fn shade(t: FloatV, i: int) -> (u8, u8, u8)
    decreases 6 - i,
{
    if i >= 6 {
        (255, 255, 255)
    } else if !(t is Nan) && !less_v(hundredths(stop_v(i + 1).at), t) {
        mixed(stop_v(i), stop_v(i + 1), t)
    } else {
        shade(t, i + 1)
    }
}

/// The colour of a number from zero to one; what lies beyond is brought between them.
pub open spec fn ironbow_v(t: FloatV) -> (u8, u8, u8) {
    shade(held(t, zero_v(), number(1)), 0)
}

fn stop(i: usize) -> (r: Stop)
    ensures
        r == stop_v(i as int),
{
    if i == 0 {
        Stop { at: 0, r: 0, g: 0, b: 0 }
    } else if i == 1 {
        Stop { at: 15, r: 40, g: 0, b: 80 }
    } else if i == 2 {
        Stop { at: 35, r: 140, g: 0, b: 120 }
    } else if i == 3 {
        Stop { at: 55, r: 220, g: 40, b: 40 }
    } else if i == 4 {
        Stop { at: 75, r: 255, g: 140, b: 0 }
    } else if i == 5 {
        Stop { at: 90, r: 255, g: 230, b: 60 }
    } else {
        Stop { at: 100, r: 255, g: 255, b: 255 }
    }
}

fn part(n: u64) -> (r: Single)
    ensures
        r@ == hundredths(n),
{
    Single::count(n).over(Single::count(100))
}

fn byte_of(v: Single) -> (r: u8)
    ensures
        r == byte_v(v@),
{
    let n: i32 = v.whole();
    if n < 0 {
        0
    } else if n > 255 {
        255
    } else {
        n as u8
    }
}

fn channel(from: u64, to: u64, f: Single) -> (r: u8)
    ensures
        r == channel_v(from, to, f@),
{
    let way = Single::count(to).minus(Single::count(from));
    byte_of(Single::count(from).plus(way.times(f)))
}

fn mix(a: Stop, b: Stop, t: Single) -> (r: (u8, u8, u8))
    ensures
        r == mixed(a, b, t@),
{
    let f = t.minus(part(a.at)).over(part(b.at).minus(part(a.at)));
    (channel(a.r, b.r, f), channel(a.g, b.g, f), channel(a.b, b.b, f))
}

/// The colour of a number from zero to one.
pub fn ironbow(t: Single) -> (r: (u8, u8, u8))
    ensures
        r == ironbow_v(t@),
{
    let u = hold(t, Single::zero(), Single::count(1));
    let mut i: usize = 0;
    while i < 6
        invariant
            i <= 6,
            ironbow_v(t@) == shade(u@, i as int),
        decreases 6 - i,
    {
        let next = stop(i + 1);
        if !u.is_nan() && !part(next.at).less(u) {
            return mix(stop(i), next, u);
        }
        i = i + 1;
    }
    (255, 255, 255)
}

// ── A frame ─────────────────────────────────────────────────────────────────

/// The width of a frame.
pub const THERMAL_W: u32 = 32;

/// The height of a frame.
pub const THERMAL_H: u32 = 24;

/// The coldest of the first `n` points.
pub open spec fn coldest(a: Seq<FloatV>, n: int) -> FloatV
    decreases n,
{
    if n <= 0 {
        single_v(0x7f7f_ffff)
    } else {
        smaller_v(coldest(a, n - 1), a[n - 1])
    }
}

/// The warmest of the first `n` points.
pub open spec fn warmest(a: Seq<FloatV>, n: int) -> FloatV
    decreases n,
{
    if n <= 0 {
        single_v(0xff7f_ffff)
    } else {
        larger_v(warmest(a, n - 1), a[n - 1])
    }
}

/// How far the points of a frame are apart: a tenth of a degree at least.
pub open spec fn span_v(a: Seq<FloatV>) -> FloatV {
    larger_v(
        minus_v(
            warmest(a, THERMAL_POINTS as int),
            coldest(a, THERMAL_POINTS as int),
            Width::Single,
        ),
        over_v(number(1), number(10), Width::Single),
    )
}

/// The colour of a point.
pub open spec fn point_v(a: Seq<FloatV>, i: int) -> (u8, u8, u8) {
    ironbow_v(
        over_v(
            minus_v(a[i], coldest(a, THERMAL_POINTS as int), Width::Single),
            span_v(a),
            Width::Single,
        ),
    )
}

/// The bytes of the first `n` points.
pub open spec fn painted(a: Seq<FloatV>, n: int) -> Seq<u8>
    decreases n,
{
    if n <= 0 {
        Seq::empty()
    } else {
        let c = point_v(a, n - 1);
        painted(a, n - 1).push(c.0).push(c.1).push(c.2).push(255)
    }
}

/// The picture of a frame, from its coldest to its warmest point. A frame with too few
/// points has none.
pub fn build_thermal_image(frame: &Vec<Single>) -> (r: Option<Picture>)
    ensures
        r is Some <==> frame@.len() >= THERMAL_POINTS,
        r is Some ==> r->0@ == (PictureV {
            width: THERMAL_W,
            height: THERMAL_H,
            rgba: painted(views(frame@), THERMAL_POINTS as int),
        }),
{
    if frame.len() < THERMAL_POINTS {
        return None;
    }
    let ghost a = views(frame@);
    let mut low = Single { bits: 0x7f7f_ffff };
    let mut high = Single { bits: 0xff7f_ffff };
    for i in 0..THERMAL_POINTS
        invariant
            a == views(frame@),
            frame@.len() >= THERMAL_POINTS,
            low@ == coldest(a, i as int),
            high@ == warmest(a, i as int),
    {
        assert(a[i as int] == frame@[i as int]@);
        low = low.smaller(frame[i]);
        high = high.larger(frame[i]);
    }
    let span = high.minus(low).larger(Single::count(1).over(Single::count(10)));
    let mut rgba: Vec<u8> = Vec::new();
    for i in 0..THERMAL_POINTS
        invariant
            a == views(frame@),
            frame@.len() >= THERMAL_POINTS,
            low@ == coldest(a, THERMAL_POINTS as int),
            span@ == span_v(a),
            rgba@ == painted(a, i as int),
    {
        assert(a[i as int] == frame@[i as int]@);
        let c = ironbow(frame[i].minus(low).over(span));
        rgba.push(c.0);
        rgba.push(c.1);
        rgba.push(c.2);
        rgba.push(255);
    }
    Some(Picture { width: THERMAL_W, height: THERMAL_H, rgba })
}

// ── Laws ────────────────────────────────────────────────────────────────────

/// A frame's picture has four bytes for each of its points.
pub proof fn pictures_are_filled(a: Seq<FloatV>, n: int)
    requires
        0 <= n,
    ensures
        painted(a, n).len() == 4 * n,
    decreases n,
{
    if n > 0 {
        pictures_are_filled(a, n - 1);
    }
}

} // verus!
