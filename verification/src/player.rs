//! The player: how large a clip is shown, what its clock says, and which frames are due.
use vstd::prelude::*;
use crate::decimals::seconds_v;
use crate::floats::{
    count_v, larger_v, less_v, over_v, smaller_v, times_v, zero_v, FloatV, Single, Width,
};
use crate::numbers::{shrink, shrinking_fits, shrunk};
use crate::text::{
    cat, cat3, chars_of, copy, dec, dec_u64, parse_u64, text_of, trim, trimmed, u64_of, views, same,
};

verus! {

broadcast use {crate::text::views_push, crate::text::views_empty};

// ── Size ────────────────────────────────────────────────────────────────────

/// The even number below or at `n`, two at least.
pub open spec fn even_v(n: nat) -> nat {
    if n < 2 {
        2
    } else {
        (n - n % 2) as nat
    }
}

/// The size of a picture within bounds: its proportions kept, never enlarged, both
/// sides rounded down to even numbers. Sides are scaled in double precision.
pub open spec fn fit_v(w: nat, h: nat, max_w: nat, max_h: nat) -> (nat, nat) {
    if w == 0 || h == 0 || max_w < 2 || max_h < 2 {
        (2, 2)
    } else if w <= max_w && h <= max_h {
        (even_v(w), even_v(h))
    } else if max_w * h <= max_h * w {
        (even_v(shrunk(w, max_w, w)), even_v(shrunk(h, max_w, w)))
    } else {
        (even_v(shrunk(w, max_h, h)), even_v(shrunk(h, max_h, h)))
    }
}

fn even(n: u32) -> (r: u32)
    ensures
        r == even_v(n as nat),
{
    if n < 2 {
        2
    } else {
        n - n % 2
    }
}

/// The narrower of two proportions is below one where the picture does not fit.
proof fn some_side_shrinks(w: nat, h: nat, max_w: nat, max_h: nat)
    requires
        w > 0,
        h > 0,
        !(w <= max_w && h <= max_h),
    ensures
        max_w * h <= max_h * w ==> max_w < w,
        max_w * h > max_h * w ==> max_h < h,
{
    assert(max_w * h <= max_h * w ==> max_w < w) by (nonlinear_arith)
        requires
            w > 0,
            h > 0,
            !(w <= max_w && h <= max_h),
    ;
    assert(max_w * h > max_h * w ==> max_h < h) by (nonlinear_arith)
        requires
            w > 0,
            h > 0,
            !(w <= max_w && h <= max_h),
    ;
}

/// The size of a picture within bounds.
pub fn fit_dims(src_w: u32, src_h: u32, max_w: u32, max_h: u32) -> (r: (u32, u32))
    ensures
        (r.0 as nat, r.1 as nat) == fit_v(
            src_w as nat,
            src_h as nat,
            max_w as nat,
            max_h as nat,
        ),
{
    if src_w == 0 || src_h == 0 || max_w < 2 || max_h < 2 {
        return (2, 2);
    }
    if src_w <= max_w && src_h <= max_h {
        return (even(src_w), even(src_h));
    }
    proof {
        some_side_shrinks(src_w as nat, src_h as nat, max_w as nat, max_h as nat);
        assert(max_w * src_h <= 0xffff_ffff * 0xffff_ffff && max_h * src_w <= 0xffff_ffff
            * 0xffff_ffff) by (nonlinear_arith)
            requires
                0 <= src_w <= 0xffff_ffff,
                0 <= src_h <= 0xffff_ffff,
                0 <= max_w <= 0xffff_ffff,
                0 <= max_h <= 0xffff_ffff,
        ;
    }
    if max_w as u64 * src_h as u64 <= max_h as u64 * src_w as u64 {
        (even(shrink(src_w, max_w, src_w)), even(shrink(src_h, max_w, src_w)))
    } else {
        (even(shrink(src_w, max_h, src_h)), even(shrink(src_h, max_h, src_h)))
    }
}

// ── Time ────────────────────────────────────────────────────────────────────

/// Two digits.
pub open spec fn two_digits(n: nat) -> Seq<char> {
    if n < 10 {
        "0"@ + dec(n)
    } else {
        dec(n)
    }
}

/// Minutes and seconds.
pub open spec fn clock_v(secs: nat) -> Seq<char> {
    dec(secs / 60) + ":"@ + two_digits(secs % 60)
}

/// Minutes and seconds of a whole number of seconds.
pub fn clock_text(secs: u64) -> (r: String)
    ensures
        r@ == clock_v(secs as nat),
{
    let mut out = dec_u64(secs / 60);
    out.append(":");
    let s: u64 = secs % 60;
    let tail = if s < 10 {
        cat("0", dec_u64(s).as_str())
    } else {
        dec_u64(s)
    };
    out.append(tail.as_str());
    out
}

/// Minutes and seconds of a time; one before zero counts as zero.
pub fn imagine_clock(t: Single) -> (r: String)
    ensures
        r@ == clock_v(seconds_v(larger_v(t@, zero_v()))),
{
    clock_text(t.larger(Single::zero()).seconds())
}

/// How far a clip has come.
pub fn progress_text(at: Single, total: Single) -> (r: String)
    ensures
        r@ == clock_v(seconds_v(larger_v(at@, zero_v()))) + " / "@ + clock_v(
            seconds_v(larger_v(total@, zero_v())),
        ),
{
    cat3(imagine_clock(at).as_str(), " / ", imagine_clock(total).as_str())
}

/// A moment of playing.
#[derive(Clone, Copy, Debug, PartialEq, Eq, Structural)]
pub struct Tick {
    /// How many frames are due.
    pub due: u64,
    /// The time that is shown, no later than the clip's end.
    pub at: Single,
    /// How much of the clip was played, where its length is known.
    pub progress: Option<Single>,
}

/// The model of a [`Tick`].
pub struct TickV {
    pub due: nat,
    pub at: FloatV,
    pub progress: Option<FloatV>,
}

impl View for Tick {
    type V = TickV;

    open spec fn view(&self) -> TickV {
        TickV {
            due: self.due as nat,
            at: self.at@,
            progress: match self.progress {
                Some(p) => Some(p@),
                None => None,
            },
        }
    }
}

/// What is due and shown so many seconds after a clip of a length was started.
pub open spec fn tick_v(elapsed: FloatV, length: FloatV) -> TickV {
    let one = count_v(1, Width::Single);
    let least = over_v(one, count_v(100, Width::Single), Width::Single);
    let at = smaller_v(elapsed, larger_v(length, least));
    TickV {
        due: seconds_v(times_v(elapsed, count_v(IMAGINE_PLAY_FPS as nat, Width::Single), Width::Single)),
        at,
        progress: if less_v(zero_v(), length) {
            Some(smaller_v(over_v(at, length, Width::Single), one))
        } else {
            None
        },
    }
}

/// What is due and shown so many seconds after a clip of a length was started.
pub fn tick(elapsed: Single, length: Single) -> (r: Tick)
    ensures
        r@ == tick_v(elapsed@, length@),
{
    let one = Single::count(1);
    let at = elapsed.smaller(length.larger(one.over(Single::count(100))));
    Tick {
        due: elapsed.times(Single::count(IMAGINE_PLAY_FPS)).seconds(),
        at,
        progress: if Single::zero().less(length) {
            Some(at.over(length).smaller(one))
        } else {
            None
        },
    }
}

/// A clip's length among the numbers of a probe, from `i` on: the first that is more than
/// nothing.
pub open spec fn length_v(a: Seq<Option<FloatV>>, i: int) -> FloatV
    decreases a.len() - i,
{
    if 0 <= i < a.len() {
        match a[i] {
            Some(x) => if less_v(zero_v(), x) {
                x
            } else {
                length_v(a, i + 1)
            },
            None => length_v(a, i + 1),
        }
    } else {
        zero_v()
    }
}

/// The models of numbers that may be there.
pub open spec fn numbers_v(v: Seq<Option<Single>>) -> Seq<Option<FloatV>> {
    Seq::new(
        v.len(),
        |i: int|
            match v[i] {
                Some(x) => Some(x@),
                None => None,
            },
    )
}

/// A clip's length, from what the words of a probe that are no whole numbers are as
/// numbers.
pub fn clip_length(words: &Vec<Option<Single>>) -> (r: Single)
    ensures
        r@ == length_v(numbers_v(words@), 0),
{
    let ghost a = numbers_v(words@);
    for i in 0..words.len()
        invariant
            a == numbers_v(words@),
            length_v(a, 0) == length_v(a, i as int),
    {
        match words[i] {
            Some(x) => {
                if Single::zero().less(x) {
                    return x;
                }
            },
            None => {},
        }
    }
    Single::zero()
}

/// The frames that were shown and those that are due.
#[derive(Clone, Copy, Debug, PartialEq, Eq, Structural)]
pub struct Frames {
    pub shown: u64,
    pub due: u64,
    pub ended: bool,
}

/// What the decoder has.
#[derive(Clone, Copy, Debug, PartialEq, Eq, Structural)]
pub enum Decoded {
    Frame,
    End,
}

impl Frames {
    /// Whether the decoder is to be asked: slow frames are caught up with, never waited
    /// for.
    pub fn wants(&self) -> (r: bool)
        ensures
            r == (self.shown <= self.due && !self.ended),
    {
        self.shown <= self.due && !self.ended
    }

    /// Takes in what the decoder had; says whether it is a frame to show.
    pub fn take(&mut self, d: Decoded) -> (r: bool)
        requires
            old(self).shown <= old(self).due && !old(self).ended,
            old(self).shown < u64::MAX,
        ensures
            r == (d == Decoded::Frame),
            d == Decoded::Frame ==> *final(self) == (Frames {
                shown: (old(self).shown + 1) as u64,
                ..*old(self)
            }),
            d == Decoded::End ==> *final(self) == (Frames { ended: true, ..*old(self) }),
    {
        match d {
            Decoded::Frame => {
                self.shown = self.shown + 1;
                true
            },
            Decoded::End => {
                self.ended = true;
                false
            },
        }
    }
}

/// How many frames a second are shown.
pub const IMAGINE_PLAY_FPS: u64 = 24;

/// How many bytes a frame has.
pub fn frame_bytes(w: u32, h: u32) -> (r: u128)
    ensures
        r == w as nat * h as nat * 4,
{
    assert(w as int * h as int <= 0xffff_ffff * 0xffff_ffff) by (nonlinear_arith)
        requires
            0 <= w <= 0xffff_ffff,
            0 <= h <= 0xffff_ffff,
    ;
    w as u128 * h as u128 * 4
}

/// What the decoder does to the size and the pace of a clip.
pub fn video_filter(w: u32, h: u32) -> (r: String)
    ensures
        r@ == "scale="@ + dec(w as nat) + ":"@ + dec(h as nat) + ",fps=24"@,
{
    let mut out = cat3("scale=", dec_u64(w as u64).as_str(), ":");
    out.append(dec_u64(h as u64).as_str());
    out.append(",fps=24");
    out
}

/// What the decoder does to the size of a poster.
pub fn poster_filter(w: u32, h: u32) -> (r: String)
    ensures
        r@ == "scale="@ + dec(w as nat) + ":"@ + dec(h as nat),
{
    let mut out = cat3("scale=", dec_u64(w as u64).as_str(), ":");
    out.append(dec_u64(h as u64).as_str());
    out
}

// ── Probing ─────────────────────────────────────────────────────────────────

/// What a probe says of a clip: its size, and the words that are no whole numbers, of
/// which the first positive one is its length.
#[derive(Debug)]
pub struct Probe {
    pub width: Option<u32>,
    pub height: Option<u32>,
    pub rest: Vec<String>,
}

/// The model of a [`Probe`].
pub struct ProbeV {
    pub width: Option<u32>,
    pub height: Option<u32>,
    pub rest: Seq<Seq<char>>,
}

impl View for Probe {
    type V = ProbeV;

    open spec fn view(&self) -> ProbeV {
        ProbeV { width: self.width, height: self.height, rest: views(self.rest@) }
    }
}

/// Whether a character parts two words.
pub open spec fn parts(c: char) -> bool {
    c == '\n' || c == ','
}

/// The place of the first parting character from `i` on; the end where there is none.
pub open spec fn word_end(s: Seq<char>, i: int) -> int
    decreases s.len() - i,
{
    if 0 <= i < s.len() && !parts(s[i]) {
        word_end(s, i + 1)
    } else {
        i
    }
}

proof fn word_end_bounds(s: Seq<char>, i: int)
    requires
        0 <= i <= s.len(),
    ensures
        i <= word_end(s, i) <= s.len(),
    decreases s.len() - i,
{
    if i < s.len() && !parts(s[i]) {
        word_end_bounds(s, i + 1);
    }
}

/// The whole number that a word is.
pub open spec fn u32_of(s: Seq<char>) -> Option<u32> {
    match u64_of(s) {
        Some(n) => if n <= u32::MAX {
            Some(n as u32)
        } else {
            None
        },
        None => None,
    }
}

/// Takes in one more word.
pub open spec fn probed(p: ProbeV, word: Seq<char>) -> ProbeV {
    let t = trimmed(word);
    if t.len() == 0 || t == "N/A"@ {
        p
    } else {
        match u32_of(t) {
            Some(n) => if p.width is None {
                ProbeV { width: Some(n), ..p }
            } else if p.height is None {
                ProbeV { height: Some(n), ..p }
            } else {
                p
            },
            None => ProbeV { rest: p.rest.push(t), ..p },
        }
    }
}

/// Takes in the words from `i` on.
pub open spec fn probed_from(p: ProbeV, s: Seq<char>, i: int) -> ProbeV
    decreases s.len() + 1 - i,
    when 0 <= i <= s.len()
    via probed_from_decreases
{
    let k = word_end(s, i);
    let q = probed(p, s.subrange(i, k));
    if k < s.len() {
        probed_from(q, s, k + 1)
    } else {
        q
    }
}

#[via_fn]
proof fn probed_from_decreases(p: ProbeV, s: Seq<char>, i: int) {
    word_end_bounds(s, i);
}

/// What a probe's output says.
pub open spec fn probe_v(s: Seq<char>) -> ProbeV {
    probed_from(ProbeV { width: None, height: None, rest: Seq::empty() }, s, 0)
}

fn take_word(p: &mut Probe, word: &str)
    ensures
        final(p)@ == probed(old(p)@, word@),
{
    let t = trim(word);
    if t.is_empty() || same(t, "N/A") {
        return;
    }
    let n: Option<u64> = parse_u64(t);
    match n {
        Some(n) => {
            if n <= u32::MAX as u64 {
                if p.width.is_none() {
                    p.width = Some(n as u32);
                } else if p.height.is_none() {
                    p.height = Some(n as u32);
                }
                return;
            }
        },
        None => {},
    }
    p.rest.push(copy(t));
}

/// Reads a probe's output.
pub fn parse_ffprobe_video(out: &str) -> (r: Probe)
    ensures
        r@ == probe_v(out@),
{
    let v = chars_of(out);
    let n: usize = v.len();
    let mut p = Probe { width: None, height: None, rest: Vec::new() };
    let mut from: usize = 0;
    let mut i: usize = 0;
    while i < n
        invariant
            n == v@.len(),
            v@ == out@,
            from <= i <= n,
            word_end(v@, from as int) == word_end(v@, i as int),
            probed_from(p@, v@, from as int) == probe_v(out@),
        decreases n - i,
    {
        if v[i] == '\n' || v[i] == ',' {
            take_word(&mut p, text_of(&v, from, i).as_str());
            from = i + 1;
        }
        i = i + 1;
    }
    take_word(&mut p, text_of(&v, from, n).as_str());
    p
}

// ── Laws ────────────────────────────────────────────────────────────────────

/// A fitted size is even, at least two by two, within its bounds, and never larger than
/// the picture.
pub proof fn fitted_sizes_fit(w: u32, h: u32, max_w: u32, max_h: u32)
    ensures
        ({
            let f = fit_v(w as nat, h as nat, max_w as nat, max_h as nat);
            &&& f.0 % 2 == 0 && f.1 % 2 == 0
            &&& f.0 >= 2 && f.1 >= 2
            &&& max_w >= 2 && max_h >= 2 ==> f.0 <= max_w && f.1 <= max_h
            &&& w >= 2 && h >= 2 ==> f.0 <= w && f.1 <= h
        }),
{
    let (w, h, mw, mh) = (w as nat, h as nat, max_w as nat, max_h as nat);
    if w > 0 && h > 0 && mw >= 2 && mh >= 2 && !(w <= mw && h <= mh) {
        some_side_shrinks(w, h, mw, mh);
        assert(w * mw == mw * w && h * mw == mw * h && w * mh == mh * w && h * mh == mh * h)
            by (nonlinear_arith);
        if mw * h <= mh * w {
            assert(h * mw <= h * w) by (nonlinear_arith)
                requires
                    mw < w,
            ;
            assert(w * mw <= w * w) by (nonlinear_arith)
                requires
                    mw < w,
            ;
            shrinking_fits(w, mw, w, mw);
            shrinking_fits(w, mw, w, w);
            shrinking_fits(h, mw, w, mh);
            shrinking_fits(h, mw, w, h);
        } else {
            assert(w * mh <= w * h) by (nonlinear_arith)
                requires
                    mh < h,
            ;
            assert(h * mh <= h * h) by (nonlinear_arith)
                requires
                    mh < h,
            ;
            shrinking_fits(w, mh, h, mw);
            shrinking_fits(w, mh, h, w);
            shrinking_fits(h, mh, h, mh);
            shrinking_fits(h, mh, h, h);
        }
    }
}

} // verus!
