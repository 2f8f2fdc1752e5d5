//! Readings of the machine: what a reply says of them, before any of it is a number.
use vstd::prelude::*;
use crate::floats::{
    count_v, larger_v, over_v, smaller_v, times_v, zero_v, FloatV, Single, Width,
};
use crate::geometry::{held, hold};
use crate::json::{flagged, items_or_none, num_v, text_at, Json, JsonV, Num, NumV};
use crate::reader::json_flag;
use crate::text::{copy, lines, lines_of, trim, trimmed, views};

verus! {

broadcast use {crate::text::views_push, crate::text::views_empty};

/// How busy a machine is, as its tools print it.
#[derive(Debug, PartialEq)]
pub struct Load {
    /// The share of the memory that is in use, in hundredths.
    pub ram: String,
    /// The share of the disk that is in use, in hundredths.
    pub disk: String,
    pub cores: String,
    /// How many tasks wanted to run in the last minute.
    pub tasks: String,
}

/// The model of a [`Load`]: its four texts.
pub struct LoadV {
    pub ram: Seq<char>,
    pub disk: Seq<char>,
    pub cores: Seq<char>,
    pub tasks: Seq<char>,
}

impl View for Load {
    type V = LoadV;

    open spec fn view(&self) -> LoadV {
        LoadV { ram: self.ram@, disk: self.disk@, cores: self.cores@, tasks: self.tasks@ }
    }
}

/// What the reply to the question says: a success that printed four lines at least.
pub open spec fn load_v(body: JsonV) -> Option<LoadV> {
    match text_at(body, "stdout"@) {
        Some(out) => {
            let l = lines_of(out);
            if flagged(body, "ok"@) && l.len() >= 4 {
                Some(
                    LoadV {
                        ram: trimmed(l[0]),
                        disk: trimmed(l[1]),
                        cores: trimmed(l[2]),
                        tasks: trimmed(l[3]),
                    },
                )
            } else {
                None
            }
        },
        None => None,
    }
}

/// What the reply to the question how busy a machine is says.
pub fn load_of(body: &Json) -> (r: Option<Load>)
    ensures
        match r {
            Some(l) => load_v(body@) == Some(l@),
            None => load_v(body@) is None,
        },
{
    if !json_flag(body, "ok") {
        return None;
    }
    match body.str_at("stdout") {
        Some(out) => {
            let l = lines(out);
            assert(views(l@).len() == l@.len());
            if l.len() < 4 {
                return None;
            }
            assert(views(l@)[0] == l@[0]@ && views(l@)[1] == l@[1]@);
            assert(views(l@)[2] == l@[2]@ && views(l@)[3] == l@[3]@);
            Some(
                Load {
                    ram: copy(trim(l[0].as_str())),
                    disk: copy(trim(l[1].as_str())),
                    cores: copy(trim(l[2].as_str())),
                    tasks: copy(trim(l[3].as_str())),
                },
            )
        },
        None => None,
    }
}

/// How busy the processors are, in hundredths: the tasks that want to run over the
/// processors that there are, of which there is one at least.
pub open spec fn busy_v(tasks: FloatV, cores: FloatV) -> FloatV {
    let hundred = count_v(100, Width::Single);
    smaller_v(
        times_v(
            over_v(tasks, larger_v(cores, count_v(1, Width::Single)), Width::Single),
            hundred,
            Width::Single,
        ),
        hundred,
    )
}

/// How busy the processors are, in hundredths.
pub fn busy(tasks: Single, cores: Single) -> (r: Single)
    ensures
        r@ == busy_v(tasks@, cores@),
{
    let hundred = Single::count(100);
    tasks.over(cores.larger(Single::count(1))).times(hundred).smaller(hundred)
}

/// The largest of the first `n` samples.
pub open spec fn peak_v(a: Seq<FloatV>, n: int) -> FloatV
    decreases n,
{
    if n <= 0 {
        zero_v()
    } else {
        larger_v(peak_v(a, n - 1), a[n - 1])
    }
}

/// What samples are scaled by: the largest, and a millionth at least.
pub open spec fn scale_v(a: Seq<FloatV>) -> FloatV {
    larger_v(
        peak_v(a, a.len() as int),
        over_v(count_v(1, Width::Single), count_v(1_000_000, Width::Single), Width::Single),
    )
}

/// A sample, scaled to the peak.
pub open spec fn scaled_v(a: Seq<FloatV>, s: FloatV) -> FloatV {
    held(over_v(s, scale_v(a), Width::Single), zero_v(), count_v(1, Width::Single))
}

/// A recording's envelope, scaled to its peak, so that a quiet one fills the view too.
pub fn envelope(raw: &Vec<Single>) -> (r: Vec<Single>)
    ensures
        views(r@) == views(raw@).map_values(|s: FloatV| scaled_v(views(raw@), s)),
{
    let ghost a = views(raw@);
    let ghost want = a.map_values(|s: FloatV| scaled_v(a, s));
    let mut peak = Single::zero();
    for i in 0..raw.len()
        invariant
            a == views(raw@),
            peak@ == peak_v(a, i as int),
    {
        assert(a[i as int] == raw@[i as int]@);
        peak = peak.larger(raw[i]);
    }
    assert(a.len() == raw@.len());
    let scale = peak.larger(Single::count(1).over(Single::count(1_000_000)));
    let mut out: Vec<Single> = Vec::new();
    for i in 0..raw.len()
        invariant
            a == views(raw@),
            want == a.map_values(|s: FloatV| scaled_v(a, s)),
            scale@ == scale_v(a),
            views(out@) == want.take(i as int),
    {
        assert(a[i as int] == raw@[i as int]@);
        out.push(hold(raw[i].over(scale), Single::zero(), Single::count(1)));
        assert(want.take(i as int).push(want[i as int]) =~= want.take(i as int + 1));
    }
    assert(want.take(raw@.len() as int) =~= want);
    out
}

/// How many points a thermal frame has.
pub const THERMAL_POINTS: usize = 768;

/// How long to wait for the next thermal frame, in seconds: while a camera sends whole
/// frames they are asked for often.
pub fn thermal_wait(points: usize) -> (secs: u64)
    ensures
        secs == if points >= THERMAL_POINTS {
            2u64
        } else {
            30u64
        },
{
    if points >= THERMAL_POINTS {
        2
    } else {
        30
    }
}

/// The points of the first `n` values of a frame; what is no number is nothing.
pub open spec fn points_v(a: Seq<JsonV>, n: int) -> Seq<Option<NumV>>
    decreases n,
{
    if n <= 0 {
        Seq::empty()
    } else {
        points_v(a, n - 1).push(num_v(a[n - 1]))
    }
}

/// The model of points.
pub open spec fn nums(v: Seq<Option<Num>>) -> Seq<Option<NumV>> {
    Seq::new(
        v.len(),
        |i: int|
            match v[i] {
                Some(n) => Some(n@),
                None => None,
            },
    )
}

/// The points of a thermal frame; there is none where the reply has no list, or an empty
/// one, or was no success.
pub fn thermal_points(success: bool, body: &Json) -> (r: Option<Vec<Option<Num>>>)
    ensures
        ({
            let a = items_or_none(body@, "frame"@);
            match r {
                Some(v) => success && a.len() > 0 && nums(v@) == points_v(a, a.len() as int),
                None => !success || a.len() == 0,
            }
        }),
{
    let arr = body.items_at("frame");
    let ghost a = views(arr@);
    assert(a.len() == arr@.len());
    if !success || arr.len() == 0 {
        return None;
    }
    let mut out: Vec<Option<Num>> = Vec::new();
    assert(nums(out@) =~= points_v(a, 0));
    for i in 0..arr.len()
        invariant
            a == views(arr@),
            nums(out@) == points_v(a, i as int),
    {
        assert(a[i as int] == arr@[i as int]@);
        let ghost before = out@;
        let n = match arr[i].as_num() {
            Some(n) => Some(n.copy()),
            None => None,
        };
        out.push(n);
        assert(nums(out@) =~= nums(before).push(num_v(a[i as int])));
    }
    Some(out)
}

} // verus!
