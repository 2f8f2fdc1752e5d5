//! The cutting room: a timeline of clips, stills and cards, and the request that has it
//! rendered. Times are seconds.
use vstd::prelude::*;
use vstd::arithmetic::power2::{lemma2_to64, lemma_pow2_adds, lemma_pow2_pos, pow2};
use crate::decimals::{full_text, no_decimal, one_decimal, whole_v};
use crate::floats::{
    fits, larger_v, less_v, minus_v, one, over_v, plus_v, powers_grow, room_enough,
    singles_are_doubles, zero_v, Float, FloatV, Single, Width,
};
use crate::json::{
    double, double_json, entries, items_or_none, milli_json, put, uint_json, Json, JsonV,
};
use crate::reader::{json_str, plural, plural_v, str_v};
use crate::studio::{thumb_state, ThumbState, Thumbs};
use crate::text::{
    cat, cat3, copy, dec, dec_len, decimal, head, same, take_chars, trim, trimmed, views,
};

verus! {

broadcast use {
    crate::text::views_push,
    crate::text::views_empty,
    crate::json::entries_empty,
};

/// What a segment is made of.
#[derive(Clone, Copy, Debug, PartialEq, Eq, Structural)]
pub enum CutKind {
    Clip,
    Still,
    Card,
}

/// A segment of the timeline.
#[derive(Debug, PartialEq)]
pub struct CutSeg {
    pub kind: CutKind,
    pub job_id: String,
    pub label: String,
    /// Where the clip starts.
    pub in_s: Single,
    /// Where it ends; at its own end where this is not behind the start.
    pub out_s: Single,
    /// -12, -6 or 0 decibel.
    pub gain_ix: i32,
    /// Half, normal, one and a half or double speed.
    pub speed_ix: i32,
    /// 2, 3, 4 or 6 seconds.
    pub dur_ix: i32,
    /// No zoom, some, or more.
    pub zoom_ix: i32,
    pub color_ix: i32,
    pub caption: String,
}

/// The model of a [`CutSeg`].
pub struct CutSegV {
    pub kind: CutKind,
    pub job_id: Seq<char>,
    pub label: Seq<char>,
    pub in_s: FloatV,
    pub out_s: FloatV,
    pub gain_ix: i32,
    pub speed_ix: i32,
    pub dur_ix: i32,
    pub zoom_ix: i32,
    pub color_ix: i32,
    pub caption: Seq<char>,
}

impl View for CutSeg {
    type V = CutSegV;

    open spec fn view(&self) -> CutSegV {
        CutSegV {
            kind: self.kind,
            job_id: self.job_id@,
            label: self.label@,
            in_s: self.in_s@,
            out_s: self.out_s@,
            gain_ix: self.gain_ix,
            speed_ix: self.speed_ix,
            dur_ix: self.dur_ix,
            zoom_ix: self.zoom_ix,
            color_ix: self.color_ix,
            caption: self.caption@,
        }
    }
}

/// A new segment.
pub open spec fn seg_v(kind: CutKind, job_id: Seq<char>, label: Seq<char>) -> CutSegV {
    CutSegV {
        kind,
        job_id,
        label,
        in_s: zero_v(),
        out_s: zero_v(),
        gain_ix: 2,
        speed_ix: 1,
        dur_ix: 1,
        zoom_ix: 1,
        color_ix: 1,
        caption: Seq::empty(),
    }
}

fn segment(kind: CutKind, job_id: &str, label: &str) -> (r: CutSeg)
    ensures
        r@ == seg_v(kind, job_id@, label@),
{
    CutSeg {
        kind,
        job_id: copy(job_id),
        label: copy(label),
        in_s: Single::zero(),
        out_s: Single::zero(),
        gain_ix: 2,
        speed_ix: 1,
        dur_ix: 1,
        zoom_ix: 1,
        color_ix: 1,
        caption: String::new(),
    }
}

impl CutSeg {
    /// The whole of a video.
    pub fn clip(job_id: &str, label: &str) -> (r: CutSeg)
        ensures
            r@ == seg_v(CutKind::Clip, job_id@, label@),
    {
        segment(CutKind::Clip, job_id, label)
    }

    /// A picture.
    pub fn still(job_id: &str, label: &str) -> (r: CutSeg)
        ensures
            r@ == seg_v(CutKind::Still, job_id@, label@),
    {
        segment(CutKind::Still, job_id, label)
    }

    /// A card of one colour.
    pub fn card() -> (r: CutSeg)
        ensures
            r@ == seg_v(CutKind::Card, ""@, "card"@),
    {
        segment(CutKind::Card, "", "card")
    }
}

// ── Tables ──────────────────────────────────────────────────────────────────

/// The gain of a segment, in thousandths of a decibel.
pub open spec fn gain_milli(ix: int) -> int {
    if ix <= 0 {
        -12000
    } else if ix == 1 {
        -6000
    } else {
        0
    }
}

/// The gain of a segment in words.
pub open spec fn gain_words(ix: int) -> Seq<char> {
    if ix <= 0 {
        "-12"@
    } else if ix == 1 {
        "-6"@
    } else {
        "0"@
    }
}

/// The speed of a segment, in thousandths.
pub open spec fn speed_milli(ix: int) -> int {
    if ix <= 0 {
        500
    } else if ix == 1 {
        1000
    } else if ix == 2 {
        1500
    } else {
        2000
    }
}

/// The speed of a segment in words.
pub open spec fn speed_words(ix: int) -> Seq<char> {
    if ix <= 0 {
        "0.5"@
    } else if ix == 1 {
        "1"@
    } else if ix == 2 {
        "1.5"@
    } else {
        "2"@
    }
}

/// How long a still or a card stays, in seconds.
pub open spec fn dur_secs(ix: int) -> int {
    if ix <= 0 {
        2
    } else if ix == 1 {
        3
    } else if ix == 2 {
        4
    } else {
        6
    }
}

/// How far a still is zoomed into, in thousandths.
pub open spec fn zoom_milli(ix: int) -> int {
    if ix <= 0 {
        1000
    } else if ix == 1 {
        1120
    } else {
        1250
    }
}

/// A still's zoom in words.
pub open spec fn zoom_words(ix: int) -> Seq<char> {
    if ix <= 0 {
        "static"@
    } else if ix == 1 {
        "push"@
    } else {
        "push+"@
    }
}

/// A card's colour.
pub open spec fn card_color(ix: int) -> Seq<char> {
    if ix <= 0 {
        "#000000"@
    } else if ix == 1 {
        "#101418"@
    } else if ix == 2 {
        "#B7410E"@
    } else {
        "#0E2A1C"@
    }
}

fn gain_of(ix: i32) -> (r: i32)
    ensures
        r == gain_milli(ix as int),
{
    if ix <= 0 {
        -12000
    } else if ix == 1 {
        -6000
    } else {
        0
    }
}

fn speed_of(ix: i32) -> (r: i32)
    ensures
        r == speed_milli(ix as int),
{
    if ix <= 0 {
        500
    } else if ix == 1 {
        1000
    } else if ix == 2 {
        1500
    } else {
        2000
    }
}

fn dur_of(ix: i32) -> (r: i32)
    ensures
        r == dur_secs(ix as int),
        2 <= r <= 6,
{
    if ix <= 0 {
        2
    } else if ix == 1 {
        3
    } else if ix == 2 {
        4
    } else {
        6
    }
}

fn zoom_of(ix: i32) -> (r: i32)
    ensures
        r == zoom_milli(ix as int),
{
    if ix <= 0 {
        1000
    } else if ix == 1 {
        1120
    } else {
        1250
    }
}

fn gain_text(ix: i32) -> (r: &'static str)
    ensures
        r@ == gain_words(ix as int),
{
    if ix <= 0 {
        "-12"
    } else if ix == 1 {
        "-6"
    } else {
        "0"
    }
}

fn speed_text(ix: i32) -> (r: &'static str)
    ensures
        r@ == speed_words(ix as int),
{
    if ix <= 0 {
        "0.5"
    } else if ix == 1 {
        "1"
    } else if ix == 2 {
        "1.5"
    } else {
        "2"
    }
}

fn zoom_text(ix: i32) -> (r: &'static str)
    ensures
        r@ == zoom_words(ix as int),
{
    if ix <= 0 {
        "static"
    } else if ix == 1 {
        "push"
    } else {
        "push+"
    }
}

fn color_text(ix: i32) -> (r: &'static str)
    ensures
        r@ == card_color(ix as int),
{
    if ix <= 0 {
        "#000000"
    } else if ix == 1 {
        "#101418"
    } else if ix == 2 {
        "#B7410E"
    } else {
        "#0E2A1C"
    }
}

// ── What a row says ─────────────────────────────────────────────────────────

/// The part of a clip that is shown.
pub open spec fn window_v(s: CutSegV) -> Seq<char> {
    if less_v(s.in_s, s.out_s) {
        one_decimal(s.in_s) + "–"@ + one_decimal(s.out_s) + "s"@
    } else if less_v(zero_v(), s.in_s) {
        one_decimal(s.in_s) + "s→end"@
    } else {
        "full"@
    }
}

pub open spec fn speed_note(s: CutSegV) -> Seq<char> {
    if s.speed_ix != 1 {
        " · "@ + speed_words(s.speed_ix as int) + "×"@
    } else {
        Seq::empty()
    }
}

pub open spec fn gain_note(s: CutSegV) -> Seq<char> {
    if s.gain_ix != 2 {
        " · "@ + gain_words(s.gain_ix as int) + "dB"@
    } else {
        Seq::empty()
    }
}

/// A segment's summary: its window, speed and gain; its length and zoom; or its length.
pub open spec fn detail_v(s: CutSegV) -> Seq<char> {
    match s.kind {
        CutKind::Clip => window_v(s) + speed_note(s) + gain_note(s),
        CutKind::Still => dec(dur_secs(s.dur_ix as int) as nat) + "s · "@ + zoom_words(
            s.zoom_ix as int,
        ),
        CutKind::Card => dec(dur_secs(s.dur_ix as int) as nat) + "s card"@,
    }
}

fn window_text(s: &CutSeg) -> (r: String)
    ensures
        r@ == window_v(s@),
{
    if s.in_s.less(s.out_s) {
        let mut out = s.in_s.tenths();
        out.append("–");
        out.append(s.out_s.tenths().as_str());
        out.append("s");
        out
    } else if Single::zero().less(s.in_s) {
        cat(s.in_s.tenths().as_str(), "s→end")
    } else {
        copy("full")
    }
}

/// A segment's summary.
pub fn cut_detail(s: &CutSeg) -> (r: String)
    ensures
        r@ == detail_v(s@),
{
    match s.kind {
        CutKind::Clip => {
            let mut out = window_text(s);
            let speed = if s.speed_ix != 1 {
                cat3(" · ", speed_text(s.speed_ix), "×")
            } else {
                String::new()
            };
            let gain = if s.gain_ix != 2 {
                cat3(" · ", gain_text(s.gain_ix), "dB")
            } else {
                String::new()
            };
            out.append(speed.as_str());
            out.append(gain.as_str());
            out
        },
        CutKind::Still => {
            let mut out = decimal(dur_of(s.dur_ix) as u128);
            out.append("s · ");
            out.append(zoom_text(s.zoom_ix));
            out
        },
        CutKind::Card => cat(decimal(dur_of(s.dur_ix) as u128).as_str(), "s card"),
    }
}

/// Whether a segment is a clip that runs to its own end.
pub open spec fn runs_on(s: CutSegV) -> bool {
    s.kind == CutKind::Clip && !less_v(s.in_s, s.out_s)
}

/// The speed of a segment.
pub open spec fn speed_v(ix: int) -> FloatV {
    let halves: nat = if ix <= 0 {
        1
    } else if ix == 1 {
        2
    } else if ix == 2 {
        3
    } else {
        4
    };
    FloatV::Fin { neg: false, units: halves * pow2(1073) }
}

/// How long a segment is that does not run on.
pub open spec fn length_v(s: CutSegV) -> FloatV {
    if s.kind == CutKind::Clip {
        over_v(
            minus_v(s.out_s, s.in_s, Width::Single),
            speed_v(s.speed_ix as int),
            Width::Double,
        )
    } else {
        FloatV::Fin { neg: false, units: dur_secs(s.dur_ix as int) as nat * one() }
    }
}

/// How long the first `n` segments are, as far as it is known.
pub open spec fn known_v(s: Seq<CutSegV>, n: int) -> FloatV
    decreases n,
{
    if n <= 0 {
        zero_v()
    } else if runs_on(s[n - 1]) {
        known_v(s, n - 1)
    } else {
        plus_v(known_v(s, n - 1), length_v(s[n - 1]), Width::Double)
    }
}

/// Whether one of the first `n` segments is a clip that runs to its own end.
pub open spec fn open_ended(s: Seq<CutSegV>, n: int) -> bool
    decreases n,
{
    if n <= 0 {
        false
    } else {
        open_ended(s, n - 1) || runs_on(s[n - 1])
    }
}

/// The timeline's summary: how many segments, how many seconds as far as they are known,
/// and whether there is music.
pub open spec fn total_v(s: Seq<CutSegV>, music: bool) -> Seq<char> {
    let n = s.len() as int;
    if n == 0 {
        Seq::empty()
    } else {
        dec(s.len()) + " segment"@ + plural_v(s.len()) + " · ~"@ + no_decimal(known_v(s, n)) + "s"@
            + (if open_ended(s, n) {
            "+?"@
        } else {
            ""@
        }) + (if music {
            " · 🎵"@
        } else {
            ""@
        })
    }
}

fn speed_as_number(ix: i32) -> (r: Float)
    ensures
        r@ == speed_v(ix as int),
        fits(r, Width::Single),
        r matches Float::Fin { man, .. } ==> man <= 1024,
{
    let halves: u64 = if ix <= 0 {
        1
    } else if ix == 1 {
        2
    } else if ix == 2 {
        3
    } else {
        4
    };
    proof {
        small_number(halves, 1073);
    }
    Float::Fin { neg: false, man: halves, exp: 1073 }
}

proof fn small_number(man: u64, exp: u32)
    requires
        man <= 16,
        925 <= exp <= 1100,
    ensures
        fits(Float::Fin { neg: false, man, exp }, Width::Single),
{
    room_enough();
    lemma2_to64();
    lemma_pow2_adds(5, exp as nat);
    lemma_pow2_pos(exp as nat);
    powers_grow(5 + exp as nat, 1202);
    assert(man * pow2(exp as nat) < pow2(5) * pow2(exp as nat)) by (nonlinear_arith)
        requires
            man < pow2(5),
            pow2(exp as nat) > 0,
    ;
}

fn length_of(s: &CutSeg) -> (r: Float)
    ensures
        r@ == length_v(s@),
        fits(r, Width::Double),
{
    match s.kind {
        CutKind::Clip => {
            let span = s.out_s.minus(s.in_s);
            span.open().over(speed_as_number(s.speed_ix), Width::Double)
        },
        _ => {
            let secs: u64 = dur_of(s.dur_ix) as u64;
            let r = Float::Fin { neg: false, man: secs, exp: 1074 };
            proof {
                small_number(secs, 1074);
                singles_are_doubles(r);
            }
            r
        },
    }
}

fn is_running_on(s: &CutSeg) -> (r: bool)
    ensures
        r == runs_on(s@),
{
    match s.kind {
        CutKind::Clip => !s.in_s.less(s.out_s),
        _ => false,
    }
}

/// The timeline's summary.
pub fn cut_total_label(segs: &Vec<CutSeg>, music: bool) -> (r: String)
    ensures
        r@ == total_v(views(segs@), music),
{
    let ghost all = views(segs@);
    if segs.len() == 0 {
        return String::new();
    }
    let mut known = Single::zero().open();
    proof {
        singles_are_doubles(known);
    }
    let mut open = false;
    for i in 0..segs.len()
        invariant
            all == views(segs@),
            known@ == known_v(all, i as int),
            fits(known, Width::Double),
            open == open_ended(all, i as int),
    {
        assert(all[i as int] == segs@[i as int]@);
        if is_running_on(&segs[i]) {
            open = true;
        } else {
            known = known.plus(length_of(&segs[i]), Width::Double);
        }
    }
    let mut out = dec_len(segs.len());
    out.append(" segment");
    out.append(plural(segs.len()));
    out.append(" · ~");
    out.append(known.rounded_text().as_str());
    out.append("s");
    out.append(
        if open {
            "+?"
        } else {
            ""
        },
    );
    out.append(
        if music {
            " · 🎵"
        } else {
            ""
        },
    );
    out
}

// ── The request ─────────────────────────────────────────────────────────────

/// A segment's caption, over its whole length; a card's is large.
pub open spec fn captions_v(s: CutSegV) -> JsonV {
    JsonV::Arr(
        seq![
            JsonV::Obj(
                seq![
                    ("text"@, JsonV::Str(s.caption)),
                    ("start_s"@, milli_json(0)),
                    ("end_s"@, milli_json(600000)),
                    (
                        "fontsize"@,
                        uint_json(
                            if s.kind == CutKind::Card {
                                44
                            } else {
                                0
                            },
                        ),
                    ),
                ],
            ),
        ],
    )
}

/// A time in the request; one that is beyond all bounds is none.
pub open spec fn seconds_v(t: FloatV) -> JsonV {
    match t {
        FloatV::Fin { neg, units } => double(full_text(neg, units)),
        _ => JsonV::Null,
    }
}

fn seconds_json(t: Single) -> (r: Json)
    ensures
        r@ == seconds_v(t@),
{
    match t.in_full() {
        Some(text) => double_json(text.as_str()),
        None => Json::Null,
    }
}

/// A clip without its caption.
pub open spec fn clip_body_v(s: CutSegV) -> Seq<(Seq<char>, JsonV)> {
    let e = seq![
        ("job_id"@, JsonV::Str(s.job_id)),
        ("in_s"@, seconds_v(s.in_s)),
        ("out_s"@, seconds_v(s.out_s)),
        ("gain_db"@, milli_json(gain_milli(s.gain_ix as int))),
    ];
    if speed_milli(s.speed_ix as int) != 1000 {
        e.push(("speed"@, milli_json(speed_milli(s.speed_ix as int))))
    } else {
        e
    }
}

/// A still without its caption.
pub open spec fn still_body_v(s: CutSegV) -> Seq<(Seq<char>, JsonV)> {
    let e = seq![
        ("kind"@, JsonV::Str("still"@)),
        ("job_id"@, JsonV::Str(s.job_id)),
        ("dur_s"@, milli_json(dur_secs(s.dur_ix as int) * 1000)),
    ];
    if zoom_milli(s.zoom_ix as int) > 1000 {
        e.push(("zoom_to"@, milli_json(zoom_milli(s.zoom_ix as int))))
    } else {
        e
    }
}

/// A card without its caption.
pub open spec fn card_body_v(s: CutSegV) -> Seq<(Seq<char>, JsonV)> {
    seq![
        ("kind"@, JsonV::Str("card"@)),
        ("dur_s"@, milli_json(dur_secs(s.dur_ix as int) * 1000)),
        ("card_color"@, JsonV::Str(card_color(s.color_ix as int))),
    ]
}

/// A segment without its caption.
pub open spec fn body_v(s: CutSegV) -> Seq<(Seq<char>, JsonV)> {
    match s.kind {
        CutKind::Clip => clip_body_v(s),
        CutKind::Still => still_body_v(s),
        CutKind::Card => card_body_v(s),
    }
}

/// A segment of the request.
pub open spec fn clip_v(s: CutSegV) -> JsonV {
    if s.caption.len() == 0 {
        JsonV::Obj(body_v(s))
    } else {
        JsonV::Obj(body_v(s).push(("captions"@, captions_v(s))))
    }
}

/// The style of the whole: bars above and below, and a steady loudness.
pub open spec fn style_v(letterbox_ix: i32, loudnorm: bool) -> Seq<(Seq<char>, JsonV)> {
    let bars = if letterbox_ix == 1 {
        seq![("letterbox_frac"@, milli_json(120))]
    } else if letterbox_ix == 2 {
        seq![("letterbox_frac"@, milli_json(120)), ("letterbox_reveal_s"@, milli_json(1500))]
    } else {
        Seq::empty()
    };
    if loudnorm {
        bars.push(("loudnorm"@, JsonV::Bool(true)))
    } else {
        bars
    }
}

/// The fades of the whole.
pub open spec fn fades_v(fades_ix: i32) -> Seq<(Seq<char>, JsonV)> {
    if fades_ix == 1 {
        seq![
            ("video_fade_in_s"@, milli_json(300)),
            ("video_fade_out_s"@, milli_json(300)),
            ("audio_fade_in_s"@, milli_json(300)),
            ("audio_fade_out_s"@, milli_json(500)),
        ]
    } else if fades_ix == 2 {
        seq![
            ("video_fade_in_s"@, milli_json(750)),
            ("video_fade_out_s"@, milli_json(750)),
            ("audio_fade_in_s"@, milli_json(500)),
            ("audio_fade_out_s"@, milli_json(1000)),
        ]
    } else {
        Seq::empty()
    }
}

/// The music below the whole.
pub open spec fn music_v(id: Seq<char>) -> JsonV {
    JsonV::Obj(
        seq![
            ("job_id"@, JsonV::Str(id)),
            ("gain_db"@, milli_json(-8000)),
            ("fade_in_s"@, milli_json(300)),
            ("fade_out_s"@, milli_json(800)),
        ],
    )
}

/// The request to render a timeline.
pub open spec fn timeline_v(
    segs: Seq<CutSegV>,
    music: Option<Seq<char>>,
    letterbox_ix: i32,
    loudnorm: bool,
    fades_ix: i32,
) -> JsonV {
    let style = style_v(letterbox_ix, loudnorm);
    JsonV::Obj(
        seq![
            ("version"@, uint_json(1)),
            ("clips"@, JsonV::Arr(segs.map_values(|s: CutSegV| clip_v(s)))),
            (
                "note"@,
                JsonV::Str("cutting room · "@ + dec(segs.len()) + " segments"@),
            ),
        ] + (if style.len() == 0 {
            Seq::empty()
        } else {
            seq![("style"@, JsonV::Obj(style))]
        }) + fades_v(fades_ix) + (match music {
            Some(id) => seq![("music"@, music_v(id))],
            None => Seq::empty(),
        }),
    )
}

fn captions(s: &CutSeg) -> (r: Json)
    ensures
        r@ == captions_v(s@),
{
    let size: u64 = match s.kind {
        CutKind::Card => 44,
        _ => 0,
    };
    let mut e: Vec<(String, Json)> = Vec::new();
    put(&mut e, "text", Json::str(s.caption.as_str()));
    put(&mut e, "start_s", Json::milli(0));
    put(&mut e, "end_s", Json::milli(600000));
    put(&mut e, "fontsize", Json::uint(size));
    let mut list: Vec<Json> = Vec::new();
    assert(entries(e@) =~= captions_v(s@)->Arr_0[0]->Obj_0);
    list.push(Json::object(e));
    assert(views(list@) =~= captions_v(s@)->Arr_0);
    Json::list(list)
}

fn clip_body(s: &CutSeg) -> (r: Vec<(String, Json)>)
    ensures
        entries(r@) == clip_body_v(s@),
{
    let mut e: Vec<(String, Json)> = Vec::new();
    put(&mut e, "job_id", Json::str(s.job_id.as_str()));
    put(&mut e, "in_s", seconds_json(s.in_s));
    put(&mut e, "out_s", seconds_json(s.out_s));
    put(&mut e, "gain_db", Json::milli(gain_of(s.gain_ix)));
    let speed: i32 = speed_of(s.speed_ix);
    if speed != 1000 {
        put(&mut e, "speed", Json::milli(speed));
    }
    assert(entries(e@) =~= clip_body_v(s@));
    e
}

fn still_body(s: &CutSeg) -> (r: Vec<(String, Json)>)
    ensures
        entries(r@) == still_body_v(s@),
{
    let mut e: Vec<(String, Json)> = Vec::new();
    put(&mut e, "kind", Json::str("still"));
    put(&mut e, "job_id", Json::str(s.job_id.as_str()));
    put(&mut e, "dur_s", Json::milli(dur_of(s.dur_ix) * 1000));
    let zoom: i32 = zoom_of(s.zoom_ix);
    if zoom > 1000 {
        put(&mut e, "zoom_to", Json::milli(zoom));
    }
    assert(entries(e@) =~= still_body_v(s@));
    e
}

fn card_body(s: &CutSeg) -> (r: Vec<(String, Json)>)
    ensures
        entries(r@) == card_body_v(s@),
{
    let mut e: Vec<(String, Json)> = Vec::new();
    put(&mut e, "kind", Json::str("card"));
    put(&mut e, "dur_s", Json::milli(dur_of(s.dur_ix) * 1000));
    put(&mut e, "card_color", Json::str(color_text(s.color_ix)));
    assert(entries(e@) =~= card_body_v(s@));
    e
}

fn body_of(s: &CutSeg) -> (r: Vec<(String, Json)>)
    ensures
        entries(r@) == body_v(s@),
{
    match s.kind {
        CutKind::Clip => clip_body(s),
        CutKind::Still => still_body(s),
        CutKind::Card => card_body(s),
    }
}

fn clip_json(s: &CutSeg) -> (r: Json)
    ensures
        r@ == clip_v(s@),
{
    let mut e = body_of(s);
    if !s.caption.as_str().is_empty() {
        put(&mut e, "captions", captions(s));
    }
    Json::object(e)
}

fn style_of(letterbox_ix: i32, loudnorm: bool) -> (r: Vec<(String, Json)>)
    ensures
        entries(r@) == style_v(letterbox_ix, loudnorm),
{
    let mut e: Vec<(String, Json)> = Vec::new();
    if letterbox_ix == 1 || letterbox_ix == 2 {
        put(&mut e, "letterbox_frac", Json::milli(120));
        if letterbox_ix == 2 {
            put(&mut e, "letterbox_reveal_s", Json::milli(1500));
        }
    }
    if loudnorm {
        put(&mut e, "loudnorm", Json::Bool(true));
    }
    assert(entries(e@) =~= style_v(letterbox_ix, loudnorm));
    e
}

fn put_fades(e: &mut Vec<(String, Json)>, fades_ix: i32)
    ensures
        entries(final(e)@) == entries(old(e)@) + fades_v(fades_ix),
{
    if fades_ix == 1 {
        put(e, "video_fade_in_s", Json::milli(300));
        put(e, "video_fade_out_s", Json::milli(300));
        put(e, "audio_fade_in_s", Json::milli(300));
        put(e, "audio_fade_out_s", Json::milli(500));
    } else if fades_ix == 2 {
        put(e, "video_fade_in_s", Json::milli(750));
        put(e, "video_fade_out_s", Json::milli(750));
        put(e, "audio_fade_in_s", Json::milli(500));
        put(e, "audio_fade_out_s", Json::milli(1000));
    }
    assert(entries(e@) =~= entries(old(e)@) + fades_v(fades_ix));
}

fn music_json(id: &str) -> (r: Json)
    ensures
        r@ == music_v(id@),
{
    let mut e: Vec<(String, Json)> = Vec::new();
    put(&mut e, "job_id", Json::str(id));
    put(&mut e, "gain_db", Json::milli(-8000));
    put(&mut e, "fade_in_s", Json::milli(300));
    put(&mut e, "fade_out_s", Json::milli(800));
    assert(entries(e@) =~= music_v(id@)->Obj_0);
    Json::object(e)
}

fn clips_json(segs: &Vec<CutSeg>) -> (r: Json)
    ensures
        r@ == JsonV::Arr(views(segs@).map_values(|s: CutSegV| clip_v(s))),
{
    let ghost want = views(segs@).map_values(|s: CutSegV| clip_v(s));
    let mut out: Vec<Json> = Vec::new();
    for i in 0..segs.len()
        invariant
            want == views(segs@).map_values(|s: CutSegV| clip_v(s)),
            views(out@) == want.take(i as int),
    {
        assert(want[i as int] == clip_v(segs@[i as int]@));
        out.push(clip_json(&segs[i]));
        assert(want.take(i as int).push(want[i as int]) =~= want.take(i as int + 1));
    }
    assert(want.take(want.len() as int) =~= want);
    Json::list(out)
}

/// Builds the request to render a timeline.
pub fn cut_build_timeline(
    segs: &Vec<CutSeg>,
    music: Option<&str>,
    letterbox_ix: i32,
    loudnorm: bool,
    fades_ix: i32,
) -> (r: Json)
    ensures
        r@ == timeline_v(
            views(segs@),
            match music {
                Some(id) => Some(id@),
                None => None,
            },
            letterbox_ix,
            loudnorm,
            fades_ix,
        ),
{
    let mut e: Vec<(String, Json)> = Vec::new();
    put(&mut e, "version", Json::uint(1));
    put(&mut e, "clips", clips_json(segs));
    put(
        &mut e,
        "note",
        Json::Str(cat3("cutting room · ", dec_len(segs.len()).as_str(), " segments")),
    );
    let style = style_of(letterbox_ix, loudnorm);
    assert(style@.len() == entries(style@).len());
    if !style.is_empty() {
        put(&mut e, "style", Json::object(style));
    }
    put_fades(&mut e, fades_ix);
    match music {
        Some(id) => {
            put(&mut e, "music", music_json(id));
        },
        None => {},
    }
    let ghost want = timeline_v(
        views(segs@),
        match music {
            Some(id) => Some(id@),
            None => None,
        },
        letterbox_ix,
        loudnorm,
        fades_ix,
    );
    assert(entries(e@) =~= want->Obj_0);
    Json::object(e)
}

// ── Editing ─────────────────────────────────────────────────────────────────

/// A segment after one word of the editor. The value comes as text and as the number that
/// it is, zero where it is none. A word that the editor does not know changes nothing.
pub open spec fn applied(s: CutSegV, field: Seq<char>, value: Seq<char>, num: FloatV) -> CutSegV {
    if field == "in"@ {
        CutSegV { in_s: larger_v(plus_v(s.in_s, num, Width::Single), zero_v()), ..s }
    } else if field == "out"@ {
        let base = if less_v(zero_v(), s.out_s) {
            s.out_s
        } else {
            s.in_s
        };
        let next = plus_v(base, num, Width::Single);
        CutSegV {
            out_s: if less_v(s.in_s, next) {
                next
            } else {
                zero_v()
            },
            ..s
        }
    } else if field == "gain"@ {
        CutSegV { gain_ix: whole_v(num), ..s }
    } else if field == "speed"@ {
        CutSegV { speed_ix: whole_v(num), ..s }
    } else if field == "dur"@ {
        CutSegV { dur_ix: whole_v(num), ..s }
    } else if field == "zoom"@ {
        CutSegV { zoom_ix: whole_v(num), ..s }
    } else if field == "color"@ {
        CutSegV { color_ix: whole_v(num), ..s }
    } else if field == "caption"@ {
        CutSegV { caption: head(trimmed(value), 120), ..s }
    } else if field == "caption-clear"@ {
        CutSegV { caption: Seq::empty(), ..s }
    } else {
        s
    }
}

/// Applies one word of the editor to a segment.
pub fn cut_apply(seg: &mut CutSeg, field: &str, value: &str, num: Single)
    ensures
        final(seg)@ == applied(old(seg)@, field@, value@, num@),
{
    if same(field, "in") {
        seg.in_s = seg.in_s.plus(num).larger(Single::zero());
    } else if same(field, "out") {
        let base = if Single::zero().less(seg.out_s) {
            seg.out_s
        } else {
            seg.in_s
        };
        let next = base.plus(num);
        seg.out_s = if seg.in_s.less(next) {
            next
        } else {
            Single::zero()
        };
    } else if same(field, "gain") {
        seg.gain_ix = num.whole();
    } else if same(field, "speed") {
        seg.speed_ix = num.whole();
    } else if same(field, "dur") {
        seg.dur_ix = num.whole();
    } else if same(field, "zoom") {
        seg.zoom_ix = num.whole();
    } else if same(field, "color") {
        seg.color_ix = num.whole();
    } else if same(field, "caption") {
        seg.caption = copy(take_chars(trim(value), 120));
    } else if same(field, "caption-clear") {
        seg.caption = String::new();
    }
}

// ── The room ────────────────────────────────────────────────────────────────

/// The cutting room: the segments, the music bed with its label, and which segment is
/// being edited; -1 where none is.
#[derive(Debug)]
pub struct CutRoom {
    pub segs: Vec<CutSeg>,
    pub music: Option<(String, String)>,
    pub selected: i32,
    /// The tracks that were brought in, each with its number in the library.
    pub imported: Vec<(String, String)>,
}

/// The model of a [`CutRoom`].
pub struct CutRoomV {
    pub segs: Seq<CutSegV>,
    pub music: Option<(Seq<char>, Seq<char>)>,
    pub selected: i32,
    pub imported: Seq<(Seq<char>, Seq<char>)>,
}

/// The views of pairs of texts.
pub open spec fn pairs(v: Seq<(String, String)>) -> Seq<(Seq<char>, Seq<char>)> {
    Seq::new(v.len(), |i: int| (v[i].0@, v[i].1@))
}

impl View for CutRoom {
    type V = CutRoomV;

    open spec fn view(&self) -> CutRoomV {
        CutRoomV {
            segs: views(self.segs@),
            music: match self.music {
                Some(m) => Some((m.0@, m.1@)),
                None => None,
            },
            selected: self.selected,
            imported: pairs(self.imported@),
        }
    }
}

/// `std`'s debug form of a text: in quotation marks, with escapes.
pub uninterp spec fn debugged(s: Seq<char>) -> Seq<char>;

/// Writes a text in `std`'s debug form, which depends on the text alone.
#[verifier::external_body]
fn debug_text(s: &str) -> (r: String)
    ensures
        r@ == debugged(s@),
{
    format!("{s:?}")
}

/// The kind of a job's first asset.
pub open spec fn asset_kind(job: JsonV) -> Seq<char> {
    let a = items_or_none(job, "assets"@);
    if a.len() == 0 {
        ""@
    } else {
        str_v(a[0], "kind"@)
    }
}

/// A job's label: the start of its prompt.
pub open spec fn job_label(job: JsonV) -> Seq<char> {
    let p = str_v(job, "prompt"@);
    head(
        if p.len() == 0 {
            "untitled"@
        } else {
            p
        },
        26,
    )
}

/// A number as it is kept for the selection.
pub open spec fn narrowed(n: int) -> i32 {
    if n > i32::MAX {
        i32::MAX
    } else {
        n as i32
    }
}

pub open spec fn with_seg(r: CutRoomV, s: CutSegV) -> CutRoomV {
    CutRoomV { segs: r.segs.push(s), selected: narrowed(r.segs.len() as int), ..r }
}

/// The room after a job was to join the cut: a video as a clip, a picture as a still, a
/// sound as the music bed.
pub open spec fn added(r: CutRoomV, id: Seq<char>, job: JsonV) -> CutRoomV {
    let kind = asset_kind(job);
    if str_v(job, "status"@) != "done"@ {
        r
    } else if kind == "video"@ {
        with_seg(r, seg_v(CutKind::Clip, id, job_label(job)))
    } else if kind == "image"@ {
        with_seg(r, seg_v(CutKind::Still, id, job_label(job)))
    } else if kind == "audio"@ {
        CutRoomV { music: Some((id, job_label(job))), ..r }
    } else {
        r
    }
}

/// What the room says about it.
pub open spec fn added_note(job: JsonV) -> Seq<char> {
    let kind = asset_kind(job);
    if str_v(job, "status"@) != "done"@ {
        "only finished jobs can join the cut"@
    } else if kind == "video"@ {
        "🎞 added: "@ + job_label(job)
    } else if kind == "image"@ {
        "🖼 added as still: "@ + job_label(job)
    } else if kind == "audio"@ {
        "🎵 music bed set: "@ + job_label(job)
    } else {
        "can't cut this job (asset kind "@ + debugged(kind) + ")"@
    }
}

/// The room without a segment.
pub open spec fn removed(r: CutRoomV, ix: i32) -> CutRoomV {
    let segs = if 0 <= ix < r.segs.len() {
        r.segs.remove(ix as int)
    } else {
        r.segs
    };
    CutRoomV {
        segs,
        selected: if r.selected >= segs.len() {
            narrowed(segs.len() - 1)
        } else {
            r.selected
        },
        ..r
    }
}

/// Whether a segment can be moved by so many places.
pub open spec fn can_move(r: CutRoomV, ix: i32, delta: i32) -> bool {
    0 <= ix < r.segs.len() && 0 <= ix + delta < r.segs.len()
}

/// The room with a segment and another changing places. The selection goes along.
pub open spec fn swapped(r: CutRoomV, ix: i32, delta: i32) -> CutRoomV {
    if can_move(r, ix, delta) {
        let to = ix + delta;
        CutRoomV {
            segs: r.segs.update(ix as int, r.segs[to]).update(to, r.segs[ix as int]),
            selected: if r.selected == ix {
                narrowed(to)
            } else {
                r.selected
            },
            ..r
        }
    } else {
        r
    }
}

/// The room after a word of the editor.
pub open spec fn edited(
    r: CutRoomV,
    field: Seq<char>,
    value: Seq<char>,
    num: FloatV,
) -> CutRoomV {
    if 0 <= r.selected < r.segs.len() {
        let i = r.selected as int;
        CutRoomV {
            segs: r.segs.update(i, applied(r.segs[i], field, value, num)),
            ..r
        }
    } else {
        r
    }
}

fn selection(n: usize) -> (r: i32)
    ensures
        r == narrowed(n as int),
{
    if n > i32::MAX as usize {
        i32::MAX
    } else {
        n as i32
    }
}

fn first_kind(job: &Json) -> (r: String)
    ensures
        r@ == asset_kind(job@),
{
    let a = job.items_at("assets");
    assert(a@.len() == views(a@).len());
    if a.len() == 0 {
        copy("")
    } else {
        assert(views(a@)[0] == a@[0]@);
        json_str(&a[0], "kind")
    }
}

fn label_of(job: &Json) -> (r: String)
    ensures
        r@ == job_label(job@),
{
    let p = json_str(job, "prompt");
    if p.as_str().is_empty() {
        copy(take_chars("untitled", 26))
    } else {
        copy(take_chars(p.as_str(), 26))
    }
}

fn swap_segs(segs: &mut Vec<CutSeg>, a: usize, b: usize)
    requires
        a < old(segs)@.len(),
        b < old(segs)@.len(),
    ensures
        ({
            let before = views(old(segs)@);
            views(final(segs)@) == before.update(a as int, before[b as int]).update(
                b as int,
                before[a as int],
            )
        }),
{
    let ghost before = views(segs@);
    let lo: usize = if a < b {
        a
    } else {
        b
    };
    let hi: usize = if a < b {
        b
    } else {
        a
    };
    if lo < hi {
        let y = segs.remove(hi);
        let x = segs.remove(lo);
        segs.insert(lo, y);
        segs.insert(hi, x);
    }
    assert(views(segs@) =~= before.update(a as int, before[b as int]).update(
        b as int,
        before[a as int],
    ));
}

impl CutRoom {
    /// An empty room.
    pub fn new() -> (r: CutRoom)
        ensures
            r@.segs.len() == 0,
            r@.music is None,
            r@.selected == -1,
            r@.imported.len() == 0,
    {
        CutRoom { segs: Vec::new(), music: None, selected: -1, imported: Vec::new() }
    }

    fn push(&mut self, s: CutSeg)
        ensures
            final(self)@ == with_seg(old(self)@, s@),
    {
        let n: i32 = selection(self.segs.len());
        self.segs.push(s);
        self.selected = n;
    }

    /// A job joins the cut; says what became of it.
    pub fn add(&mut self, id: &str, job: &Json) -> (note: String)
        ensures
            final(self)@ == added(old(self)@, id@, job@),
            note@ == added_note(job@),
    {
        if !same(json_str(job, "status").as_str(), "done") {
            return copy("only finished jobs can join the cut");
        }
        let kind = first_kind(job);
        let label = label_of(job);
        if same(kind.as_str(), "video") {
            self.push(CutSeg::clip(id, label.as_str()));
            cat("🎞 added: ", label.as_str())
        } else if same(kind.as_str(), "image") {
            self.push(CutSeg::still(id, label.as_str()));
            cat("🖼 added as still: ", label.as_str())
        } else if same(kind.as_str(), "audio") {
            let note = cat("🎵 music bed set: ", label.as_str());
            self.music = Some((copy(id), label));
            note
        } else {
            cat3("can't cut this job (asset kind ", debug_text(kind.as_str()).as_str(), ")")
        }
    }

    /// A card joins the cut.
    pub fn add_card(&mut self)
        ensures
            final(self)@ == with_seg(old(self)@, seg_v(CutKind::Card, ""@, "card"@)),
    {
        self.push(CutSeg::card());
    }

    /// A segment leaves the cut.
    pub fn remove(&mut self, ix: i32)
        ensures
            final(self)@ == removed(old(self)@, ix),
    {
        let ghost before = views(self.segs@);
        if ix >= 0 && (ix as usize) < self.segs.len() {
            self.segs.remove(ix as usize);
            assert(views(self.segs@) =~= before.remove(ix as int));
        }
        let n: usize = self.segs.len();
        if self.selected >= 0 && self.selected as usize >= n {
            self.selected = if n == 0 {
                -1
            } else {
                selection(n - 1)
            };
        }
    }

    /// A segment changes places; says whether it could.
    pub fn shift(&mut self, ix: i32, delta: i32) -> (done: bool)
        ensures
            final(self)@ == swapped(old(self)@, ix, delta),
            done == can_move(old(self)@, ix, delta),
    {
        let to: i64 = ix as i64 + delta as i64;
        let n: usize = self.segs.len();
        if !(ix >= 0 && (ix as usize) < n && to >= 0 && (to as u128) < n as u128) {
            return false;
        }
        let ghost before = views(self.segs@);
        let a: usize = ix as usize;
        let b: usize = to as usize;
        swap_segs(&mut self.segs, a, b);
        if self.selected == ix {
            self.selected = selection(b);
        }
        true
    }

    /// A word of the editor on the selected segment.
    pub fn set(&mut self, field: &str, value: &str, num: Single)
        ensures
            final(self)@ == edited(old(self)@, field@, value@, num@),
    {
        if self.selected >= 0 && (self.selected as usize) < self.segs.len() {
            let i: usize = self.selected as usize;
            let ghost before = views(self.segs@);
            cut_apply(&mut self.segs[i], field, value, num);
            assert(views(self.segs@) =~= before.update(
                i as int,
                applied(before[i as int], field@, value@, num@),
            ));
        }
    }

    /// The music bed goes.
    pub fn clear_music(&mut self)
        ensures
            final(self)@ == (CutRoomV { music: None, ..old(self)@ }),
    {
        self.music = None;
    }

    /// The timeline's summary.
    pub fn total(&self) -> (r: String)
        ensures
            r@ == total_v(self@.segs, self@.music is Some),
    {
        cut_total_label(&self.segs, self.music.is_some())
    }
}

// ── What the timeline shows ─────────────────────────────────────────────────

/// A row of the timeline.
#[derive(Debug, PartialEq)]
pub struct CutSegItem {
    pub kind: CutKind,
    pub id: String,
    pub label: String,
    pub detail: String,
    pub caption: String,
    /// Whether there is a poster for it.
    pub has_thumb: bool,
    pub in_s: Single,
    pub out_s: Single,
    pub gain_ix: i32,
    pub speed_ix: i32,
    pub dur_ix: i32,
    pub zoom_ix: i32,
    pub color_ix: i32,
}

/// The model of a [`CutSegItem`].
pub struct CutSegItemV {
    pub kind: CutKind,
    pub id: Seq<char>,
    pub label: Seq<char>,
    pub detail: Seq<char>,
    pub caption: Seq<char>,
    pub has_thumb: bool,
    pub in_s: FloatV,
    pub out_s: FloatV,
    pub gain_ix: i32,
    pub speed_ix: i32,
    pub dur_ix: i32,
    pub zoom_ix: i32,
    pub color_ix: i32,
}

impl View for CutSegItem {
    type V = CutSegItemV;

    open spec fn view(&self) -> CutSegItemV {
        CutSegItemV {
            kind: self.kind,
            id: self.id@,
            label: self.label@,
            detail: self.detail@,
            caption: self.caption@,
            has_thumb: self.has_thumb,
            in_s: self.in_s@,
            out_s: self.out_s@,
            gain_ix: self.gain_ix,
            speed_ix: self.speed_ix,
            dur_ix: self.dur_ix,
            zoom_ix: self.zoom_ix,
            color_ix: self.color_ix,
        }
    }
}

/// The row of a segment.
pub open spec fn seg_row_v(s: CutSegV, thumbs: Seq<(Seq<char>, ThumbState)>) -> CutSegItemV {
    CutSegItemV {
        kind: s.kind,
        id: s.job_id,
        label: s.label,
        detail: detail_v(s),
        caption: s.caption,
        has_thumb: s.job_id.len() > 0 && thumb_state(thumbs, s.job_id) == Some(ThumbState::Ready),
        in_s: s.in_s,
        out_s: s.out_s,
        gain_ix: s.gain_ix,
        speed_ix: s.speed_ix,
        dur_ix: s.dur_ix,
        zoom_ix: s.zoom_ix,
        color_ix: s.color_ix,
    }
}

/// The rows of a timeline.
pub open spec fn seg_rows_v(s: Seq<CutSegV>, thumbs: Seq<(Seq<char>, ThumbState)>) -> Seq<
    CutSegItemV,
> {
    Seq::new(s.len(), |i: int| seg_row_v(s[i], thumbs))
}

fn seg_row(s: &CutSeg, thumbs: &Thumbs) -> (r: CutSegItem)
    ensures
        r@ == seg_row_v(s@, thumbs@),
{
    let has_thumb = !s.job_id.as_str().is_empty() && match thumbs.state(s.job_id.as_str()) {
        Some(ThumbState::Ready) => true,
        _ => false,
    };
    CutSegItem {
        kind: s.kind,
        id: copy(s.job_id.as_str()),
        label: copy(s.label.as_str()),
        detail: cut_detail(s),
        caption: copy(s.caption.as_str()),
        has_thumb,
        in_s: s.in_s,
        out_s: s.out_s,
        gain_ix: s.gain_ix,
        speed_ix: s.speed_ix,
        dur_ix: s.dur_ix,
        zoom_ix: s.zoom_ix,
        color_ix: s.color_ix,
    }
}

/// What a submitted render comes to: the job to watch, or a note why there is none.
pub open spec fn render_v(job: JsonV) -> Result<Seq<char>, Seq<char>> {
    if str_v(job, "job_id"@).len() == 0 {
        Err("render submit gave no job id"@)
    } else {
        Ok(str_v(job, "job_id"@))
    }
}

/// What a submitted render comes to: the job to watch, or a note why there is none.
pub fn render_submitted(reply: Result<Json, String>) -> (r: Result<String, String>)
    ensures
        match (r, reply) {
            (Ok(id), Ok(job)) => render_v(job@) == Ok::<Seq<char>, Seq<char>>(id@),
            (Err(n), Ok(job)) => render_v(job@) == Err::<Seq<char>, Seq<char>>(n@),
            (Err(n), Err(e)) => n@ == "render failed: "@ + e@,
            (Ok(_), Err(_)) => false,
        },
{
    match reply {
        Ok(job) => {
            let id = json_str(&job, "job_id");
            if id.as_str().is_empty() {
                Err(copy("render submit gave no job id"))
            } else {
                Ok(id)
            }
        },
        Err(e) => Err(cat("render failed: ", e.as_str())),
    }
}

impl CutRoom {
    /// The rows of the timeline.
    pub fn rows(&self, thumbs: &Thumbs) -> (r: Vec<CutSegItem>)
        ensures
            views(r@) == seg_rows_v(self@.segs, thumbs@),
    {
        let ghost s = self@.segs;
        let mut out: Vec<CutSegItem> = Vec::new();
        assert(views(out@) =~= seg_rows_v(s, thumbs@).take(0));
        for i in 0..self.segs.len()
            invariant
                s == views(self.segs@),
                views(out@) == seg_rows_v(s, thumbs@).take(i as int),
        {
            assert(s[i as int] == self.segs@[i as int]@);
            out.push(seg_row(&self.segs[i], thumbs));
            assert(seg_rows_v(s, thumbs@).take(i as int).push(seg_rows_v(s, thumbs@)[i as int])
                =~= seg_rows_v(s, thumbs@).take(i as int + 1));
        }
        assert(seg_rows_v(s, thumbs@).take(s.len() as int) =~= seg_rows_v(s, thumbs@));
        out
    }

    /// The request to render the timeline; a note instead where that is empty.
    pub fn render(&self, letterbox_ix: i32, loudnorm: bool, fades_ix: i32) -> (r: Result<
        Json,
        String,
    >)
        ensures
            match r {
                Ok(body) => self@.segs.len() > 0 && body@ == timeline_v(
                    self@.segs,
                    match self@.music {
                        Some(m) => Some(m.0),
                        None => None,
                    },
                    letterbox_ix,
                    loudnorm,
                    fades_ix,
                ),
                Err(note) => self@.segs.len() == 0 && note@
                    == "the timeline is empty — add segments first"@,
            },
    {
        if self.segs.len() == 0 {
            return Err(copy("the timeline is empty — add segments first"));
        }
        assert(self@.segs.len() == self.segs@.len());
        let music = match &self.music {
            Some(m) => Some(m.0.as_str()),
            None => None,
        };
        Ok(cut_build_timeline(&self.segs, music, letterbox_ix, loudnorm, fades_ix))
    }
}

// ── Laws ────────────────────────────────────────────────────────────────────

/// Whether the editor knows a word.
pub open spec fn known_field(field: Seq<char>) -> bool {
    field == "in"@ || field == "out"@ || field == "gain"@ || field == "speed"@ || field == "dur"@
        || field == "zoom"@ || field == "color"@ || field == "caption"@ || field == "caption-clear"@
}

/// A word that the editor does not know changes nothing.
pub proof fn unknown_words_change_nothing(
    s: CutSegV,
    field: Seq<char>,
    value: Seq<char>,
    num: FloatV,
)
    requires
        !known_field(field),
    ensures
        applied(s, field, value, num) == s,
{
}

/// Wherever the end of a clip is moved, it lies behind the start, or the clip is open
/// again.
pub proof fn ends_lie_behind_starts(s: CutSegV, value: Seq<char>, num: FloatV)
    ensures
        ({
            let t = applied(s, "out"@, value, num);
            t.out_s == zero_v() || less_v(t.in_s, t.out_s)
        }),
        applied(s, "out"@, value, num).in_s == s.in_s,
{
    reveal_strlit("in");
    reveal_strlit("out");
    assert("in"@.len() != "out"@.len());
}

/// Wherever the start of a clip is moved, it does not lie before the clip's own.
pub proof fn starts_lie_behind_nothing(s: CutSegV, value: Seq<char>, num: FloatV)
    ensures
        !less_v(applied(s, "in"@, value, num).in_s, zero_v()),
        !(applied(s, "in"@, value, num).in_s is Nan),
        applied(s, "in"@, value, num).out_s == s.out_s,
{
}

/// A caption is never longer than a hundred and twenty characters, whatever is typed.
pub proof fn captions_stay_short(s: CutSegV, value: Seq<char>, num: FloatV)
    ensures
        applied(s, "caption"@, value, num).caption.len() <= 120,
{
    reveal_strlit("caption");
    reveal_strlit("in");
    reveal_strlit("out");
    reveal_strlit("gain");
    reveal_strlit("speed");
    reveal_strlit("dur");
    reveal_strlit("zoom");
    reveal_strlit("color");
    assert("caption"@.len() == 7 && "in"@.len() == 2 && "out"@.len() == 3 && "gain"@.len() == 4
        && "speed"@.len() == 5 && "dur"@.len() == 3 && "zoom"@.len() == 4 && "color"@.len() == 5);
}

/// No word of the editor changes what a segment is made of.
pub proof fn edits_keep_the_source(
    s: CutSegV,
    field: Seq<char>,
    value: Seq<char>,
    num: FloatV,
)
    ensures
        applied(s, field, value, num).kind == s.kind,
        applied(s, field, value, num).job_id == s.job_id,
        applied(s, field, value, num).label == s.label,
{
}

} // verus!
