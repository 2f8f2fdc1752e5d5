//! What the words of the cutting room do, and what its request says.
use vstd::prelude::*;
use vstd::arithmetic::power2::{lemma_pow2_unfold, pow2};
use crate::cut::{
    added, applied, captions_v, clip_v, edited, known_v, open_ended, removed, seconds_v, seg_rows_v,
    swapped, timeline_v, CutKind, CutRoomV, CutSegV,
};
use crate::decimals::whole_v;
use crate::floats::{
    exactly, less_v, minus_v, one, over_v, plus_v, zero_v, FloatV, Width,
};
use crate::json::{items_at, milli_json, text_at, text_or, uint_json, JsonV};
use crate::studio::{thumb_state, ThumbState};
use crate::text::{dec, trimmed};

verus! {

// ── The editor ──────────────────────────────────────────────────────────────

/// A word of the editor changes the selected segment and no other. The music, the
/// selection, and what was brought in stay; where nothing is selected, so does everything.
pub proof fn edits_change_the_selected_segment(
    r: CutRoomV,
    field: Seq<char>,
    value: Seq<char>,
    num: FloatV,
    j: int,
)
    requires
        0 <= j < r.segs.len(),
    ensures
        ({
            let e = edited(r, field, value, num);
            &&& e == CutRoomV { segs: e.segs, ..r }
            &&& e.segs.len() == r.segs.len()
            &&& j != r.selected ==> e.segs[j] == r.segs[j]
            &&& j == r.selected ==> e.segs[j] == applied(r.segs[j], field, value, num)
        }),
{
}

/// Where no segment is selected, a word of the editor changes nothing.
pub proof fn edits_need_a_selection(r: CutRoomV, field: Seq<char>, value: Seq<char>, num: FloatV)
    requires
        r.selected < 0 || r.selected >= r.segs.len(),
    ensures
        edited(r, field, value, num) == r,
{
}

proof fn words_unlike()
    ensures
        "in"@.len() == 2 && "out"@.len() == 3 && "gain"@.len() == 4 && "speed"@.len() == 5
            && "dur"@.len() == 3 && "zoom"@.len() == 4 && "color"@.len() == 5 && "caption"@.len()
            == 7 && "caption-clear"@.len() == 13,
        "out"@ != "dur"@,
        "gain"@ != "zoom"@,
        "speed"@ != "color"@,
{
    reveal_strlit("in");
    reveal_strlit("out");
    reveal_strlit("gain");
    reveal_strlit("speed");
    reveal_strlit("dur");
    reveal_strlit("zoom");
    reveal_strlit("color");
    reveal_strlit("caption");
    reveal_strlit("caption-clear");
    assert("out"@[0] == 'o' && "dur"@[0] == 'd');
    assert("gain"@[0] == 'g' && "zoom"@[0] == 'z');
    assert("speed"@[0] == 's' && "color"@[0] == 'c');
}

/// A caption is what was typed, without white space at its ends, a hundred and twenty
/// characters at most. It is on the selected segment; all others keep theirs, and nothing
/// but the caption changes. Clearing it leaves none.
pub proof fn captions_are_what_was_typed(r: CutRoomV, value: Seq<char>, num: FloatV, j: int)
    requires
        0 <= j < r.segs.len(),
        0 <= r.selected < r.segs.len(),
    ensures
        ({
            let e = edited(r, "caption"@, value, num);
            let t = trimmed(value);
            &&& j == r.selected && t.len() <= 120 ==> e.segs[j].caption == t
            &&& j == r.selected && t.len() > 120 ==> e.segs[j].caption == t.take(120)
            &&& j == r.selected ==> e.segs[j] == CutSegV { caption: e.segs[j].caption, ..r.segs[j] }
            &&& j != r.selected ==> e.segs[j] == r.segs[j]
        }),
        ({
            let e = edited(r, "caption-clear"@, value, num);
            &&& j == r.selected ==> e.segs[j].caption.len() == 0 && e.segs[j] == CutSegV {
                caption: e.segs[j].caption,
                ..r.segs[j]
            }
            &&& j != r.selected ==> e.segs[j] == r.segs[j]
        }),
{
    words_unlike();
}

/// The words for the gain, the speed, the length, the zoom and the colour set that of the
/// selected segment to the number without its fraction, and change nothing else.
pub proof fn steps_set_one_thing(s: CutSegV, value: Seq<char>, num: FloatV)
    ensures
        applied(s, "gain"@, value, num) == (CutSegV { gain_ix: whole_v(num), ..s }),
        applied(s, "speed"@, value, num) == (CutSegV { speed_ix: whole_v(num), ..s }),
        applied(s, "dur"@, value, num) == (CutSegV { dur_ix: whole_v(num), ..s }),
        applied(s, "zoom"@, value, num) == (CutSegV { zoom_ix: whole_v(num), ..s }),
        applied(s, "color"@, value, num) == (CutSegV { color_ix: whole_v(num), ..s }),
{
    words_unlike();
}

/// The start of a clip moves by the number, and not before the clip's own start; its end
/// stays, and so does all else.
pub proof fn starts_move_by_the_number(s: CutSegV, value: Seq<char>, num: FloatV)
    ensures
        ({
            let t = applied(s, "in"@, value, num);
            let moved = plus_v(s.in_s, num, Width::Single);
            &&& t == CutSegV { in_s: t.in_s, ..s }
            &&& less_v(moved, zero_v()) || moved is Nan ==> t.in_s == zero_v()
            &&& !less_v(moved, zero_v()) && !(moved is Nan) ==> t.in_s == moved
        }),
{
}

/// The end of a clip moves by the number, from where it is, or from the start where the clip
/// is open. Where it would not lie behind the start, the clip is open again.
pub proof fn ends_move_by_the_number(s: CutSegV, value: Seq<char>, num: FloatV)
    ensures
        ({
            let t = applied(s, "out"@, value, num);
            let from = if less_v(zero_v(), s.out_s) {
                s.out_s
            } else {
                s.in_s
            };
            let moved = plus_v(from, num, Width::Single);
            &&& t == CutSegV { out_s: t.out_s, ..s }
            &&& less_v(s.in_s, moved) ==> t.out_s == moved
            &&& !less_v(s.in_s, moved) ==> t.out_s == zero_v()
        }),
{
    words_unlike();
}

// ── The segments ────────────────────────────────────────────────────────────

/// A new segment as it joins the cut: whole, at normal speed and volume.
pub open spec fn is_fresh(s: CutSegV, kind: CutKind, id: Seq<char>) -> bool {
    &&& s.kind == kind
    &&& s.job_id == id
    &&& s.in_s == zero_v() && s.out_s == zero_v()
    &&& s.gain_ix == 2 && s.speed_ix == 1 && s.dur_ix == 1 && s.zoom_ix == 1 && s.color_ix == 1
    &&& s.caption.len() == 0
}

/// Whether a job is done and made something of a kind first.
pub open spec fn made(job: JsonV, kind: Seq<char>) -> bool {
    &&& text_at(job, "status"@) == Some("done"@)
    &&& items_at(job, "assets"@) matches Some(a) && a.len() > 0 && text_at(a[0], "kind"@) == Some(
        kind,
    )
}

proof fn kinds_unlike()
    ensures
        "video"@ != "image"@,
        "video"@ != "audio"@,
        "image"@ != "audio"@,
{
    reveal_strlit("video");
    reveal_strlit("image");
    reveal_strlit("audio");
    assert("video"@[0] == 'v' && "image"@[0] == 'i' && "audio"@[0] == 'a');
}

/// A finished job joins the cut at its end, a video as a clip and a picture as a still, and
/// is then selected; the segments before it stay. A sound becomes the music, and changes no
/// segment. The label is the start of the job's prompt.
pub proof fn finished_jobs_join(r: CutRoomV, id: Seq<char>, job: JsonV)
    requires
        r.segs.len() < i32::MAX,
    ensures
        ({
            let e = added(r, id, job);
            let p = text_or(job, "prompt"@, ""@);
            let label = if p.len() == 0 {
                "untitled"@
            } else if p.len() <= 26 {
                p
            } else {
                p.take(26)
            };
            &&& made(job, "video"@) || made(job, "image"@) ==> {
                &&& e.segs.len() == r.segs.len() + 1
                &&& e.segs.drop_last() == r.segs
                &&& e.selected == r.segs.len()
                &&& e.music == r.music
                &&& e.imported == r.imported
                &&& e.segs.last().label == label
            }
            &&& made(job, "video"@) ==> is_fresh(e.segs.last(), CutKind::Clip, id)
            &&& made(job, "image"@) ==> is_fresh(e.segs.last(), CutKind::Still, id)
            &&& made(job, "audio"@) ==> e == CutRoomV { music: Some((id, label)), ..r }
            &&& !made(job, "video"@) && !made(job, "image"@) && !made(job, "audio"@) ==> e == r
        }),
{
    kinds_unlike();
    reveal_strlit("untitled");
    reveal_strlit("done");
    reveal_strlit("");
    reveal_strlit("video");
    reveal_strlit("image");
    reveal_strlit("audio");
    assert("done"@.len() == 4 && ""@.len() == 0 && "video"@.len() == 5 && "image"@.len() == 5
        && "audio"@.len() == 5);
    assert("untitled"@.len() == 8);
    let e = added(r, id, job);
    if e.segs.len() > r.segs.len() {
        assert(e.segs.drop_last() =~= r.segs);
    }
}

/// A segment that leaves takes no other with it, and the selection stays on a segment while
/// there is one.
pub proof fn segments_leave_alone(r: CutRoomV, ix: i32)
    requires
        r.segs.len() <= i32::MAX,
    ensures
        ({
            let e = removed(r, ix);
            &&& 0 <= ix < r.segs.len() ==> e.segs == r.segs.remove(ix as int)
            &&& !(0 <= ix < r.segs.len()) ==> e.segs == r.segs
            &&& e.music == r.music && e.imported == r.imported
            &&& r.selected < e.segs.len() ==> e.selected == r.selected
            &&& r.selected >= e.segs.len() ==> e.selected == e.segs.len() - 1
        }),
{
}

/// A segment that changes places does so with the one there, and with no other; a selection
/// of it goes along. Where there is no such place, nothing changes.
pub proof fn segments_change_places(r: CutRoomV, ix: i32, delta: i32, j: int)
    requires
        r.segs.len() <= i32::MAX,
        0 <= j < r.segs.len(),
    ensures
        ({
            let e = swapped(r, ix, delta);
            let to = ix + delta;
            let fits = 0 <= ix < r.segs.len() && 0 <= to < r.segs.len();
            &&& !fits ==> e == r
            &&& e.segs.len() == r.segs.len() && e.music == r.music && e.imported == r.imported
            &&& fits ==> e.segs[to] == r.segs[ix as int] && e.segs[ix as int] == r.segs[to]
            &&& j != ix && j != to ==> e.segs[j] == r.segs[j]
            &&& fits && r.selected == ix ==> e.selected == to
            &&& r.selected != ix ==> e.selected == r.selected
        }),
{
}

// ── The request ─────────────────────────────────────────────────────────────

/// Whether an object says something under a name.
pub open spec fn says(j: JsonV, name: Seq<char>, v: JsonV) -> bool {
    j is Obj && j->Obj_0.contains((name, v))
}

/// Whether an object says nothing under a name.
pub open spec fn silent(j: JsonV, name: Seq<char>) -> bool {
    j is Obj && forall|i: int| 0 <= i < j->Obj_0.len() ==> (#[trigger] j->Obj_0[i]).0 != name
}

proof fn said_at(e: Seq<(Seq<char>, JsonV)>, i: int)
    requires
        0 <= i < e.len(),
    ensures
        e.contains(e[i]),
{
}

/// The request names its segments in their order, each by what it is made of: a clip with
/// its window, its gain, and its speed where that is not the normal one; a still and a card
/// with their length; a still with its zoom where it has one, and a card with its colour.
pub proof fn requests_name_the_segments(
    segs: Seq<CutSegV>,
    music: Option<Seq<char>>,
    letterbox_ix: i32,
    loudnorm: bool,
    fades_ix: i32,
    i: int,
)
    requires
        0 <= i < segs.len(),
    ensures
        ({
            let body = timeline_v(segs, music, letterbox_ix, loudnorm, fades_ix);
            let s = segs[i];
            exists|clips: Seq<JsonV>| #[trigger]
                says(body, "clips"@, JsonV::Arr(clips)) && clips.len() == segs.len() && {
                    &&& clips[i] == clip_v(s)
                    &&& s.kind == CutKind::Clip ==> clip_says(clips[i], s)
                    &&& s.kind == CutKind::Still ==> still_says(clips[i], s)
                    &&& s.kind == CutKind::Card ==> card_says(clips[i], s)
                    &&& s.caption.len() > 0 ==> says(clips[i], "captions"@, captions_v(s))
                    &&& s.caption.len() == 0 ==> silent(clips[i], "captions"@)
                }
        }),
{
    let body = timeline_v(segs, music, letterbox_ix, loudnorm, fades_ix);
    let s = segs[i];
    let clips = segs.map_values(|s: CutSegV| clip_v(s));
    said_at(body->Obj_0, 1);
    assert(says(body, "clips"@, JsonV::Arr(clips)));
    assert(clips[i] == clip_v(s));
    segments_say(s);
}

/// What a clip says.
pub open spec fn clip_says(j: JsonV, s: CutSegV) -> bool {
    &&& says(j, "job_id"@, JsonV::Str(s.job_id))
    &&& says(j, "in_s"@, seconds_v(s.in_s))
    &&& says(j, "out_s"@, seconds_v(s.out_s))
    &&& s.gain_ix <= 0 ==> says(j, "gain_db"@, milli_json(-12000))
    &&& s.gain_ix == 1 ==> says(j, "gain_db"@, milli_json(-6000))
    &&& s.gain_ix >= 2 ==> says(j, "gain_db"@, milli_json(0))
    &&& s.speed_ix <= 0 ==> says(j, "speed"@, milli_json(500))
    &&& s.speed_ix == 1 ==> silent(j, "speed"@)
    &&& s.speed_ix == 2 ==> says(j, "speed"@, milli_json(1500))
    &&& s.speed_ix >= 3 ==> says(j, "speed"@, milli_json(2000))
    &&& silent(j, "kind"@)
}

/// What a still says.
pub open spec fn still_says(j: JsonV, s: CutSegV) -> bool {
    &&& says(j, "kind"@, JsonV::Str("still"@))
    &&& says(j, "job_id"@, JsonV::Str(s.job_id))
    &&& stays_for(j, s)
    &&& s.zoom_ix <= 0 ==> silent(j, "zoom_to"@)
    &&& s.zoom_ix == 1 ==> says(j, "zoom_to"@, milli_json(1120))
    &&& s.zoom_ix >= 2 ==> says(j, "zoom_to"@, milli_json(1250))
}

/// What a card says.
pub open spec fn card_says(j: JsonV, s: CutSegV) -> bool {
    &&& says(j, "kind"@, JsonV::Str("card"@))
    &&& silent(j, "job_id"@)
    &&& stays_for(j, s)
    &&& s.color_ix <= 0 ==> says(j, "card_color"@, JsonV::Str("#000000"@))
    &&& s.color_ix == 1 ==> says(j, "card_color"@, JsonV::Str("#101418"@))
    &&& s.color_ix == 2 ==> says(j, "card_color"@, JsonV::Str("#B7410E"@))
    &&& s.color_ix >= 3 ==> says(j, "card_color"@, JsonV::Str("#0E2A1C"@))
}

/// Whether an object says how long a still or a card stays.
pub open spec fn stays_for(j: JsonV, s: CutSegV) -> bool {
    &&& s.dur_ix <= 0 ==> says(j, "dur_s"@, milli_json(2000))
    &&& s.dur_ix == 1 ==> says(j, "dur_s"@, milli_json(3000))
    &&& s.dur_ix == 2 ==> says(j, "dur_s"@, milli_json(4000))
    &&& s.dur_ix >= 3 ==> says(j, "dur_s"@, milli_json(6000))
}

proof fn names_of_segments()
    ensures
        "job_id"@.len() == 6 && "in_s"@.len() == 4 && "out_s"@.len() == 5 && "gain_db"@.len() == 7
            && "speed"@.len() == 5 && "kind"@.len() == 4 && "dur_s"@.len() == 5 && "zoom_to"@.len()
            == 7 && "card_color"@.len() == 10 && "captions"@.len() == 8,
        "in_s"@ != "kind"@,
        "out_s"@ != "speed"@,
        "speed"@ != "dur_s"@,
        "gain_db"@ != "zoom_to"@,
{
    reveal_strlit("job_id");
    reveal_strlit("in_s");
    reveal_strlit("out_s");
    reveal_strlit("gain_db");
    reveal_strlit("speed");
    reveal_strlit("kind");
    reveal_strlit("dur_s");
    reveal_strlit("zoom_to");
    reveal_strlit("card_color");
    reveal_strlit("captions");
    assert("in_s"@[0] == 'i' && "kind"@[0] == 'k');
    assert("out_s"@[0] == 'o' && "speed"@[0] == 's' && "dur_s"@[0] == 'd');
    assert("gain_db"@[0] == 'g' && "zoom_to"@[0] == 'z');
}

proof fn segments_say(s: CutSegV)
    ensures
        s.kind == CutKind::Clip ==> clip_says(clip_v(s), s),
        s.kind == CutKind::Still ==> still_says(clip_v(s), s),
        s.kind == CutKind::Card ==> card_says(clip_v(s), s),
        s.caption.len() > 0 ==> says(clip_v(s), "captions"@, captions_v(s)),
        s.caption.len() == 0 ==> silent(clip_v(s), "captions"@),
{
    names_of_segments();
    let e = clip_v(s)->Obj_0;
    assert forall|i: int| 0 <= i < e.len() implies e.contains(#[trigger] e[i]) by {}
    match s.kind {
        CutKind::Clip => {
            assert(e[0] == ("job_id"@, JsonV::Str(s.job_id)));
            assert(e[1] == ("in_s"@, seconds_v(s.in_s)));
            assert(e[2] == ("out_s"@, seconds_v(s.out_s)));
            assert(e[3].0 == "gain_db"@);
            if s.speed_ix != 1 {
                assert(e[4].0 == "speed"@);
            }
        },
        CutKind::Still => {
            assert(e[0] == ("kind"@, JsonV::Str("still"@)));
            assert(e[1] == ("job_id"@, JsonV::Str(s.job_id)));
            assert(e[2].0 == "dur_s"@);
            if s.zoom_ix > 0 {
                assert(e[3].0 == "zoom_to"@);
            }
        },
        CutKind::Card => {
            assert(e[0] == ("kind"@, JsonV::Str("card"@)));
            assert(e[1].0 == "dur_s"@);
            assert(e[2].0 == "card_color"@);
        },
    }
    if s.caption.len() > 0 {
        assert(e[e.len() - 1] == ("captions"@, captions_v(s)));
    }
}

/// A caption is one text over the whole segment, and a card's is large.
pub proof fn captions_say(s: CutSegV)
    ensures
        ({
            let c = captions_v(s);
            &&& c is Arr && c->Arr_0.len() == 1
            &&& says(c->Arr_0[0], "text"@, JsonV::Str(s.caption))
            &&& says(c->Arr_0[0], "start_s"@, milli_json(0))
            &&& says(c->Arr_0[0], "end_s"@, milli_json(600_000))
            &&& s.kind == CutKind::Card ==> says(c->Arr_0[0], "fontsize"@, uint_json(44))
            &&& s.kind != CutKind::Card ==> says(c->Arr_0[0], "fontsize"@, uint_json(0))
        }),
{
    let e = captions_v(s)->Arr_0[0]->Obj_0;
    assert forall|i: int| 0 <= i < e.len() implies e.contains(#[trigger] e[i]) by {}
    assert(e[0].0 == "text"@ && e[1].0 == "start_s"@ && e[2].0 == "end_s"@ && e[3].0
        == "fontsize"@);
}

proof fn names_of_requests()
    ensures
        "version"@.len() == 7 && "clips"@.len() == 5 && "note"@.len() == 4 && "style"@.len() == 5
            && "video_fade_in_s"@.len() == 15 && "video_fade_out_s"@.len() == 16
            && "audio_fade_in_s"@.len() == 15 && "audio_fade_out_s"@.len() == 16 && "music"@.len()
            == 5,
        "clips"@ != "style"@,
        "clips"@ != "music"@,
        "style"@ != "music"@,
        "video_fade_in_s"@ != "audio_fade_in_s"@,
        "video_fade_out_s"@ != "audio_fade_out_s"@,
{
    reveal_strlit("version");
    reveal_strlit("clips");
    reveal_strlit("note");
    reveal_strlit("style");
    reveal_strlit("video_fade_in_s");
    reveal_strlit("video_fade_out_s");
    reveal_strlit("audio_fade_in_s");
    reveal_strlit("audio_fade_out_s");
    reveal_strlit("music");
    assert("clips"@[0] == 'c' && "style"@[0] == 's' && "music"@[0] == 'm');
    assert("video_fade_in_s"@[0] == 'v' && "audio_fade_in_s"@[0] == 'a');
    assert("video_fade_out_s"@[0] == 'v' && "audio_fade_out_s"@[0] == 'a');
}

/// The request says which music lies below the whole, what style it is in and how it fades,
/// each only where that was chosen, and how many segments there are.
pub proof fn requests_say_what_was_chosen(
    segs: Seq<CutSegV>,
    music: Option<Seq<char>>,
    letterbox_ix: i32,
    loudnorm: bool,
    fades_ix: i32,
)
    ensures
        ({
            let body = timeline_v(segs, music, letterbox_ix, loudnorm, fades_ix);
            let bars = letterbox_ix == 1 || letterbox_ix == 2;
            &&& says(body, "version"@, uint_json(1))
            &&& says(
                body,
                "note"@,
                JsonV::Str("cutting room · "@ + dec(segs.len()) + " segments"@),
            )
            &&& music is None ==> silent(body, "music"@)
            &&& music matches Some(id) ==> exists|m: JsonV| #[trigger]
                says(body, "music"@, m) && says(m, "job_id"@, JsonV::Str(id)) && says(
                    m,
                    "gain_db"@,
                    milli_json(-8000),
                ) && says(m, "fade_in_s"@, milli_json(300)) && says(
                    m,
                    "fade_out_s"@,
                    milli_json(800),
                )
            &&& !bars && !loudnorm ==> silent(body, "style"@)
            &&& bars || loudnorm ==> exists|m: JsonV| #[trigger]
                says(body, "style"@, m) && (bars ==> says(m, "letterbox_frac"@, milli_json(120)))
                    && (letterbox_ix == 2 ==> says(m, "letterbox_reveal_s"@, milli_json(1500)))
                    && (loudnorm ==> says(m, "loudnorm"@, JsonV::Bool(true)))
            &&& fades_ix != 1 && fades_ix != 2 ==> silent(body, "video_fade_in_s"@) && silent(
                body,
                "audio_fade_out_s"@,
            )
            &&& fades_ix == 1 ==> says(body, "video_fade_in_s"@, milli_json(300)) && says(
                body,
                "video_fade_out_s"@,
                milli_json(300),
            ) && says(body, "audio_fade_in_s"@, milli_json(300)) && says(
                body,
                "audio_fade_out_s"@,
                milli_json(500),
            )
            &&& fades_ix == 2 ==> says(body, "video_fade_in_s"@, milli_json(750)) && says(
                body,
                "video_fade_out_s"@,
                milli_json(750),
            ) && says(body, "audio_fade_in_s"@, milli_json(500)) && says(
                body,
                "audio_fade_out_s"@,
                milli_json(1000),
            )
        }),
{
    names_of_requests();
    let body = timeline_v(segs, music, letterbox_ix, loudnorm, fades_ix);
    let e = body->Obj_0;
    assert forall|i: int| 0 <= i < e.len() implies e.contains(#[trigger] e[i]) by {}
    assert(e[0] == ("version"@, uint_json(1)));
    assert(e[2].0 == "note"@);
    let style = crate::cut::style_v(letterbox_ix, loudnorm);
    let k = if style.len() == 0 {
        3int
    } else {
        4
    };
    if style.len() > 0 {
        assert(e[3] == ("style"@, JsonV::Obj(style)));
        assert forall|i: int| 0 <= i < style.len() implies style.contains(#[trigger] style[i]) by {}
        if letterbox_ix == 1 || letterbox_ix == 2 {
            assert(style[0] == ("letterbox_frac"@, milli_json(120)));
        }
        if letterbox_ix == 2 {
            assert(style[1] == ("letterbox_reveal_s"@, milli_json(1500)));
        }
        if loudnorm {
            assert(style[style.len() - 1] == ("loudnorm"@, JsonV::Bool(true)));
        }
        assert(says(body, "style"@, JsonV::Obj(style)));
    }
    let fades = crate::cut::fades_v(fades_ix);
    assert forall|i: int| 0 <= i < fades.len() implies #[trigger] fades[i] == e[k + i] by {}
    if fades.len() > 0 {
        assert(fades[0] == e[k] && fades[1] == e[k + 1] && fades[2] == e[k + 2] && fades[3] == e[k
            + 3]);
    }
    if let Some(id) = music {
        let m = crate::cut::music_v(id);
        assert(e[e.len() - 1] == ("music"@, m));
        assert(says(body, "music"@, m));
        let f = m->Obj_0;
        assert forall|i: int| 0 <= i < f.len() implies f.contains(#[trigger] f[i]) by {}
        assert(f[0] == ("job_id"@, JsonV::Str(id)) && f[1].0 == "gain_db"@ && f[2].0 == "fade_in_s"@
            && f[3].0 == "fade_out_s"@);
    }
}

// ── The summary ─────────────────────────────────────────────────────────────

/// The summary tells whether a clip runs to its own end.
pub proof fn open_clips_are_told(s: Seq<CutSegV>, n: int)
    requires
        0 <= n <= s.len(),
    ensures
        open_ended(s, n) <==> exists|i: int|
            0 <= i < n && (#[trigger] s[i]).kind == CutKind::Clip && !less_v(s[i].in_s, s[i].out_s),
    decreases n,
{
    if n > 0 {
        open_clips_are_told(s, n - 1);
        if open_ended(s, n) && open_ended(s, n - 1) {
            let i = choose|i: int|
                0 <= i < n - 1 && (#[trigger] s[i]).kind == CutKind::Clip && !less_v(
                    s[i].in_s,
                    s[i].out_s,
                );
            assert(0 <= i < n && s[i].kind == CutKind::Clip);
        }
    }
}

/// One more segment makes the cut longer by what it shows: a clip by its window over its
/// speed, a still or a card by its length. A clip that runs to its own end adds nothing.
pub proof fn lengths_add_up(s: Seq<CutSegV>, x: CutSegV)
    ensures
        ({
            let before = known_v(s, s.len() as int);
            let after = known_v(s.push(x), s.len() as int + 1);
            let window = minus_v(x.out_s, x.in_s, Width::Single);
            let closed = x.kind == CutKind::Clip && less_v(x.in_s, x.out_s);
            let fixed = x.kind != CutKind::Clip;
            &&& x.kind == CutKind::Clip && !less_v(x.in_s, x.out_s) ==> after == before
            &&& closed && x.speed_ix == 1 ==> after == plus_v(
                before,
                over_v(window, exactly(1), Width::Double),
                Width::Double,
            )
            &&& closed && x.speed_ix >= 3 ==> after == plus_v(
                before,
                over_v(window, exactly(2), Width::Double),
                Width::Double,
            )
            &&& closed && x.speed_ix <= 0 ==> after == plus_v(
                before,
                over_v(window, FloatV::Fin { neg: false, units: pow2(1073) }, Width::Double),
                Width::Double,
            )
            &&& fixed && x.dur_ix <= 0 ==> after == plus_v(before, exactly(2), Width::Double)
            &&& fixed && x.dur_ix == 1 ==> after == plus_v(before, exactly(3), Width::Double)
            &&& fixed && x.dur_ix == 2 ==> after == plus_v(before, exactly(4), Width::Double)
            &&& fixed && x.dur_ix >= 3 ==> after == plus_v(before, exactly(6), Width::Double)
        }),
{
    known_before(s, x, s.len() as int);
    assert(s.push(x)[s.len() as int] == x);
    lemma_pow2_unfold(1074);
    let u = pow2(1073);
    assert(2 * u == 1 * one() && 4 * u == 2 * one() && 1 * u == u);
}

proof fn known_before(s: Seq<CutSegV>, x: CutSegV, n: int)
    requires
        0 <= n <= s.len(),
    ensures
        known_v(s.push(x), n) == known_v(s, n),
    decreases n,
{
    if n > 0 {
        known_before(s, x, n - 1);
    }
}

/// The rows of the timeline stand for the segments in their order, and a row has a poster
/// where that of its job has come.
pub proof fn rows_stand_for_segments(s: Seq<CutSegV>, thumbs: Seq<(Seq<char>, ThumbState)>, i: int)
    requires
        0 <= i < s.len(),
    ensures
        ({
            let r = seg_rows_v(s, thumbs);
            &&& r.len() == s.len()
            &&& r[i].kind == s[i].kind && r[i].id == s[i].job_id && r[i].label == s[i].label
            &&& r[i].caption == s[i].caption && r[i].in_s == s[i].in_s && r[i].out_s == s[i].out_s
            &&& r[i].gain_ix == s[i].gain_ix && r[i].speed_ix == s[i].speed_ix
            &&& r[i].dur_ix == s[i].dur_ix && r[i].zoom_ix == s[i].zoom_ix
            &&& r[i].color_ix == s[i].color_ix
            &&& r[i].has_thumb <==> s[i].job_id.len() > 0 && thumb_state(thumbs, s[i].job_id)
                == Some(ThumbState::Ready)
        }),
{
}

} // verus!
