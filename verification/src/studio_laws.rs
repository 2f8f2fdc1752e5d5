//! What the studio is asked for and what it shows.
use vstd::prelude::*;
use crate::cut_laws::{says, silent};
use crate::json::{text_or, uint_json, JsonV};
use crate::studio::{
    edit_body_v, image_body_v, look_v, made_v, missing_v, refs_v, set_v, stage_v, thumb_place,
    thumb_state, video_v, wanted_v, FetchedV, RowV, Showing, ThumbState, Wanted,
};
use crate::text::begins;

verus! {

/// A request for pictures says what is asked for, how many and in which shape; a model only
/// where one was chosen.
pub proof fn picture_requests_say(prompt: Seq<char>, model: Seq<char>, aspect: Seq<char>, n: u32)
    ensures
        ({
            let b = image_body_v(prompt, model, aspect, n);
            &&& says(b, "prompt"@, JsonV::Str(prompt))
            &&& says(b, "n"@, uint_json(n as u64))
            &&& says(b, "aspect_ratio"@, JsonV::Str(aspect))
            &&& model != "auto"@ ==> says(b, "model"@, JsonV::Str(model))
            &&& model == "auto"@ ==> silent(b, "model"@)
        }),
{
    names_unlike();
    let e = image_body_v(prompt, model, aspect, n)->Obj_0;
    assert(e[0].0 == "prompt"@ && e[1].0 == "n"@ && e[2].0 == "aspect_ratio"@);
    if model != "auto"@ {
        assert(e[3] == ("model"@, JsonV::Str(model)));
    } else {
        assert(e.len() == 3);
    }
}

proof fn names_unlike()
    ensures
        "prompt"@ != "model"@,
        "n"@ != "model"@,
        "aspect_ratio"@ != "model"@,
        "prompt"@ != "image"@ && "duration"@ != "image"@ && "no_wait"@ != "image"@ && "model"@
            != "image"@ && "resolution"@ != "image"@ && "aspect_ratio"@ != "image"@,
        "prompt"@ != "video"@ && "duration"@ != "video"@ && "no_wait"@ != "video"@ && "model"@
            != "video"@ && "resolution"@ != "video"@ && "aspect_ratio"@ != "video"@ && "image"@
            != "video"@,
{
    reveal_strlit("prompt");
    reveal_strlit("n");
    reveal_strlit("aspect_ratio");
    reveal_strlit("model");
    reveal_strlit("image");
    reveal_strlit("video");
    reveal_strlit("duration");
    reveal_strlit("no_wait");
    reveal_strlit("resolution");
    assert("model"@[0] == 'm' && "image"@[0] == 'i' && "video"@[0] == 'v');
    assert("prompt"@.len() == 6 && "n"@.len() == 1 && "aspect_ratio"@.len() == 12);
    assert("duration"@.len() == 8 && "no_wait"@.len() == 7 && "resolution"@.len() == 10);
    assert("model"@.len() == 5 && "image"@.len() == 5 && "video"@.len() == 5);
}

/// A clip that goes on from another names it, and lasts two to ten seconds. A new clip lasts
/// one to fifteen, and names the picture that it starts from, where there is one.
pub proof fn clip_requests_say(
    prompt: Seq<char>,
    model: Seq<char>,
    secs: i32,
    resolution: Seq<char>,
    aspect: Seq<char>,
    source: Seq<char>,
    kind: Seq<char>,
)
    ensures
        ({
            let (path, b) = video_v(prompt, model, secs, resolution, aspect, source, kind);
            let goes_on = kind == "video"@ && source.len() > 0;
            &&& says(b, "prompt"@, JsonV::Str(prompt))
            &&& says(b, "no_wait"@, JsonV::Bool(true))
            &&& model != "auto"@ ==> says(b, "model"@, JsonV::Str(model))
            &&& goes_on ==> path == "/v1/videos/extensions"@ && says(
                b,
                "video"@,
                JsonV::Str("library:"@ + source),
            )
            &&& goes_on && 2 <= secs <= 10 ==> says(b, "duration"@, uint_json(secs as u64))
            &&& goes_on && secs < 2 ==> says(b, "duration"@, uint_json(2))
            &&& goes_on && secs > 10 ==> says(b, "duration"@, uint_json(10))
            &&& !goes_on ==> path == "/v1/videos/generations"@ && silent(b, "video"@)
            &&& !goes_on && 1 <= secs <= 15 ==> says(b, "duration"@, uint_json(secs as u64))
            &&& !goes_on && secs < 1 ==> says(b, "duration"@, uint_json(1))
            &&& !goes_on && secs > 15 ==> says(b, "duration"@, uint_json(15))
            &&& kind == "image"@ && source.len() > 0 ==> says(
                b,
                "image"@,
                JsonV::Str("library:"@ + source),
            )
            &&& kind != "image"@ || source.len() == 0 ==> silent(b, "image"@)
            &&& !goes_on && resolution.len() > 0 && resolution != "default"@ ==> says(
                b,
                "resolution"@,
                JsonV::Str(resolution),
            )
            &&& !goes_on && aspect.len() > 0 && aspect != "default"@ ==> says(
                b,
                "aspect_ratio"@,
                JsonV::Str(aspect),
            )
        }),
{
    names_unlike();
    let e = video_v(prompt, model, secs, resolution, aspect, source, kind).1->Obj_0;
    let k: int = if kind == "image"@ && source.len() > 0 {
        1
    } else {
        0
    };
    let h: int = if model != "auto"@ {
        1
    } else {
        0
    };
    let r: int = if resolution.len() > 0 && resolution != "default"@ {
        1
    } else {
        0
    };
    assert(e[0] == ("prompt"@, JsonV::Str(prompt)));
    if kind == "video"@ && source.len() > 0 {
        assert(e[1] == ("video"@, JsonV::Str("library:"@ + source)));
        assert(e[2].0 == "duration"@ && e[3].0 == "no_wait"@);
        assert(h == 1 ==> e[4] == ("model"@, JsonV::Str(model)));
    } else {
        assert(e[1].0 == "duration"@ && e[2].0 == "no_wait"@);
        assert(k == 1 ==> e[3] == ("image"@, JsonV::Str("library:"@ + source)));
        assert(h == 1 ==> e[3 + k] == ("model"@, JsonV::Str(model)));
        assert(r == 1 ==> e[3 + k + h] == ("resolution"@, JsonV::Str(resolution)));
        assert(aspect.len() > 0 && aspect != "default"@ ==> e[3 + k + h + r] == (
            "aspect_ratio"@,
            JsonV::Str(aspect),
        ));
    }
}

proof fn sources_in_order(s: Seq<(Seq<char>, Seq<char>)>, n: int, i: int)
    requires
        0 <= i < n <= s.len(),
    ensures
        refs_v(s, n).len() == n,
        refs_v(s, n)[i] == JsonV::Str("library:"@ + s[i].0),
    decreases n,
{
    if n == 1 {
        assert(refs_v(s, 0).len() == 0);
    } else if i < n - 1 {
        sources_in_order(s, n - 1, i);
    } else {
        sources_in_order(s, n - 1, 0);
    }
}

/// A change of pictures names them in their order, three at most.
pub proof fn change_requests_say(prompt: Seq<char>, n: u32, s: Seq<(Seq<char>, Seq<char>)>, i: int)
    requires
        0 <= i < s.len(),
        i < 3,
    ensures
        exists|a: Seq<JsonV>| #[trigger]
            says(edit_body_v(prompt, n, s), "images"@, JsonV::Arr(a)) && a.len() == (if s.len() < 3 {
                s.len()
            } else {
                3
            }) && a[i] == JsonV::Str("library:"@ + s[i].0),
{
    let k: int = if s.len() > 3 {
        3
    } else {
        s.len() as int
    };
    sources_in_order(s, k, i);
    let e = edit_body_v(prompt, n, s)->Obj_0;
    assert(e[1] == ("images"@, JsonV::Arr(refs_v(s, k))));
    assert(says(edit_body_v(prompt, n, s), "images"@, JsonV::Arr(refs_v(s, k))));
}

/// Pictures that were made are shown under their job; the sources are let go where they were
/// changed. Where nothing was made, that is shown, and the sources stay.
pub proof fn made_pictures_are_shown(job: JsonV, n: u32, editing: bool)
    ensures
        ({
            let m = made_v(Ok(job), n, None, editing);
            let id = text_or(job, "job_id"@, ""@);
            let done = text_or(job, "status"@, ""@) == "done"@ && id.len() > 0;
            &&& m.picked == id
            &&& done ==> m.shows == Showing::Picture && m.disarms == editing
            &&& !done ==> m.shows == Showing::Failure && !m.disarms
        }),
{
}

/// A job is looked at until it has ended or twenty minutes are over; when it has ended it is
/// shown, where it is the one in view.
pub proof fn jobs_are_looked_at(id: Seq<char>, selected: Seq<char>, job: JsonV, elapsed: u64)
    ensures
        ({
            let status = text_or(job, "status"@, ""@);
            let ended = status == "done"@ || status == "failed"@ || status == "expired"@ || status
                == "cancelled"@;
            let l = look_v(id, selected, job, elapsed);
            &&& l.show <==> ended && selected == id
            &&& l.again <==> !ended && elapsed <= 1_200
        }),
{
}

/// What is fetched of a job: its picture or clip once it is done, nothing while it is made.
pub proof fn jobs_are_fetched(job: JsonV)
    ensures
        ({
            let mode = text_or(job, "mode"@, ""@);
            let status = text_or(job, "status"@, ""@);
            let picture = begins(mode, "image"@);
            &&& wanted_v(job) == Wanted::Picture <==> status == "done"@ && picture
            &&& wanted_v(job) == Wanted::Clip <==> status == "done"@ && !picture && mode.len() > 0
            &&& wanted_v(job) == Wanted::Watch <==> !picture && mode.len() > 0 && (status
                == "pending"@ || status == "running"@)
        }),
{
    reveal_strlit("done");
    reveal_strlit("pending");
    reveal_strlit("running");
    assert("done"@.len() == 4 && "pending"@.len() == 7 && "running"@.len() == 7);
}

/// What stands on the stage is what was fetched.
pub proof fn stages_show_what_was_fetched(job: JsonV)
    ensures
        stage_v(job, FetchedV::Picture).kind == "image"@,
        stage_v(job, FetchedV::Clip).kind == "video"@,
        stage_v(job, FetchedV::Clip).video == "ready"@,
{
}

proof fn place_of_thumb(t: Seq<(Seq<char>, ThumbState)>, id: Seq<char>, from: int)
    requires
        0 <= from <= t.len(),
    ensures
        from <= thumb_place(t, id, from) <= t.len(),
        thumb_place(t, id, from) < t.len() ==> t[thumb_place(t, id, from)].0 == id,
        forall|j: int| from <= j < thumb_place(t, id, from) ==> (#[trigger] t[j]).0 != id,
    decreases t.len() - from,
{
    if from < t.len() && t[from].0 != id {
        place_of_thumb(t, id, from + 1);
    }
}

proof fn thumb_is_at(t: Seq<(Seq<char>, ThumbState)>, id: Seq<char>, i: int, from: int)
    requires
        0 <= from <= i <= t.len(),
        i < t.len() ==> t[i].0 == id,
        forall|j: int| from <= j < i ==> (#[trigger] t[j]).0 != id,
    ensures
        thumb_place(t, id, from) == i,
    decreases i - from,
{
    if from < i {
        thumb_is_at(t, id, i, from + 1);
    }
}

/// What is set of a poster is what is known of it; nothing else is known of any other.
pub proof fn posters_are_known(
    t: Seq<(Seq<char>, ThumbState)>,
    id: Seq<char>,
    s: ThumbState,
    other: Seq<char>,
)
    ensures
        thumb_state(set_v(t, id, s), id) == Some(s),
        other != id ==> thumb_state(set_v(t, id, s), other) == thumb_state(t, other),
{
    let u = set_v(t, id, s);
    place_of_thumb(t, id, 0);
    place_of_thumb(t, other, 0);
    let i = thumb_place(t, id, 0);
    assert forall|j: int| 0 <= j < i implies (#[trigger] u[j]).0 != id by {
        assert(u[j] == t[j]);
    }
    thumb_is_at(u, id, i, 0);
    if other != id {
        let k = thumb_place(t, other, 0);
        assert forall|j: int| 0 <= j < t.len() implies (#[trigger] u[j]).0 == t[j].0 by {}
        let h: int = if k < t.len() {
            k
        } else {
            u.len() as int
        };
        assert forall|j: int| 0 <= j < h implies (#[trigger] u[j]).0 != other by {
            if j < t.len() {
                assert(u[j].0 == t[j].0);
                assert(t[j].0 != other);
            }
        }
        thumb_is_at(u, other, h, 0);
    }
}

/// A poster is asked for only of a job that is done and of which nothing is known.
pub proof fn missing_posters_are_asked_for(
    rows: Seq<RowV>,
    t: Seq<(Seq<char>, ThumbState)>,
    n: int,
    i: int,
)
    requires
        0 <= n <= rows.len(),
        0 <= i < missing_v(rows, t, n).len(),
    ensures
        thumb_state(t, missing_v(rows, t, n)[i]) is None,
        exists|j: int|
            0 <= j < n && (#[trigger] rows[j]).id == missing_v(rows, t, n)[i] && rows[j].status
                == "done"@,
    decreases n,
{
    if n > 0 {
        let p = missing_v(rows, t, n - 1);
        if i < p.len() {
            missing_posters_are_asked_for(rows, t, n - 1, i);
            let j = choose|j: int|
                0 <= j < n - 1 && (#[trigger] rows[j]).id == p[i] && rows[j].status == "done"@;
            assert(rows[j].id == missing_v(rows, t, n)[i]);
        } else {
            assert(rows[n - 1].id == missing_v(rows, t, n)[i]);
        }
    }
}

} // verus!
