//! Scoring a cut with a track of the sound library.
use vstd::prelude::*;
use crate::cut::{pairs, CutRoom, CutRoomV};
use crate::json::{entries, put, text_at, Json, JsonV};
use crate::text::{
    after_last, after_last_v, ascii_lower, cat, cat3, copy, head, low_text, same, strip_ends,
    take_chars, trim_end_matches,
};

verus! {

broadcast use {
    crate::text::views_push,
    crate::text::views_empty,
    crate::json::entries_empty,
};

/// The media type of a track, from what follows the last point of its name.
pub open spec fn mime_v(name: Seq<char>) -> Seq<char> {
    let ext = low_text(after_last_v(name, '.'));
    if ext == "mp3"@ {
        "audio/mpeg"@
    } else if ext == "flac"@ {
        "audio/flac"@
    } else if ext == "ogg"@ {
        "audio/ogg"@
    } else if ext == "m4a"@ {
        "audio/mp4"@
    } else if ext == "opus"@ {
        "audio/opus"@
    } else {
        "audio/wav"@
    }
}

/// The media type of a track.
pub fn sonus_mime_for_name(name: &str) -> (r: &'static str)
    ensures
        r@ == mime_v(name@),
{
    let ext = ascii_lower(after_last(name, '.'));
    let e = ext.as_str();
    if same(e, "mp3") {
        "audio/mpeg"
    } else if same(e, "flac") {
        "audio/flac"
    } else if same(e, "ogg") {
        "audio/ogg"
    } else if same(e, "m4a") {
        "audio/mp4"
    } else if same(e, "opus") {
        "audio/opus"
    } else {
        "audio/wav"
    }
}

/// A track's label: its name without folders and without its usual endings.
pub open spec fn stem_v(name: Seq<char>) -> Seq<char> {
    head(strip_ends(strip_ends(after_last_v(name, '/'), ".wav"@), ".mp3"@), 26)
}

/// A track's label.
pub fn track_stem(name: &str) -> (r: String)
    ensures
        r@ == stem_v(name@),
{
    let base = trim_end_matches(trim_end_matches(after_last(name, '/'), ".wav"), ".mp3");
    copy(take_chars(base, 26))
}

/// What the agent is asked when a bed is to be composed.
pub open spec fn brief_v(total: Seq<char>) -> Seq<char> {
    "(cutting room) I'm editing a video in the Imagine window ("@ + (if total.len() == 0 {
        "empty timeline so far"@
    } else {
        total
    })
        + "). Compose a music bed for it with your sonus tools — something short and cinematic that fits the cut. When the track has rendered into the sonus library, tell me its filename; I'll score the cut with it from the 🎵 SCORE picker."@
}

/// What the agent is asked when a bed is to be composed.
pub fn cut_compose_prompt(total: &str) -> (r: String)
    ensures
        r@ == brief_v(total@),
{
    cat3(
        "(cutting room) I'm editing a video in the Imagine window (",
        if total.is_empty() {
            "empty timeline so far"
        } else {
            total
        },
        "). Compose a music bed for it with your sonus tools — something short and cinematic that fits the cut. When the track has rendered into the sonus library, tell me its filename; I'll score the cut with it from the 🎵 SCORE picker.",
    )
}

/// The request to import a track.
pub open spec fn import_v(name: Seq<char>, data: Seq<char>) -> JsonV {
    JsonV::Obj(
        seq![
            ("data"@, JsonV::Str(data)),
            ("filename"@, JsonV::Str(name)),
            ("note"@, JsonV::Str("sonus · "@ + name)),
        ],
    )
}

/// Builds the request to import a track.
pub fn import_body(name: &str, data: &str) -> (r: Json)
    ensures
        r@ == import_v(name@, data@),
{
    let mut e: Vec<(String, Json)> = Vec::new();
    put(&mut e, "data", Json::str(data));
    put(&mut e, "filename", Json::str(name));
    put(&mut e, "note", Json::Str(cat("sonus · ", name)));
    assert(entries(e@) =~= import_v(name@, data@)->Obj_0);
    Json::object(e)
}

/// The number of an imported track, or why there is none.
pub fn imported_id(job: &Json) -> (r: Result<String, String>)
    ensures
        match r {
            Ok(id) => text_at(job@, "job_id"@) == Some(id@),
            Err(e) => text_at(job@, "job_id"@) is None && e@ == "import gave no job id"@,
        },
{
    match job.str_at("job_id") {
        Some(id) => Ok(copy(id)),
        None => Err(copy("import gave no job id")),
    }
}

/// The place of a track among those that were brought in, from `i` on.
pub open spec fn track_place(t: Seq<(Seq<char>, Seq<char>)>, name: Seq<char>, i: int) -> int
    decreases t.len() - i,
{
    if 0 <= i < t.len() && t[i].0 != name {
        track_place(t, name, i + 1)
    } else {
        i
    }
}

/// The number under which a track was brought in.
pub open spec fn track_id(r: CutRoomV, name: Seq<char>) -> Option<Seq<char>> {
    let i = track_place(r.imported, name, 0);
    if i < r.imported.len() {
        Some(r.imported[i].1)
    } else {
        None
    }
}

/// The room with a track below the cut.
pub open spec fn scored(r: CutRoomV, name: Seq<char>, id: Seq<char>) -> CutRoomV {
    CutRoomV { music: Some((id, stem_v(name))), ..r }
}

/// The room that remembers under which number a track was brought in.
pub open spec fn remembered(r: CutRoomV, name: Seq<char>, id: Seq<char>) -> CutRoomV {
    let i = track_place(r.imported, name, 0);
    CutRoomV {
        imported: if i < r.imported.len() {
            r.imported.update(i, (name, id))
        } else {
            r.imported.push((name, id))
        },
        ..r
    }
}

/// What is said of a scored cut.
pub open spec fn scored_note(name: Seq<char>) -> Seq<char> {
    "🎵 scored with "@ + stem_v(name)
}

impl CutRoom {
    fn find_track(&self, name: &str) -> (r: usize)
        ensures
            r == track_place(self@.imported, name@, 0),
            r <= self.imported@.len(),
    {
        let ghost t = self@.imported;
        let mut i: usize = 0;
        while i < self.imported.len() && !same(self.imported[i].0.as_str(), name)
            invariant
                i <= self.imported@.len(),
                t == pairs(self.imported@),
                track_place(t, name@, 0) == track_place(t, name@, i as int),
            decreases self.imported@.len() - i,
        {
            i = i + 1;
        }
        i
    }

    /// A track is to go below the cut. One that was brought in before is used as it is;
    /// for any other, says that it has to be brought in.
    pub fn score(&mut self, name: &str) -> (r: Option<String>)
        ensures
            match track_id(old(self)@, name@) {
                Some(id) => {
                    &&& final(self)@ == scored(old(self)@, name@, id)
                    &&& r is Some
                    &&& r->0@ == scored_note(name@)
                },
                None => final(self)@ == old(self)@ && r is None,
            },
    {
        let i: usize = self.find_track(name);
        if i < self.imported.len() {
            let id = self.imported[i].1.clone();
            self.music = Some((id, track_stem(name)));
            Some(cat("🎵 scored with ", track_stem(name).as_str()))
        } else {
            None
        }
    }

    /// A track was brought in: it goes below the cut, and is remembered.
    pub fn bring_in(&mut self, name: &str, id: &str) -> (note: String)
        ensures
            final(self)@ == scored(remembered(old(self)@, name@, id@), name@, id@),
            note@ == scored_note(name@),
    {
        let ghost before = self@.imported;
        let i: usize = self.find_track(name);
        if i < self.imported.len() {
            self.imported.set(i, (copy(name), copy(id)));
            assert(pairs(self.imported@) =~= before.update(i as int, (name@, id@)));
        } else {
            self.imported.push((copy(name), copy(id)));
            assert(pairs(self.imported@) =~= before.push((name@, id@)));
        }
        self.music = Some((copy(id), track_stem(name)));
        cat("🎵 scored with ", track_stem(name).as_str())
    }
}

// ── Laws ────────────────────────────────────────────────────────────────────

proof fn track_place_bounds(t: Seq<(Seq<char>, Seq<char>)>, name: Seq<char>, i: int)
    requires
        0 <= i <= t.len(),
    ensures
        i <= track_place(t, name, i) <= t.len(),
        track_place(t, name, i) < t.len() ==> t[track_place(t, name, i)].0 == name,
        forall|j: int| i <= j < track_place(t, name, i) ==> (#[trigger] t[j]).0 != name,
    decreases t.len() - i,
{
    if i < t.len() && t[i].0 != name {
        track_place_bounds(t, name, i + 1);
    }
}

/// A track that was brought in is not brought in again: scoring with it anew uses the
/// number that it got.
pub proof fn tracks_are_brought_in_once(r: CutRoomV, name: Seq<char>, id: Seq<char>)
    ensures
        track_id(remembered(r, name, id), name) == Some(id),
{
    track_place_bounds(r.imported, name, 0);
    let t = remembered(r, name, id).imported;
    track_place_bounds(t, name, 0);
    let i = track_place(r.imported, name, 0);
    if i < r.imported.len() {
        assert forall|j: int| 0 <= j < i implies (#[trigger] t[j]).0 != name by {
            assert(t[j] == r.imported[j]);
        }
        assert(t[i].0 == name);
    } else {
        assert forall|j: int| 0 <= j < i implies (#[trigger] t[j]).0 != name by {
            assert(t[j] == r.imported[j]);
        }
        assert(t[i].0 == name);
    }
}

} // verus!
