//! The studio: what is asked of the node that makes pictures and videos, and what its
//! answers come to.
use vstd::prelude::*;
use crate::json::{entries, field, items_v, num_at, put, text_at, text_or, uint_json, Json, JsonV};
use crate::pictures::is_success;
use crate::reader::{json_str, str_v};
use crate::text::{
    begins, cat, cat3, chars_of, copy, dec, dec_u64, head, same, starts_with, strip_prefix,
    take_chars, trim, trimmed, views,
};

verus! {

broadcast use {
    crate::text::views_push,
    crate::text::views_empty,
    crate::json::entries_empty,
};

// ── The rail of jobs ────────────────────────────────────────────────────────

/// A job on the rail.
#[derive(Debug, PartialEq)]
pub struct ImagineRow {
    pub id: String,
    pub mode: String,
    pub status: String,
    pub model: String,
    pub when: String,
    pub err: String,
    pub prompt: String,
}

/// The model of an [`ImagineRow`].
pub struct RowV {
    pub id: Seq<char>,
    pub mode: Seq<char>,
    pub status: Seq<char>,
    pub model: Seq<char>,
    pub when: Seq<char>,
    pub err: Seq<char>,
    pub prompt: Seq<char>,
}

impl View for ImagineRow {
    type V = RowV;

    open spec fn view(&self) -> RowV {
        RowV {
            id: self.id@,
            mode: self.mode@,
            status: self.status@,
            model: self.model@,
            when: self.when@,
            err: self.err@,
            prompt: self.prompt@,
        }
    }
}

/// A moment with a space in the place of its `T`.
pub open spec fn spaced(s: Seq<char>) -> Seq<char> {
    Seq::new(
        s.len(),
        |i: int|
            if s[i] == 'T' {
                ' '
            } else {
                s[i]
            },
    )
}

/// A model's name without what all of them share.
pub open spec fn short_model(m: Seq<char>) -> Seq<char> {
    if begins(m, "grok-imagine-"@) {
        m.skip("grok-imagine-"@.len() as int)
    } else {
        m
    }
}

/// The row of a job that has a number.
pub open spec fn row_v(j: JsonV, id: Seq<char>) -> RowV {
    RowV {
        id,
        mode: str_v(j, "mode"@),
        status: text_or(j, "status"@, "?"@),
        model: short_model(str_v(j, "model"@)),
        when: head(spaced(str_v(j, "created_at"@)), 16),
        err: str_v(j, "error"@),
        prompt: str_v(j, "prompt"@),
    }
}

/// The rows of the first `n` jobs; one without a number has none.
pub open spec fn rows_v(a: Seq<JsonV>, n: int) -> Seq<RowV>
    decreases n,
{
    if n <= 0 {
        Seq::empty()
    } else {
        match text_at(a[n - 1], "job_id"@) {
            Some(id) => rows_v(a, n - 1).push(row_v(a[n - 1], id)),
            None => rows_v(a, n - 1),
        }
    }
}

/// The rows of a list of jobs; what is no list has none.
pub open spec fn job_rows(v: JsonV) -> Seq<RowV> {
    match items_v(v) {
        Some(a) => rows_v(a, a.len() as int),
        None => Seq::empty(),
    }
}

fn space_out(s: &str) -> (r: String)
    ensures
        r@ == spaced(s@),
{
    let v = chars_of(s);
    let mut out = String::new();
    for i in 0..v.len()
        invariant
            v@ == s@,
            out@ == spaced(s@).take(i as int),
    {
        let c = if v[i] == 'T' {
            ' '
        } else {
            v[i]
        };
        out.push(c);
        assert(spaced(s@).take(i as int).push(spaced(s@)[i as int]) =~= spaced(s@).take(
            i as int + 1,
        ));
    }
    assert(spaced(s@).take(s@.len() as int) =~= spaced(s@));
    out
}

fn job_row(j: &Json, id: &str) -> (r: ImagineRow)
    ensures
        r@ == row_v(j@, id@),
{
    let full = json_str(j, "model");
    let model = match strip_prefix(full.as_str(), "grok-imagine-") {
        Some(rest) => copy(rest),
        None => copy(full.as_str()),
    };
    let when = space_out(json_str(j, "created_at").as_str());
    ImagineRow {
        id: copy(id),
        mode: json_str(j, "mode"),
        status: j.str_or("status", "?"),
        model,
        when: copy(take_chars(when.as_str(), 16)),
        err: json_str(j, "error"),
        prompt: json_str(j, "prompt"),
    }
}

/// The rows of a list of jobs.
pub fn imagine_job_rows(v: &Json) -> (r: Vec<ImagineRow>)
    ensures
        views(r@) == job_rows(v@),
{
    let mut out: Vec<ImagineRow> = Vec::new();
    match v.as_array() {
        Some(arr) => {
            let ghost a = views(arr@);
            for i in 0..arr.len()
                invariant
                    a == views(arr@),
                    views(out@) == rows_v(a, i as int),
            {
                assert(a[i as int] == arr@[i as int]@);
                match arr[i].str_at("job_id") {
                    Some(id) => {
                        out.push(job_row(&arr[i], id));
                    },
                    None => {},
                }
            }
            assert(a.len() == arr@.len());
        },
        None => {},
    }
    out
}

/// Why there are no rows.
#[derive(Clone, Copy, Debug, PartialEq, Eq, Structural)]
pub enum JobsError {
    /// The node does not take the token.
    Auth,
    /// The node cannot be reached.
    Offline,
    /// There is no token.
    Unconfigured,
}

/// The rows from the answer to a request for them. Without an answer, and with one that
/// is neither a success nor a refusal, the node counts as unreachable.
pub fn jobs_outcome(code: Option<u16>, body: &Json) -> (r: Result<Vec<ImagineRow>, JobsError>)
    ensures
        match r {
            Ok(rows) => code is Some && is_success(code->0) && views(rows@) == job_rows(body@),
            Err(JobsError::Auth) => code == Some(401u16) || code == Some(403u16),
            Err(JobsError::Offline) => code is None || (!is_success(code->0) && code->0 != 401
                && code->0 != 403),
            Err(JobsError::Unconfigured) => false,
        },
{
    match code {
        Some(c) => {
            if c == 401 || c == 403 {
                Err(JobsError::Auth)
            } else if c >= 200 && c <= 299 {
                Ok(imagine_job_rows(body))
            } else {
                Err(JobsError::Offline)
            }
        },
        None => Err(JobsError::Offline),
    }
}

/// The word for why there is no list of jobs.
pub open spec fn jobs_error_v(e: JobsError) -> Seq<char> {
    match e {
        JobsError::Auth => "auth"@,
        JobsError::Offline => "offline"@,
        JobsError::Unconfigured => "unconfigured"@,
    }
}

impl JobsError {
    /// The word for why there is no list of jobs.
    pub fn word(&self) -> (r: &'static str)
        ensures
            r@ == jobs_error_v(*self),
    {
        match self {
            JobsError::Auth => "auth",
            JobsError::Offline => "offline",
            JobsError::Unconfigured => "unconfigured",
        }
    }
}

/// The rail: how the node answered last, and the jobs that it named.
#[derive(Debug)]
pub struct Jobs {
    pub status: String,
    pub rows: Vec<ImagineRow>,
}

/// The model of [`Jobs`].
pub struct JobsV {
    pub status: Seq<char>,
    pub rows: Seq<RowV>,
}

impl View for Jobs {
    type V = JobsV;

    open spec fn view(&self) -> JobsV {
        JobsV { status: self.status@, rows: views(self.rows@) }
    }
}

/// The rail after a request for the jobs. Status and rows move together: where the request
/// failed, no row is left under the word for why.
pub open spec fn landed(outcome: Result<Seq<RowV>, JobsError>) -> JobsV {
    match outcome {
        Ok(rows) => JobsV { status: "ok"@, rows },
        Err(e) => JobsV { status: jobs_error_v(e), rows: Seq::empty() },
    }
}

/// The model of what a request for the jobs came to.
pub open spec fn outcome_v(o: Result<Vec<ImagineRow>, JobsError>) -> Result<Seq<RowV>, JobsError> {
    match o {
        Ok(rows) => Ok(views(rows@)),
        Err(e) => Err(e),
    }
}

impl Jobs {
    /// A rail before the first request.
    pub fn new() -> (r: Jobs)
        ensures
            r@ == (JobsV { status: ""@, rows: Seq::empty() }),
    {
        Jobs { status: copy(""), rows: Vec::new() }
    }

    /// A request for the jobs came to its end.
    pub fn land(&mut self, outcome: Result<Vec<ImagineRow>, JobsError>)
        ensures
            final(self)@ == landed(outcome_v(outcome)),
    {
        match outcome {
            Ok(rows) => {
                self.status = copy("ok");
                self.rows = rows;
            },
            Err(e) => {
                self.status = copy(e.word());
                self.rows = Vec::new();
            },
        }
    }
}

/// No job is shown but under a success: whatever was shown before, a refusal or a node out
/// of reach leaves none, and says which it was.
pub proof fn jobs_show_only_under_success(outcome: Result<Seq<RowV>, JobsError>)
    ensures
        landed(outcome).rows.len() > 0 ==> landed(outcome).status == "ok"@,
        landed(outcome).status == "ok"@ <==> outcome is Ok,
        outcome is Ok ==> landed(outcome).rows == outcome->Ok_0,
{
    reveal_strlit("ok");
    reveal_strlit("auth");
    reveal_strlit("offline");
    reveal_strlit("unconfigured");
    assert("ok"@.len() == 2 && "auth"@.len() == 4);
    assert("offline"@.len() == 7 && "unconfigured"@.len() == 12);
}

// ── Requests ────────────────────────────────────────────────────────────────

/// What the answer to a request for a job comes to.
pub open spec fn posted_v(code: u16, body: JsonV) -> Result<JsonV, Seq<char>> {
    if code == 401 || code == 403 {
        Err("token rejected — check IMAGINARIUM_TOKEN"@)
    } else if !is_success(code) {
        Err(
            "HTTP "@ + dec(code as nat) + ": "@ + text_or(body, "error"@, "generation failed"@),
        )
    } else {
        Ok(body)
    }
}

/// What the answer to a request for a job comes to.
pub fn post_outcome(code: u16, body: Json) -> (r: Result<Json, String>)
    ensures
        match r {
            Ok(j) => posted_v(code, body@) == Ok::<JsonV, Seq<char>>(j@),
            Err(e) => posted_v(code, body@) == Err::<JsonV, Seq<char>>(e@),
        },
{
    if code == 401 || code == 403 {
        Err(copy("token rejected — check IMAGINARIUM_TOKEN"))
    } else if code < 200 || code > 299 {
        let mut out = cat3("HTTP ", dec_u64(code as u64).as_str(), ": ");
        out.append(body.str_or("error", "generation failed").as_str());
        Err(out)
    } else {
        Ok(body)
    }
}

/// An entry that is there only where it says something of its own.
pub open spec fn chosen(key: Seq<char>, value: Seq<char>, usual: Seq<char>) -> Seq<
    (Seq<char>, JsonV),
> {
    if value.len() == 0 || value == usual {
        Seq::empty()
    } else {
        seq![(key, JsonV::Str(value))]
    }
}

/// The model, where it is not left to the node.
pub open spec fn model_entry(model: Seq<char>) -> Seq<(Seq<char>, JsonV)> {
    if model == "auto"@ {
        Seq::empty()
    } else {
        seq![("model"@, JsonV::Str(model))]
    }
}

fn put_model(e: &mut Vec<(String, Json)>, model: &str)
    ensures
        entries(final(e)@) == entries(old(e)@) + model_entry(model@),
{
    if !same(model, "auto") {
        put(e, "model", Json::str(model));
    }
    assert(entries(e@) =~= entries(old(e)@) + model_entry(model@));
}

fn put_chosen(e: &mut Vec<(String, Json)>, key: &str, value: &str, usual: &str)
    ensures
        entries(final(e)@) == entries(old(e)@) + chosen(key@, value@, usual@),
{
    if !value.is_empty() && !same(value, usual) {
        put(e, key, Json::str(value));
    }
    assert(entries(e@) =~= entries(old(e)@) + chosen(key@, value@, usual@));
}

/// The request for pictures.
pub open spec fn image_body_v(
    prompt: Seq<char>,
    model: Seq<char>,
    aspect: Seq<char>,
    n: u32,
) -> JsonV {
    JsonV::Obj(
        seq![
            ("prompt"@, JsonV::Str(prompt)),
            ("n"@, uint_json(n as u64)),
            ("aspect_ratio"@, JsonV::Str(aspect)),
        ] + model_entry(model),
    )
}

/// Builds the request for pictures.
pub fn imagine_image_body(prompt: &str, model: &str, aspect: &str, n: u32) -> (r: Json)
    ensures
        r@ == image_body_v(prompt@, model@, aspect@, n),
{
    let mut e: Vec<(String, Json)> = Vec::new();
    put(&mut e, "prompt", Json::str(prompt));
    put(&mut e, "n", Json::uint(n as u64));
    put(&mut e, "aspect_ratio", Json::str(aspect));
    put_model(&mut e, model);
    assert(entries(e@) =~= image_body_v(prompt@, model@, aspect@, n)->Obj_0);
    Json::object(e)
}

/// The request for the still that a video is made from.
pub open spec fn still_body_v(prompt: Seq<char>, aspect: Seq<char>) -> JsonV {
    JsonV::Obj(
        seq![
            ("prompt"@, JsonV::Str(prompt)),
            ("n"@, uint_json(1)),
            ("model"@, JsonV::Str("quality"@)),
        ] + chosen("aspect_ratio"@, aspect, "default"@),
    )
}

/// Builds the request for the still that a video is made from.
pub fn imagine_still_body(prompt: &str, aspect: &str) -> (r: Json)
    ensures
        r@ == still_body_v(prompt@, aspect@),
{
    let mut e: Vec<(String, Json)> = Vec::new();
    put(&mut e, "prompt", Json::str(prompt));
    put(&mut e, "n", Json::uint(1));
    put(&mut e, "model", Json::str("quality"));
    put_chosen(&mut e, "aspect_ratio", aspect, "default");
    assert(entries(e@) =~= still_body_v(prompt@, aspect@)->Obj_0);
    Json::object(e)
}

/// A number kept within bounds.
pub open spec fn bounded(n: i32, lo: u64, hi: u64) -> u64 {
    if n < lo {
        lo
    } else if n > hi {
        hi
    } else {
        n as u64
    }
}

fn bound(n: i32, lo: u64, hi: u64) -> (r: u64)
    requires
        lo <= hi <= 1000,
    ensures
        r == bounded(n, lo, hi),
{
    if n < lo as i32 {
        lo
    } else if n > hi as i32 {
        hi
    } else {
        n as u64
    }
}

/// Whether a video goes on from another.
pub open spec fn extends(source_id: Seq<char>, source_kind: Seq<char>) -> bool {
    source_kind == "video"@ && source_id.len() > 0
}

/// The path and the body of a request for a video: one that goes on from another, one
/// that starts from a picture, or one from words alone. Nobody waits for it.
pub open spec fn video_v(
    prompt: Seq<char>,
    model: Seq<char>,
    duration: i32,
    resolution: Seq<char>,
    aspect: Seq<char>,
    source_id: Seq<char>,
    source_kind: Seq<char>,
) -> (Seq<char>, JsonV) {
    if extends(source_id, source_kind) {
        (
            "/v1/videos/extensions"@,
            JsonV::Obj(
                seq![
                    ("prompt"@, JsonV::Str(prompt)),
                    ("video"@, JsonV::Str("library:"@ + source_id)),
                    ("duration"@, uint_json(bounded(duration, 2, 10))),
                    ("no_wait"@, JsonV::Bool(true)),
                ] + model_entry(model),
            ),
        )
    } else {
        (
            "/v1/videos/generations"@,
            JsonV::Obj(
                seq![
                    ("prompt"@, JsonV::Str(prompt)),
                    ("duration"@, uint_json(bounded(duration, 1, 15))),
                    ("no_wait"@, JsonV::Bool(true)),
                ] + (if source_kind == "image"@ && source_id.len() > 0 {
                    seq![("image"@, JsonV::Str("library:"@ + source_id))]
                } else {
                    Seq::empty()
                }) + model_entry(model) + chosen("resolution"@, resolution, "default"@) + chosen(
                    "aspect_ratio"@,
                    aspect,
                    "default"@,
                ),
            ),
        )
    }
}

/// Builds the path and the body of a request for a video.
pub fn imagine_video_body(
    prompt: &str,
    model: &str,
    duration: i32,
    resolution: &str,
    aspect: &str,
    source_id: &str,
    source_kind: &str,
) -> (r: (&'static str, Json))
    ensures
        (r.0@, r.1@) == video_v(
            prompt@,
            model@,
            duration,
            resolution@,
            aspect@,
            source_id@,
            source_kind@,
        ),
{
    let ghost want = video_v(
        prompt@,
        model@,
        duration,
        resolution@,
        aspect@,
        source_id@,
        source_kind@,
    );
    let mut e: Vec<(String, Json)> = Vec::new();
    put(&mut e, "prompt", Json::str(prompt));
    if same(source_kind, "video") && !source_id.is_empty() {
        put(&mut e, "video", Json::Str(cat("library:", source_id)));
        put(&mut e, "duration", Json::uint(bound(duration, 2, 10)));
        put(&mut e, "no_wait", Json::Bool(true));
        put_model(&mut e, model);
        assert(entries(e@) =~= want.1->Obj_0);
        ("/v1/videos/extensions", Json::object(e))
    } else {
        put(&mut e, "duration", Json::uint(bound(duration, 1, 15)));
        put(&mut e, "no_wait", Json::Bool(true));
        if same(source_kind, "image") && !source_id.is_empty() {
            put(&mut e, "image", Json::Str(cat("library:", source_id)));
        }
        put_model(&mut e, model);
        put_chosen(&mut e, "resolution", resolution, "default");
        put_chosen(&mut e, "aspect_ratio", aspect, "default");
        assert(entries(e@) =~= want.1->Obj_0);
        ("/v1/videos/generations", Json::object(e))
    }
}

/// Builds the path and the body of the second request of a cinematic video, which sets a
/// still in motion.
pub fn imagine_cinematic_body(prompt: &str, secs: i32, aspect: &str, still: &str) -> (r: (
    &'static str,
    Json,
))
    ensures
        (r.0@, r.1@) == video_v(prompt@, "1.5"@, secs, "1080p"@, aspect@, still@, "image"@),
{
    imagine_video_body(prompt, "1.5", secs, "1080p", aspect, still, "image")
}

/// The pictures that the first `n` sources refer to.
pub open spec fn refs_v(sources: Seq<(Seq<char>, Seq<char>)>, n: int) -> Seq<JsonV>
    decreases n,
{
    if n <= 0 {
        Seq::empty()
    } else {
        refs_v(sources, n - 1).push(JsonV::Str("library:"@ + sources[n - 1].0))
    }
}

/// The most pictures that an edit starts from.
pub const EDIT_MAX: usize = 3;

/// The request for an edit of up to three pictures.
pub open spec fn edit_body_v(
    prompt: Seq<char>,
    n: u32,
    sources: Seq<(Seq<char>, Seq<char>)>,
) -> JsonV {
    let k = if sources.len() > EDIT_MAX {
        EDIT_MAX as int
    } else {
        sources.len() as int
    };
    JsonV::Obj(
        seq![
            ("prompt"@, JsonV::Str(prompt)),
            ("images"@, JsonV::Arr(refs_v(sources, k))),
            ("n"@, uint_json(n as u64)),
        ],
    )
}

/// Builds the request for an edit.
pub fn imagine_edit_body(prompt: &str, n: u32, sources: &Vec<(String, String)>) -> (r: Json)
    ensures
        r@ == edit_body_v(prompt@, n, crate::cut::pairs(sources@)),
{
    let ghost all = crate::cut::pairs(sources@);
    let k: usize = if sources.len() > EDIT_MAX {
        EDIT_MAX
    } else {
        sources.len()
    };
    let mut list: Vec<Json> = Vec::new();
    for i in 0..k
        invariant
            k <= sources@.len(),
            all == crate::cut::pairs(sources@),
            views(list@) == refs_v(all, i as int),
    {
        list.push(Json::Str(cat("library:", sources[i].0.as_str())));
    }
    let mut e: Vec<(String, Json)> = Vec::new();
    put(&mut e, "prompt", Json::str(prompt));
    put(&mut e, "images", Json::list(list));
    put(&mut e, "n", Json::uint(n as u64));
    assert(entries(e@) =~= edit_body_v(prompt@, n, all)->Obj_0);
    Json::object(e)
}

// ── What came of it ─────────────────────────────────────────────────────────

/// What pictures cost, where the node says so.
pub open spec fn cost_note(job: JsonV) -> Seq<char> {
    match field(job, "usage"@) {
        Some(u) => match num_at(u, "estimated_usd"@) {
            Some(n) => " · ~$"@ + n.hundredths,
            None => Seq::empty(),
        },
        None => Seq::empty(),
    }
}

/// The note on pictures that are done.
pub open spec fn done_note_v(job: JsonV, n: u32) -> Seq<char> {
    "done"@ + cost_note(job) + (if n > 1 {
        " · "@ + dec(n as nat) + " images in the node library (first shown)"@
    } else {
        Seq::empty()
    })
}

/// The note on pictures that are done.
pub fn imagine_done_note(job: &Json, n: u32) -> (r: String)
    ensures
        r@ == done_note_v(job@, n),
{
    let mut out = copy("done");
    let cost = match job.get("usage") {
        Some(u) => match u.num_at("estimated_usd") {
            Some(c) => cat(" · ~$", c.hundredths.as_str()),
            None => String::new(),
        },
        None => String::new(),
    };
    out.append(cost.as_str());
    let extra = if n > 1 {
        cat3(" · ", dec_u64(n as u64).as_str(), " images in the node library (first shown)")
    } else {
        String::new()
    };
    out.append(extra.as_str());
    out
}

/// What a request for pictures came to.
#[derive(Debug)]
pub enum Generated {
    /// They are done: the first of this job is to be shown.
    Done { id: String },
    /// They are not: here is why, and the job where there is one.
    Failed { note: String, id: String },
}

/// The model of [`Generated`].
pub enum GeneratedV {
    Done { id: Seq<char> },
    Failed { note: Seq<char>, id: Seq<char> },
}

impl View for Generated {
    type V = GeneratedV;

    open spec fn view(&self) -> GeneratedV {
        match self {
            Generated::Done { id } => GeneratedV::Done { id: id@ },
            Generated::Failed { note, id } => GeneratedV::Failed { note: note@, id: id@ },
        }
    }
}

/// What a job for pictures came to.
pub open spec fn generated_v(job: JsonV) -> GeneratedV {
    let status = str_v(job, "status"@);
    let id = str_v(job, "job_id"@);
    if status == "done"@ && id.len() > 0 {
        GeneratedV::Done { id }
    } else {
        GeneratedV::Failed {
            note: status + ": "@ + text_or(job, "error"@, "job did not complete"@),
            id,
        }
    }
}

/// What a job for pictures came to.
pub fn generated(job: &Json) -> (r: Generated)
    ensures
        r@ == generated_v(job@),
{
    let status = json_str(job, "status");
    let id = json_str(job, "job_id");
    if same(status.as_str(), "done") && !id.as_str().is_empty() {
        Generated::Done { id }
    } else {
        let msg = job.str_or("error", "job did not complete");
        Generated::Failed { note: cat3(status.as_str(), ": ", msg.as_str()), id }
    }
}

/// The job of a still that a video can be made from, or why there is none.
pub open spec fn still_v(img: JsonV) -> Result<Seq<char>, Seq<char>> {
    let id = str_v(img, "job_id"@);
    if text_at(img, "status"@) == Some("done"@) && id.len() > 0 {
        Ok(id)
    } else {
        Err(
            "cinematic step 1 failed: "@ + text_or(
                img,
                "error"@,
                "still generation did not complete"@,
            ),
        )
    }
}

/// The job of a still that a video can be made from, or why there is none.
pub fn still_outcome(img: &Json) -> (r: Result<String, String>)
    ensures
        match r {
            Ok(id) => still_v(img@) == Ok::<Seq<char>, Seq<char>>(id@),
            Err(e) => still_v(img@) == Err::<Seq<char>, Seq<char>>(e@),
        },
{
    let id = json_str(img, "job_id");
    let done = match img.str_at("status") {
        Some(s) => same(s, "done"),
        None => false,
    };
    if done && !id.as_str().is_empty() {
        Ok(id)
    } else {
        let msg = img.str_or("error", "still generation did not complete");
        Err(cat("cinematic step 1 failed: ", msg.as_str()))
    }
}

/// What is said where there is no token to ask the node with.
pub fn no_token(importing: bool) -> (r: &'static str)
    ensures
        r@ == if importing {
            "no imaginarium token — see docs/imaginarium.md"@
        } else {
            "no token — see docs/imaginarium.md"@
        },
{
    if importing {
        "no imaginarium token — see docs/imaginarium.md"
    } else {
        "no token — see docs/imaginarium.md"
    }
}

/// What is said while pictures are made.
pub fn making_note(editing: bool) -> (r: &'static str)
    ensures
        r@ == if editing {
            "✎ editing…"@
        } else {
            "generating…"@
        },
{
    if editing {
        "✎ editing…"
    } else {
        "generating…"
    }
}

/// What is said while a video is submitted.
pub fn submitting_note(cinematic: bool) -> (r: &'static str)
    ensures
        r@ == if cinematic {
            "✨ 1/2 — crafting the quality still…"@
        } else {
            "submitting…"@
        },
{
    if cinematic {
        "✨ 1/2 — crafting the quality still…"
    } else {
        "submitting…"
    }
}

/// The model of the reply to a request for a job: the job, or why there is none.
pub open spec fn reply_v(r: Result<Json, String>) -> Result<JsonV, Seq<char>> {
    match r {
        Ok(job) => Ok(job@),
        Err(e) => Err(e@),
    }
}

/// What the first request of a cinematic video came to: the still's job, or a note that
/// says that it was this one that failed.
pub open spec fn crafted_v(reply: Result<JsonV, Seq<char>>) -> Result<Seq<char>, Seq<char>> {
    match reply {
        Ok(img) => still_v(img),
        Err(e) => Err("cinematic step 1 failed: "@ + e),
    }
}

/// What the first request of a cinematic video came to.
pub fn still_crafted(reply: &Result<Json, String>) -> (r: Result<String, String>)
    ensures
        match r {
            Ok(id) => crafted_v(reply_v(*reply)) == Ok::<Seq<char>, Seq<char>>(id@),
            Err(e) => crafted_v(reply_v(*reply)) == Err::<Seq<char>, Seq<char>>(e@),
        },
{
    match reply {
        Ok(img) => still_outcome(img),
        Err(e) => Err(cat("cinematic step 1 failed: ", e.as_str())),
    }
}

/// What a submitted video comes to: a note why it failed, or the job to watch.
pub open spec fn submitted_v(job: JsonV) -> Result<Seq<char>, Seq<char>> {
    if str_v(job, "status"@) == "failed"@ {
        Err("failed: "@ + text_or(job, "error"@, "submit failed"@))
    } else {
        Ok(str_v(job, "job_id"@))
    }
}

/// What a submitted video comes to.
pub fn submitted(job: &Json) -> (r: Result<String, String>)
    ensures
        match r {
            Ok(id) => submitted_v(job@) == Ok::<Seq<char>, Seq<char>>(id@),
            Err(e) => submitted_v(job@) == Err::<Seq<char>, Seq<char>>(e@),
        },
{
    if same(json_str(job, "status").as_str(), "failed") {
        Err(cat("failed: ", job.str_or("error", "submit failed").as_str()))
    } else {
        Ok(json_str(job, "job_id"))
    }
}

/// What a video that was handed to the node leaves in the window.
#[derive(Debug, PartialEq)]
pub struct HandedOff {
    pub note: String,
    /// The job to pick and to watch; empty where there is none.
    pub watch: String,
    /// Whether the prompt and the source are used up.
    pub used_up: bool,
}

/// The model of [`HandedOff`].
pub struct HandedOffV {
    pub note: Seq<char>,
    pub watch: Seq<char>,
    pub used_up: bool,
}

impl View for HandedOff {
    type V = HandedOffV;

    open spec fn view(&self) -> HandedOffV {
        HandedOffV { note: self.note@, watch: self.watch@, used_up: self.used_up }
    }
}

/// What a video that was handed to the node leaves in the window.
pub open spec fn handed_off_v(reply: Result<JsonV, Seq<char>>) -> HandedOffV {
    let failed = |note: Seq<char>| HandedOffV { note, watch: ""@, used_up: false };
    match reply {
        Ok(job) => match submitted_v(job) {
            Ok(watch) => HandedOffV {
                note: "🎞 rendering upstream (~30–90s) — the rail tracks it"@,
                watch,
                used_up: true,
            },
            Err(e) => failed(e),
        },
        Err(e) => failed(e),
    }
}

/// What a video that was handed to the node leaves in the window.
pub fn handed_off(reply: &Result<Json, String>) -> (r: HandedOff)
    ensures
        r@ == handed_off_v(reply_v(*reply)),
{
    match reply {
        Ok(job) => match submitted(job) {
            Ok(watch) => HandedOff {
                note: copy("🎞 rendering upstream (~30–90s) — the rail tracks it"),
                watch,
                used_up: true,
            },
            Err(note) => HandedOff { note, watch: copy(""), used_up: false },
        },
        Err(e) => HandedOff { note: copy(e.as_str()), watch: copy(""), used_up: false },
    }
}

/// What stands on the stage once pictures were asked for.
#[derive(Clone, Copy, Debug, PartialEq, Eq, Structural)]
pub enum Showing {
    /// The first of them.
    Picture,
    /// That it failed.
    Failure,
    /// What stood there before.
    AsBefore,
}

/// What a request for pictures leaves in the window.
#[derive(Debug, PartialEq)]
pub struct Made {
    pub note: String,
    /// The job that is picked; empty where none is.
    pub picked: String,
    pub shows: Showing,
    /// Whether the armed sources are used up.
    pub disarms: bool,
}

/// The model of [`Made`].
pub struct MadeV {
    pub note: Seq<char>,
    pub picked: Seq<char>,
    pub shows: Showing,
    pub disarms: bool,
}

impl View for Made {
    type V = MadeV;

    open spec fn view(&self) -> MadeV {
        MadeV {
            note: self.note@,
            picked: self.picked@,
            shows: self.shows,
            disarms: self.disarms,
        }
    }
}

/// What a request for `n` pictures leaves in the window. `preview` is what fetching the
/// first of them came to, and `editing` says whether sources were armed: they are used up
/// once the picture is there to be seen.
pub open spec fn made_v(
    reply: Result<JsonV, Seq<char>>,
    n: u32,
    preview: Option<Seq<char>>,
    editing: bool,
) -> MadeV {
    match reply {
        Ok(job) => match generated_v(job) {
            GeneratedV::Done { id } => match preview {
                None => MadeV {
                    note: done_note_v(job, n),
                    picked: id,
                    shows: Showing::Picture,
                    disarms: editing,
                },
                Some(e) => MadeV {
                    note: "generated, preview failed: "@ + e,
                    picked: id,
                    shows: Showing::AsBefore,
                    disarms: false,
                },
            },
            GeneratedV::Failed { note, id } => MadeV {
                note,
                picked: id,
                shows: Showing::Failure,
                disarms: false,
            },
        },
        Err(e) => MadeV { note: e, picked: ""@, shows: Showing::Failure, disarms: false },
    }
}

/// What a request for `n` pictures leaves in the window. `preview` is why the first of them
/// could not be fetched, where it could not.
pub fn made(reply: &Result<Json, String>, n: u32, preview: Option<&str>, editing: bool) -> (r: Made)
    ensures
        r@ == made_v(
            reply_v(*reply),
            n,
            match preview {
                Some(e) => Some(e@),
                None => None,
            },
            editing,
        ),
{
    match reply {
        Ok(job) => match generated(job) {
            Generated::Done { id } => match preview {
                None => Made {
                    note: imagine_done_note(job, n),
                    picked: id,
                    shows: Showing::Picture,
                    disarms: editing,
                },
                Some(e) => Made {
                    note: cat("generated, preview failed: ", e),
                    picked: id,
                    shows: Showing::AsBefore,
                    disarms: false,
                },
            },
            Generated::Failed { note, id } => Made {
                note,
                picked: id,
                shows: Showing::Failure,
                disarms: false,
            },
        },
        Err(e) => Made {
            note: copy(e.as_str()),
            picked: copy(""),
            shows: Showing::Failure,
            disarms: false,
        },
    }
}

// ── Looking at a job ────────────────────────────────────────────────────────

/// Whether a status is final.
pub open spec fn is_terminal(status: Seq<char>) -> bool {
    status == "done"@ || status == "failed"@ || status == "expired"@ || status == "cancelled"@
}

/// What is to be fetched for a job that was picked.
#[derive(Clone, Copy, Debug, PartialEq, Eq, Structural)]
pub enum Wanted {
    /// Its picture.
    Picture,
    /// Its clip.
    Clip,
    /// Nothing yet: it has to be driven to its end first.
    Watch,
    /// Nothing.
    Nothing,
}

/// What is to be fetched for a job: a picture that is done, a clip that is done, the end
/// of a clip that is not.
pub open spec fn wanted_v(job: JsonV) -> Wanted {
    let mode = str_v(job, "mode"@);
    let status = str_v(job, "status"@);
    let image = begins(mode, "image"@);
    if status == "done"@ && image {
        Wanted::Picture
    } else if status == "done"@ && mode.len() > 0 {
        Wanted::Clip
    } else if !image && mode.len() > 0 && (status == "pending"@ || status == "running"@) {
        Wanted::Watch
    } else {
        Wanted::Nothing
    }
}

/// What is to be fetched for a job.
pub fn wanted(job: &Json) -> (r: Wanted)
    ensures
        r == wanted_v(job@),
{
    let mode = json_str(job, "mode");
    let status = json_str(job, "status");
    let image = starts_with(mode.as_str(), "image");
    let done = same(status.as_str(), "done");
    if done && image {
        Wanted::Picture
    } else if done && !mode.as_str().is_empty() {
        Wanted::Clip
    } else if !image && !mode.as_str().is_empty() && (same(status.as_str(), "pending") || same(
        status.as_str(),
        "running",
    )) {
        Wanted::Watch
    } else {
        Wanted::Nothing
    }
}

/// What was fetched for a job.
#[derive(Debug)]
pub enum Fetched {
    Picture,
    Clip,
    /// Nothing; the text says why a clip could not be had, where one was wanted.
    Nothing { clip_error: String },
}

/// The model of [`Fetched`].
pub enum FetchedV {
    Picture,
    Clip,
    Nothing { clip_error: Seq<char> },
}

impl View for Fetched {
    type V = FetchedV;

    open spec fn view(&self) -> FetchedV {
        match self {
            Fetched::Picture => FetchedV::Picture,
            Fetched::Clip => FetchedV::Clip,
            Fetched::Nothing { clip_error } => FetchedV::Nothing { clip_error: clip_error@ },
        }
    }
}

/// What the stage shows, and what is said below it.
#[derive(Debug)]
pub struct Stage {
    /// "image", "video" or "error".
    pub kind: String,
    /// "ready", "rendering" or "idle"; empty where there is no video.
    pub video: String,
    pub note: String,
}

/// The model of a [`Stage`].
pub struct StageV {
    pub kind: Seq<char>,
    pub video: Seq<char>,
    pub note: Seq<char>,
}

impl View for Stage {
    type V = StageV;

    open spec fn view(&self) -> StageV {
        StageV { kind: self.kind@, video: self.video@, note: self.note@ }
    }
}

/// Something, and what stands behind it where that is anything.
pub open spec fn behind(a: Seq<char>, b: Seq<char>) -> Seq<char> {
    if b.len() == 0 {
        Seq::empty()
    } else {
        a + b
    }
}

/// The stage for a job that was picked, with what was fetched for it.
pub open spec fn stage_v(job: JsonV, f: FetchedV) -> StageV {
    let mode = str_v(job, "mode"@);
    let status = str_v(job, "status"@);
    let err = str_v(job, "error"@);
    let prompt = str_v(job, "prompt"@);
    match f {
        FetchedV::Picture => StageV {
            kind: "image"@,
            video: Seq::empty(),
            note: if prompt.len() == 0 {
                status
            } else {
                status + " · "@ + prompt
            },
        },
        FetchedV::Clip => StageV {
            kind: "video"@,
            video: "ready"@,
            note: mode + " · "@ + if prompt.len() == 0 {
                status
            } else {
                prompt
            },
        },
        FetchedV::Nothing { clip_error } => if !begins(mode, "image"@) && mode.len() > 0 {
            StageV {
                kind: "video"@,
                video: if wanted_v(job) == Wanted::Watch {
                    "rendering"@
                } else {
                    "idle"@
                },
                note: mode + " · "@ + status + (if clip_error.len() > 0 {
                    " · "@ + clip_error
                } else {
                    behind(" · "@, err)
                }),
            }
        } else {
            StageV {
                kind: "error"@,
                video: Seq::empty(),
                note: if err.len() == 0 {
                    status + " — no preview available"@
                } else {
                    err
                },
            }
        },
    }
}

/// The stage for a job that was picked.
pub fn stage(job: &Json, f: &Fetched) -> (r: Stage)
    ensures
        r@ == stage_v(job@, f@),
{
    let mode = json_str(job, "mode");
    let status = json_str(job, "status");
    let err = json_str(job, "error");
    let prompt = json_str(job, "prompt");
    match f {
        Fetched::Picture => {
            let note = if prompt.as_str().is_empty() {
                status
            } else {
                cat3(status.as_str(), " · ", prompt.as_str())
            };
            Stage { kind: copy("image"), video: String::new(), note }
        },
        Fetched::Clip => {
            let tail = if prompt.as_str().is_empty() {
                status
            } else {
                prompt
            };
            let note = cat3(mode.as_str(), " · ", tail.as_str());
            Stage { kind: copy("video"), video: copy("ready"), note }
        },
        Fetched::Nothing { clip_error } => {
            if !starts_with(mode.as_str(), "image") && !mode.as_str().is_empty() {
                let mut note = cat3(mode.as_str(), " · ", status.as_str());
                let tail = if !clip_error.as_str().is_empty() {
                    cat(" · ", clip_error.as_str())
                } else if !err.as_str().is_empty() {
                    cat(" · ", err.as_str())
                } else {
                    String::new()
                };
                note.append(tail.as_str());
                let video = match wanted(job) {
                    Wanted::Watch => copy("rendering"),
                    _ => copy("idle"),
                };
                Stage { kind: copy("video"), video, note }
            } else {
                let note = if err.as_str().is_empty() {
                    cat(status.as_str(), " — no preview available")
                } else {
                    err
                };
                Stage { kind: copy("error"), video: String::new(), note }
            }
        },
    }
}

// ── Watching jobs ───────────────────────────────────────────────────────────

/// How long a job is watched, in seconds.
pub const WATCH_SECS: u64 = 1200;

/// The jobs that are being watched.
#[derive(Debug)]
pub struct Watches {
    pub ids: Vec<String>,
}

impl View for Watches {
    type V = Seq<Seq<char>>;

    open spec fn view(&self) -> Seq<Seq<char>> {
        views(self.ids@)
    }
}

/// What is to be done after a look at a watched job.
#[derive(Clone, Copy, Debug, PartialEq, Eq, Structural)]
pub struct Look {
    /// Show the job anew, because it is done and still the one that is looked at.
    pub show: bool,
    /// Look again after a while.
    pub again: bool,
}

/// The first `n` texts that are not `x`.
pub open spec fn without(a: Seq<Seq<char>>, x: Seq<char>, n: int) -> Seq<Seq<char>>
    decreases n,
{
    if n <= 0 {
        Seq::empty()
    } else if a[n - 1] == x {
        without(a, x, n - 1)
    } else {
        without(a, x, n - 1).push(a[n - 1])
    }
}

/// What is to be done after a look at a watched job.
pub open spec fn look_v(id: Seq<char>, selected: Seq<char>, job: JsonV, elapsed: u64) -> Look {
    let terminal = is_terminal(str_v(job, "status"@));
    Look { show: terminal && selected == id, again: !terminal && elapsed <= WATCH_SECS }
}

impl Watches {
    /// Nothing is watched.
    pub fn new() -> (r: Watches)
        ensures
            r@ == Seq::<Seq<char>>::empty(),
    {
        Watches { ids: Vec::new() }
    }

    /// Starts to watch a job; says whether it was not watched yet.
    pub fn begin(&mut self, id: &str) -> (r: bool)
        ensures
            r == !old(self)@.contains(id@),
            final(self)@ == if old(self)@.contains(id@) {
                old(self)@
            } else {
                old(self)@.push(id@)
            },
    {
        for i in 0..self.ids.len()
            invariant
                self@ == old(self)@,
                forall|j: int| 0 <= j < i ==> self@[j] != id@,
        {
            if same(self.ids[i].as_str(), id) {
                assert(self@[i as int] == id@);
                return false;
            }
        }
        self.ids.push(copy(id));
        true
    }

    /// Takes in how a watched job stands; it is watched no more where that is final, or
    /// where it took too long.
    pub fn look(&mut self, id: &str, selected: &str, job: &Json, elapsed: u64) -> (r: Look)
        ensures
            r == look_v(id@, selected@, job@, elapsed),
            final(self)@ == if r.again {
                old(self)@
            } else {
                without(old(self)@, id@, old(self)@.len() as int)
            },
    {
        let status = json_str(job, "status");
        let s = status.as_str();
        let terminal = same(s, "done") || same(s, "failed") || same(s, "expired") || same(
            s,
            "cancelled",
        );
        let again = !terminal && elapsed <= WATCH_SECS;
        if !again {
            let ghost all = self@;
            let mut kept: Vec<String> = Vec::new();
            for i in 0..self.ids.len()
                invariant
                    all == views(self.ids@),
                    views(kept@) == without(all, id@, i as int),
            {
                if !same(self.ids[i].as_str(), id) {
                    kept.push(self.ids[i].clone());
                }
            }
            self.ids = kept;
        }
        Look { show: terminal && same(selected, id), again }
    }
}

// ── Posters ─────────────────────────────────────────────────────────────────

/// How a job's poster stands. One that could not be had is not asked for again.
#[derive(Clone, Copy, Debug, PartialEq, Eq, Structural)]
pub enum ThumbState {
    Loading,
    Ready,
    Failed,
}

/// The posters that were asked for.
#[derive(Debug)]
pub struct Thumbs {
    pub states: Vec<(String, ThumbState)>,
}

/// The most posters that are asked for at once.
pub const THUMB_BATCH: usize = 12;

/// The views of the posters.
pub open spec fn thumbs_v(v: Seq<(String, ThumbState)>) -> Seq<(Seq<char>, ThumbState)> {
    Seq::new(v.len(), |i: int| (v[i].0@, v[i].1))
}

impl View for Thumbs {
    type V = Seq<(Seq<char>, ThumbState)>;

    open spec fn view(&self) -> Seq<(Seq<char>, ThumbState)> {
        thumbs_v(self.states@)
    }
}

/// The place of a job's poster from `i` on; the end where it was not asked for.
pub open spec fn thumb_place(t: Seq<(Seq<char>, ThumbState)>, id: Seq<char>, i: int) -> int
    decreases t.len() - i,
{
    if 0 <= i < t.len() && t[i].0 != id {
        thumb_place(t, id, i + 1)
    } else {
        i
    }
}

/// How a job's poster stands.
pub open spec fn thumb_state(t: Seq<(Seq<char>, ThumbState)>, id: Seq<char>) -> Option<
    ThumbState,
> {
    let i = thumb_place(t, id, 0);
    if i < t.len() {
        Some(t[i].1)
    } else {
        None
    }
}

/// The jobs among the first `n` rows that are done and whose poster was not asked for,
/// as many as are asked for at once.
pub open spec fn missing_v(rows: Seq<RowV>, t: Seq<(Seq<char>, ThumbState)>, n: int) -> Seq<
    Seq<char>,
>
    decreases n,
{
    if n <= 0 {
        Seq::empty()
    } else {
        let before = missing_v(rows, t, n - 1);
        let r = rows[n - 1];
        if before.len() < THUMB_BATCH && r.status == "done"@ && thumb_state(t, r.id) is None {
            before.push(r.id)
        } else {
            before
        }
    }
}

/// The posters with a job's state set.
pub open spec fn set_v(t: Seq<(Seq<char>, ThumbState)>, id: Seq<char>, s: ThumbState) -> Seq<
    (Seq<char>, ThumbState),
> {
    let i = thumb_place(t, id, 0);
    if i < t.len() {
        t.update(i, (id, s))
    } else {
        t.push((id, s))
    }
}

/// The posters once the first `n` of a list are asked for.
pub open spec fn loading_v(t: Seq<(Seq<char>, ThumbState)>, ids: Seq<Seq<char>>, n: int) -> Seq<
    (Seq<char>, ThumbState),
>
    decreases n,
{
    if n <= 0 {
        t
    } else {
        set_v(loading_v(t, ids, n - 1), ids[n - 1], ThumbState::Loading)
    }
}

impl Thumbs {
    /// No poster was asked for.
    pub fn new() -> (r: Thumbs)
        ensures
            r@ == Seq::<(Seq<char>, ThumbState)>::empty(),
    {
        let t = Thumbs { states: Vec::new() };
        assert(t@ =~= Seq::<(Seq<char>, ThumbState)>::empty());
        t
    }

    fn find(&self, id: &str) -> (r: usize)
        ensures
            r == thumb_place(self@, id@, 0),
            r <= self.states@.len(),
    {
        let mut i: usize = 0;
        while i < self.states.len() && !same(self.states[i].0.as_str(), id)
            invariant
                i <= self.states@.len(),
                thumb_place(self@, id@, 0) == thumb_place(self@, id@, i as int),
            decreases self.states@.len() - i,
        {
            i = i + 1;
        }
        i
    }

    /// How a job's poster stands.
    pub fn state(&self, id: &str) -> (r: Option<ThumbState>)
        ensures
            r == thumb_state(self@, id@),
    {
        let i: usize = self.find(id);
        if i < self.states.len() {
            Some(self.states[i].1)
        } else {
            None
        }
    }

    /// Whether a job's poster has come.
    pub fn has_poster(&self, id: &str) -> (r: bool)
        ensures
            r == (thumb_state(self@, id@) == Some(ThumbState::Ready)),
    {
        match self.state(id) {
            Some(ThumbState::Ready) => true,
            _ => false,
        }
    }

    /// Sets how a job's poster stands.
    pub fn set(&mut self, id: &str, s: ThumbState)
        ensures
            final(self)@ == set_v(old(self)@, id@, s),
    {
        let ghost before = self@;
        let i: usize = self.find(id);
        if i < self.states.len() {
            self.states.set(i, (copy(id), s));
            assert(self@ =~= before.update(i as int, (id@, s)));
        } else {
            self.states.push((copy(id), s));
            assert(self@ =~= before.push((id@, s)));
        }
    }

    /// Asks for the posters of the jobs that are done and have none; says of which.
    pub fn backfill(&mut self, rows: &Vec<ImagineRow>) -> (r: Vec<String>)
        ensures
            views(r@) == missing_v(views(rows@), old(self)@, rows@.len() as int),
            final(self)@ == loading_v(old(self)@, views(r@), r@.len() as int),
    {
        let ghost all = views(rows@);
        let mut ids: Vec<String> = Vec::new();
        for i in 0..rows.len()
            invariant
                all == views(rows@),
                self@ == old(self)@,
                views(ids@) == missing_v(all, self@, i as int),
        {
            assert(all[i as int] == rows@[i as int]@);
            assert(views(ids@).len() == ids@.len());
            if ids.len() < THUMB_BATCH && same(rows[i].status.as_str(), "done") && self.state(
                rows[i].id.as_str(),
            ).is_none() {
                ids.push(rows[i].id.clone());
            }
        }
        for i in 0..ids.len()
            invariant
                self@ == loading_v(old(self)@, views(ids@), i as int),
        {
            self.set(ids[i].as_str(), ThumbState::Loading);
        }
        ids
    }
}

// ── Edit sources ────────────────────────────────────────────────────────────

/// The pictures that the next edit starts from, each with its label.
#[derive(Debug)]
pub struct EditSources {
    pub list: Vec<(String, String)>,
}

impl View for EditSources {
    type V = Seq<(Seq<char>, Seq<char>)>;

    open spec fn view(&self) -> Seq<(Seq<char>, Seq<char>)> {
        crate::cut::pairs(self.list@)
    }
}

/// Whether a job is among the sources.
pub open spec fn is_source(s: Seq<(Seq<char>, Seq<char>)>, id: Seq<char>) -> bool {
    exists|i: int| 0 <= i < s.len() && (#[trigger] s[i]).0 == id
}

/// The sources with one more, where it is new and there is room.
pub open spec fn armed_v(
    s: Seq<(Seq<char>, Seq<char>)>,
    id: Seq<char>,
    stem: Seq<char>,
) -> Seq<(Seq<char>, Seq<char>)> {
    if is_source(s, id) || s.len() >= EDIT_MAX {
        s
    } else {
        s.push((id, stem))
    }
}

/// What is said about it.
pub open spec fn armed_note(
    s: Seq<(Seq<char>, Seq<char>)>,
    id: Seq<char>,
    stem: Seq<char>,
) -> Seq<char> {
    if is_source(s, id) {
        "already a source"@
    } else if s.len() >= EDIT_MAX {
        "edit takes at most 3 sources"@
    } else {
        "✎ source armed: "@ + stem
    }
}

/// The first `n` sources without a job.
pub open spec fn disarmed_v(s: Seq<(Seq<char>, Seq<char>)>, id: Seq<char>, n: int) -> Seq<
    (Seq<char>, Seq<char>),
>
    decreases n,
{
    if n <= 0 {
        Seq::empty()
    } else if s[n - 1].0 == id {
        disarmed_v(s, id, n - 1)
    } else {
        disarmed_v(s, id, n - 1).push(s[n - 1])
    }
}

/// The place of a job's row from `i` on; the end where it has none.
pub open spec fn row_place(rows: Seq<RowV>, id: Seq<char>, i: int) -> int
    decreases rows.len() - i,
{
    if 0 <= i < rows.len() && rows[i].id != id {
        row_place(rows, id, i + 1)
    } else {
        i
    }
}

/// A source's label: the start of its prompt, of its model, or of its number.
pub open spec fn stem_v(rows: Seq<RowV>, id: Seq<char>) -> Seq<char> {
    let i = row_place(rows, id, 0);
    if i < rows.len() {
        head(
            if rows[i].prompt.len() == 0 {
                rows[i].model
            } else {
                rows[i].prompt
            },
            18,
        )
    } else {
        head(id, 8)
    }
}

/// A source's label.
pub fn source_stem(rows: &Vec<ImagineRow>, id: &str) -> (r: String)
    ensures
        r@ == stem_v(views(rows@), id@),
{
    let ghost all = views(rows@);
    let mut i: usize = 0;
    while i < rows.len() && !same(rows[i].id.as_str(), id)
        invariant
            i <= rows@.len(),
            all == views(rows@),
            row_place(all, id@, 0) == row_place(all, id@, i as int),
        decreases rows@.len() - i,
    {
        i = i + 1;
    }
    if i < rows.len() {
        assert(all[i as int] == rows@[i as int]@);
        let s = if rows[i].prompt.as_str().is_empty() {
            rows[i].model.as_str()
        } else {
            rows[i].prompt.as_str()
        };
        copy(take_chars(s, 18))
    } else {
        copy(take_chars(id, 8))
    }
}

impl EditSources {
    /// No sources.
    pub fn new() -> (r: EditSources)
        ensures
            r@ == Seq::<(Seq<char>, Seq<char>)>::empty(),
    {
        let s = EditSources { list: Vec::new() };
        assert(s@ =~= Seq::<(Seq<char>, Seq<char>)>::empty());
        s
    }

    fn holds(&self, id: &str) -> (r: bool)
        ensures
            r == is_source(self@, id@),
    {
        for i in 0..self.list.len()
            invariant
                forall|j: int| 0 <= j < i ==> (#[trigger] self@[j]).0 != id@,
        {
            if same(self.list[i].0.as_str(), id) {
                assert(self@[i as int].0 == id@);
                return true;
            }
        }
        false
    }

    /// A job becomes a source, where it is new and there is room; says what came of it.
    pub fn arm(&mut self, id: &str, stem: &str) -> (note: String)
        ensures
            final(self)@ == armed_v(old(self)@, id@, stem@),
            note@ == armed_note(old(self)@, id@, stem@),
    {
        assert(self@.len() == self.list@.len());
        if self.holds(id) {
            return copy("already a source");
        }
        if self.list.len() >= EDIT_MAX {
            return copy("edit takes at most 3 sources");
        }
        let ghost before = self@;
        self.list.push((copy(id), copy(stem)));
        assert(self@ =~= before.push((id@, stem@)));
        cat("✎ source armed: ", stem)
    }

    /// Pictures were made: the sources go where those used them up.
    pub fn spend(&mut self, made: &Made)
        ensures
            final(self)@ == if made@.disarms {
                Seq::<(Seq<char>, Seq<char>)>::empty()
            } else {
                old(self)@
            },
    {
        if made.disarms {
            self.list = Vec::new();
            assert(self@ =~= Seq::<(Seq<char>, Seq<char>)>::empty());
        }
    }

    /// A job is no source any more.
    pub fn disarm(&mut self, id: &str)
        ensures
            final(self)@ == disarmed_v(old(self)@, id@, old(self)@.len() as int),
    {
        let ghost all = self@;
        let mut kept: Vec<(String, String)> = Vec::new();
        assert(crate::cut::pairs(kept@) =~= Seq::<(Seq<char>, Seq<char>)>::empty());
        for i in 0..self.list.len()
            invariant
                all == crate::cut::pairs(self.list@),
                crate::cut::pairs(kept@) == disarmed_v(all, id@, i as int),
        {
            if !same(self.list[i].0.as_str(), id) {
                let ghost before = crate::cut::pairs(kept@);
                kept.push((self.list[i].0.clone(), self.list[i].1.clone()));
                assert(crate::cut::pairs(kept@) =~= before.push(all[i as int]));
            }
        }
        self.list = kept;
    }
}

// ── A prompt from a file ────────────────────────────────────────────────────

/// The most characters of a file that become a prompt.
pub const PROMPT_CHARS: usize = 4000;

/// The prompt that a file's text becomes, and what is said about it. A file that cannot
/// be read, or is blank, becomes none.
pub open spec fn loaded_v(name: Seq<char>, text: Seq<char>) -> (Option<Seq<char>>, Seq<char>) {
    let t = trimmed(text);
    if t.len() == 0 {
        (None, "couldn't read "@ + name)
    } else {
        (
            Some(head(t, PROMPT_CHARS as nat)),
            "📄 prompt loaded from "@ + name + if t.len() > PROMPT_CHARS {
                " (truncated to 4k chars)"@
            } else {
                ""@
            },
        )
    }
}

/// The prompt that a file's text becomes, and what is said about it.
pub fn load_prompt(name: &str, text: &str) -> (r: (Option<String>, String))
    ensures
        r.1@ == loaded_v(name@, text@).1,
        r.0 is Some <==> loaded_v(name@, text@).0 is Some,
        r.0 is Some ==> loaded_v(name@, text@).0 == Some(r.0->0@),
{
    let t = trim(text);
    if t.is_empty() {
        return (None, cat("couldn't read ", name));
    }
    let long = t.unicode_len() > PROMPT_CHARS;
    let mut note = cat("📄 prompt loaded from ", name);
    note.append(
        if long {
            " (truncated to 4k chars)"
        } else {
            ""
        },
    );
    (Some(copy(take_chars(t, PROMPT_CHARS))), note)
}

// ── Laws ────────────────────────────────────────────────────────────────────

/// Sources stay armed until an edit of them can be seen: whatever fails, they are there for
/// the next try.
pub proof fn sources_outlast_a_failure(
    reply: Result<JsonV, Seq<char>>,
    n: u32,
    preview: Option<Seq<char>>,
    editing: bool,
)
    ensures
        made_v(reply, n, preview, editing).disarms <==> editing && made_v(
            reply,
            n,
            preview,
            editing,
        ).shows == Showing::Picture,
        made_v(reply, n, preview, editing).shows == Showing::Picture <==> reply is Ok && generated_v(
            reply->Ok_0,
        ) is Done && preview is None,
{
}

/// An edit never starts from more pictures than it takes, and never from one twice.
pub proof fn sources_stay_few(s: Seq<(Seq<char>, Seq<char>)>, id: Seq<char>, stem: Seq<char>)
    requires
        s.len() <= EDIT_MAX,
        forall|i: int, j: int|
            0 <= i < j < s.len() ==> (#[trigger] s[i]).0 != (#[trigger] s[j]).0,
    ensures
        armed_v(s, id, stem).len() <= EDIT_MAX,
        forall|i: int, j: int|
            0 <= i < j < armed_v(s, id, stem).len() ==> (#[trigger] armed_v(s, id, stem)[i]).0 != (
            #[trigger] armed_v(s, id, stem)[j]).0,
{
}

proof fn missing_is_bounded(rows: Seq<RowV>, t: Seq<(Seq<char>, ThumbState)>, n: int)
    requires
        0 <= n <= rows.len(),
    ensures
        missing_v(rows, t, n).len() <= THUMB_BATCH,
        forall|i: int|
            0 <= i < missing_v(rows, t, n).len() ==> thumb_state(
                t,
                #[trigger] missing_v(rows, t, n)[i],
            ) is None,
    decreases n,
{
    if n > 0 {
        missing_is_bounded(rows, t, n - 1);
        let before = missing_v(rows, t, n - 1);
        let all = missing_v(rows, t, n);
        assert forall|i: int| 0 <= i < all.len() implies thumb_state(t, #[trigger] all[i])
            is None by {
            if i < before.len() {
                assert(all[i] == before[i]);
            }
        }
    }
}

/// At most so many posters are asked for at once, and none that was asked for before: a
/// poster that could not be had is not asked for again.
pub proof fn posters_are_asked_for_once(rows: Seq<RowV>, t: Seq<(Seq<char>, ThumbState)>, i: int)
    requires
        0 <= i < missing_v(rows, t, rows.len() as int).len(),
    ensures
        missing_v(rows, t, rows.len() as int).len() <= THUMB_BATCH,
        thumb_state(t, missing_v(rows, t, rows.len() as int)[i]) is None,
{
    missing_is_bounded(rows, t, rows.len() as int);
}

proof fn without_lacks(a: Seq<Seq<char>>, x: Seq<char>, n: int)
    requires
        0 <= n <= a.len(),
    ensures
        !without(a, x, n).contains(x),
    decreases n,
{
    if n > 0 {
        without_lacks(a, x, n - 1);
        let before = without(a, x, n - 1);
        let all = without(a, x, n);
        if all.contains(x) {
            let j = choose|j: int| 0 <= j < all.len() && all[j] == x;
            if j < before.len() {
                assert(before[j] == x);
            }
        }
    }
}

/// A job that has come to its end is watched no more, and can be watched anew.
pub proof fn finished_jobs_are_let_go(a: Seq<Seq<char>>, id: Seq<char>)
    ensures
        !without(a, id, a.len() as int).contains(id),
{
    without_lacks(a, id, a.len() as int);
}

/// A job that is looked at again is not final.
pub proof fn final_jobs_are_not_looked_at_again(
    id: Seq<char>,
    selected: Seq<char>,
    job: JsonV,
    elapsed: u64,
)
    ensures
        look_v(id, selected, job, elapsed).again ==> !is_terminal(str_v(job, "status"@)),
        look_v(id, selected, job, elapsed).show ==> selected == id && is_terminal(
            str_v(job, "status"@),
        ),
{
}

} // verus!
