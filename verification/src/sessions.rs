//! Sessions of old: their list, which of them are picked, and what is done with those.
use vstd::prelude::*;
use crate::effects::{notice, notice_v, Effect, EffectV, ToastKind};
use crate::json::{
    entries, flagged, list_v, put, text_or, uint_json, uint_or, Json, JsonV,
};
use crate::reader::{json_flag, json_str, str_v};
use crate::text::{cat, cat3, copy, dec, dec_len, dec_u64, views};

verus! {

broadcast use {
    crate::text::views_push,
    crate::text::views_empty,
    crate::json::entries_empty,
};

// ── The list ────────────────────────────────────────────────────────────────

/// How long ago something was, in words. What lies ahead is now.
pub open spec fn time_ago_v(now: nat, then: nat) -> Seq<char> {
    let d = if now < then {
        0
    } else {
        (now - then) as nat
    };
    if d < 60 {
        "just now"@
    } else if d < 3600 {
        dec(d / 60) + " min ago"@
    } else if d < 86400 {
        dec(d / 3600) + " hr ago"@
    } else {
        dec(d / 86400) + " days ago"@
    }
}

/// How long ago something was, in words.
pub fn format_time_ago(now: u64, unix_secs: u64) -> (r: String)
    ensures
        r@ == time_ago_v(now as nat, unix_secs as nat),
{
    let d: u64 = if now < unix_secs {
        0
    } else {
        now - unix_secs
    };
    if d < 60 {
        copy("just now")
    } else if d < 3600 {
        cat(dec_u64(d / 60).as_str(), " min ago")
    } else if d < 86400 {
        cat(dec_u64(d / 3600).as_str(), " hr ago")
    } else {
        cat(dec_u64(d / 86400).as_str(), " days ago")
    }
}

/// What a field of 32 bits keeps of a count.
pub open spec fn low_count(n: u64) -> i32 {
    n as i32
}

fn low(n: u64) -> (r: i32)
    ensures
        r == low_count(n),
{
    #[verifier::truncate]
    (n as i32)
}

/// A session.
#[derive(Debug, PartialEq)]
pub struct SessionItem {
    pub session_id: i32,
    pub time_ago: String,
    pub message_count: i32,
    pub preview: String,
    /// Whether it is picked.
    pub selected: bool,
}

/// The model of a [`SessionItem`].
pub struct SessionItemV {
    pub session_id: i32,
    pub time_ago: Seq<char>,
    pub message_count: i32,
    pub preview: Seq<char>,
    pub selected: bool,
}

impl View for SessionItem {
    type V = SessionItemV;

    open spec fn view(&self) -> SessionItemV {
        SessionItemV {
            session_id: self.session_id,
            time_ago: self.time_ago@,
            message_count: self.message_count,
            preview: self.preview@,
            selected: self.selected,
        }
    }
}

/// A session, from its body.
pub open spec fn session_row_v(j: JsonV, now: u64) -> SessionItemV {
    SessionItemV {
        session_id: low_count(uint_or(j, "session_id"@, 0)),
        time_ago: time_ago_v(now as nat, uint_or(j, "last_active"@, 0) as nat),
        message_count: low_count(uint_or(j, "message_count"@, 0)),
        preview: str_v(j, "preview"@),
        selected: false,
    }
}

fn session_row(j: &Json, now: u64) -> (r: SessionItem)
    ensures
        r@ == session_row_v(j@, now),
{
    SessionItem {
        session_id: low(j.u64_or("session_id", 0)),
        time_ago: format_time_ago(now, j.u64_or("last_active", 0)),
        message_count: low(j.u64_or("message_count", 0)),
        preview: json_str(j, "preview"),
        selected: false,
    }
}

/// The rows of the first `n` sessions.
pub open spec fn session_rows_v(a: Seq<JsonV>, n: int, now: u64) -> Seq<SessionItemV>
    decreases n,
{
    if n <= 0 {
        Seq::empty()
    } else {
        session_rows_v(a, n - 1, now).push(session_row_v(a[n - 1], now))
    }
}

/// The sessions of a reply, which is a bare list.
pub fn session_rows(body: &Json, now: u64) -> (r: Vec<SessionItem>)
    ensures
        views(r@) == session_rows_v(list_v(body@), list_v(body@).len() as int, now),
{
    let arr = body.items();
    let ghost a = views(arr@);
    let mut out: Vec<SessionItem> = Vec::new();
    for i in 0..arr.len()
        invariant
            a == views(arr@),
            views(out@) == session_rows_v(a, i as int, now),
    {
        assert(a[i as int] == arr@[i as int]@);
        out.push(session_row(&arr[i], now));
    }
    assert(a.len() == arr@.len());
    out
}

// ── Picking ─────────────────────────────────────────────────────────────────

/// The list of sessions.
#[derive(Debug)]
pub struct Sessions {
    pub items: Vec<SessionItem>,
}

impl View for Sessions {
    type V = Seq<SessionItemV>;

    open spec fn view(&self) -> Seq<SessionItemV> {
        views(self.items@)
    }
}

/// The place of the first session `id` from `i` on; the end where there is none.
pub open spec fn place_v(s: Seq<SessionItemV>, id: i32, i: int) -> int
    decreases s.len() - i,
{
    if 0 <= i < s.len() && s[i].session_id != id {
        place_v(s, id, i + 1)
    } else {
        i
    }
}

/// A session with its mark turned.
pub open spec fn turned(r: SessionItemV) -> SessionItemV {
    SessionItemV { selected: !r.selected, ..r }
}

/// The list with the mark of one session turned.
pub open spec fn toggled(s: Seq<SessionItemV>, id: i32) -> Seq<SessionItemV> {
    let i = place_v(s, id, 0);
    if i < s.len() {
        s.update(i, turned(s[i]))
    } else {
        s
    }
}

/// The list with nothing picked.
pub open spec fn unpicked(s: Seq<SessionItemV>) -> Seq<SessionItemV> {
    Seq::new(s.len(), |i: int| SessionItemV { selected: false, ..s[i] })
}

/// A session's number, as the daemon writes it.
pub open spec fn wide(id: i32) -> u64 {
    id as u64
}

/// The numbers of those of the first `n` sessions that are picked.
pub open spec fn picked(s: Seq<SessionItemV>, n: int) -> Seq<u64>
    decreases n,
{
    if n <= 0 {
        Seq::empty()
    } else if s[n - 1].selected {
        picked(s, n - 1).push(wide(s[n - 1].session_id))
    } else {
        picked(s, n - 1)
    }
}

impl Sessions {
    /// An empty list.
    pub fn new() -> (r: Sessions)
        ensures
            r@ == Seq::<SessionItemV>::empty(),
    {
        Sessions { items: Vec::new() }
    }

    /// Takes a new list in place of the old one.
    pub fn replace_sessions(&mut self, items: Vec<SessionItem>)
        ensures
            final(self)@ == views(items@),
    {
        self.items = items;
    }

    /// Picks a session, or lets it go again; returns how many are picked then.
    pub fn toggle(&mut self, id: i32) -> (n: usize)
        ensures
            final(self)@ == toggled(old(self)@, id),
            n == picked(final(self)@, final(self)@.len() as int).len(),
    {
        let ghost before = self@;
        let mut i: usize = 0;
        while i < self.items.len() && self.items[i].session_id != id
            invariant
                before == views(self.items@),
                i <= self.items.len(),
                place_v(before, id, 0) == place_v(before, id, i as int),
            decreases self.items.len() - i,
        {
            assert(before[i as int] == self.items@[i as int]@);
            i = i + 1;
        }
        if i < self.items.len() {
            assert(before[i as int] == self.items@[i as int]@);
            let was = self.items[i].selected;
            self.items[i].selected = !was;
            assert(views(self.items@) =~= before.update(i as int, turned(before[i as int])));
        }
        self.selected_session_ids().len()
    }

    /// The numbers of the sessions that are picked, in the order of the list.
    pub fn selected_session_ids(&self) -> (r: Vec<u64>)
        ensures
            r@ == picked(self@, self@.len() as int),
    {
        let ghost s = self@;
        let mut out: Vec<u64> = Vec::new();
        for i in 0..self.items.len()
            invariant
                s == views(self.items@),
                out@ == picked(s, i as int),
        {
            assert(s[i as int] == self.items@[i as int]@);
            if self.items[i].selected {
                let id: i32 = self.items[i].session_id;
                out.push(#[verifier::truncate] (id as u64));
            }
        }
        assert(s.len() == self.items@.len());
        out
    }

    /// Lets every session go.
    pub fn clear_session_selection(&mut self)
        ensures
            final(self)@ == unpicked(old(self)@),
    {
        let ghost before = self@;
        let n = self.items.len();
        for i in 0..n
            invariant
                n == self.items@.len() == before.len(),
                forall|k: int|
                    0 <= k < i ==> #[trigger] views(self.items@)[k] == unpicked(before)[k],
                forall|k: int| i <= k < n ==> #[trigger] views(self.items@)[k] == before[k],
        {
            assert(views(self.items@)[i as int] == before[i as int]);
            let ghost was = views(self.items@);
            self.items[i].selected = false;
            assert(views(self.items@) =~= was.update(i as int, unpicked(before)[i as int]));
        }
        assert(views(self.items@) =~= unpicked(before));
    }
}

// ── Exports ─────────────────────────────────────────────────────────────────

/// Numbers as a list.
pub open spec fn ids_v(ids: Seq<u64>) -> Seq<JsonV> {
    Seq::new(ids.len(), |i: int| uint_json(ids[i]))
}

/// What is sent to export some sessions.
pub open spec fn export_some_v(ids: Seq<u64>) -> JsonV {
    JsonV::Obj(seq![("ids"@, JsonV::Arr(ids_v(ids))), ("format"@, JsonV::Str("md"@))])
}

/// What is sent to export the sessions that are picked; nothing where none is.
pub fn export_picked(ids: &Vec<u64>) -> (r: Option<Json>)
    ensures
        match r {
            Some(j) => ids@.len() > 0 && j@ == export_some_v(ids@),
            None => ids@.len() == 0,
        },
{
    if ids.len() == 0 {
        return None;
    }
    let mut list: Vec<Json> = Vec::new();
    assert(views(list@) =~= ids_v(ids@).take(0));
    for i in 0..ids.len()
        invariant
            views(list@) == ids_v(ids@).take(i as int),
    {
        list.push(Json::uint(ids[i]));
        assert(ids_v(ids@).take(i as int).push(uint_json(ids@[i as int])) =~= ids_v(ids@).take(
            i as int + 1,
        ));
    }
    assert(ids_v(ids@).take(ids@.len() as int) =~= ids_v(ids@));
    let mut e: Vec<(String, Json)> = Vec::new();
    put(&mut e, "ids", Json::list(list));
    put(&mut e, "format", Json::str("md"));
    assert(entries(e@) =~= export_some_v(ids@)->Obj_0);
    Some(Json::object(e))
}

/// What is sent to export every session.
pub fn export_all() -> (r: Json)
    ensures
        r@ == JsonV::Obj(seq![("all"@, JsonV::Bool(true)), ("format"@, JsonV::Str("md"@))]),
{
    let mut e: Vec<(String, Json)> = Vec::new();
    put(&mut e, "all", Json::Bool(true));
    put(&mut e, "format", Json::str("md"));
    assert(entries(e@) =~= seq![("all"@, JsonV::Bool(true)), ("format"@, JsonV::Str("md"@))]);
    Json::object(e)
}

/// The notice once sessions were exported, or were not.
pub open spec fn export_notice_v(body: JsonV) -> EffectV {
    if flagged(body, "ok"@) {
        notice_v(
            ToastKind::Success,
            "Exported "@ + dec(uint_or(body, "count"@, 0) as nat)
                + " session(s) → workspace/exports/"@,
        )
    } else {
        notice_v(
            ToastKind::Warn,
            "Export failed: "@ + text_or(body, "error"@, "nothing exported"@),
        )
    }
}

/// The notice once sessions were exported, or were not. A request that went wrong has
/// no reply.
pub fn export_sessions(reply: Result<Json, String>) -> (r: Effect)
    ensures
        r@ == match reply {
            Ok(body) => export_notice_v(body@),
            Err(e) => notice_v(ToastKind::Error, "Export error: "@ + e@),
        },
{
    match reply {
        Ok(body) => if json_flag(&body, "ok") {
            notice(
                ToastKind::Success,
                cat3(
                    "Exported ",
                    dec_u64(body.u64_or("count", 0)).as_str(),
                    " session(s) → workspace/exports/",
                ),
            )
        } else {
            notice(
                ToastKind::Warn,
                cat("Export failed: ", body.str_or("error", "nothing exported").as_str()),
            )
        },
        Err(e) => notice(ToastKind::Error, cat("Export error: ", e.as_str())),
    }
}

// ── Sweeps ──────────────────────────────────────────────────────────────────

/// What is done with every session that is picked.
#[derive(Clone, Copy, Debug, PartialEq, Eq, Structural)]
pub enum SweepKind {
    Archive,
    Delete,
    /// Distil it into memories.
    Consolidate,
    /// Distil it into memories, and delete it if that went well.
    ConsolidateDelete,
}

/// A request to the daemon.
#[derive(Clone, Copy, Debug, PartialEq, Eq, Structural)]
pub enum SweepStep {
    Archive(u64),
    Delete(u64),
    Consolidate(u64),
}

/// A sweep over sessions: one request after the other.
#[derive(Debug)]
pub struct Sweep {
    pub kind: SweepKind,
    pub ids: Vec<u64>,
    /// How many sessions are done with.
    pub at: usize,
    /// Whether the session at hand has been distilled and is to be deleted.
    pub distilled: bool,
    /// With how many of them it went well.
    pub done: usize,
}

/// The model of a [`Sweep`].
pub struct SweepV {
    pub kind: SweepKind,
    pub ids: Seq<u64>,
    pub at: int,
    pub distilled: bool,
    pub done: int,
}

impl View for Sweep {
    type V = SweepV;

    open spec fn view(&self) -> SweepV {
        SweepV {
            kind: self.kind,
            ids: self.ids@,
            at: self.at as int,
            distilled: self.distilled,
            done: self.done as int,
        }
    }
}

/// What holds of every sweep: no more sessions went well than were done with, and a
/// deletion is due only of a session at hand that was distilled.
pub open spec fn sweep_wf(s: SweepV) -> bool {
    &&& 0 <= s.done <= s.at <= s.ids.len()
    &&& s.distilled ==> s.kind == SweepKind::ConsolidateDelete && s.at < s.ids.len()
}

/// The request that is due; none once every session is done with.
pub open spec fn due_v(s: SweepV) -> Option<SweepStep> {
    if s.at >= s.ids.len() {
        None
    } else {
        let id = s.ids[s.at];
        Some(
            match s.kind {
                SweepKind::Archive => SweepStep::Archive(id),
                SweepKind::Delete => SweepStep::Delete(id),
                SweepKind::Consolidate => SweepStep::Consolidate(id),
                SweepKind::ConsolidateDelete => if s.distilled {
                    SweepStep::Delete(id)
                } else {
                    SweepStep::Consolidate(id)
                },
            },
        )
    }
}

/// Whether a reply counts as done. Archiving, and deleting on its own, go by the code;
/// the rest goes by what the reply says.
pub open spec fn took_v(kind: SweepKind, success: bool, body: JsonV) -> bool {
    match kind {
        SweepKind::Archive | SweepKind::Delete => success,
        _ => flagged(body, "ok"@),
    }
}

/// The sweep after the reply to the request that was due.
pub open spec fn swept_v(s: SweepV, ok: bool) -> SweepV {
    if s.at >= s.ids.len() {
        s
    } else if s.kind == SweepKind::ConsolidateDelete && !s.distilled && ok {
        SweepV { distilled: true, ..s }
    } else {
        SweepV {
            at: s.at + 1,
            distilled: false,
            done: if ok {
                s.done + 1
            } else {
                s.done
            },
            ..s
        }
    }
}

/// The notice at the start of a sweep; those that are quick have none.
pub open spec fn sweep_begins_v(s: SweepV) -> Option<EffectV> {
    match s.kind {
        SweepKind::Consolidate => Some(
            notice_v(
                ToastKind::Info,
                "Consolidating "@ + dec(s.ids.len()) + " session(s) into cerebro…"@,
            ),
        ),
        SweepKind::ConsolidateDelete => Some(
            notice_v(
                ToastKind::Info,
                "Consolidating "@ + dec(s.ids.len()) + " session(s) before delete…"@,
            ),
        ),
        _ => None,
    }
}

/// The notice at the end of a sweep.
pub open spec fn sweep_ends_v(s: SweepV) -> EffectV {
    match s.kind {
        SweepKind::Archive => notice_v(
            ToastKind::Info,
            "Archived "@ + dec(s.done as nat) + " session(s)"@,
        ),
        SweepKind::Delete => notice_v(
            ToastKind::Warn,
            "Deleted "@ + dec(s.done as nat) + " session(s)"@,
        ),
        SweepKind::Consolidate => notice_v(
            ToastKind::Success,
            "Consolidated "@ + dec(s.done as nat) + "/"@ + dec(s.ids.len()) + " into cerebro"@,
        ),
        SweepKind::ConsolidateDelete => if s.done < s.at {
            notice_v(
                ToastKind::Warn,
                "Saved + deleted "@ + dec(s.done as nat) + "; kept "@ + dec((s.at - s.done) as nat)
                    + " (not consolidated)"@,
            )
        } else {
            notice_v(
                ToastKind::Success,
                "Consolidated → cerebro + deleted "@ + dec(s.done as nat),
            )
        },
    }
}

/// The path of a request.
pub open spec fn step_path_v(step: SweepStep) -> Seq<char> {
    match step {
        SweepStep::Archive(id) => "/api/sessions/"@ + dec(id as nat) + "/archive"@,
        SweepStep::Delete(id) => "/api/sessions/"@ + dec(id as nat),
        SweepStep::Consolidate(id) => "/api/sessions/"@ + dec(id as nat) + "/consolidate"@,
    }
}

/// The path of a request.
pub fn step_path(step: SweepStep) -> (r: String)
    ensures
        r@ == step_path_v(step),
{
    match step {
        SweepStep::Archive(id) => cat3("/api/sessions/", dec_u64(id).as_str(), "/archive"),
        SweepStep::Delete(id) => cat("/api/sessions/", dec_u64(id).as_str()),
        SweepStep::Consolidate(id) => cat3("/api/sessions/", dec_u64(id).as_str(), "/consolidate"),
    }
}

impl Sweep {
    /// A sweep over sessions; none where none is picked.
    pub fn begin(kind: SweepKind, ids: Vec<u64>) -> (r: Option<Sweep>)
        ensures
            match r {
                Some(s) => ids@.len() > 0 && sweep_wf(s@) && s@ == (SweepV {
                    kind,
                    ids: ids@,
                    at: 0,
                    distilled: false,
                    done: 0,
                }),
                None => ids@.len() == 0,
            },
    {
        if ids.len() == 0 {
            None
        } else {
            Some(Sweep { kind, ids, at: 0, distilled: false, done: 0 })
        }
    }

    /// The request that is due; none once every session is done with.
    pub fn due(&self) -> (r: Option<SweepStep>)
        ensures
            r == due_v(self@),
    {
        if self.at >= self.ids.len() {
            return None;
        }
        let id = self.ids[self.at];
        Some(
            match self.kind {
                SweepKind::Archive => SweepStep::Archive(id),
                SweepKind::Delete => SweepStep::Delete(id),
                SweepKind::Consolidate => SweepStep::Consolidate(id),
                SweepKind::ConsolidateDelete => if self.distilled {
                    SweepStep::Delete(id)
                } else {
                    SweepStep::Consolidate(id)
                },
            },
        )
    }

    /// Takes the reply to the request that was due: whether its code was one of success,
    /// and what it said.
    pub fn answer(&mut self, success: bool, body: &Json)
        requires
            sweep_wf(old(self)@),
        ensures
            sweep_wf(final(self)@),
            final(self)@ == swept_v(old(self)@, took_v(old(self)@.kind, success, body@)),
    {
        let ok = match self.kind {
            SweepKind::Archive | SweepKind::Delete => success,
            _ => json_flag(body, "ok"),
        };
        if self.at >= self.ids.len() {
            return;
        }
        let two = match self.kind {
            SweepKind::ConsolidateDelete => true,
            _ => false,
        };
        if two && !self.distilled && ok {
            self.distilled = true;
        } else {
            self.at = self.at + 1;
            self.distilled = false;
            if ok {
                self.done = self.done + 1;
            }
        }
    }

    /// The notice at the start; a sweep that is quick has none.
    pub fn begins(&self) -> (r: Option<Effect>)
        ensures
            match r {
                Some(e) => sweep_begins_v(self@) == Some(e@),
                None => sweep_begins_v(self@) is None,
            },
    {
        let n = dec_len(self.ids.len());
        match self.kind {
            SweepKind::Consolidate => Some(
                notice(
                    ToastKind::Info,
                    cat3("Consolidating ", n.as_str(), " session(s) into cerebro…"),
                ),
            ),
            SweepKind::ConsolidateDelete => Some(
                notice(
                    ToastKind::Info,
                    cat3("Consolidating ", n.as_str(), " session(s) before delete…"),
                ),
            ),
            _ => None,
        }
    }

    /// The notice at the end.
    pub fn ends(&self) -> (r: Effect)
        requires
            sweep_wf(self@),
        ensures
            r@ == sweep_ends_v(self@),
    {
        let n = dec_len(self.done);
        match self.kind {
            SweepKind::Archive => notice(
                ToastKind::Info,
                cat3("Archived ", n.as_str(), " session(s)"),
            ),
            SweepKind::Delete => notice(
                ToastKind::Warn,
                cat3("Deleted ", n.as_str(), " session(s)"),
            ),
            SweepKind::Consolidate => {
                let mut text = cat3("Consolidated ", n.as_str(), "/");
                text.append(dec_len(self.ids.len()).as_str());
                text.append(" into cerebro");
                notice(ToastKind::Success, text)
            },
            SweepKind::ConsolidateDelete => if self.done < self.at {
                let mut text = cat3("Saved + deleted ", n.as_str(), "; kept ");
                text.append(dec_len(self.at - self.done).as_str());
                text.append(" (not consolidated)");
                notice(ToastKind::Warn, text)
            } else {
                notice(ToastKind::Success, cat("Consolidated → cerebro + deleted ", n.as_str()))
            },
        }
    }
}

// ── Laws ────────────────────────────────────────────────────────────────────

/// To pick a session and let it go again changes nothing.
pub proof fn toggling_twice_is_nothing(s: Seq<SessionItemV>, id: i32)
    ensures
        toggled(toggled(s, id), id) == s,
{
    let i = place_v(s, id, 0);
    place_bounds(s, id, 0);
    if i < s.len() {
        place_stays(s, id, 0);
        assert(toggled(toggled(s, id), id) =~= s);
    }
}

proof fn place_bounds(s: Seq<SessionItemV>, id: i32, i: int)
    requires
        0 <= i <= s.len(),
    ensures
        i <= place_v(s, id, i) <= s.len(),
        place_v(s, id, i) < s.len() ==> s[place_v(s, id, i)].session_id == id,
    decreases s.len() - i,
{
    if i < s.len() && s[i].session_id != id {
        place_bounds(s, id, i + 1);
    }
}

proof fn place_stays(s: Seq<SessionItemV>, id: i32, i: int)
    requires
        0 <= i <= place_v(s, id, 0) < s.len(),
        place_v(s, id, i) == place_v(s, id, 0),
    ensures
        place_v(toggled(s, id), id, i) == place_v(s, id, i),
    decreases s.len() - i,
{
    place_bounds(s, id, 0);
    if i < s.len() && s[i].session_id != id {
        place_bounds(s, id, i + 1);
        place_stays(s, id, i + 1);
    }
}

/// Once every session was let go, none is picked.
pub proof fn cleared_means_none(s: Seq<SessionItemV>, n: int)
    requires
        0 <= n <= s.len(),
    ensures
        picked(unpicked(s), n) == Seq::<u64>::empty(),
    decreases n,
{
    if n > 0 {
        cleared_means_none(s, n - 1);
    }
}

/// A sweep that distils before it deletes never deletes a session that was not
/// distilled: the deletion is due only right after the same session's own distilling
/// went well.
pub proof fn deletion_follows_distilling(s: SweepV, ok: bool, id: u64)
    requires
        sweep_wf(s),
        s.kind == SweepKind::ConsolidateDelete,
        due_v(swept_v(s, ok)) == Some(SweepStep::Delete(id)),
    ensures
        ok,
        due_v(s) == Some(SweepStep::Consolidate(id)),
{
}

/// A session whose distilling failed is passed over and kept: what is due next is the
/// distilling of the session behind it, if there is one.
pub proof fn failed_distilling_keeps(s: SweepV)
    requires
        sweep_wf(s),
        s.kind == SweepKind::ConsolidateDelete,
        due_v(s) is Some,
        due_v(s)->0 is Consolidate,
    ensures
        swept_v(s, false).at == s.at + 1,
        swept_v(s, false).done == s.done,
        match due_v(swept_v(s, false)) {
            Some(step) => s.at + 1 < s.ids.len() && step == SweepStep::Consolidate(s.ids[s.at + 1]),
            None => s.at + 1 == s.ids.len(),
        },
{
}

/// Every reply brings a sweep nearer to its end.
pub proof fn sweep_advances(s: SweepV, ok: bool)
    requires
        sweep_wf(s),
        due_v(s) is Some,
    ensures
        sweep_wf(swept_v(s, ok)),
        swept_v(s, ok).ids == s.ids,
        swept_v(s, ok).at > s.at || (swept_v(s, ok).at == s.at && !s.distilled && swept_v(
            s,
            ok,
        ).distilled),
{
}

} // verus!
