//! The log of events: a line for each, with a colour for its kind.
use vstd::prelude::*;
use crate::colour::{persona_rgb, rgb_v, Rgb};
use crate::json::{field, list_v, text_at, text_or, Json, JsonV};
use crate::text::{
    cat, cat3, contains, copy, dec_i64, dec_int, given, head, holds_text, join, joined, same,
    take_chars, trim, trimmed, views,
};

verus! {

broadcast use {crate::text::views_push, crate::text::views_empty};

/// The colour of an event, by its kind.
pub open spec fn accent_v(ty: Seq<char>) -> Rgb {
    if holds_text(ty, "error"@) || holds_text(ty, "denied"@) || holds_text(ty, "reject"@) {
        rgb_v(0xef4444)
    } else if ty == "tool_requested"@ || ty == "approval_pending"@ {
        rgb_v(0xeab308)
    } else if ty == "tool_result"@ {
        rgb_v(0x39ff14)
    } else if ty == "wake_triggered"@ {
        rgb_v(0x00d4ff)
    } else if ty == "sensor_reading"@ || ty == "thermal_frame"@ {
        rgb_v(0x6c8aff)
    } else {
        rgb_v(0x8b93a7)
    }
}

/// The colour of an event, by its kind.
pub fn event_accent(ty: &str) -> (r: Rgb)
    ensures
        r == accent_v(ty@),
{
    if contains(ty, "error") || contains(ty, "denied") || contains(ty, "reject") {
        persona_rgb(0xef4444)
    } else if same(ty, "tool_requested") || same(ty, "approval_pending") {
        persona_rgb(0xeab308)
    } else if same(ty, "tool_result") {
        persona_rgb(0x39ff14)
    } else if same(ty, "wake_triggered") {
        persona_rgb(0x00d4ff)
    } else if same(ty, "sensor_reading") || same(ty, "thermal_frame") {
        persona_rgb(0x6c8aff)
    } else {
        persona_rgb(0x8b93a7)
    }
}

/// A text cut to `n` characters, with a mark where it was cut.
pub open spec fn cut_text(s: Seq<char>, n: nat) -> Seq<char> {
    head(s, n) + given(s.len() > n, "…"@)
}

fn cut(s: &str, n: usize) -> (r: String)
    ensures
        r@ == cut_text(s@, n as nat),
{
    let mut out = copy(take_chars(s, n));
    let longer = s.unicode_len() > n;
    crate::text::append_given(&mut out, longer, "…");
    out
}

/// The text of the field `inner` of the field `outer`.
pub open spec fn inner_text(j: JsonV, outer: Seq<char>, inner: Seq<char>) -> Option<Seq<char>> {
    match field(j, outer) {
        Some(x) => text_at(x, inner),
        None => None,
    }
}

fn text_within<'a>(j: &'a Json, outer: &str, inner: &str) -> (r: Option<&'a str>)
    ensures
        match r {
            Some(s) => inner_text(j@, outer@, inner@) == Some(s@),
            None => inner_text(j@, outer@, inner@) is None,
        },
{
    match j.get(outer) {
        Some(x) => x.str_at(inner),
        None => None,
    }
}

/// A field in a word; only texts, numbers and flags have one, and the kind has none.
pub open spec fn part_v(e: (Seq<char>, JsonV)) -> Option<Seq<char>> {
    if e.0 == "type"@ {
        None
    } else {
        match e.1 {
            JsonV::Str(s) => Some(e.0 + "="@ + cut_text(s, 40)),
            JsonV::Num(n) => Some(e.0 + "="@ + n.shown),
            JsonV::Bool(b) => Some(
                e.0 + "="@ + (if b {
                    "true"@
                } else {
                    "false"@
                }),
            ),
            _ => None,
        }
    }
}

/// The words of the first `n` fields, four at most.
pub open spec fn parts_v(e: Seq<(Seq<char>, JsonV)>, n: int) -> Seq<Seq<char>>
    decreases n,
{
    if n <= 0 {
        Seq::empty()
    } else {
        let before = parts_v(e, n - 1);
        match part_v(e[n - 1]) {
            Some(p) if before.len() < 4 => before.push(p),
            _ => before,
        }
    }
}

/// An event in one line: its tool, its sensor or its text, else its fields.
pub open spec fn summary_v(ev: JsonV) -> Seq<char> {
    match (
        inner_text(ev, "call"@, "tool"@),
        inner_text(ev, "reading"@, "kind"@),
        text_at(ev, "text"@),
    ) {
        (Some(tool), _, _) => tool,
        (None, Some(kind), _) => kind,
        (None, None, Some(text)) if text.len() > 0 => cut_text(text, 120),
        _ => match ev {
            JsonV::Obj(e) => joined(parts_v(e, e.len() as int), "  "@),
            _ => Seq::empty(),
        },
    }
}

fn part(key: &str, v: &Json) -> (r: Option<String>)
    ensures
        match r {
            Some(p) => part_v((key@, v@)) == Some(p@),
            None => part_v((key@, v@)) is None,
        },
{
    if same(key, "type") {
        return None;
    }
    match v {
        Json::Str(s) => Some(cat3(key, "=", cut(s.as_str(), 40).as_str())),
        Json::Num(n) => Some(cat3(key, "=", n.shown.as_str())),
        Json::Bool(b) => {
            let word = if *b {
                "true"
            } else {
                "false"
            };
            Some(cat3(key, "=", word))
        },
        _ => None,
    }
}

/// An event in one line.
pub fn event_summary(ev: &Json) -> (r: String)
    ensures
        r@ == summary_v(ev@),
{
    if let Some(tool) = text_within(ev, "call", "tool") {
        return copy(tool);
    }
    if let Some(kind) = text_within(ev, "reading", "kind") {
        return copy(kind);
    }
    if let Some(text) = ev.str_at("text") {
        if !text.is_empty() {
            return cut(text, 120);
        }
    }
    match ev.as_object() {
        Some(obj) => {
            let ghost e = ev@->Obj_0;
            let mut parts: Vec<String> = Vec::new();
            for i in 0..obj.len()
                invariant
                    e == crate::json::entries(obj@),
                    views(parts@) == parts_v(e, i as int),
            {
                assert(e[i as int] == (obj@[i as int].0@, obj@[i as int].1@));
                assert(views(parts@).len() == parts@.len());
                if parts.len() < 4 {
                    match part(obj[i].0.as_str(), &obj[i].1) {
                        Some(p) => {
                            parts.push(p);
                        },
                        None => {},
                    }
                }
            }
            assert(e.len() == obj@.len());
            join(&parts, "  ")
        },
        None => String::new(),
    }
}

/// A line of the log.
#[derive(Debug, PartialEq)]
pub struct EventLogItem {
    pub ev_type: String,
    pub summary: String,
    pub accent: Rgb,
}

/// The model of an [`EventLogItem`].
pub struct EventLogItemV {
    pub ev_type: Seq<char>,
    pub summary: Seq<char>,
    pub accent: Rgb,
}

impl View for EventLogItem {
    type V = EventLogItemV;

    open spec fn view(&self) -> EventLogItemV {
        EventLogItemV { ev_type: self.ev_type@, summary: self.summary@, accent: self.accent }
    }
}

/// The line of an event.
pub open spec fn log_row_v(ev: JsonV) -> EventLogItemV {
    EventLogItemV {
        ev_type: text_or(ev, "type"@, "event"@),
        summary: summary_v(ev),
        accent: accent_v(text_or(ev, "type"@, "event"@)),
    }
}

/// The log of a list of events: the last one comes first.
pub open spec fn log_v(a: Seq<JsonV>) -> Seq<EventLogItemV> {
    Seq::new(a.len(), |i: int| log_row_v(a[a.len() - 1 - i]))
}

/// The log of a reply; empty where it is no list.
pub fn event_rows(body: &Json) -> (r: Vec<EventLogItem>)
    ensures
        views(r@) == log_v(list_v(body@)),
{
    let arr = body.items();
    let ghost a = views(arr@);
    let n = arr.len();
    let mut out: Vec<EventLogItem> = Vec::new();
    assert(views(out@) =~= log_v(a).take(0));
    for i in 0..n
        invariant
            n == arr@.len(),
            a == views(arr@),
            views(out@) == log_v(a).take(i as int),
    {
        let ev = &arr[n - 1 - i];
        assert(a[n - 1 - i] == ev@);
        let ev_type = ev.str_or("type", "event");
        let accent = event_accent(ev_type.as_str());
        out.push(EventLogItem { ev_type, summary: event_summary(ev), accent });
        assert(log_v(a).take(i as int).push(log_v(a)[i as int]) =~= log_v(a).take(i as int + 1));
    }
    assert(log_v(a).take(n as int) =~= log_v(a));
    out
}

/// The address of the events of the last hours; of some kinds alone, where kinds are
/// named.
pub open spec fn events_url_v(base: Seq<char>, types: Seq<char>, hours: i32) -> Seq<char> {
    base + "/api/events/recent?max=200&hours="@ + dec_int(hours as int) + (if trimmed(
        types,
    ).len() == 0 {
        Seq::empty()
    } else {
        "&types="@ + trimmed(types)
    })
}

/// The address of the events of the last hours.
pub fn events_url(base: &str, types: &str, hours: i32) -> (r: String)
    ensures
        r@ == events_url_v(base@, types@, hours),
{
    let mut out = cat3(base, "/api/events/recent?max=200&hours=", dec_i64(hours as i64).as_str());
    let t = trim(types);
    if !t.is_empty() {
        out.append(cat("&types=", t).as_str());
    }
    assert(out@ =~= events_url_v(base@, types@, hours));
    out
}

// ── Laws ────────────────────────────────────────────────────────────────────

/// The fields of an event never give more than four words.
pub proof fn at_most_four_parts(e: Seq<(Seq<char>, JsonV)>, n: int)
    ensures
        parts_v(e, n).len() <= 4,
    decreases n,
{
    if n > 0 {
        at_most_four_parts(e, n - 1);
    }
}

/// The log shows every event once, the newest on top.
pub proof fn newest_on_top(a: Seq<JsonV>, i: int)
    requires
        0 <= i < a.len(),
    ensures
        log_v(a).len() == a.len(),
        log_v(a)[a.len() - 1 - i] == log_row_v(a[i]),
{
}

} // verus!
