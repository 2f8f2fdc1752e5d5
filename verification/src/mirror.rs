//! What the shell tells of itself: its structure for the agent's eyes, and the little
//! server that hands it out.
use vstd::prelude::*;
use vstd::utf8::{decode_utf8, valid_utf8};
use crate::apps::{app_at, kind_from_ordinal, kind_slug, kind_title, slug, title, ui_latch_bit};
use crate::desktop::{has_bit, ShellMode, WindowDesc};
use crate::dispatch::UI_TURN_MUTATION_CAP;
use crate::json::{entries, put, uint_json, Json, JsonV};
use crate::personas::{persona_name, persona_slug};
use crate::reflex::{encode_reflexes, reflex_json, ReflexV};
use crate::shell::{Shell, ShellV};
use crate::text::{
    begins, cat3, chars_of, dec, dec_len, is_space, lines, lines_of, same, space, starts_with,
    text_of, views,
};

verus! {

broadcast use {
    crate::text::views_push,
    crate::text::views_empty,
    crate::json::entries_empty,
};

// ── The structure ───────────────────────────────────────────────────────────

/// A window, as it is told.
pub open spec fn window_json(w: WindowDesc, focused: i32) -> JsonV {
    JsonV::Obj(
        seq![
            ("app"@, JsonV::Str(slug(w.kind))),
            ("title"@, JsonV::Str(title(w.kind))),
            ("minimized"@, JsonV::Bool(w.minimized)),
            ("maximized"@, JsonV::Bool(w.maximized)),
            ("focused"@, JsonV::Bool(w.id == focused)),
        ],
    )
}

/// The windows, as they are told.
pub open spec fn windows_json(ws: Seq<WindowDesc>, focused: i32) -> Seq<JsonV> {
    Seq::new(ws.len(), |i: int| window_json(ws[i], focused))
}

/// The names of those of the first `n` apps whose bit is set.
pub open spec fn masked(mask: u32, n: int) -> Seq<JsonV>
    decreases n,
{
    if n <= 0 {
        Seq::empty()
    } else if has_bit(mask, app_at((n - 1) as i32)) {
        masked(mask, n - 1).push(JsonV::Str(slug(app_at((n - 1) as i32))))
    } else {
        masked(mask, n - 1)
    }
}

/// The names of the first `n` apps.
pub open spec fn app_names(n: int) -> Seq<JsonV>
    decreases n,
{
    if n <= 0 {
        Seq::empty()
    } else {
        app_names(n - 1).push(JsonV::Str(slug(app_at((n - 1) as i32))))
    }
}

/// The structure of the shell. It says which windows there are, never where: places are
/// the desktop's own business.
pub open spec fn state_v(s: ShellV) -> JsonV {
    JsonV::Obj(
        seq![
            (
                "shell_mode"@,
                JsonV::Str(
                    if s.desk.mode == ShellMode::Focus {
                        "focus"@
                    } else {
                        "desktop"@
                    },
                ),
            ),
            ("persona"@, JsonV::Str(persona_name(s.persona))),
            ("windows"@, JsonV::Arr(windows_json(s.desk.windows, s.desk.focused))),
            ("agent_opened"@, JsonV::Arr(masked(s.desk.opened, 22))),
            ("latched"@, JsonV::Arr(masked(s.desk.latched, 22))),
            ("turn_mutations"@, uint_json(s.mutations as u64)),
            ("mutation_cap"@, uint_json(UI_TURN_MUTATION_CAP as u64)),
            ("reflexes"@, JsonV::Arr(s.reflexes.map_values(|r: ReflexV| reflex_json(r)))),
            ("apps"@, JsonV::Arr(app_names(22))),
        ],
    )
}

fn window_told(w: &WindowDesc, focused: i32) -> (r: Json)
    ensures
        r@ == window_json(*w, focused),
{
    let mut e: Vec<(String, Json)> = Vec::new();
    put(&mut e, "app", Json::str(kind_slug(w.kind)));
    put(&mut e, "title", Json::str(kind_title(w.kind)));
    put(&mut e, "minimized", Json::Bool(w.minimized));
    put(&mut e, "maximized", Json::Bool(w.maximized));
    put(&mut e, "focused", Json::Bool(w.id == focused));
    assert(entries(e@) =~= window_json(*w, focused)->Obj_0);
    Json::object(e)
}

fn windows_told(ws: &Vec<WindowDesc>, focused: i32) -> (r: Json)
    ensures
        r@ == JsonV::Arr(windows_json(ws@, focused)),
{
    let ghost want = windows_json(ws@, focused);
    let mut out: Vec<Json> = Vec::new();
    assert(views(out@) =~= want.take(0));
    for i in 0..ws.len()
        invariant
            want == windows_json(ws@, focused),
            views(out@) == want.take(i as int),
    {
        out.push(window_told(&ws[i], focused));
        assert(want.take(i as int).push(want[i as int]) =~= want.take(i as int + 1));
    }
    assert(want.take(want.len() as int) =~= want);
    Json::list(out)
}

fn mask_slugs(mask: u32) -> (r: Json)
    ensures
        r@ == JsonV::Arr(masked(mask, 22)),
{
    let mut out: Vec<Json> = Vec::new();
    for i in 0..22i32
        invariant
            views(out@) == masked(mask, i as int),
    {
        let k = kind_from_ordinal(i);
        if mask & ui_latch_bit(k) != 0 {
            out.push(Json::str(kind_slug(k)));
        }
    }
    Json::list(out)
}

fn apps_told() -> (r: Json)
    ensures
        r@ == JsonV::Arr(app_names(22)),
{
    let mut out: Vec<Json> = Vec::new();
    for i in 0..22i32
        invariant
            views(out@) == app_names(i as int),
    {
        out.push(Json::str(kind_slug(kind_from_ordinal(i))));
    }
    Json::list(out)
}

impl Shell {
    /// The structure of the shell.
    pub fn shell_state_json(&self) -> (r: Json)
        ensures
            r@ == state_v(self@),
    {
        let mode = match self.desk.mode {
            ShellMode::Focus => "focus",
            ShellMode::Desktop => "desktop",
        };
        let mut e: Vec<(String, Json)> = Vec::new();
        put(&mut e, "shell_mode", Json::str(mode));
        put(&mut e, "persona", Json::str(persona_slug(self.persona)));
        put(&mut e, "windows", windows_told(&self.desk.windows, self.desk.focused));
        put(&mut e, "agent_opened", mask_slugs(self.desk.opened));
        put(&mut e, "latched", mask_slugs(self.desk.latched));
        put(&mut e, "turn_mutations", Json::uint(self.mutations as u64));
        put(&mut e, "mutation_cap", Json::uint(UI_TURN_MUTATION_CAP as u64));
        put(&mut e, "reflexes", encode_reflexes(&self.reflexes));
        put(&mut e, "apps", apps_told());
        assert(entries(e@) =~= state_v(self@)->Obj_0);
        Json::object(e)
    }
}

// ── The server ──────────────────────────────────────────────────────────────

/// Reads bytes as text with `std::str::from_utf8`: the characters that they encode, and
/// nothing where they are not well-formed.
#[verifier::external_body]
fn utf8_text(bytes: &[u8]) -> (r: Option<String>)
    ensures
        match r {
            Some(s) => valid_utf8(bytes@) && s@ == decode_utf8(bytes@),
            None => !valid_utf8(bytes@),
        },
{
    std::str::from_utf8(bytes).ok().map(String::from)
}

/// The end of the run of white space, or of anything else, that starts at `i`.
pub open spec fn run_end(s: Seq<char>, white: bool, i: int) -> int
    decreases s.len() - i,
{
    if 0 <= i < s.len() && is_space(s[i]) == white {
        run_end(s, white, i + 1)
    } else {
        i
    }
}

/// The second word of a line; empty where there is none.
pub open spec fn second_word(s: Seq<char>) -> Seq<char> {
    let a = run_end(s, true, 0);
    let b = run_end(s, false, a);
    let c = run_end(s, true, b);
    let d = run_end(s, false, c);
    s.subrange(c, d)
}

/// Whether a request is for the structure: its target says so, with a query or without.
pub open spec fn wants_state_v(head: Seq<char>) -> bool {
    let l = lines_of(head);
    if l.len() == 0 {
        false
    } else {
        let t = second_word(l[0]);
        t == "/state"@ || begins(t, "/state?"@)
    }
}

proof fn run_end_bounds(s: Seq<char>, white: bool, i: int)
    requires
        0 <= i <= s.len(),
    ensures
        i <= run_end(s, white, i) <= s.len(),
    decreases s.len() - i,
{
    if i < s.len() && is_space(s[i]) == white {
        run_end_bounds(s, white, i + 1);
    }
}

fn skip_run(v: &Vec<char>, white: bool, from: usize) -> (r: usize)
    requires
        from <= v@.len(),
    ensures
        from <= r <= v@.len(),
        r == run_end(v@, white, from as int),
{
    let mut i: usize = from;
    while i < v.len() && space(v[i]) == white
        invariant
            from <= i <= v@.len(),
            run_end(v@, white, from as int) == run_end(v@, white, i as int),
        decreases v@.len() - i,
    {
        i = i + 1;
    }
    i
}

/// Whether the head of a request asks for the structure; any other asks for the picture.
pub fn is_state(head: &[u8]) -> (r: bool)
    ensures
        r == (valid_utf8(head@) && wants_state_v(decode_utf8(head@))),
{
    match utf8_text(head) {
        Some(text) => {
            let l = lines(text.as_str());
            assert(views(l@).len() == l@.len());
            if l.len() == 0 {
                return false;
            }
            assert(views(l@)[0] == l@[0]@);
            let v = chars_of(l[0].as_str());
            let a: usize = skip_run(&v, true, 0);
            let b: usize = skip_run(&v, false, a);
            let c: usize = skip_run(&v, true, b);
            let d: usize = skip_run(&v, false, c);
            let t = text_of(&v, c, d);
            same(t.as_str(), "/state") || starts_with(t.as_str(), "/state?")
        },
        None => false,
    }
}

/// The head of a reply.
pub open spec fn reply_head_v(state: bool, ok: bool, len: nat) -> Seq<char> {
    "HTTP/1.1 "@ + (if ok {
        "200 OK"@
    } else {
        "500 Internal Server Error"@
    }) + "\r\nContent-Type: "@ + (if !ok {
        "text/plain"@
    } else if state {
        "application/json"@
    } else {
        "image/png"@
    }) + "\r\nContent-Length: "@ + dec(len) + "\r\nConnection: close\r\n\r\n"@
}

/// The head of a reply: to a request for the structure or the picture, with success or
/// without, with a body of `len` bytes.
pub fn reply_head(state: bool, ok: bool, len: usize) -> (r: String)
    ensures
        r@ == reply_head_v(state, ok, len as nat),
{
    let status = if ok {
        "200 OK"
    } else {
        "500 Internal Server Error"
    };
    let ctype = if !ok {
        "text/plain"
    } else if state {
        "application/json"
    } else {
        "image/png"
    };
    let mut out = cat3("HTTP/1.1 ", status, "\r\nContent-Type: ");
    out.append(ctype);
    out.append("\r\nContent-Length: ");
    out.append(dec_len(len).as_str());
    out.append("\r\nConnection: close\r\n\r\n");
    out
}

// ── Laws ────────────────────────────────────────────────────────────────────

/// The structure names exactly the apps whose bit is set.
pub proof fn masks_name_their_apps(mask: u32, n: int, i: int)
    requires
        0 <= i < n <= 22,
    ensures
        has_bit(mask, app_at(i as i32)) ==> masked(mask, n).contains(
            JsonV::Str(slug(app_at(i as i32))),
        ),
        masked(mask, n).contains(JsonV::Str(slug(app_at(i as i32)))) ==> has_bit(
            mask,
            app_at(i as i32),
        ),
    decreases n,
{
    let name = JsonV::Str(slug(app_at(i as i32)));
    let before = masked(mask, n - 1);
    let now = masked(mask, n);
    let last = app_at((n - 1) as i32);
    if i < n - 1 {
        masks_name_their_apps(mask, n - 1, i);
        names_differ(i, n - 1);
        if before.contains(name) {
            let k = choose|k: int| 0 <= k < before.len() && before[k] == name;
            assert(now[k] == name);
        }
        if now.contains(name) {
            let k = choose|k: int| 0 <= k < now.len() && now[k] == name;
            if k < before.len() {
                assert(before[k] == name);
            }
        }
    } else {
        if has_bit(mask, last) {
            assert(now[now.len() - 1] == name);
        } else {
            masked_below(mask, n - 1, n - 1);
        }
    }
}

proof fn names_differ(i: int, j: int)
    requires
        0 <= i < 22,
        0 <= j < 22,
        i != j,
    ensures
        slug(app_at(i as i32)) != slug(app_at(j as i32)),
{
    crate::apps::slug_round_trip(app_at(i as i32));
    crate::apps::slug_round_trip(app_at(j as i32));
    assert(crate::apps::ordinal(app_at(i as i32)) == i);
    assert(crate::apps::ordinal(app_at(j as i32)) == j);
}

proof fn masked_below(mask: u32, n: int, i: int)
    requires
        0 <= n <= i < 22,
    ensures
        !masked(mask, n).contains(JsonV::Str(slug(app_at(i as i32)))),
    decreases n,
{
    if n > 0 {
        masked_below(mask, n - 1, i);
        names_differ(n - 1, i);
        let name = JsonV::Str(slug(app_at(i as i32)));
        if masked(mask, n).contains(name) {
            let k = choose|k: int| 0 <= k < masked(mask, n).len() && masked(mask, n)[k] == name;
            if k < masked(mask, n - 1).len() {
                assert(masked(mask, n - 1)[k] == name);
            }
        }
    }
}

/// A window is told as focused exactly where it has the focus.
pub proof fn focus_is_told(s: ShellV, i: int)
    requires
        0 <= i < s.desk.windows.len(),
    ensures
        windows_json(s.desk.windows, s.desk.focused)[i] == window_json(
            s.desk.windows[i],
            s.desk.focused,
        ),
        windows_json(s.desk.windows, s.desk.focused).len() == s.desk.windows.len(),
{
}

} // verus!
