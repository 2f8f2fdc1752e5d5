//! Dispatch: what the shell does when the agent tells it something.
use vstd::prelude::*;
use crate::apps::{app_named, kind_from_slug, kind_title, title, AppKind};
use crate::arrange::{arrange_v, arranges, opened_by};
use crate::board::{
    active_v, add_blocked_v, add_subagent_v, batch_v, clear_blocked_v, goal_v, node_v, recent_v,
    remove_subagent_v, turn_done_v, worker_v, BatchRow, GREEN, TEAL,
};
use crate::chat::{
    answered, asked, extended, finished, last_words, needs_bubble, pushed, replay_history, replayed,
    said, said_v, tool_card, tool_v, Transcript, TranscriptV,
};
use crate::council::{adjourned, convened, ending, ending_text, new_round, said_all, said_more};
use crate::desktop::{agent_close_v, agent_focus_v, agent_open_v, has_bit, has_kind, DesktopV};
use crate::effects::{notice, notice_v, Effect, EffectV, ToastKind};
use crate::events::{CouncilAgentDef, ToolCall, ToolCallV, ToolOutput, ToolOutputV};
use crate::inbox::upserted;
use crate::json::{
    compact, items_or_none, num_at, pretty, pretty_json, print_json, text_or, uint_at, uint_or,
    Json, JsonV,
};
use crate::mandala::charted;
use crate::notices::{next_after, wrapping_next};
use crate::personas::{
    mode_on, persona_from_slug, persona_label, persona_mode, persona_named, persona_title,
};
use crate::reader::{
    build_occipital_render, json_str, mandala_payload, occipital_payload, payload_of, push_strings,
    render_v, str_v, strings_at, turned, Wanted,
};
use crate::reflex::{
    applied_effects, applied_v, apply_ui_reflex, fired, is_trigger, known_trigger, reflex_fire,
};
use crate::shell::{
    build_persona_frame, facing, persona_frame, rested, Expression, ExpressionV, FaceV, Shell,
    ShellEvent, ShellEventV, ShellV,
};
use crate::text::{cat, cat3, copy, dec, dec_u64, head, same, take_chars, views};

verus! {

broadcast use {crate::text::views_push, crate::text::views_empty, crate::text::views_add};

/// How often the agent may change the windows in one turn.
pub const UI_TURN_MUTATION_CAP: u32 = 4;

// ── Small changes ───────────────────────────────────────────────────────────

/// The chat scrolled to its end.
pub open spec fn scrolled(s: ShellV) -> ShellV {
    ShellV { scroll_tick: wrapping_next(s.scroll_tick), ..s }
}

/// The numbers among the first `n` that are not `x`.
pub open spec fn sifted(a: Seq<u64>, x: u64, n: int) -> Seq<u64>
    decreases n,
{
    if n <= 0 {
        Seq::empty()
    } else if a[n - 1] == x {
        sifted(a, x, n - 1)
    } else {
        sifted(a, x, n - 1).push(a[n - 1])
    }
}

/// The air quality in words.
pub open spec fn iaq_words(score: u32) -> Seq<char> {
    if score <= 50 {
        "Good"@
    } else if score <= 100 {
        "Moderate"@
    } else if score <= 150 {
        "Unhealthy (Sensitive)"@
    } else if score <= 200 {
        "Unhealthy"@
    } else if score <= 300 {
        "Very Unhealthy"@
    } else {
        "Hazardous"@
    }
}

/// The air quality in words.
pub fn iaq_label(score: u32) -> (r: &'static str)
    ensures
        r@ == iaq_words(score),
{
    if score <= 50 {
        "Good"
    } else if score <= 100 {
        "Moderate"
    } else if score <= 150 {
        "Unhealthy (Sensitive)"
    } else if score <= 200 {
        "Unhealthy"
    } else if score <= 300 {
        "Very Unhealthy"
    } else {
        "Hazardous"
    }
}

fn holds(a: &Vec<u64>, x: u64) -> (r: bool)
    ensures
        r == a@.contains(x),
{
    for i in 0..a.len()
        invariant
            forall|j: int| 0 <= j < i ==> a@[j] != x,
    {
        if a[i] == x {
            return true;
        }
    }
    false
}

fn sift(a: &mut Vec<u64>, x: u64)
    ensures
        final(a)@ == sifted(old(a)@, x, old(a)@.len() as int),
{
    let mut out: Vec<u64> = Vec::new();
    for i in 0..a.len()
        invariant
            out@ == sifted(a@, x, i as int),
    {
        if a[i] != x {
            out.push(a[i]);
        }
    }
    *a = out;
}

fn append_effects(out: &mut Vec<Effect>, more: Vec<Effect>)
    ensures
        views(final(out)@) == views(old(out)@) + views(more@),
{
    let mut rest = more;
    out.append(&mut rest);
}

// ── The greeting ────────────────────────────────────────────────────────────

/// The gateway names the session and tells what was said in it.
pub open spec fn greeted(s: ShellV, ev: JsonV) -> ShellV {
    let h = items_or_none(ev, "history"@);
    let t = ShellV {
        mutations: 0,
        chat: TranscriptV { messages: replayed(h), last_stamp: 0 },
        ..s
    };
    let u = match uint_at(ev, "session_id"@) {
        Some(id) => ShellV {
            session_id: Some(id),
            status: "Session "@ + dec(id as nat),
            current_session: id as i32,
            ..t
        },
        None => t,
    };
    if replayed(h).len() > 0 {
        scrolled(u)
    } else {
        u
    }
}

/// A turn starts: the agent's line is opened.
pub open spec fn turn_started(s: ShellV) -> ShellV {
    scrolled(
        ShellV {
            busy: true,
            face: facing(s.face, "thinking"@),
            chat: pushed(s.chat, said_v("agent"@, Seq::empty(), true)),
            ..s
        },
    )
}

/// A peer of the mesh wrote.
pub open spec fn mesh_message(s: ShellV, ev: JsonV, now_secs: i64) -> ShellV {
    ShellV {
        inbox: upserted(
            s.inbox,
            text_or(ev, "from_node"@, "peer"@),
            uint_or(ev, "session"@, 0) as i32,
            str_v(ev, "preview"@),
            now_secs,
        ),
        ..s
    }
}

/// The notice that a peer wrote; a click opens its thread.
pub open spec fn mesh_notice(ev: JsonV) -> EffectV {
    let from = text_or(ev, "from_node"@, "peer"@);
    let preview = str_v(ev, "preview"@);
    EffectV::Toast {
        kind: ToastKind::Info,
        text: if preview.len() == 0 {
            "✉ "@ + from
        } else {
            "✉ "@ + from + ": "@ + preview
        },
        session: uint_or(ev, "session"@, 0) as i32,
    }
}

fn narrow(n: u64) -> (r: i32)
    ensures
        r == n as i32,
{
    #[verifier::truncate]
    (n as i32)
}

impl Shell {
    fn bump_scroll(&mut self)
        ensures
            final(self)@ == scrolled(old(self)@),
    {
        self.scroll_tick = next_after(self.scroll_tick);
    }

    fn greet(&mut self, ev: &Json)
        ensures
            final(self)@ == greeted(old(self)@, ev@),
    {
        let history = match ev.arr_at("history") {
            Some(h) => replay_history(h),
            None => {
                let none: Vec<Json> = Vec::new();
                replay_history(&none)
            },
        };
        let some = !history.is_empty();
        assert(views(history@).len() == history@.len());
        match ev.u64_at("session_id") {
            Some(id) => {
                self.session_id = Some(id);
                self.status = cat("Session ", dec_u64(id).as_str());
                self.current_session = narrow(id);
            },
            None => {},
        }
        self.mutations = 0;
        self.chat = Transcript { messages: history, last_stamp: 0 };
        if some {
            self.bump_scroll();
        }
    }

    fn start_turn(&mut self)
        ensures
            final(self)@ == turn_started(old(self)@),
    {
        self.busy = true;
        self.face.set_state("thinking");
        self.chat.push_message(said("agent", String::new(), true));
        self.bump_scroll();
    }

    fn take_mesh_message(&mut self, ev: &Json, now_secs: i64) -> (r: Effect)
        ensures
            final(self)@ == mesh_message(old(self)@, ev@, now_secs),
            r@ == mesh_notice(ev@),
    {
        let from = ev.str_or("from_node", "peer");
        let preview = json_str(ev, "preview");
        let session: i32 = narrow(ev.u64_or("session", 0));
        let mut text = cat("✉ ", from.as_str());
        if !preview.as_str().is_empty() {
            text.append(": ");
            text.append(preview.as_str());
        }
        self.inbox.upsert(from.as_str(), session, preview.as_str(), now_secs);
        Effect::Toast { kind: ToastKind::Info, text, session }
    }
}

// ── A turn ──────────────────────────────────────────────────────────────────

/// The agent says more. Its first words open a line.
pub open spec fn agent_text(s: ShellV, delta: Seq<char>) -> ShellV {
    if delta.len() == 0 {
        s
    } else {
        let t = if needs_bubble(s.chat) {
            ShellV {
                chat: pushed(s.chat, said_v("agent"@, Seq::empty(), true)),
                busy: true,
                board: active_v(s.board, "responding…"@),
                ..s
            }
        } else {
            s
        };
        scrolled(
            ShellV {
                face: facing(t.face, "speaking"@),
                chat: extended(t.chat, delta),
                ..t
            },
        )
    }
}

/// A turn is over: a sub-agent's, or the session's own.
pub open spec fn turn_complete(s: ShellV, session: u64) -> ShellV {
    let sub = s.subagents.contains(session);
    ShellV {
        subagents: sifted(s.subagents, session, s.subagents.len() as int),
        board: if sub {
            remove_subagent_v(s.board, session)
        } else {
            turn_done_v(s.board)
        },
        chat: finished(s.chat),
        busy: false,
        mutations: 0,
        face: if s.recording {
            s.face
        } else {
            rested(s.face)
        },
        ..s
    }
}

/// The agent's last words are read aloud, where that is wanted and there are any.
pub open spec fn read_aloud(s: ShellV) -> Seq<EffectV> {
    let text = last_words(s.chat.messages, s.chat.messages.len() as int);
    if s.tts && text.len() > 0 {
        seq![EffectV::Speak(text)]
    } else {
        Seq::empty()
    }
}

/// The wake word was heard.
pub open spec fn woken(s: ShellV) -> ShellV {
    let t = ShellV { face: facing(s.face, "listening"@), ..s };
    if s.recording {
        t
    } else {
        ShellV { current_view: 0, ..t }
    }
}

/// A sensor's alert in words.
pub open spec fn alert_text(
    node_id: Seq<char>,
    kind: Seq<char>,
    value: Seq<char>,
    threshold: Seq<char>,
) -> Seq<char> {
    if kind == "motion"@ {
        "⚠ "@ + node_id + ": motion detected"@
    } else {
        "⚠ "@ + node_id + ": "@ + kind + " alert — "@ + value + " (threshold "@ + threshold + ")"@
    }
}

impl Shell {
    fn take_text(&mut self, delta: &str)
        ensures
            final(self)@ == agent_text(old(self)@, delta@),
    {
        if delta.is_empty() {
            return;
        }
        if self.chat.lacks_bubble() {
            self.chat.push_message(said("agent", String::new(), true));
            self.busy = true;
            self.board.board_active("responding…");
        }
        self.face.set_state("speaking");
        self.chat.update_last_agent_message(delta);
        self.bump_scroll();
    }

    fn complete_turn(&mut self, session: u64) -> (r: Vec<Effect>)
        ensures
            final(self)@ == turn_complete(old(self)@, session),
            views(r@) == read_aloud(final(self)@),
    {
        let sub = holds(&self.subagents, session);
        sift(&mut self.subagents, session);
        if sub {
            self.board.board_remove_subagent(session);
        } else {
            self.board.board_turn_done();
        }
        self.chat.finish_last_agent_message();
        self.busy = false;
        self.mutations = 0;
        if !self.recording {
            self.face.face_rest();
        }
        let mut out: Vec<Effect> = Vec::new();
        if self.tts {
            let text = self.chat.last_agent_text();
            if !text.as_str().is_empty() {
                out.push(Effect::Speak(text));
                assert(views(out@) =~= read_aloud(self@));
            }
        }
        out
    }

    fn wake(&mut self) -> (r: Vec<Effect>)
        ensures
            final(self)@ == woken(old(self)@),
            views(r@) == if old(self)@.recording {
                Seq::<EffectV>::empty()
            } else {
                seq![EffectV::Record]
            },
    {
        let mut out: Vec<Effect> = Vec::new();
        self.face.set_state("listening");
        if !self.recording {
            self.current_view = 0;
            out.push(Effect::Record);
            assert(views(out@) =~= seq![EffectV::Record]);
        }
        out
    }
}

fn alert(node_id: &str, kind: &str, value: &str, threshold: &str) -> (r: String)
    ensures
        r@ == alert_text(node_id@, kind@, value@, threshold@),
{
    let mut out = cat("⚠ ", node_id);
    if same(kind, "motion") {
        out.append(": motion detected");
    } else {
        out.append(": ");
        out.append(kind);
        out.append(" alert — ");
        out.append(value);
        out.append(" (threshold ");
        out.append(threshold);
        out.append(")");
    }
    out
}

// ── The agent's hands ───────────────────────────────────────────────────────

/// Whether a tool only changes how the shell looks: such a call is no work, and has no
/// card.
pub open spec fn is_ui_effect(tool: Seq<char>) -> bool {
    tool == "display_face"@ || tool == "sketch_draw"@ || is_staging(tool)
}

/// Whether a tool stages the windows.
pub open spec fn is_staging(tool: Seq<char>) -> bool {
    tool == "ui_open"@ || tool == "ui_close"@ || tool == "ui_focus"@ || tool == "ui_arrange"@
        || tool == "ui_theme"@ || tool == "ui_reflex"@
}

fn staging(tool: &str) -> (r: bool)
    ensures
        r == is_staging(tool@),
{
    same(tool, "ui_open") || same(tool, "ui_close") || same(tool, "ui_focus") || same(
        tool,
        "ui_arrange",
    ) || same(tool, "ui_theme") || same(tool, "ui_reflex")
}

/// What the program does when the agent has opened an app: bring it up to date, and
/// say so where the window is new.
pub open spec fn open_effects(d: DesktopV, k: AppKind, told: bool) -> Seq<EffectV> {
    if has_bit(d.latched, k) {
        Seq::empty()
    } else if told && !has_kind(d.windows, k) {
        seq![
            EffectV::Refresh(k),
            notice_v(ToastKind::Info, "🪟 APEX opened "@ + title(k)),
        ]
    } else {
        seq![EffectV::Refresh(k)]
    }
}

/// The desktop after the agent opened, closed or raised an app.
pub open spec fn verb_v(d: DesktopV, verb: Seq<char>, app: Seq<char>) -> DesktopV {
    match app_named(app) {
        Some(k) => if verb == "ui_open"@ {
            agent_open_v(d, k)
        } else if verb == "ui_close"@ {
            agent_close_v(d, k)
        } else if verb == "ui_focus"@ {
            agent_focus_v(d, k)
        } else {
            d
        },
        None => d,
    }
}

pub open spec fn verb_effects(d: DesktopV, verb: Seq<char>, app: Seq<char>) -> Seq<EffectV> {
    match app_named(app) {
        Some(k) => if verb == "ui_open"@ {
            open_effects(d, k, true)
        } else {
            Seq::empty()
        },
        None => Seq::empty(),
    }
}

/// The first `n` apps are brought up to date.
pub open spec fn refreshes(kinds: Seq<AppKind>, n: int) -> Seq<EffectV>
    decreases n,
{
    if n <= 0 {
        Seq::empty()
    } else {
        refreshes(kinds, n - 1).push(EffectV::Refresh(kinds[n - 1]))
    }
}

pub open spec fn arrange_effects(
    d: DesktopV,
    layout: Seq<char>,
    apps: Seq<Seq<char>>,
) -> Seq<EffectV> {
    let kinds = opened_by(d, layout, apps);
    let all = refreshes(kinds, kinds.len() as int);
    if arranges(d, layout, apps) {
        all.push(
            notice_v(ToastKind::Info, "🪟 APEX arranged the desktop ("@ + layout + ")"@),
        )
    } else {
        all
    }
}

/// The shell and the effects of a call that stages the windows. Beyond the bound of a
/// turn such a call does nothing.
pub open spec fn staged(s: ShellV, tool: Seq<char>, args: JsonV) -> (ShellV, Seq<EffectV>) {
    if s.mutations >= UI_TURN_MUTATION_CAP {
        (s, Seq::empty())
    } else {
        let t = ShellV { mutations: (s.mutations + 1) as u32, ..s };
        if tool == "ui_arrange"@ {
            let layout = str_v(args, "layout"@);
            let apps = strings_at(args, "apps"@);
            (
                ShellV { desk: arrange_v(s.desk, layout, apps), ..t },
                arrange_effects(s.desk, layout, apps),
            )
        } else if tool == "ui_theme"@ {
            match persona_named(str_v(args, "persona"@)) {
                Some(p) => (
                    ShellV {
                        persona: p,
                        desk: DesktopV { mode: mode_on(p, s.small_renderer), ..s.desk },
                        ..t
                    },
                    seq![
                        EffectV::Send(persona_frame(p)),
                        EffectV::Wear(p),
                        notice_v(
                            ToastKind::Info,
                            "🎨 APEX switched the skin to "@ + persona_label(p),
                        ),
                    ],
                ),
                None => (t, Seq::empty()),
            }
        } else if tool == "ui_reflex"@ {
            (
                ShellV { reflexes: applied_v(s.reflexes, args), ..t },
                applied_effects(s.reflexes, args),
            )
        } else {
            let app = str_v(args, "app"@);
            (ShellV { desk: verb_v(s.desk, tool, app), ..t }, verb_effects(s.desk, tool, app))
        }
    }
}

impl Shell {
    fn agent_open(&mut self, kind: AppKind, told: bool) -> (r: Vec<Effect>)
        ensures
            final(self)@ == (ShellV {
                desk: agent_open_v(old(self)@.desk, kind),
                ..old(self)@
            }),
            views(r@) == open_effects(old(self)@.desk, kind, told),
    {
        let mut out: Vec<Effect> = Vec::new();
        let existed = self.desk.index_by_kind(kind).is_some();
        if self.desk.agent_open_window(kind) {
            out.push(Effect::Refresh(kind));
            if told && !existed {
                out.push(notice(ToastKind::Info, cat("🪟 APEX opened ", kind_title(kind))));
            }
            assert(views(out@) =~= open_effects(old(self)@.desk, kind, told));
        }
        out
    }

    /// Carries out the agent's word on one app.
    fn apply_ui_verb(&mut self, verb: &str, app: &str) -> (r: Vec<Effect>)
        ensures
            final(self)@ == (ShellV { desk: verb_v(old(self)@.desk, verb@, app@), ..old(self)@ }),
            views(r@) == verb_effects(old(self)@.desk, verb@, app@),
    {
        match kind_from_slug(app) {
            Some(kind) => {
                if same(verb, "ui_open") {
                    return self.agent_open(kind, true);
                }
                if same(verb, "ui_close") {
                    self.desk.agent_close(kind);
                } else if same(verb, "ui_focus") {
                    self.desk.agent_focus(kind);
                }
                Vec::new()
            },
            None => Vec::new(),
        }
    }

    fn apply_ui_arrange(&mut self, args: &Json) -> (r: Vec<Effect>)
        ensures
            ({
                let layout = str_v(args@, "layout"@);
                let apps = strings_at(args@, "apps"@);
                &&& final(self)@ == (ShellV {
                    desk: arrange_v(old(self)@.desk, layout, apps),
                    ..old(self)@
                })
                &&& views(r@) == arrange_effects(old(self)@.desk, layout, apps)
            }),
    {
        let layout = json_str(args, "layout");
        let mut apps: Vec<String> = Vec::new();
        push_strings(args, "apps", &mut apps);
        assert(Seq::empty() + strings_at(args@, "apps"@) =~= strings_at(args@, "apps"@));
        let done = self.desk.arrange(layout.as_str(), &apps);
        let mut out: Vec<Effect> = Vec::new();
        for i in 0..done.opened.len()
            invariant
                views(out@) == refreshes(done.opened@, i as int),
        {
            out.push(Effect::Refresh(done.opened[i]));
        }
        if done.done {
            out.push(
                notice(
                    ToastKind::Info,
                    cat3("🪟 APEX arranged the desktop (", layout.as_str(), ")"),
                ),
            );
        }
        out
    }

    fn apply_ui_theme(&mut self, persona: &str) -> (r: Vec<Effect>)
        ensures
            match persona_named(persona@) {
                Some(p) => {
                    &&& final(self)@ == (ShellV {
                        persona: p,
                        desk: DesktopV {
                            mode: mode_on(p, old(self)@.small_renderer),
                            ..old(self)@.desk
                        },
                        ..old(self)@
                    })
                    &&& views(r@) == seq![
                        EffectV::Send(persona_frame(p)),
                        EffectV::Wear(p),
                        notice_v(
                            ToastKind::Info,
                            "🎨 APEX switched the skin to "@ + persona_label(p),
                        ),
                    ]
                },
                None => final(self)@ == old(self)@ && views(r@) == Seq::<EffectV>::empty(),
            },
    {
        let mut out: Vec<Effect> = Vec::new();
        match persona_from_slug(persona) {
            Some(p) => {
                self.persona = p;
                self.desk.mode = persona_mode(p, self.small_renderer);
                out.push(Effect::Send(build_persona_frame(p)));
                out.push(Effect::Wear(p));
                out.push(
                    notice(
                        ToastKind::Info,
                        cat("🎨 APEX switched the skin to ", persona_title(p)),
                    ),
                );
                assert(views(out@) =~= seq![
                    EffectV::Send(persona_frame(p)),
                    EffectV::Wear(p),
                    notice_v(
                        ToastKind::Info,
                        "🎨 APEX switched the skin to "@ + persona_label(p),
                    ),
                ]);
            },
            None => {},
        }
        out
    }

    fn stage(&mut self, tool: &str, args: &Json) -> (r: Vec<Effect>)
        ensures
            (final(self)@, views(r@)) == staged(old(self)@, tool@, args@),
    {
        if self.mutations >= UI_TURN_MUTATION_CAP {
            return Vec::new();
        }
        self.mutations = self.mutations + 1;
        if same(tool, "ui_arrange") {
            self.apply_ui_arrange(args)
        } else if same(tool, "ui_theme") {
            self.apply_ui_theme(json_str(args, "persona").as_str())
        } else if same(tool, "ui_reflex") {
            apply_ui_reflex(&mut self.reflexes, args)
        } else {
            self.apply_ui_verb(tool, json_str(args, "app").as_str())
        }
    }
}

// ── Tools ───────────────────────────────────────────────────────────────────

/// A call's arguments on its card.
pub open spec fn args_text(args: JsonV) -> Seq<char> {
    if args is Null {
        Seq::empty()
    } else {
        pretty(args)
    }
}

/// A tool's answer on its card.
pub open spec fn content_text(content: JsonV) -> Seq<char> {
    match content {
        JsonV::Str(s) => s,
        JsonV::Null => Seq::empty(),
        _ => pretty(content),
    }
}

/// The expression that a call describes.
pub open spec fn expression_v(args: JsonV) -> ExpressionV {
    ExpressionV {
        state: text_or(args, "state"@, "neutral"@),
        gaze: text_or(args, "gaze"@, "center"@),
        intensity: match num_at(args, "intensity"@) {
            Some(n) => n.shown,
            None => "0.7"@,
        },
    }
}

/// The shell and the effects when the agent asks for a tool.
pub open spec fn tool_requested(s: ShellV, call: ToolCallV) -> (ShellV, Seq<EffectV>) {
    let t = if is_ui_effect(call.tool) {
        s
    } else {
        ShellV { board: active_v(s.board, "running "@ + call.tool), ..s }
    };
    if call.tool == "display_face"@ {
        let e = expression_v(call.args);
        (ShellV { face: FaceV { shown: e, held: Some(e) }, ..t }, Seq::empty())
    } else if call.tool == "sketch_draw"@ {
        (t, seq![EffectV::Draw(call.args)])
    } else if is_staging(call.tool) {
        staged(t, call.tool, call.args)
    } else {
        (
            scrolled(
                ShellV {
                    chat: pushed(
                        t.chat,
                        tool_v(
                            dec(call.id.0 as nat),
                            call.tool,
                            args_text(call.args),
                            Seq::empty(),
                            "running"@,
                            false,
                        ),
                    ),
                    face: facing(t.face, "thinking"@),
                    busy: true,
                    ..t
                },
            ),
            Seq::empty(),
        )
    }
}

/// The shell and the effects once a pane's window is revealed: the agent opens it where
/// it is not there and not latched.
pub open spec fn revealed(s: ShellV, k: AppKind) -> (ShellV, Seq<EffectV>) {
    if has_kind(s.desk.windows, k) {
        (s, Seq::empty())
    } else {
        (ShellV { desk: agent_open_v(s.desk, k), ..s }, open_effects(s.desk, k, false))
    }
}

/// The reader with what a tool found, where that is for the reader.
pub open spec fn followed(s: ShellV, output: ToolOutputV) -> (ShellV, Seq<EffectV>) {
    match payload_of(Wanted::Reader, output.content) {
        Some(p) => if output.ok {
            revealed(
                ShellV { reader: turned(s.reader, render_v(p)), ..s },
                AppKind::Occipital,
            )
        } else {
            (s, Seq::empty())
        },
        None => (s, Seq::empty()),
    }
}

/// The mandala window with a reading, where a tool gave one.
pub open spec fn surveyed(s: ShellV, output: ToolOutputV) -> (ShellV, Seq<EffectV>) {
    match payload_of(Wanted::Mandalas, output.content) {
        Some(p) => if output.ok {
            revealed(ShellV { mandala: charted(s.mandala, p), ..s }, AppKind::Mandala)
        } else {
            (s, Seq::empty())
        },
        None => (s, Seq::empty()),
    }
}

/// The shell and the effects when a tool has answered.
pub open spec fn tool_result(s: ShellV, call: u64, output: ToolOutputV) -> (ShellV, Seq<EffectV>) {
    let id = dec(call as nat);
    let t = ShellV {
        board: active_v(clear_blocked_v(s.board, id), "working…"@),
        chat: answered(
            s.chat,
            id,
            content_text(output.content),
            if output.ok {
                "done"@
            } else {
                "error"@
            },
        ),
        ..s
    };
    let (u, fx) = followed(t, output);
    let (v, gx) = surveyed(u, output);
    (scrolled(v), fx + gx)
}

/// The shell when a call waits for the human.
pub open spec fn approval_pending(s: ShellV, call: ToolCallV) -> ShellV {
    let id = dec(call.id.0 as nat);
    scrolled(
        ShellV {
            board: active_v(
                add_blocked_v(s.board, id, call.tool, head(compact(call.args), 60)),
                "waiting for approval"@,
            ),
            chat: asked(s.chat, id, call.tool, args_text(call.args)),
            face: facing(s.face, "alert"@),
            busy: true,
            ..s
        },
    )
}

fn show_args(args: &Json) -> (r: String)
    ensures
        r@ == args_text(args@),
{
    match args {
        Json::Null => String::new(),
        _ => pretty_json(args),
    }
}

fn show_content(content: &Json) -> (r: String)
    ensures
        r@ == content_text(content@),
{
    match content {
        Json::Str(s) => s.clone(),
        Json::Null => String::new(),
        _ => pretty_json(content),
    }
}

fn read_expression(args: &Json) -> (r: Expression)
    ensures
        r@ == expression_v(args@),
{
    let intensity = match args.num_at("intensity") {
        Some(n) => n.shown.clone(),
        None => copy("0.7"),
    };
    Expression {
        state: args.str_or("state", "neutral"),
        gaze: args.str_or("gaze", "center"),
        intensity,
    }
}

impl Shell {
    fn request_tool(&mut self, call: &ToolCall) -> (r: Vec<Effect>)
        ensures
            (final(self)@, views(r@)) == tool_requested(old(self)@, call@),
    {
        let tool = call.tool.as_str();
        let face = same(tool, "display_face");
        let sketch = same(tool, "sketch_draw");
        let stages = staging(tool);
        if !(face || sketch || stages) {
            self.board.board_active(cat("running ", tool).as_str());
        }
        let mut out: Vec<Effect> = Vec::new();
        if face {
            self.face.set_face_emote(read_expression(&call.args));
        } else if sketch {
            out.push(Effect::Draw(call.args.copy()));
            assert(views(out@) =~= seq![EffectV::Draw(call.args@)]);
        } else if stages {
            return self.stage(tool, &call.args);
        } else {
            self.chat.push_message(
                tool_card(
                    call.id.to_text(),
                    call.tool.clone(),
                    show_args(&call.args),
                    String::new(),
                    "running",
                    false,
                ),
            );
            self.face.set_state("thinking");
            self.busy = true;
            self.bump_scroll();
        }
        out
    }

    /// Opens an app's window where it has none, as the agent would.
    pub fn show_window(&mut self, kind: AppKind) -> (r: Vec<Effect>)
        ensures
            (final(self)@, views(r@)) == revealed(old(self)@, kind),
    {
        if self.desk.index_by_kind(kind).is_some() {
            Vec::new()
        } else {
            self.agent_open(kind, false)
        }
    }

    fn follow(&mut self, output: &ToolOutput) -> (r: Vec<Effect>)
        ensures
            (final(self)@, views(r@)) == followed(old(self)@, output@),
    {
        if output.ok {
            match occipital_payload(&output.content) {
                Some(p) => {
                    self.reader.apply_occipital_render(build_occipital_render(&p));
                    return self.show_window(AppKind::Occipital);
                },
                None => {},
            }
        }
        Vec::new()
    }

    fn survey(&mut self, output: &ToolOutput) -> (r: Vec<Effect>)
        ensures
            (final(self)@, views(r@)) == surveyed(old(self)@, output@),
    {
        if output.ok {
            match mandala_payload(&output.content) {
                Some(p) => {
                    self.mandala.apply_mandala_render(&p);
                    return self.show_window(AppKind::Mandala);
                },
                None => {},
            }
        }
        Vec::new()
    }

    fn take_result(&mut self, call: u64, output: &ToolOutput) -> (r: Vec<Effect>)
        ensures
            (final(self)@, views(r@)) == tool_result(old(self)@, call, output@),
    {
        let id = dec_u64(call);
        self.board.board_clear_blocked(id.as_str());
        self.board.board_active("working…");
        let status = if output.ok {
            "done"
        } else {
            "error"
        };
        self.chat.answer(id.as_str(), show_content(&output.content), status);
        let mut out = self.follow(output);
        let more = self.survey(output);
        append_effects(&mut out, more);
        self.bump_scroll();
        out
    }

    fn await_approval(&mut self, call: &ToolCall)
        ensures
            final(self)@ == approval_pending(old(self)@, call@),
    {
        let id = call.id.to_text();
        let args = print_json(&call.args);
        self.board.board_add_blocked(
            id.as_str(),
            call.tool.as_str(),
            take_chars(args.as_str(), 60),
        );
        self.board.board_active("waiting for approval");
        self.chat.ask(id.as_str(), call.tool.as_str(), show_args(&call.args));
        self.face.set_state("alert");
        self.busy = true;
        self.bump_scroll();
    }
}

// ── Everything ──────────────────────────────────────────────────────────────

/// A sub-agent starts.
pub open spec fn subagent_started(s: ShellV, child: u64, prompt: Seq<char>) -> ShellV {
    ShellV {
        subagents: if s.subagents.contains(child) {
            s.subagents
        } else {
            s.subagents.push(child)
        },
        board: add_subagent_v(s.board, child, prompt),
        ..s
    }
}

/// The shell and the effects of an event.
pub open spec fn handled(s: ShellV, e: ShellEventV) -> (ShellV, Seq<EffectV>) {
    let none = Seq::<EffectV>::empty();
    match e {
        ShellEventV::AgentText { delta } => (agent_text(s, delta), none),
        ShellEventV::TurnComplete { session } => {
            let t = turn_complete(s, session);
            (t, read_aloud(t))
        },
        ShellEventV::SensorAlert { node_id, kind, value, threshold } => (
            s,
            seq![notice_v(ToastKind::Warn, alert_text(node_id, kind, value, threshold))],
        ),
        ShellEventV::WakeTriggered => (woken(s), if s.recording {
            none
        } else {
            seq![EffectV::Record]
        }),
        ShellEventV::ToolRequested { call } => tool_requested(s, call),
        ShellEventV::ToolResult { call, output } => tool_result(s, call.0, output),
        ShellEventV::ApprovalPending { call } => (approval_pending(s, call), none),
        ShellEventV::AirQuality { iaq } => (ShellV { iaq_label: iaq_words(iaq), ..s }, none),
        ShellEventV::ThermalFrame => (ShellV { thermal_active: true, ..s }, none),
        ShellEventV::CouncilStarted { topic, agents } => (
            ShellV { council: convened(s.council, topic, agents), ..s },
            seq![notice_v(ToastKind::Info, "Council convened: "@ + topic)],
        ),
        ShellEventV::CouncilRoundStart { round } => (
            ShellV { council: new_round(s.council, round), ..s },
            none,
        ),
        ShellEventV::CouncilAgentDelta { agent_id, delta } => if delta.len() == 0 {
            (s, none)
        } else {
            (ShellV { council: said_more(s.council, agent_id, delta), ..s }, none)
        },
        ShellEventV::CouncilAgentDone { agent_id, full_text } => (
            ShellV { council: said_all(s.council, agent_id, full_text), ..s },
            none,
        ),
        ShellEventV::CouncilComplete { reason, synthesis, rounds } => (
            ShellV { council: adjourned(s.council, reason, synthesis, rounds), ..s },
            seq![notice_v(ToastKind::Success, "Council "@ + ending(reason))],
        ),
        ShellEventV::CouncilButtIn { message } => (s, if message.len() == 0 {
            none
        } else {
            seq![notice_v(ToastKind::Info, "Council: "@ + message)]
        }),
        ShellEventV::SubAgentStarted { child, prompt } => (
            subagent_started(s, child, prompt),
            seq![notice_v(ToastKind::Info, "Sub-agent started"@)],
        ),
        ShellEventV::EvolutionApplied { patch_summary } => (
            ShellV {
                board: recent_v(s.board, "Evolved"@, patch_summary, "EVO"@, GREEN),
                ..s
            },
            none,
        ),
        ShellEventV::MeshMessage { from_node, preview } => (
            ShellV {
                board: recent_v(s.board, "Mesh ← "@ + from_node, preview, "MESH"@, TEAL),
                ..s
            },
            none,
        ),
        ShellEventV::MeshNodeStatus { node_id, status, last_seen_secs } => (
            ShellV { board: node_v(s.board, node_id, status, last_seen_secs), ..s },
            none,
        ),
        ShellEventV::GoalStateChanged { goal, objective, state, step, max_steps, detail, yolo } => (
            ShellV {
                board: goal_v(s.board, goal, objective, state, step, max_steps, detail, yolo),
                ..s
            },
            none,
        ),
        ShellEventV::WorkerStateChanged { worker, batch, state, task, detail, yolo, node } => (
            ShellV {
                board: worker_v(s.board, worker, batch, state, task, detail, yolo, node),
                ..s
            },
            none,
        ),
        ShellEventV::TaskBatchDone { batch, rows } => (
            ShellV { board: batch_v(s.board, batch, rows), ..s },
            none,
        ),
        ShellEventV::Other => (s, none),
    }
}

/// The shell and the effects once an event has fired its reflexes.
pub open spec fn reflexed(s: ShellV, t: Seq<char>, now_ms: u64) -> (ShellV, Seq<EffectV>) {
    if is_trigger(t) {
        let (d, r, fx) = fired(s.desk, s.reflexes, t, now_ms);
        (ShellV { desk: d, reflexes: r, ..s }, fx)
    } else {
        (s, Seq::empty())
    }
}

/// The shell and the effects of a frame: first its reflexes, then the frame itself. The
/// greeting, the start of a turn and a peer's message go by the frame's type; any other
/// goes by the event it was read as, and one that could not be read does nothing more.
pub open spec fn dispatched(
    s: ShellV,
    ev: JsonV,
    event: Option<ShellEventV>,
    now_ms: u64,
    now_secs: i64,
) -> (ShellV, Seq<EffectV>) {
    let t = str_v(ev, "type"@);
    let (u, fx) = reflexed(s, t, now_ms);
    if t == "session_init"@ || t == "hello"@ {
        (greeted(u, ev), fx)
    } else if t == "turn_started"@ {
        (turn_started(u), fx)
    } else if t == "mesh_message"@ {
        (mesh_message(u, ev, now_secs), fx.push(mesh_notice(ev)))
    } else {
        match event {
            Some(e) => {
                let (v, gx) = handled(u, e);
                (v, fx + gx)
            },
            None => (u, fx),
        }
    }
}

fn one(e: Effect) -> (r: Vec<Effect>)
    ensures
        views(r@) == seq![e@],
{
    let mut out: Vec<Effect> = Vec::new();
    out.push(e);
    assert(views(out@) =~= seq![e@]);
    out
}

fn nothing() -> (r: Vec<Effect>)
    ensures
        views(r@) == Seq::<EffectV>::empty(),
{
    Vec::new()
}

/// Whether an event is about the turn at hand.
pub open spec fn is_turn_event(e: ShellEventV) -> bool {
    e is AgentText || e is TurnComplete || e is SensorAlert || e is WakeTriggered || e
        is ToolRequested || e is ToolResult || e is ApprovalPending
}

/// Whether an event is about a council.
pub open spec fn is_council_event(e: ShellEventV) -> bool {
    e is CouncilStarted || e is CouncilRoundStart || e is CouncilAgentDelta || e
        is CouncilAgentDone || e is CouncilComplete || e is CouncilButtIn
}

/// Whether an event is about the board.
pub open spec fn is_board_event(e: ShellEventV) -> bool {
    e is SubAgentStarted || e is EvolutionApplied || e is MeshMessage || e is MeshNodeStatus || e
        is GoalStateChanged || e is WorkerStateChanged || e is TaskBatchDone
}

fn about_turn(e: &ShellEvent) -> (r: bool)
    ensures
        r == is_turn_event(e@),
{
    match e {
        ShellEvent::AgentText { .. } => true,
        ShellEvent::TurnComplete { .. } => true,
        ShellEvent::SensorAlert { .. } => true,
        ShellEvent::WakeTriggered => true,
        ShellEvent::ToolRequested { .. } => true,
        ShellEvent::ToolResult { .. } => true,
        ShellEvent::ApprovalPending { .. } => true,
        _ => false,
    }
}

fn about_council(e: &ShellEvent) -> (r: bool)
    ensures
        r == is_council_event(e@),
{
    match e {
        ShellEvent::CouncilStarted { .. } => true,
        ShellEvent::CouncilRoundStart { .. } => true,
        ShellEvent::CouncilAgentDelta { .. } => true,
        ShellEvent::CouncilAgentDone { .. } => true,
        ShellEvent::CouncilComplete { .. } => true,
        ShellEvent::CouncilButtIn { .. } => true,
        _ => false,
    }
}

impl Shell {
    fn take_air(&mut self, iaq: u32) -> (r: Vec<Effect>)
        ensures
            final(self)@ == (ShellV { iaq_label: iaq_words(iaq), ..old(self)@ }),
            views(r@) == Seq::<EffectV>::empty(),
    {
        self.iaq_label = copy(iaq_label(iaq));
        nothing()
    }

    fn take_thermal(&mut self) -> (r: Vec<Effect>)
        ensures
            final(self)@ == (ShellV { thermal_active: true, ..old(self)@ }),
            views(r@) == Seq::<EffectV>::empty(),
    {
        self.thermal_active = true;
        nothing()
    }

    fn council_started(&mut self, topic: &str, agents: &Vec<CouncilAgentDef>) -> (r: Vec<Effect>)
        ensures
            final(self)@ == (ShellV {
                council: convened(old(self)@.council, topic@, views(agents@)),
                ..old(self)@
            }),
            views(r@) == seq![notice_v(ToastKind::Info, "Council convened: "@ + topic@)],
    {
        self.council.convene(topic, agents);
        one(notice(ToastKind::Info, cat("Council convened: ", topic)))
    }

    fn council_round(&mut self, round: u32) -> (r: Vec<Effect>)
        ensures
            final(self)@ == (ShellV {
                council: new_round(old(self)@.council, round),
                ..old(self)@
            }),
            views(r@) == Seq::<EffectV>::empty(),
    {
        self.council.start_round(round);
        nothing()
    }

    fn council_delta(&mut self, agent_id: &str, delta: &str) -> (r: Vec<Effect>)
        ensures
            final(self)@ == if delta@.len() == 0 {
                old(self)@
            } else {
                ShellV {
                    council: said_more(old(self)@.council, agent_id@, delta@),
                    ..old(self)@
                }
            },
            views(r@) == Seq::<EffectV>::empty(),
    {
        if !delta.is_empty() {
            self.council.delta(agent_id, delta);
        }
        nothing()
    }

    fn council_done(&mut self, agent_id: &str, full_text: &str) -> (r: Vec<Effect>)
        ensures
            final(self)@ == (ShellV {
                council: said_all(old(self)@.council, agent_id@, full_text@),
                ..old(self)@
            }),
            views(r@) == Seq::<EffectV>::empty(),
    {
        self.council.finish(agent_id, full_text);
        nothing()
    }

    fn council_complete(&mut self, reason: &str, synthesis: &str, rounds: u32) -> (r: Vec<Effect>)
        ensures
            final(self)@ == (ShellV {
                council: adjourned(old(self)@.council, reason@, synthesis@, rounds),
                ..old(self)@
            }),
            views(r@) == seq![notice_v(ToastKind::Success, "Council "@ + ending(reason@))],
    {
        self.council.adjourn(reason, synthesis, rounds);
        one(notice(ToastKind::Success, cat("Council ", ending_text(reason))))
    }

    fn subagent(&mut self, child: u64, prompt: &str) -> (r: Vec<Effect>)
        ensures
            final(self)@ == subagent_started(old(self)@, child, prompt@),
            views(r@) == seq![notice_v(ToastKind::Info, "Sub-agent started"@)],
    {
        if !holds(&self.subagents, child) {
            self.subagents.push(child);
        }
        self.board.board_add_subagent(child, prompt);
        one(notice(ToastKind::Info, copy("Sub-agent started")))
    }

    fn evolved(&mut self, summary: String) -> (r: Vec<Effect>)
        ensures
            final(self)@ == (ShellV {
                board: recent_v(old(self)@.board, "Evolved"@, summary@, "EVO"@, GREEN),
                ..old(self)@
            }),
            views(r@) == Seq::<EffectV>::empty(),
    {
        self.board.board_push_recent(copy("Evolved"), summary, "EVO", GREEN);
        nothing()
    }

    fn mesh_card(&mut self, from: &str, preview: String) -> (r: Vec<Effect>)
        ensures
            final(self)@ == (ShellV {
                board: recent_v(old(self)@.board, "Mesh ← "@ + from@, preview@, "MESH"@, TEAL),
                ..old(self)@
            }),
            views(r@) == Seq::<EffectV>::empty(),
    {
        self.board.board_push_recent(cat("Mesh ← ", from), preview, "MESH", TEAL);
        nothing()
    }

    fn node_status(&mut self, node_id: &str, status: &str, secs: u64) -> (r: Vec<Effect>)
        ensures
            final(self)@ == (ShellV {
                board: node_v(old(self)@.board, node_id@, status@, secs),
                ..old(self)@
            }),
            views(r@) == Seq::<EffectV>::empty(),
    {
        self.board.board_node_status(node_id, status, secs);
        nothing()
    }

    fn batch_done(&mut self, batch: u64, rows: &Vec<BatchRow>) -> (r: Vec<Effect>)
        ensures
            final(self)@ == (ShellV {
                board: batch_v(old(self)@.board, batch, rows@),
                ..old(self)@
            }),
            views(r@) == Seq::<EffectV>::empty(),
    {
        self.board.board_batch_done(batch, rows);
        nothing()
    }

    fn handle_turn(&mut self, event: ShellEvent) -> (r: Vec<Effect>)
        requires
            is_turn_event(event@),
        ensures
            (final(self)@, views(r@)) == handled(old(self)@, event@),
    {
        match event {
            ShellEvent::AgentText { delta } => {
                self.take_text(delta.as_str());
                nothing()
            },
            ShellEvent::TurnComplete { session } => self.complete_turn(session),
            ShellEvent::SensorAlert { node_id, kind, value, threshold } => {
                let text = alert(
                    node_id.as_str(),
                    kind.as_str(),
                    value.as_str(),
                    threshold.as_str(),
                );
                one(notice(ToastKind::Warn, text))
            },
            ShellEvent::WakeTriggered => self.wake(),
            ShellEvent::ToolRequested { call } => self.request_tool(&call),
            ShellEvent::ToolResult { call, output } => self.take_result(call.0, &output),
            ShellEvent::ApprovalPending { call } => {
                self.await_approval(&call);
                nothing()
            },
            _ => nothing(),
        }
    }

    fn handle_council(&mut self, event: ShellEvent) -> (r: Vec<Effect>)
        requires
            is_council_event(event@),
        ensures
            (final(self)@, views(r@)) == handled(old(self)@, event@),
    {
        match event {
            ShellEvent::CouncilStarted { topic, agents } => self.council_started(
                topic.as_str(),
                &agents,
            ),
            ShellEvent::CouncilRoundStart { round } => self.council_round(round),
            ShellEvent::CouncilAgentDelta { agent_id, delta } => self.council_delta(
                agent_id.as_str(),
                delta.as_str(),
            ),
            ShellEvent::CouncilAgentDone { agent_id, full_text } => self.council_done(
                agent_id.as_str(),
                full_text.as_str(),
            ),
            ShellEvent::CouncilComplete { reason, synthesis, rounds } => self.council_complete(
                reason.as_str(),
                synthesis.as_str(),
                rounds,
            ),
            ShellEvent::CouncilButtIn { message } => {
                if message.as_str().is_empty() {
                    nothing()
                } else {
                    one(notice(ToastKind::Info, cat("Council: ", message.as_str())))
                }
            },
            _ => nothing(),
        }
    }

    fn handle_board(&mut self, event: ShellEvent) -> (r: Vec<Effect>)
        requires
            is_board_event(event@),
        ensures
            (final(self)@, views(r@)) == handled(old(self)@, event@),
    {
        match event {
            ShellEvent::SubAgentStarted { child, prompt } => self.subagent(child, prompt.as_str()),
            ShellEvent::EvolutionApplied { patch_summary } => self.evolved(patch_summary),
            ShellEvent::MeshMessage { from_node, preview } => self.mesh_card(
                from_node.as_str(),
                preview,
            ),
            ShellEvent::MeshNodeStatus { node_id, status, last_seen_secs } => self.node_status(
                node_id.as_str(),
                status.as_str(),
                last_seen_secs,
            ),
            ShellEvent::GoalStateChanged {
                goal,
                objective,
                state,
                step,
                max_steps,
                detail,
                yolo,
            } => {
                self.board.board_goal(
                    goal,
                    objective.as_str(),
                    state,
                    step,
                    max_steps,
                    detail.as_str(),
                    yolo,
                );
                nothing()
            },
            ShellEvent::WorkerStateChanged { worker, batch, state, task, detail, yolo, node } => {
                self.board.board_worker(
                    worker,
                    batch,
                    state,
                    task.as_str(),
                    detail.as_str(),
                    yolo,
                    &node,
                );
                nothing()
            },
            ShellEvent::TaskBatchDone { batch, rows } => self.batch_done(batch, &rows),
            _ => nothing(),
        }
    }

    /// Takes in an event.
    pub fn handle(&mut self, event: ShellEvent) -> (r: Vec<Effect>)
        ensures
            (final(self)@, views(r@)) == handled(old(self)@, event@),
    {
        match event {
            ShellEvent::AirQuality { iaq } => self.take_air(iaq),
            ShellEvent::ThermalFrame => self.take_thermal(),
            ShellEvent::Other => nothing(),
            e => {
                if about_turn(&e) {
                    self.handle_turn(e)
                } else if about_council(&e) {
                    self.handle_council(e)
                } else {
                    self.handle_board(e)
                }
            },
        }
    }

    fn fire_reflexes(&mut self, t: &str, now_ms: u64) -> (r: Vec<Effect>)
        ensures
            (final(self)@, views(r@)) == reflexed(old(self)@, t@, now_ms),
    {
        if known_trigger(t) {
            reflex_fire(&mut self.desk, &mut self.reflexes, t, now_ms)
        } else {
            nothing()
        }
    }

    /// Takes in a frame of the gateway, with the event that it was read as. The times
    /// are those of the shell's clock in milliseconds and of the day in seconds.
    pub fn dispatch_event(
        &mut self,
        ev: &Json,
        event: Option<ShellEvent>,
        now_ms: u64,
        now_secs: i64,
    ) -> (r: Vec<Effect>)
        ensures
            (final(self)@, views(r@)) == dispatched(
                old(self)@,
                ev@,
                match event {
                    Some(e) => Some(e@),
                    None => None,
                },
                now_ms,
                now_secs,
            ),
    {
        let ev_type = json_str(ev, "type");
        let t = ev_type.as_str();
        let mut out = self.fire_reflexes(t, now_ms);
        if same(t, "session_init") || same(t, "hello") {
            self.greet(ev);
        } else if same(t, "turn_started") {
            self.start_turn();
        } else if same(t, "mesh_message") {
            let e = self.take_mesh_message(ev, now_secs);
            out.push(e);
        } else {
            match event {
                Some(e) => {
                    let more = self.handle(e);
                    append_effects(&mut out, more);
                },
                None => {},
            }
        }
        out
    }
}

} // verus!
