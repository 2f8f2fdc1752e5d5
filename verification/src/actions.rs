//! Actions: what the shell does when the human asks something of it.
use vstd::prelude::*;
use crate::apps::{app_at, kind_from_ordinal, AppKind};
use crate::chat::{cancelled, decided, pushed, said, said_v, stamped, TranscriptV};
use crate::desktop::{launch_v, menu_launch_v, DesktopV};
use crate::dispatch::scrolled;
use crate::effects::{notice, notice_v, Effect, EffectV, ToastKind};
use crate::files::note_created;
use crate::json::{text_at, Json};
use crate::notices::next_after;
use crate::personas::{mode_on, persona_mode, Persona};
use crate::shell::{
    approval_frame, bare_frame, build_approval_frame, build_bare_frame, build_new_chat_frame,
    build_persona_frame, build_prompt_frame, build_resume_frame, facing, new_chat_frame,
    persona_frame, prompt_frame, resume_frame, FaceV, Shell, ShellV,
};
use crate::text::{cat, cat3, copy, parse_u64, same, trim, trimmed, u64_of, views};

verus! {

broadcast use {crate::text::views_push, crate::text::views_empty};

/// A prompt in the chat: its text, below a line for the image that goes with it.
pub open spec fn bubble_v(text: Seq<char>, path: Seq<char>, name: Seq<char>) -> Seq<char> {
    if path.len() == 0 {
        text
    } else if text.len() == 0 {
        "🖼 "@ + name
    } else {
        "🖼 "@ + name + "\n"@ + text
    }
}

/// The shell with something that the human said: below a time mark where one is due,
/// and with no expression held.
pub open spec fn spoke(s: ShellV, line: Seq<char>, epoch: i64, label: Seq<char>) -> ShellV {
    ShellV {
        face: FaceV { held: None, ..s.face },
        chat: pushed(stamped(s.chat, epoch, label), said_v("user"@, line, false)),
        ..s
    }
}

/// The human sends a prompt. One without text or image is not sent.
pub open spec fn sent(s: ShellV, text: Seq<char>, epoch: i64, label: Seq<char>) -> ShellV {
    if text.len() == 0 && s.staged_path.len() == 0 {
        s
    } else {
        let t = spoke(s, bubble_v(text, s.staged_path, s.staged_name), epoch, label);
        if s.staged_path.len() == 0 {
            t
        } else {
            ShellV { staged_path: Seq::empty(), staged_name: Seq::empty(), ..t }
        }
    }
}

pub open spec fn sent_effects(s: ShellV, text: Seq<char>) -> Seq<EffectV> {
    if text.len() == 0 && s.staged_path.len() == 0 {
        Seq::empty()
    } else {
        seq![EffectV::Send(prompt_frame(text, s.staged_path))]
    }
}

/// The human stops the turn. The gateway announces no end of it, so it is ended here.
pub open spec fn stopped(s: ShellV) -> ShellV {
    ShellV {
        chat: cancelled(s.chat),
        mutations: 0,
        busy: false,
        face: facing(s.face, "idle"@),
        ..s
    }
}

/// What the agent is told when the human points it to an address.
pub open spec fn steer_text(url: Seq<char>) -> Seq<char> {
    "(navigation) Go here next: "@ + url
        + "\n\nFetch and read it with web_fetch, then continue."@
}

/// The human points the agent to an address.
pub open spec fn steered(s: ShellV, url: Seq<char>, epoch: i64, label: Seq<char>) -> ShellV {
    if trimmed(url).len() == 0 {
        s
    } else {
        scrolled(spoke(s, "🧭 go here: "@ + trimmed(url), epoch, label))
    }
}

pub open spec fn steer_effects(url: Seq<char>) -> Seq<EffectV> {
    if trimmed(url).len() == 0 {
        Seq::empty()
    } else {
        seq![EffectV::Send(prompt_frame(steer_text(trimmed(url)), Seq::empty()))]
    }
}

/// The number of a call from the text on its card; zero where that is no number.
pub open spec fn call_number(call_id: Seq<char>) -> u64 {
    match u64_of(call_id) {
        Some(n) => n,
        None => 0,
    }
}

/// The human opens a session of old.
pub open spec fn restored(s: ShellV, session: i32) -> ShellV {
    ShellV {
        chat: TranscriptV { messages: Seq::empty(), last_stamp: 0 },
        current_view: 0,
        current_session: session,
        status: "Restoring…"@,
        desk: menu_launch_v(s.desk, AppKind::Chat),
        ..s
    }
}

/// The human sent a drawing: the chat says so, and the agent is told to look at it.
pub open spec fn drawn(s: ShellV, ok: bool, epoch: i64, label: Seq<char>) -> ShellV {
    if ok {
        ShellV {
            chat: pushed(
                stamped(s.chat, epoch, label),
                said_v(
                    "user"@,
                    "🎨 I drew something on the Sketchpad — take a look."@,
                    false,
                ),
            ),
            ..s
        }
    } else {
        s
    }
}

pub open spec fn drawn_effects(ok: bool) -> Seq<EffectV> {
    if ok {
        seq![
            notice_v(ToastKind::Success, "Sent to APEX 👁"@),
            EffectV::Send(
                prompt_frame(
                    "I drew something on the Sketchpad. Use the sketch_snapshot tool to get the image and tell me what you see."@,
                    Seq::empty(),
                ),
            ),
        ]
    } else {
        seq![notice_v(ToastKind::Error, "Failed to send sketch"@)]
    }
}

/// A recording is over; what was heard, where it is anything, is said.
pub open spec fn heard(s: ShellV, text: Seq<char>, epoch: i64, label: Seq<char>) -> ShellV {
    let t = ShellV {
        recording: false,
        face: if s.busy {
            s.face
        } else {
            facing(s.face, "idle"@)
        },
        ..s
    };
    if text.len() == 0 {
        t
    } else {
        scrolled(
            ShellV {
                chat: pushed(stamped(t.chat, epoch, label), said_v("user"@, text, false)),
                ..t
            },
        )
    }
}

/// The shell in another persona.
pub open spec fn worn(s: ShellV, p: Persona) -> ShellV {
    ShellV {
        persona: p,
        desk: DesktopV { mode: mode_on(p, s.small_renderer), ..s.desk },
        ..s
    }
}

fn one(e: Effect) -> (r: Vec<Effect>)
    ensures
        views(r@) == seq![e@],
{
    let mut out: Vec<Effect> = Vec::new();
    out.push(e);
    assert(views(out@) =~= seq![e@]);
    out
}

fn two(a: Effect, b: Effect) -> (r: Vec<Effect>)
    ensures
        views(r@) == seq![a@, b@],
{
    let mut out: Vec<Effect> = Vec::new();
    out.push(a);
    out.push(b);
    assert(views(out@) =~= seq![a@, b@]);
    out
}

fn sign_extend(n: i32) -> (r: u64)
    ensures
        r == n as u64,
{
    #[verifier::truncate]
    (n as u64)
}

fn bubble(text: &str, path: &str, name: &str) -> (r: String)
    ensures
        r@ == bubble_v(text@, path@, name@),
{
    if path.is_empty() {
        copy(text)
    } else if text.is_empty() {
        cat("🖼 ", name)
    } else {
        let mut out = cat3("🖼 ", name, "\n");
        out.append(text);
        out
    }
}

impl Shell {
    fn speak(&mut self, line: String, epoch: i64, label: &str)
        ensures
            final(self)@ == spoke(old(self)@, line@, epoch, label@),
    {
        self.face.clear_face_hold();
        self.chat.maybe_push_time_divider(epoch, label);
        self.chat.push_message(said("user", line, false));
    }

    /// The human sends a prompt.
    pub fn send_message(&mut self, text: &str, epoch: i64, label: &str) -> (r: Vec<Effect>)
        ensures
            final(self)@ == sent(old(self)@, text@, epoch, label@),
            views(r@) == sent_effects(old(self)@, text@),
    {
        let path = self.staged_path.clone();
        let name = self.staged_name.clone();
        if text.is_empty() && path.as_str().is_empty() {
            return Vec::new();
        }
        if !path.as_str().is_empty() {
            self.staged_path = String::new();
            self.staged_name = String::new();
        }
        self.speak(bubble(text, path.as_str(), name.as_str()), epoch, label);
        one(Effect::Send(build_prompt_frame(text, path.as_str())))
    }

    /// The human stops the turn.
    pub fn stop_turn(&mut self) -> (r: Vec<Effect>)
        ensures
            final(self)@ == stopped(old(self)@),
            views(r@) == seq![EffectV::Send(bare_frame("user_cancel"@))],
    {
        self.chat.clear_pending_tools();
        self.mutations = 0;
        self.busy = false;
        self.face.set_state("idle");
        one(Effect::Send(build_bare_frame("user_cancel")))
    }

    /// The human points the agent to an address.
    pub fn occipital_steer(&mut self, url: &str, epoch: i64, label: &str) -> (r: Vec<Effect>)
        ensures
            final(self)@ == steered(old(self)@, url@, epoch, label@),
            views(r@) == steer_effects(url@),
    {
        let url = trim(url);
        if url.is_empty() {
            return Vec::new();
        }
        self.speak(cat("🧭 go here: ", url), epoch, label);
        self.scroll_tick = next_after(self.scroll_tick);
        let text = cat3(
            "(navigation) Go here next: ",
            url,
            "\n\nFetch and read it with web_fetch, then continue.",
        );
        let frame = build_prompt_frame(text.as_str(), "");
        proof {
            reveal_strlit("");
            assert(""@ =~= Seq::<char>::empty());
        }
        one(Effect::Send(frame))
    }

    /// The human says something that is not what the agent is told.
    pub fn ask_for(
        &mut self,
        line: &str,
        prompt: &str,
        epoch: i64,
        label: &str,
    ) -> (r: Vec<Effect>)
        ensures
            final(self)@ == scrolled(spoke(old(self)@, line@, epoch, label@)),
            views(r@) == seq![EffectV::Send(prompt_frame(prompt@, Seq::empty()))],
    {
        self.speak(copy(line), epoch, label);
        self.scroll_tick = next_after(self.scroll_tick);
        proof {
            reveal_strlit("");
            assert(""@ =~= Seq::<char>::empty());
        }
        one(Effect::Send(build_prompt_frame(prompt, "")))
    }

    /// The human approves or rejects a call.
    pub fn decide_tool(&mut self, call_id: &str, granted: bool) -> (r: Vec<Effect>)
        ensures
            final(self)@ == (ShellV {
                chat: decided(old(self)@.chat, call_id@, granted),
                ..old(self)@
            }),
            views(r@) == seq![EffectV::Send(approval_frame(call_number(call_id@), granted))],
    {
        self.chat.decide(call_id, granted);
        let action: u64 = match parse_u64(call_id) {
            Some(n) => n,
            None => 0,
        };
        one(Effect::Send(build_approval_frame(action, granted)))
    }

    /// The human wants a new session.
    pub fn new_chat(&self) -> (r: Vec<Effect>)
        ensures
            views(r@) == seq![EffectV::Send(new_chat_frame(self@.persona))],
    {
        one(Effect::Send(build_new_chat_frame(self.persona)))
    }

    /// The human opens a session of old.
    pub fn restore_session(&mut self, session: i32) -> (r: Vec<Effect>)
        ensures
            final(self)@ == restored(old(self)@, session),
            views(r@) == seq![
                EffectV::Refresh(AppKind::Chat),
                EffectV::Send(resume_frame(session as u64)),
            ],
    {
        self.chat.clear_messages();
        self.current_view = 0;
        self.current_session = session;
        self.status = copy("Restoring…");
        self.desk.menu_launch(AppKind::Chat);
        two(
            Effect::Refresh(AppKind::Chat),
            Effect::Send(build_resume_frame(sign_extend(session))),
        )
    }

    /// The human opens an app from the menu.
    pub fn launch_app(&mut self, ordinal: i32) -> (r: Vec<Effect>)
        ensures
            final(self)@ == (ShellV {
                desk: menu_launch_v(old(self)@.desk, app_at(ordinal)),
                ..old(self)@
            }),
            views(r@) == seq![EffectV::Refresh(app_at(ordinal))],
    {
        let kind = kind_from_ordinal(ordinal);
        self.desk.menu_launch(kind);
        one(Effect::Refresh(kind))
    }

    /// The human picks a persona.
    pub fn pick_persona(&mut self, p: Persona) -> (r: Vec<Effect>)
        ensures
            final(self)@ == worn(old(self)@, p),
            views(r@) == seq![EffectV::Send(persona_frame(p)), EffectV::Wear(p)],
    {
        self.persona = p;
        self.desk.mode = persona_mode(p, self.small_renderer);
        two(Effect::Send(build_persona_frame(p)), Effect::Wear(p))
    }

    /// The microphone was turned on, or could not be.
    pub fn start_recording(&mut self, ok: bool) -> (r: Vec<Effect>)
        ensures
            ok ==> final(self)@ == (ShellV {
                recording: true,
                face: facing(old(self)@.face, "listening"@),
                ..old(self)@
            }) && views(r@) == Seq::<EffectV>::empty(),
            !ok ==> final(self)@ == old(self)@ && views(r@) == seq![
                notice_v(ToastKind::Error, "Microphone unavailable"@),
            ],
    {
        if ok {
            self.recording = true;
            self.face.set_state("listening");
            Vec::new()
        } else {
            one(notice(ToastKind::Error, copy("Microphone unavailable")))
        }
    }

    /// The microphone was turned off, and this was heard.
    pub fn finish_recording(&mut self, text: &str, epoch: i64, label: &str) -> (r: Vec<Effect>)
        ensures
            final(self)@ == heard(old(self)@, text@, epoch, label@),
            views(r@) == if text@.len() == 0 {
                Seq::<EffectV>::empty()
            } else {
                seq![EffectV::Send(prompt_frame(text@, Seq::empty()))]
            },
    {
        self.recording = false;
        if !self.busy {
            self.face.set_state("idle");
        }
        if text.is_empty() {
            return Vec::new();
        }
        self.chat.maybe_push_time_divider(epoch, label);
        self.chat.push_message(said("user", copy(text), false));
        self.scroll_tick = next_after(self.scroll_tick);
        proof {
            reveal_strlit("");
            assert(""@ =~= Seq::<char>::empty());
        }
        one(Effect::Send(build_prompt_frame(text, "")))
    }

    /// The human turns reading aloud on or off.
    pub fn toggle_tts(&mut self)
        ensures
            final(self)@ == (ShellV { tts: !old(self)@.tts, ..old(self)@ }),
    {
        self.tts = !self.tts;
    }

    /// The human attaches an image to the next prompt.
    pub fn attach_image(&mut self, path: &str, name: &str) -> (r: Vec<Effect>)
        ensures
            path@.len() == 0 ==> final(self)@ == old(self)@ && views(r@) == Seq::<
                EffectV,
            >::empty(),
            path@.len() > 0 ==> final(self)@ == (ShellV {
                staged_path: path@,
                staged_name: name@,
                current_view: 0,
                ..old(self)@
            }) && views(r@) == seq![
                notice_v(ToastKind::Success, "Image attached — open Chat and send"@),
            ],
    {
        if path.is_empty() {
            return Vec::new();
        }
        self.staged_path = copy(path);
        self.staged_name = copy(name);
        self.current_view = 0;
        one(notice(ToastKind::Success, copy("Image attached — open Chat and send")))
    }

    /// A drawing was sent to the agent, with success or without.
    pub fn sketch_sent(&mut self, ok: bool, epoch: i64, label: &str) -> (r: Vec<Effect>)
        ensures
            final(self)@ == drawn(old(self)@, ok, epoch, label@),
            views(r@) == drawn_effects(ok),
    {
        if !ok {
            return one(notice(ToastKind::Error, copy("Failed to send sketch")));
        }
        self.chat.maybe_push_time_divider(epoch, label);
        self.chat.push_message(
            said("user", copy("🎨 I drew something on the Sketchpad — take a look."), false),
        );
        assert(""@ =~= Seq::<char>::empty()) by {
            reveal_strlit("");
        }
        two(
            notice(ToastKind::Success, copy("Sent to APEX 👁")),
            Effect::Send(
                build_prompt_frame(
                    "I drew something on the Sketchpad. Use the sketch_snapshot tool to get the image and tell me what you see.",
                    "",
                ),
            ),
        )
    }

    /// The agent's drawing was put on the canvas, with `strokes` strokes in all; `changed`
    /// says whether it did anything. Returns whether the canvas is to be stored.
    pub fn agent_drew(&mut self, changed: bool, strokes: usize) -> (r: (bool, Vec<Effect>))
        ensures
            r.0 == (changed && strokes > 0),
            final(self)@ == (if changed {
                ShellV { desk: launch_v(old(self)@.desk, AppKind::Sketchpad), ..old(self)@ }
            } else {
                old(self)@
            }),
            views(r.1@) == (if changed {
                seq![notice_v(ToastKind::Success, "🎨 APEX drew on the Sketchpad"@)]
            } else {
                Seq::empty()
            }),
    {
        if !changed {
            return (false, Vec::new());
        }
        self.desk.launch(AppKind::Sketchpad);
        (
            strokes > 0,
            one(notice(ToastKind::Success, copy("🎨 APEX drew on the Sketchpad"))),
        )
    }

    /// The connection stands: the session is asked for, and the persona told.
    pub fn connected(&mut self) -> (r: Vec<Effect>)
        ensures
            final(self)@ == (ShellV { status: "Connected"@, ..old(self)@ }),
            views(r@) == seq![
                EffectV::Send(bare_frame("session_init"@)),
                EffectV::Send(persona_frame(old(self)@.persona)),
            ],
    {
        self.status = copy("Connected");
        two(
            Effect::Send(build_bare_frame("session_init")),
            Effect::Send(build_persona_frame(self.persona)),
        )
    }
}

// ── What is said about requests ─────────────────────────────────────────────

/// What is said once the machine was asked to log someone in by itself, or no longer to.
pub open spec fn auto_login_v(ok: bool, enabled: bool) -> EffectV {
    if !ok {
        notice_v(ToastKind::Error, "Couldn't update auto-login"@)
    } else if enabled {
        notice_v(ToastKind::Success, "Auto-login set for this device"@)
    } else {
        notice_v(ToastKind::Success, "Auto-login cleared"@)
    }
}

/// What is said once the machine was asked to log someone in by itself, or no longer to.
pub fn auto_login_report(ok: bool, enabled: bool) -> (r: Effect)
    ensures
        r@ == auto_login_v(ok, enabled),
{
    if !ok {
        notice(ToastKind::Error, copy("Couldn't update auto-login"))
    } else if enabled {
        notice(ToastKind::Success, copy("Auto-login set for this device"))
    } else {
        notice(ToastKind::Success, copy("Auto-login cleared"))
    }
}

/// What is said before the machine goes down.
pub fn power_notice(action: &str) -> (r: Effect)
    ensures
        r@ == notice_v(
            ToastKind::Warn,
            if action@ == "reboot"@ {
                "Rebooting…"@
            } else {
                "Shutting down…"@
            },
        ),
{
    if same(action, "reboot") {
        notice(ToastKind::Warn, copy("Rebooting…"))
    } else {
        notice(ToastKind::Warn, copy("Shutting down…"))
    }
}

/// What is said where the program could not start over after a login.
pub fn relaunch_failed(why: &str) -> (r: Effect)
    ensures
        r@ == notice_v(ToastKind::Error, "Re-launch after login failed: "@ + why@),
{
    notice(ToastKind::Error, cat("Re-launch after login failed: ", why))
}

/// What is said once a note was to be saved.
pub fn note_saved(ok: bool) -> (r: Effect)
    ensures
        r@ == if ok {
            notice_v(ToastKind::Success, "Note saved"@)
        } else {
            notice_v(ToastKind::Error, "Failed to save note"@)
        },
{
    if ok {
        notice(ToastKind::Success, copy("Note saved"))
    } else {
        notice(ToastKind::Error, copy("Failed to save note"))
    }
}

/// The name of a note that was to be created, from the reply where one came; or what is
/// said where it was not.
pub fn note_opened(success: bool, body: &Json) -> (r: Result<String, Effect>)
    ensures
        match r {
            Ok(name) => success && text_at(body@, "name"@) == Some(name@),
            Err(e) => (!success || text_at(body@, "name"@) is None) && e@ == notice_v(
                ToastKind::Error,
                "Failed to create note"@,
            ),
        },
{
    match note_created(success, body) {
        Some(name) => Ok(name),
        None => Err(notice(ToastKind::Error, copy("Failed to create note"))),
    }
}

/// What is said once a track was to be processed: the reply names what came out of it.
pub fn audio_processed(body: &Json) -> (r: Effect)
    ensures
        r@ == if text_at(body@, "output_path"@) is Some {
            notice_v(ToastKind::Success, "Audio processed → _edit file"@)
        } else {
            notice_v(ToastKind::Error, "Audio processing failed"@)
        },
{
    if body.str_at("output_path").is_some() {
        notice(ToastKind::Success, copy("Audio processed → _edit file"))
    } else {
        notice(ToastKind::Error, copy("Audio processing failed"))
    }
}

/// What is said where a track does not play.
pub fn playback_report(ok: bool) -> (r: Option<Effect>)
    ensures
        r is None <==> ok,
        r is Some ==> r->0@ == notice_v(
            ToastKind::Error,
            "Playback failed (ffplay/track missing?)"@,
        ),
{
    if ok {
        None
    } else {
        Some(notice(ToastKind::Error, copy("Playback failed (ffplay/track missing?)")))
    }
}

/// What is said before an address is opened in a browser; an empty one is not opened.
pub fn browse_notice(url: &str) -> (r: Option<Effect>)
    ensures
        r is None <==> url@.len() == 0,
        r is Some ==> r->0@ == notice_v(ToastKind::Info, "Opening "@ + url@ + "…"@),
{
    if url.is_empty() {
        None
    } else {
        Some(notice(ToastKind::Info, cat3("Opening ", url, "…")))
    }
}

/// What is said where there is no browser.
pub fn browse_failed(url: &str) -> (r: Effect)
    ensures
        r@ == notice_v(ToastKind::Warn, "No browser here — open "@ + url@ + " on another device"@),
{
    notice(ToastKind::Warn, cat3("No browser here — open ", url, " on another device"))
}

/// What is said where a drawing without strokes was to be sent.
pub fn sketch_notice(strokes: usize) -> (r: Option<Effect>)
    ensures
        r is Some <==> strokes == 0,
        r is Some ==> r->0@ == notice_v(ToastKind::Warn, "Nothing drawn yet"@),
{
    if strokes == 0 {
        Some(notice(ToastKind::Warn, copy("Nothing drawn yet")))
    } else {
        None
    }
}

// ── Laws ────────────────────────────────────────────────────────────────────

/// A prompt takes the staged image with it: the next one goes without.
pub proof fn images_go_once(s: ShellV, text: Seq<char>, epoch: i64, label: Seq<char>)
    requires
        s.staged_path.len() > 0,
    ensures
        sent(s, text, epoch, label).staged_path.len() == 0,
        sent_effects(s, text) == seq![EffectV::Send(prompt_frame(text, s.staged_path))],
{
}

/// A prompt starts a fresh exchange: no expression is held any more, and the chat ends
/// with what was said.
pub proof fn prompts_start_afresh(s: ShellV, text: Seq<char>, epoch: i64, label: Seq<char>)
    requires
        text.len() > 0,
    ensures
        sent(s, text, epoch, label).face.held is None,
        sent(s, text, epoch, label).chat.messages.last() == said_v(
            "user"@,
            bubble_v(text, s.staged_path, s.staged_name),
            false,
        ),
{
}

/// A stopped turn leaves nothing pending.
pub proof fn stopping_settles(s: ShellV, i: int)
    requires
        0 <= i < s.chat.messages.len(),
    ensures
        !stopped(s).busy,
        stopped(s).mutations == 0,
        !crate::chat::pending(stopped(s).chat.messages[i]),
{
    crate::chat::cancelling_settles(s.chat);
}

} // verus!
