//! What the shell makes of what the agent's gateway tells it.
use vstd::prelude::*;
use crate::board::BoardV;
use crate::chat::{MessageV, replayed};
use crate::chat_laws::newest;
use crate::desktop::has_bit;
use crate::desktop_laws::shown;
use crate::dispatch::{args_text, content_text, dispatched, handled};
use crate::effects::{EffectV, ToastKind};
use crate::events::{ToolCallV, ToolOutputV};
use crate::inbox::InboxThreadV;
use crate::json::{items_or_none, text_at, text_or, uint_at, uint_or, JsonV};
use crate::reflex::fired;
use crate::shell::{ShellEventV, ShellV};
use crate::text::dec;

verus! {

// ── Frames and events ───────────────────────────────────────────────────────

/// Whether a frame goes by the event it was read as.
pub open spec fn goes_by_event(ev: JsonV) -> bool {
    let t = text_or(ev, "type"@, ""@);
    t != "session_init"@ && t != "hello"@ && t != "turn_started"@ && t != "mesh_message"@
}

/// A frame that goes by its event does what the event says, and a shell without reflexes
/// does nothing else about it. One that was not read as an event does nothing.
pub proof fn frames_do_what_their_event_says(
    s: ShellV,
    ev: JsonV,
    e: ShellEventV,
    now_ms: u64,
    now_secs: i64,
)
    requires
        goes_by_event(ev),
        s.reflexes.len() == 0,
    ensures
        dispatched(s, ev, Some(e), now_ms, now_secs) == handled(s, e),
        dispatched(s, ev, None, now_ms, now_secs) == (s, Seq::<EffectV>::empty()),
{
    let t = text_or(ev, "type"@, ""@);
    no_reflexes(s, t, now_ms);
    let (v, gx) = handled(s, e);
    assert(Seq::<EffectV>::empty() + gx =~= gx);
}

proof fn no_reflexes(s: ShellV, t: Seq<char>, now_ms: u64)
    requires
        s.reflexes.len() == 0,
    ensures
        crate::dispatch::reflexed(s, t, now_ms) == (s, Seq::<EffectV>::empty()),
{
    assert(s.reflexes =~= Seq::empty());
    assert(fired(s.desk, s.reflexes, t, now_ms).2 =~= Seq::<EffectV>::empty());
    assert(fired(s.desk, s.reflexes, t, now_ms).1 =~= s.reflexes);
}

// ── What the agent says ─────────────────────────────────────────────────────

/// Whether the last line of the chat is the agent's and still open.
pub open spec fn speaking(s: ShellV) -> bool {
    let ms = s.chat.messages;
    ms.len() > 0 && ms.last().role == "agent"@ && ms.last().streaming
}

/// What the agent says goes to the end of its open line; where it has none, a new line is
/// opened with it, and the agent is at work. The lines before stay, and so do the windows.
pub proof fn words_reach_the_chat(s: ShellV, delta: Seq<char>)
    requires
        delta.len() > 0,
    ensures
        ({
            let (t, fx) = handled(s, ShellEventV::AgentText { delta });
            let (a, b) = (s.chat.messages, t.chat.messages);
            &&& fx.len() == 0
            &&& t.face.shown.state == "speaking"@
            &&& t.desk == s.desk
            &&& speaking(s) ==> b.len() == a.len() && b.drop_last() == a.drop_last() && b.last()
                == (MessageV { text: a.last().text + delta, ..a.last() })
            &&& !speaking(s) ==> b.len() == a.len() + 1 && b.drop_last() == a && b.last().role
                == "agent"@ && b.last().text == delta && b.last().streaming && t.busy
        }),
        handled(s, ShellEventV::AgentText { delta: Seq::empty() }) == (s, Seq::<EffectV>::empty()),
{
    let (t, fx) = handled(s, ShellEventV::AgentText { delta });
    let (a, b) = (s.chat.messages, t.chat.messages);
    if speaking(s) {
        assert(b.drop_last() =~= a.drop_last());
    } else {
        assert(b.drop_last() =~= a);
        assert(Seq::<char>::empty() + delta =~= delta);
    }
}

/// A turn that starts opens a line of the agent's, and the agent is at work.
pub proof fn turns_open_a_line(s: ShellV)
    ensures
        ({
            let t = crate::dispatch::turn_started(s);
            &&& t.busy
            &&& t.chat.messages.len() == s.chat.messages.len() + 1
            &&& t.chat.messages.drop_last() == s.chat.messages
            &&& speaking(t) && t.chat.messages.last().text.len() == 0
            &&& t.face.shown.state == "thinking"@
        }),
{
    let t = crate::dispatch::turn_started(s);
    assert(t.chat.messages.drop_last() =~= s.chat.messages);
}

/// Whether every line of the agent's before the last is closed.
pub open spec fn one_open_line(s: ShellV) -> bool {
    forall|i: int|
        0 <= i < s.chat.messages.len() - 1 ==> !(#[trigger] s.chat.messages[i]).streaming
}

/// A turn that ends closes the agent's line, leaves it at rest with its ration filled, and
/// has its last words read aloud where that is wanted. The turn of a sub-agent takes that
/// one's card from the board and nothing else; the session's own is told among what was
/// finished.
pub proof fn turns_are_closed(s: ShellV, session: u64)
    requires
        one_open_line(s),
    ensures
        ({
            let (t, fx) = handled(s, ShellEventV::TurnComplete { session });
            &&& !t.busy && t.mutations == 0
            &&& t.desk == s.desk
            &&& !t.subagents.contains(session)
            &&& t.chat.messages.len() > 0 && t.chat.messages.last().role == "agent"@
                ==> !t.chat.messages.last().streaming
            &&& s.subagents.contains(session) ==> t.board == (BoardV {
                subagents: t.board.subagents,
                ..s.board
            })
            &&& !s.subagents.contains(session) ==> t.board.recent.len() > 0
                && t.board.recent[0].title == "Turn complete"@ && t.board.subagents
                == s.board.subagents
            &&& !s.tts ==> fx.len() == 0
            &&& fx.len() <= 1
            &&& s.tts && t.chat.messages.len() > 0 && t.chat.messages.last().role == "agent"@
                && t.chat.messages.last().text.len() > 0 ==> fx == seq![
                EffectV::Speak(t.chat.messages.last().text),
            ]
        }),
{
    crate::dispatch_laws::turns_end_at_rest(s, session);
    let (t, fx) = handled(s, ShellEventV::TurnComplete { session });
    let ms = t.chat.messages;
    let a = s.chat.messages;
    if a.len() > 0 {
        crate::chat_laws::turns_close_the_last_line(s.chat);
        if ms.len() < a.len() && ms.len() > 0 {
            assert(ms[ms.len() - 1] == a[ms.len() - 1]);
        }
    }
}

// ── Tools ───────────────────────────────────────────────────────────────────

/// Whether a tool does work, rather than change how the shell looks.
pub open spec fn does_work(tool: Seq<char>) -> bool {
    &&& tool != "display_face"@ && tool != "sketch_draw"@
    &&& tool != "ui_open"@ && tool != "ui_close"@ && tool != "ui_focus"@
    &&& tool != "ui_arrange"@ && tool != "ui_theme"@ && tool != "ui_reflex"@
}

/// A call of a tool that does work is a card at the end of the chat: with the call's number,
/// the tool's name and its arguments, and running. The agent is at work, the board says at
/// what, and no window changes.
pub proof fn calls_are_cards(s: ShellV, call: ToolCallV)
    requires
        does_work(call.tool),
        s.board.active.len() == 0 || (s.board.active.len() == 1 && s.board.active[0].id == "turn"@),
    ensures
        ({
            let (t, fx) = handled(s, ShellEventV::ToolRequested { call });
            let (a, b) = (s.chat.messages, t.chat.messages);
            &&& fx.len() == 0
            &&& t.desk == s.desk && t.mutations == s.mutations
            &&& t.busy && t.face.shown.state == "thinking"@
            &&& b.len() == a.len() + 1 && b.drop_last() == a
            &&& b.last().role == "tool"@
            &&& b.last().call_id == dec(call.id.0 as nat)
            &&& b.last().tool_name == call.tool
            &&& b.last().tool_args == args_text(call.args)
            &&& b.last().tool_status == "running"@
            &&& b.last().tool_output.len() == 0 && !b.last().awaiting_approval
            &&& t.board.active.len() == 1 && t.board.active[0].subtitle == "running "@ + call.tool
        }),
{
    crate::board_laws::the_turn_is_one_card(s.board, "running "@ + call.tool);
    let (t, fx) = handled(s, ShellEventV::ToolRequested { call });
    assert(t.chat.messages.drop_last() =~= s.chat.messages);
}

/// A call of a tool that only changes how the shell looks is no card, and no work: an
/// expression is put on and held, a drawing is handed on.
pub proof fn looks_are_no_work(s: ShellV, call: ToolCallV)
    requires
        !does_work(call.tool),
    ensures
        ({
            let (t, fx) = handled(s, ShellEventV::ToolRequested { call });
            &&& t.chat == s.chat && t.board == s.board && t.busy == s.busy
            &&& call.tool == "display_face"@ ==> fx.len() == 0 && t.desk == s.desk && t.face.held
                == Some(t.face.shown) && t.face.shown.state == text_or(
                call.args,
                "state"@,
                "neutral"@,
            ) && t.face.shown.gaze == text_or(call.args, "gaze"@, "center"@)
            &&& call.tool == "sketch_draw"@ ==> t == s && fx == seq![EffectV::Draw(call.args)]
            &&& s.mutations >= 4 && call.tool != "display_face"@ && call.tool != "sketch_draw"@
                ==> t == s && fx.len() == 0
        }),
{
    tools_unlike();
}

proof fn tools_unlike()
    ensures
        "display_face"@ != "sketch_draw"@,
{
    reveal_strlit("display_face");
    reveal_strlit("sketch_draw");
    assert("display_face"@.len() == 12 && "sketch_draw"@.len() == 11);
}

/// What a tool gave back is on the newest card of its call, as done or as failed, and on no
/// other line. The call waits for nobody any more.
pub proof fn results_reach_their_card(
    s: ShellV,
    call: crate::ids::ActionId,
    output: ToolOutputV,
    i: int,
)
    requires
        newest(s.chat.messages, dec(call.0 as nat), i),
        crate::board::names_differ(s.board.blocked),
    ensures
        ({
            let t = handled(s, ShellEventV::ToolResult { call, output }).0;
            &&& t.chat.messages == s.chat.messages.update(
                i,
                MessageV {
                    tool_output: content_text(output.content),
                    tool_status: if output.ok {
                        "done"@
                    } else {
                        "error"@
                    },
                    awaiting_approval: false,
                    ..s.chat.messages[i]
                },
            )
            &&& !crate::board_laws::carded(t.board.blocked, dec(call.0 as nat))
            &&& !output.ok ==> t.desk == s.desk && t.reader == s.reader && t.mandala == s.mandala
        }),
{
    let id = dec(call.0 as nat);
    crate::chat_laws::cards_change_alone(
        s.chat,
        id,
        i,
        content_text(output.content),
        if output.ok {
            "done"@
        } else {
            "error"@
        },
    );
    crate::board_laws::cards_are_dropped_alone(s.board.blocked, id);
}

/// What a tool found for the reader is shown there: the window is open afterwards, unless
/// the human closed it.
pub proof fn finds_are_shown(s: ShellV, call: crate::ids::ActionId, output: ToolOutputV)
    requires
        crate::desktop_laws::wf(s.desk),
        s.desk.next_id < i32::MAX - 1,
        output.ok,
        crate::reader::is_reader(output.content),
        crate::json::items_at(output.content, "mandalas"@) is None,
        !(output.content is Arr) && !(output.content is Str),
    ensures
        ({
            let t = handled(s, ShellEventV::ToolResult { call, output }).0;
            let k = crate::apps::AppKind::Occipital;
            &&& t.reader.page == crate::reader::render_v(output.content)
            &&& !has_bit(s.desk.latched, k) ==> shown(t.desk.windows, k)
            &&& has_bit(s.desk.latched, k) ==> t.desk == s.desk
            &&& t.mandala == s.mandala
        }),
{
    let k = crate::apps::AppKind::Occipital;
    crate::desktop_laws::agent_open_keeps(s.desk, k);
    crate::desktop::kind_place_bounds(s.desk.windows, k, 0);
}

/// A call that waits for the human asks on its card and on the board, and the face shows it.
pub proof fn waiting_calls_ask(s: ShellV, call: ToolCallV, i: int)
    requires
        newest(s.chat.messages, dec(call.id.0 as nat), i),
        crate::board::names_differ(s.board.blocked),
    ensures
        ({
            let (t, fx) = handled(s, ShellEventV::ApprovalPending { call });
            &&& fx.len() == 0
            &&& t.chat.messages == s.chat.messages.update(
                i,
                MessageV { awaiting_approval: true, ..s.chat.messages[i] },
            )
            &&& crate::board_laws::carded(t.board.blocked, dec(call.id.0 as nat))
            &&& t.busy && t.face.shown.state == "alert"@
            &&& t.desk == s.desk
        }),
{
    let id = dec(call.id.0 as nat);
    crate::chat_laws::cards_change_alone(s.chat, id, i, Seq::empty(), Seq::empty());
    crate::board_laws::questions_have_a_card(
        s.board,
        id,
        call.tool,
        crate::text::head(crate::json::compact(call.args), 60),
    );
}

// ── The session, its peers, the wake word ───────────────────────────────────

/// The greeting names the session and replaces the chat with what was said in it.
pub proof fn greetings_bring_the_session(s: ShellV, ev: JsonV, id: u64)
    requires
        uint_at(ev, "session_id"@) == Some(id),
    ensures
        ({
            let t = crate::dispatch::greeted(s, ev);
            &&& t.session_id == Some(id)
            &&& t.status == "Session "@ + dec(id as nat)
            &&& t.chat.messages == replayed(items_or_none(ev, "history"@))
            &&& t.mutations == 0
            &&& t.desk == s.desk && t.board == s.board && t.inbox == s.inbox
        }),
{
}

/// What a peer wrote is the first thread of the inbox, with one more that is not read, and
/// is told; a click on that leads to the thread.
pub proof fn peers_are_heard(
    s: ShellV,
    ev: JsonV,
    event: Option<ShellEventV>,
    now_ms: u64,
    now_secs: i64,
)
    requires
        text_at(ev, "type"@) == Some("mesh_message"@),
        s.reflexes.len() == 0,
    ensures
        ({
            let (t, fx) = dispatched(s, ev, event, now_ms, now_secs);
            let from = text_or(ev, "from_node"@, "peer"@);
            let session = uint_or(ev, "session"@, 0) as i32;
            &&& t == ShellV { inbox: t.inbox, ..s }
            &&& t.inbox.len() > 0
            &&& t.inbox[0].node_id == from
            &&& t.inbox[0].preview == text_or(ev, "preview"@, ""@)
            &&& t.inbox[0].session == session
            &&& fx.len() == 1
            &&& fx[0] matches EffectV::Toast { session: to, .. } && to == session
        }),
{
    reveal_strlit("mesh_message");
    reveal_strlit("session_init");
    reveal_strlit("hello");
    reveal_strlit("turn_started");
    assert("mesh_message"@[0] == 'm' && "session_init"@[0] == 's' && "hello"@[0] == 'h'
        && "turn_started"@[0] == 't');
    no_reflexes(s, "mesh_message"@, now_ms);
}

/// A peer's thread rises to the top with one more that is not read; the other threads stay
/// in their order.
pub proof fn threads_rise(
    t: Seq<InboxThreadV>,
    node: Seq<char>,
    session: i32,
    preview: Seq<char>,
    now: i64,
    i: int,
)
    requires
        crate::inbox::peers_differ(t),
        0 <= i < t.len(),
        t[i].node_id == node,
        t[i].unread < i32::MAX,
    ensures
        ({
            let u = crate::inbox::upserted(t, node, session, preview, now);
            &&& u.len() == t.len()
            &&& u[0].unread == t[i].unread + 1
            &&& u[0].preview == preview
            &&& u.skip(1) == t.remove(i)
        }),
{
    peer_is_at(t, node, i, 0);
    let u = crate::inbox::upserted(t, node, session, preview, now);
    assert(u.skip(1) =~= t.remove(i));
}

proof fn peer_is_at(t: Seq<InboxThreadV>, node: Seq<char>, i: int, from: int)
    requires
        crate::inbox::peers_differ(t),
        0 <= from <= i < t.len(),
        t[i].node_id == node,
    ensures
        crate::inbox::peer_place(t, node, from) == i,
    decreases i - from,
{
    if from < i {
        assert(t[from].node_id != t[i].node_id);
        peer_is_at(t, node, i, from + 1);
    }
}

/// The wake word starts a recording and brings the chat to the front, unless one runs.
pub proof fn the_wake_word_is_heard(s: ShellV)
    ensures
        ({
            let (t, fx) = handled(s, ShellEventV::WakeTriggered);
            &&& t.face.shown.state == "listening"@
            &&& !s.recording ==> fx == seq![EffectV::Record] && t.current_view == 0
            &&& s.recording ==> fx.len() == 0 && t.current_view == s.current_view
            &&& t.chat == s.chat && t.desk == s.desk
        }),
{
}

// ── A council ───────────────────────────────────────────────────────────────

/// A council sits its members in their order, each with nothing said yet, and deliberates.
pub proof fn councils_convene(
    s: ShellV,
    topic: Seq<char>,
    agents: Seq<crate::events::CouncilAgentDefV>,
    i: int,
)
    requires
        0 <= i < agents.len(),
    ensures
        ({
            let (t, fx) = handled(s, ShellEventV::CouncilStarted { topic, agents });
            let c = t.council;
            &&& c.active && c.topic == topic && c.round == 0 && c.synthesis.len() == 0
            &&& c.agents.len() == agents.len()
            &&& c.agents[i].id == agents[i].id
            &&& c.agents[i].persona == if agents[i].persona.len() == 0 {
                agents[i].id
            } else {
                agents[i].persona
            }
            &&& c.agents[i].text.len() == 0 && !c.agents[i].done
            &&& fx.len() == 1
        }),
{
}

proof fn member_is_at(a: Seq<crate::council::CouncilAgentV>, id: Seq<char>, i: int, from: int)
    requires
        0 <= from <= i < a.len(),
        a[i].id == id,
        forall|j: int| from <= j < i ==> (#[trigger] a[j]).id != id,
    ensures
        crate::council::member_place(a, id, from) == i,
    decreases i - from,
{
    if from < i {
        member_is_at(a, id, i, from + 1);
    }
}

/// What a member says is added to its own words; what it said in full replaces them, and it
/// is done. No other member's words change. A new round starts everyone afresh, and the end
/// tells why and what came of it.
pub proof fn members_speak_for_themselves(
    s: ShellV,
    i: int,
    delta: Seq<char>,
    full: Seq<char>,
    round: u32,
    j: int,
)
    requires
        0 <= i < s.council.agents.len(),
        forall|k: int| 0 <= k < i ==> (#[trigger] s.council.agents[k]).id != s.council.agents[i].id,
        0 <= j < s.council.agents.len(),
        delta.len() > 0,
        full.len() > 0,
    ensures
        ({
            let a = s.council.agents;
            let id = a[i].id;
            let b = handled(
                s,
                ShellEventV::CouncilAgentDelta { agent_id: id, delta },
            ).0.council.agents;
            let c = handled(
                s,
                ShellEventV::CouncilAgentDone { agent_id: id, full_text: full },
            ).0.council.agents;
            let r = handled(s, ShellEventV::CouncilRoundStart { round }).0.council;
            &&& b.len() == a.len() && c.len() == a.len() && r.agents.len() == a.len()
            &&& b[i].text == a[i].text + delta && b[i].done == a[i].done
            &&& c[i].text == full && c[i].done
            &&& j != i ==> b[j] == a[j] && c[j] == a[j]
            &&& r.round == round && r.agents[j].text.len() == 0 && !r.agents[j].done
            &&& r.agents[j].id == a[j].id
        }),
{
    member_is_at(s.council.agents, s.council.agents[i].id, i, 0);
}

/// A council that is over says how it ended and what came of it.
pub proof fn councils_end(s: ShellV, reason: Seq<char>, synthesis: Seq<char>, rounds: u32)
    ensures
        ({
            let (t, fx) = handled(s, ShellEventV::CouncilComplete { reason, synthesis, rounds });
            &&& !t.council.active && t.council.synthesis == synthesis && t.council.round == rounds
            &&& t.council.agents == s.council.agents && t.council.topic == s.council.topic
            &&& reason == "consensus"@ ==> t.council.status == "consensus"@
            &&& fx.len() == 1
            &&& fx[0] matches EffectV::Toast { kind, .. } && kind == ToastKind::Success
        }),
{
}

} // verus!
