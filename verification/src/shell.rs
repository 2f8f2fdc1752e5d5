//! The shell's state, and the frames it sends.
use vstd::prelude::*;
use crate::board::{BatchRow, Board, BoardV, GoalState, WorkerState};
use crate::chat::{Transcript, TranscriptV};
use crate::council::{Council, CouncilV};
use crate::desktop::{Desktop, DesktopV};
use crate::events::{CouncilAgentDef, CouncilAgentDefV, ToolCall, ToolCallV, ToolOutput, ToolOutputV};
use crate::ids::ActionId;
use crate::inbox::{Inbox, InboxThreadV};
use crate::json::{entries, put, uint_json, Json, JsonV};
use crate::mandala::{MandalaPane, MandalaPaneV};
use crate::personas::{mode_on, persona_mode, persona_name, persona_slug, Persona};
use crate::reader::{ReaderPane, ReaderPaneV};
use crate::reflex::{ReflexRec, ReflexV};
use crate::text::{copy, views};

verus! {

broadcast use {
    crate::text::views_push,
    crate::text::views_empty,
    crate::json::entries_empty,
};

// ── The face ────────────────────────────────────────────────────────────────

/// An expression of the agent's face. The intensity is the number that the agent gave,
/// as JSON prints it.
#[derive(Debug)]
pub struct Expression {
    pub state: String,
    pub gaze: String,
    pub intensity: String,
}

/// The model of an [`Expression`].
pub struct ExpressionV {
    pub state: Seq<char>,
    pub gaze: Seq<char>,
    pub intensity: Seq<char>,
}

impl View for Expression {
    type V = ExpressionV;

    open spec fn view(&self) -> ExpressionV {
        ExpressionV { state: self.state@, gaze: self.gaze@, intensity: self.intensity@ }
    }
}

/// The face: what it shows, and what it goes back to when a turn is over.
#[derive(Debug)]
pub struct Face {
    pub shown: Expression,
    pub held: Option<Expression>,
}

/// The model of a [`Face`].
pub struct FaceV {
    pub shown: ExpressionV,
    pub held: Option<ExpressionV>,
}

impl View for Face {
    type V = FaceV;

    open spec fn view(&self) -> FaceV {
        FaceV {
            shown: self.shown@,
            held: match self.held {
                Some(e) => Some(e@),
                None => None,
            },
        }
    }
}

/// A calm face.
pub open spec fn calm() -> ExpressionV {
    ExpressionV { state: "idle"@, gaze: "center"@, intensity: "0.7"@ }
}

/// The face with another state.
pub open spec fn facing(f: FaceV, state: Seq<char>) -> FaceV {
    FaceV { shown: ExpressionV { state, ..f.shown }, ..f }
}

/// The face when a turn is over: what the agent chose in it, or calm.
pub open spec fn rested(f: FaceV) -> FaceV {
    FaceV {
        shown: match f.held {
            Some(e) => e,
            None => calm(),
        },
        ..f
    }
}

fn copy_expression(e: &Expression) -> (r: Expression)
    ensures
        r@ == e@,
{
    Expression {
        state: e.state.clone(),
        gaze: e.gaze.clone(),
        intensity: e.intensity.clone(),
    }
}

impl Face {
    /// A calm face that holds nothing.
    pub fn new() -> (r: Face)
        ensures
            r@ == (FaceV { shown: calm(), held: None }),
    {
        Face {
            shown: Expression {
                state: copy("idle"),
                gaze: copy("center"),
                intensity: copy("0.7"),
            },
            held: None,
        }
    }

    /// Shows a state.
    pub fn set_state(&mut self, state: &str)
        ensures
            final(self)@ == facing(old(self)@, state@),
    {
        self.shown.state = copy(state);
    }

    /// Shows an expression, and holds it beyond the end of the turn.
    pub fn set_face_emote(&mut self, e: Expression)
        ensures
            final(self)@ == (FaceV { shown: e@, held: Some(e@) }),
    {
        self.shown = copy_expression(&e);
        self.held = Some(e);
    }

    /// Goes back to the held expression, or to calm.
    pub fn face_rest(&mut self)
        ensures
            final(self)@ == rested(old(self)@),
    {
        let next = match &self.held {
            Some(e) => copy_expression(e),
            None => Expression {
                state: copy("idle"),
                gaze: copy("center"),
                intensity: copy("0.7"),
            },
        };
        self.shown = next;
    }

    /// Holds nothing any more.
    pub fn clear_face_hold(&mut self)
        ensures
            final(self)@ == (FaceV { held: None, ..old(self)@ }),
    {
        self.held = None;
    }
}

// ── What the agent tells ────────────────────────────────────────────────────

/// An event as the shell takes it in. Numbers that are only shown come as text, and
/// the air quality index as a whole number.
#[allow(inconsistent_fields)]
#[derive(Debug)]
pub enum ShellEvent {
    AgentText { delta: String },
    TurnComplete { session: u64 },
    SensorAlert { node_id: String, kind: String, value: String, threshold: String },
    WakeTriggered,
    ToolRequested { call: ToolCall },
    ToolResult { call: ActionId, output: ToolOutput },
    ApprovalPending { call: ToolCall },
    AirQuality { iaq: u32 },
    ThermalFrame,
    CouncilStarted { topic: String, agents: Vec<CouncilAgentDef> },
    CouncilRoundStart { round: u32 },
    CouncilAgentDelta { agent_id: String, delta: String },
    CouncilAgentDone { agent_id: String, full_text: String },
    CouncilComplete { reason: String, synthesis: String, rounds: u32 },
    CouncilButtIn { message: String },
    SubAgentStarted { child: u64, prompt: String },
    EvolutionApplied { patch_summary: String },
    MeshMessage { from_node: String, preview: String },
    MeshNodeStatus { node_id: String, status: String, last_seen_secs: u64 },
    GoalStateChanged {
        goal: u64,
        objective: String,
        state: GoalState,
        step: u64,
        max_steps: u64,
        detail: String,
        yolo: bool,
    },
    WorkerStateChanged {
        worker: u64,
        batch: u64,
        state: WorkerState,
        task: String,
        detail: String,
        yolo: bool,
        node: Option<String>,
    },
    TaskBatchDone { batch: u64, rows: Vec<BatchRow> },
    /// An event that the shell does nothing about.
    Other,
}

/// The model of a [`ShellEvent`].
#[allow(inconsistent_fields)]
pub enum ShellEventV {
    AgentText { delta: Seq<char> },
    TurnComplete { session: u64 },
    SensorAlert {
        node_id: Seq<char>,
        kind: Seq<char>,
        value: Seq<char>,
        threshold: Seq<char>,
    },
    WakeTriggered,
    ToolRequested { call: ToolCallV },
    ToolResult { call: ActionId, output: ToolOutputV },
    ApprovalPending { call: ToolCallV },
    AirQuality { iaq: u32 },
    ThermalFrame,
    CouncilStarted { topic: Seq<char>, agents: Seq<CouncilAgentDefV> },
    CouncilRoundStart { round: u32 },
    CouncilAgentDelta { agent_id: Seq<char>, delta: Seq<char> },
    CouncilAgentDone { agent_id: Seq<char>, full_text: Seq<char> },
    CouncilComplete { reason: Seq<char>, synthesis: Seq<char>, rounds: u32 },
    CouncilButtIn { message: Seq<char> },
    SubAgentStarted { child: u64, prompt: Seq<char> },
    EvolutionApplied { patch_summary: Seq<char> },
    MeshMessage { from_node: Seq<char>, preview: Seq<char> },
    MeshNodeStatus { node_id: Seq<char>, status: Seq<char>, last_seen_secs: u64 },
    GoalStateChanged {
        goal: u64,
        objective: Seq<char>,
        state: GoalState,
        step: u64,
        max_steps: u64,
        detail: Seq<char>,
        yolo: bool,
    },
    WorkerStateChanged {
        worker: u64,
        batch: u64,
        state: WorkerState,
        task: Seq<char>,
        detail: Seq<char>,
        yolo: bool,
        node: Option<Seq<char>>,
    },
    TaskBatchDone { batch: u64, rows: Seq<BatchRow> },
    Other,
}

impl View for ShellEvent {
    type V = ShellEventV;

    open spec fn view(&self) -> ShellEventV {
        match self {
            ShellEvent::AgentText { delta } => ShellEventV::AgentText { delta: delta@ },
            ShellEvent::TurnComplete { session } => ShellEventV::TurnComplete { session: *session },
            ShellEvent::SensorAlert { node_id, kind, value, threshold } => {
                ShellEventV::SensorAlert {
                    node_id: node_id@,
                    kind: kind@,
                    value: value@,
                    threshold: threshold@,
                }
            },
            ShellEvent::WakeTriggered => ShellEventV::WakeTriggered,
            ShellEvent::ToolRequested { call } => ShellEventV::ToolRequested { call: call@ },
            ShellEvent::ToolResult { call, output } => ShellEventV::ToolResult {
                call: *call,
                output: output@,
            },
            ShellEvent::ApprovalPending { call } => ShellEventV::ApprovalPending { call: call@ },
            ShellEvent::AirQuality { iaq } => ShellEventV::AirQuality { iaq: *iaq },
            ShellEvent::ThermalFrame => ShellEventV::ThermalFrame,
            ShellEvent::CouncilStarted { topic, agents } => ShellEventV::CouncilStarted {
                topic: topic@,
                agents: views(agents@),
            },
            ShellEvent::CouncilRoundStart { round } => ShellEventV::CouncilRoundStart {
                round: *round,
            },
            ShellEvent::CouncilAgentDelta { agent_id, delta } => {
                ShellEventV::CouncilAgentDelta { agent_id: agent_id@, delta: delta@ }
            },
            ShellEvent::CouncilAgentDone { agent_id, full_text } => {
                ShellEventV::CouncilAgentDone { agent_id: agent_id@, full_text: full_text@ }
            },
            ShellEvent::CouncilComplete { reason, synthesis, rounds } => {
                ShellEventV::CouncilComplete {
                    reason: reason@,
                    synthesis: synthesis@,
                    rounds: *rounds,
                }
            },
            ShellEvent::CouncilButtIn { message } => ShellEventV::CouncilButtIn {
                message: message@,
            },
            ShellEvent::SubAgentStarted { child, prompt } => ShellEventV::SubAgentStarted {
                child: *child,
                prompt: prompt@,
            },
            ShellEvent::EvolutionApplied { patch_summary } => ShellEventV::EvolutionApplied {
                patch_summary: patch_summary@,
            },
            ShellEvent::MeshMessage { from_node, preview } => ShellEventV::MeshMessage {
                from_node: from_node@,
                preview: preview@,
            },
            ShellEvent::MeshNodeStatus { node_id, status, last_seen_secs } => {
                ShellEventV::MeshNodeStatus {
                    node_id: node_id@,
                    status: status@,
                    last_seen_secs: *last_seen_secs,
                }
            },
            ShellEvent::GoalStateChanged {
                goal,
                objective,
                state,
                step,
                max_steps,
                detail,
                yolo,
            } => ShellEventV::GoalStateChanged {
                goal: *goal,
                objective: objective@,
                state: *state,
                step: *step,
                max_steps: *max_steps,
                detail: detail@,
                yolo: *yolo,
            },
            ShellEvent::WorkerStateChanged { worker, batch, state, task, detail, yolo, node } => {
                ShellEventV::WorkerStateChanged {
                    worker: *worker,
                    batch: *batch,
                    state: *state,
                    task: task@,
                    detail: detail@,
                    yolo: *yolo,
                    node: match *node {
                        Some(n) => Some(n@),
                        None => None,
                    },
                }
            },
            ShellEvent::TaskBatchDone { batch, rows } => ShellEventV::TaskBatchDone {
                batch: *batch,
                rows: rows@,
            },
            ShellEvent::Other => ShellEventV::Other,
        }
    }
}

// ── The shell ───────────────────────────────────────────────────────────────

/// The shell.
#[derive(Debug)]
pub struct Shell {
    pub chat: Transcript,
    pub desk: Desktop,
    pub board: Board,
    pub council: Council,
    pub inbox: Inbox,
    pub reader: ReaderPane,
    pub mandala: MandalaPane,
    pub reflexes: Vec<ReflexRec>,
    pub face: Face,
    pub persona: Persona,
    /// Whether the machine has only the small renderer.
    pub small_renderer: bool,
    /// The line in the status bar.
    pub status: String,
    /// The session that the gateway named.
    pub session_id: Option<u64>,
    /// The session that the chat shows.
    pub current_session: i32,
    /// The sub-agents that run.
    pub subagents: Vec<u64>,
    /// Whether the agent is at work.
    pub busy: bool,
    /// Whether the microphone is live.
    pub recording: bool,
    /// Whether the agent's words are read aloud.
    pub tts: bool,
    /// How often the agent changed the windows in the turn at hand.
    pub mutations: u32,
    pub scroll_tick: i32,
    /// The view of the focus shell; zero is the chat.
    pub current_view: i32,
    /// The image that goes with the next prompt, and its name.
    pub staged_path: String,
    pub staged_name: String,
    pub iaq_label: String,
    pub thermal_active: bool,
}

/// The model of a [`Shell`].
pub struct ShellV {
    pub chat: TranscriptV,
    pub desk: DesktopV,
    pub board: BoardV,
    pub council: CouncilV,
    pub inbox: Seq<InboxThreadV>,
    pub reader: ReaderPaneV,
    pub mandala: MandalaPaneV,
    pub reflexes: Seq<ReflexV>,
    pub face: FaceV,
    pub persona: Persona,
    pub small_renderer: bool,
    pub status: Seq<char>,
    pub session_id: Option<u64>,
    pub current_session: i32,
    pub subagents: Seq<u64>,
    pub busy: bool,
    pub recording: bool,
    pub tts: bool,
    pub mutations: u32,
    pub scroll_tick: i32,
    pub current_view: i32,
    pub staged_path: Seq<char>,
    pub staged_name: Seq<char>,
    pub iaq_label: Seq<char>,
    pub thermal_active: bool,
}

impl View for Shell {
    type V = ShellV;

    open spec fn view(&self) -> ShellV {
        ShellV {
            chat: self.chat@,
            desk: self.desk@,
            board: self.board@,
            council: self.council@,
            inbox: self.inbox@,
            reader: self.reader@,
            mandala: self.mandala@,
            reflexes: views(self.reflexes@),
            face: self.face@,
            persona: self.persona,
            small_renderer: self.small_renderer,
            status: self.status@,
            session_id: self.session_id,
            current_session: self.current_session,
            subagents: self.subagents@,
            busy: self.busy,
            recording: self.recording,
            tts: self.tts,
            mutations: self.mutations,
            scroll_tick: self.scroll_tick,
            current_view: self.current_view,
            staged_path: self.staged_path@,
            staged_name: self.staged_name@,
            iaq_label: self.iaq_label@,
            thermal_active: self.thermal_active,
        }
    }
}

/// What holds of a shell that has just started, whatever it wears.
pub open spec fn fresh_shell(s: ShellV) -> bool {
    &&& s.chat.messages.len() == 0
    &&& s.chat.last_stamp == 0
    &&& s.desk.windows.len() == 0
    &&& s.desk.next_id == 1
    &&& s.desk.focused == 0
    &&& s.desk.opened == 0
    &&& s.desk.latched == 0
    &&& s.session_id is None
    &&& s.subagents.len() == 0
    &&& !s.busy && !s.recording && !s.tts
    &&& s.mutations == 0
    &&& s.reflexes.len() == 0
    &&& s.inbox.len() == 0
    &&& s.reader.trail.len() == 0
    &&& s.face == (FaceV { shown: calm(), held: None })
    &&& s.staged_path.len() == 0
}

impl Shell {
    /// A shell that has just started.
    pub fn new(persona: Persona, small_renderer: bool) -> (r: Shell)
        ensures
            fresh_shell(r@),
            r@.persona == persona,
            r@.small_renderer == small_renderer,
            r@.desk.mode == mode_on(persona, small_renderer),
            r@.iaq_label == "—"@,
            !r@.thermal_active,
            r@.current_view == 0,
    {
        Shell {
            chat: Transcript::new(),
            desk: Desktop::new(persona_mode(persona, small_renderer)),
            board: Board::new(),
            council: Council::new(),
            inbox: Inbox::new(),
            reader: ReaderPane::new(),
            mandala: MandalaPane::new(),
            reflexes: Vec::new(),
            face: Face::new(),
            persona,
            small_renderer,
            status: String::new(),
            session_id: None,
            current_session: 0,
            subagents: Vec::new(),
            busy: false,
            recording: false,
            tts: false,
            mutations: 0,
            scroll_tick: 0,
            current_view: 0,
            staged_path: String::new(),
            staged_name: String::new(),
            iaq_label: copy("—"),
            thermal_active: false,
        }
    }
}

// ── Frames ──────────────────────────────────────────────────────────────────

/// The frame that tells the agent which persona is worn.
pub open spec fn persona_frame(p: Persona) -> JsonV {
    JsonV::Obj(
        seq![
            ("type"@, JsonV::Str("set_persona"@)),
            ("persona"@, JsonV::Str(persona_name(p))),
        ],
    )
}

pub fn build_persona_frame(p: Persona) -> (r: Json)
    ensures
        r@ == persona_frame(p),
{
    let mut e: Vec<(String, Json)> = Vec::new();
    put(&mut e, "type", Json::str("set_persona"));
    put(&mut e, "persona", Json::str(persona_slug(p)));
    assert(entries(e@) =~= persona_frame(p)->Obj_0);
    Json::object(e)
}

/// The frame that asks for a new session, in the voice of a persona.
pub open spec fn new_chat_frame(p: Persona) -> JsonV {
    JsonV::Obj(
        seq![
            ("type"@, JsonV::Str("hello"@)),
            ("new"@, JsonV::Bool(true)),
            ("persona"@, JsonV::Str(persona_name(p))),
        ],
    )
}

pub fn build_new_chat_frame(p: Persona) -> (r: Json)
    ensures
        r@ == new_chat_frame(p),
{
    let mut e: Vec<(String, Json)> = Vec::new();
    put(&mut e, "type", Json::str("hello"));
    put(&mut e, "new", Json::Bool(true));
    put(&mut e, "persona", Json::str(persona_slug(p)));
    assert(entries(e@) =~= new_chat_frame(p)->Obj_0);
    Json::object(e)
}

/// The frame that says something, with an image where there is one.
pub open spec fn prompt_frame(text: Seq<char>, image: Seq<char>) -> JsonV {
    let e = seq![("type"@, JsonV::Str("user_prompt"@)), ("text"@, JsonV::Str(text))];
    if image.len() == 0 {
        JsonV::Obj(e)
    } else {
        JsonV::Obj(
            e.push(
                ("images"@, JsonV::Arr(seq![JsonV::Obj(seq![("path"@, JsonV::Str(image))])])),
            ),
        )
    }
}

fn image_list(path: &str) -> (r: Json)
    ensures
        r@ == JsonV::Arr(seq![JsonV::Obj(seq![("path"@, JsonV::Str(path@))])]),
{
    let mut e: Vec<(String, Json)> = Vec::new();
    put(&mut e, "path", Json::str(path));
    assert(entries(e@) =~= seq![("path"@, JsonV::Str(path@))]);
    let mut list: Vec<Json> = Vec::new();
    list.push(Json::object(e));
    proof {
        crate::json::arr_view(list);
        assert(views(list@) =~= seq![JsonV::Obj(seq![("path"@, JsonV::Str(path@))])]);
    }
    Json::Arr(list)
}

pub fn build_prompt_frame(text: &str, image: &str) -> (r: Json)
    ensures
        r@ == prompt_frame(text@, image@),
{
    let mut e: Vec<(String, Json)> = Vec::new();
    put(&mut e, "type", Json::str("user_prompt"));
    put(&mut e, "text", Json::str(text));
    assert(entries(e@) =~= seq![("type"@, JsonV::Str("user_prompt"@)), ("text"@, JsonV::Str(text@))]);
    if !image.is_empty() {
        put(&mut e, "images", image_list(image));
    }
    Json::object(e)
}

/// The frame that approves or rejects a call.
pub open spec fn approval_frame(action: u64, granted: bool) -> JsonV {
    JsonV::Obj(
        seq![
            ("type"@, JsonV::Str("user_approval"@)),
            ("action"@, uint_json(action)),
            ("granted"@, JsonV::Bool(granted)),
        ],
    )
}

pub fn build_approval_frame(action: u64, granted: bool) -> (r: Json)
    ensures
        r@ == approval_frame(action, granted),
{
    let mut e: Vec<(String, Json)> = Vec::new();
    put(&mut e, "type", Json::str("user_approval"));
    put(&mut e, "action", Json::uint(action));
    put(&mut e, "granted", Json::Bool(granted));
    assert(entries(e@) =~= approval_frame(action, granted)->Obj_0);
    Json::object(e)
}

/// A frame that is only its type.
pub open spec fn bare_frame(t: Seq<char>) -> JsonV {
    JsonV::Obj(seq![("type"@, JsonV::Str(t))])
}

pub fn build_bare_frame(t: &str) -> (r: Json)
    ensures
        r@ == bare_frame(t@),
{
    let mut e: Vec<(String, Json)> = Vec::new();
    put(&mut e, "type", Json::str(t));
    assert(entries(e@) =~= bare_frame(t@)->Obj_0);
    Json::object(e)
}

/// The frame that binds the socket to a session.
pub open spec fn resume_frame(session: u64) -> JsonV {
    JsonV::Obj(
        seq![("type"@, JsonV::Str("hello"@)), ("resume_session"@, uint_json(session))],
    )
}

pub fn build_resume_frame(session: u64) -> (r: Json)
    ensures
        r@ == resume_frame(session),
{
    let mut e: Vec<(String, Json)> = Vec::new();
    put(&mut e, "type", Json::str("hello"));
    put(&mut e, "resume_session", Json::uint(session));
    assert(entries(e@) =~= resume_frame(session)->Obj_0);
    Json::object(e)
}

/// The frame that binds the session to an agent's identity.
pub open spec fn identity_frame(agent: Seq<char>) -> JsonV {
    JsonV::Obj(seq![("type"@, JsonV::Str("hello"@)), ("agent_id"@, JsonV::Str(agent))])
}

pub fn build_identity_frame(agent: &str) -> (r: Json)
    ensures
        r@ == identity_frame(agent@),
{
    let mut e: Vec<(String, Json)> = Vec::new();
    put(&mut e, "type", Json::str("hello"));
    put(&mut e, "agent_id", Json::str(agent));
    assert(entries(e@) =~= identity_frame(agent@)->Obj_0);
    Json::object(e)
}

} // verus!
