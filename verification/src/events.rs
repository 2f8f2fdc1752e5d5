//! Events: what the agent's gateway tells every client that is connected.
//!
//! An event is a JSON object whose `type` names it. One of a type that is not known
//! here is [`Event::Unknown`]; one that lacks a field, or has one of the wrong shape,
//! is no event at all. A float is kept as the number that stood in the text.
//!
//! An event may also come as a list: its type, and the values of its fields in their
//! order. So may what it holds, a call or a reading; a reading's `kind` may be its number.
//!
//! A frame that names its type or a field twice is no event. A parsed value keeps only one
//! of the two, so the text is also read in a way that keeps both.
use vstd::prelude::*;
use crate::ids::{ActionId, PluginId, SessionId};
use crate::json::{
    field, flag_at, num_at, parse_json, parsed, record_from, record_v, text_at, text_v, uint_at,
    uint_v, Json, JsonV, Num, NumV,
};
use crate::repeats::{clear, clear_of, spell, spelled};
use crate::text::{copy, same, views};

verus! {

broadcast use {crate::text::views_push, crate::text::views_empty};

/// The text that may be there.
pub open spec fn opt_text(s: Option<String>) -> Option<Seq<char>> {
    match s {
        Some(t) => Some(t@),
        None => None,
    }
}

/// A tool call.
#[derive(Debug, PartialEq)]
pub struct ToolCall {
    pub id: ActionId,
    pub tool: String,
    pub args: Json,
    pub needs_approval: bool,
}

/// The model of a [`ToolCall`].
pub struct ToolCallV {
    pub id: ActionId,
    pub tool: Seq<char>,
    pub args: JsonV,
    pub needs_approval: bool,
}

impl View for ToolCall {
    type V = ToolCallV;

    open spec fn view(&self) -> ToolCallV {
        ToolCallV {
            id: self.id,
            tool: self.tool@,
            args: self.args@,
            needs_approval: self.needs_approval,
        }
    }
}

/// What a tool gave back.
#[derive(Debug, PartialEq)]
pub struct ToolOutput {
    pub ok: bool,
    pub content: Json,
}

/// The model of a [`ToolOutput`].
pub struct ToolOutputV {
    pub ok: bool,
    pub content: JsonV,
}

impl View for ToolOutput {
    type V = ToolOutputV;

    open spec fn view(&self) -> ToolOutputV {
        ToolOutputV {
            ok: self.ok,
            content: self.content@,
        }
    }
}

/// A tool that a plugin offers.
#[derive(Debug, PartialEq)]
pub struct ToolSpec {
    pub name: String,
    pub description: String,
    pub input_schema: Json,
}

/// The model of a [`ToolSpec`].
pub struct ToolSpecV {
    pub name: Seq<char>,
    pub description: Seq<char>,
    pub input_schema: JsonV,
}

impl View for ToolSpec {
    type V = ToolSpecV;

    open spec fn view(&self) -> ToolSpecV {
        ToolSpecV {
            name: self.name@,
            description: self.description@,
            input_schema: self.input_schema@,
        }
    }
}

/// A member of a council.
#[derive(Debug, PartialEq)]
pub struct CouncilAgentDef {
    pub id: String,
    pub persona: String,
    pub backend: Option<String>,
    pub model: Option<String>,
    pub color: Option<String>,
}

/// The model of a [`CouncilAgentDef`].
pub struct CouncilAgentDefV {
    pub id: Seq<char>,
    pub persona: Seq<char>,
    pub backend: Option<Seq<char>>,
    pub model: Option<Seq<char>>,
    pub color: Option<Seq<char>>,
}

impl View for CouncilAgentDef {
    type V = CouncilAgentDefV;

    open spec fn view(&self) -> CouncilAgentDefV {
        CouncilAgentDefV {
            id: self.id@,
            persona: self.persona@,
            backend: opt_text(self.backend),
            model: opt_text(self.model),
            color: opt_text(self.color),
        }
    }
}

/// A reading of one sensor.
#[derive(Debug, PartialEq)]
pub enum SensorReading {
    Temperature { celsius: Num, sensor_id: String },
    Humidity { percent: Num, sensor_id: String },
    Pressure { hpa: Num, sensor_id: String },
    Motion { detected: bool, sensor_id: String },
    Distance { cm: Num, sensor_id: String },
    GpioLevel { pin: u8, high: bool },
    /// An air quality bundle.
    AirQuality { iaq: Num, co2_eq_ppm: Num, voc_ppm: Num, accuracy: u8, temperature_c: Num, humidity_pct: Num, pressure_hpa: Num, sensor_id: String },
    /// The summary of a thermal frame.
    ThermalFrame { min_c: Num, max_c: Num, mean_c: Num, sensor_id: String },
    /// A sensor of a kind that is not known here.
    Unknown,
}

/// The model of [`SensorReading`].
pub enum SensorReadingV {
    Temperature { celsius: NumV, sensor_id: Seq<char> },
    Humidity { percent: NumV, sensor_id: Seq<char> },
    Pressure { hpa: NumV, sensor_id: Seq<char> },
    Motion { detected: bool, sensor_id: Seq<char> },
    Distance { cm: NumV, sensor_id: Seq<char> },
    GpioLevel { pin: u8, high: bool },
    AirQuality { iaq: NumV, co2_eq_ppm: NumV, voc_ppm: NumV, accuracy: u8, temperature_c: NumV, humidity_pct: NumV, pressure_hpa: NumV, sensor_id: Seq<char> },
    ThermalFrame { min_c: NumV, max_c: NumV, mean_c: NumV, sensor_id: Seq<char> },
    Unknown,
}

impl View for SensorReading {
    type V = SensorReadingV;

    open spec fn view(&self) -> SensorReadingV {
        match self {
            SensorReading::Temperature { celsius, sensor_id } => SensorReadingV::Temperature {
                celsius: celsius@,
                sensor_id: sensor_id@,
            },
            SensorReading::Humidity { percent, sensor_id } => SensorReadingV::Humidity {
                percent: percent@,
                sensor_id: sensor_id@,
            },
            SensorReading::Pressure { hpa, sensor_id } => SensorReadingV::Pressure {
                hpa: hpa@,
                sensor_id: sensor_id@,
            },
            SensorReading::Motion { detected, sensor_id } => SensorReadingV::Motion {
                detected: *detected,
                sensor_id: sensor_id@,
            },
            SensorReading::Distance { cm, sensor_id } => SensorReadingV::Distance {
                cm: cm@,
                sensor_id: sensor_id@,
            },
            SensorReading::GpioLevel { pin, high } => SensorReadingV::GpioLevel {
                pin: *pin,
                high: *high,
            },
            SensorReading::AirQuality { iaq, co2_eq_ppm, voc_ppm, accuracy, temperature_c, humidity_pct, pressure_hpa, sensor_id } => SensorReadingV::AirQuality {
                iaq: iaq@,
                co2_eq_ppm: co2_eq_ppm@,
                voc_ppm: voc_ppm@,
                accuracy: *accuracy,
                temperature_c: temperature_c@,
                humidity_pct: humidity_pct@,
                pressure_hpa: pressure_hpa@,
                sensor_id: sensor_id@,
            },
            SensorReading::ThermalFrame { min_c, max_c, mean_c, sensor_id } => SensorReadingV::ThermalFrame {
                min_c: min_c@,
                max_c: max_c@,
                mean_c: mean_c@,
                sensor_id: sensor_id@,
            },
            SensorReading::Unknown => SensorReadingV::Unknown,
        }
    }
}

/// What the gateway tells its clients.
#[allow(inconsistent_fields)]
#[derive(Debug, PartialEq)]
pub enum Event {
    /// Sent on connect and on resume: the session, and what was said in it.
    SessionInit { session_id: SessionId, history: Vec<Json> },
    AgentText { session: SessionId, delta: String },
    AgentThinking { session: SessionId, delta: String },
    ToolRequested { session: SessionId, call: ToolCall },
    TurnComplete { session: SessionId },
    /// The call is named by its bare number here.
    ToolResult { session: SessionId, call: ActionId, output: ToolOutput },
    PluginUp { plugin: PluginId, tools: Vec<ToolSpec> },
    PluginDown { plugin: PluginId, reason: String },
    ApprovalPending { session: SessionId, call: ToolCall },
    SubAgentStarted { parent: SessionId, child: SessionId, prompt: String },
    SensorReading { node_id: String, reading: SensorReading, timestamp: u64 },
    WakeTriggered,
    AgentMessage { from: SessionId, to: SessionId, body: String, msg_id: u64 },
    AgentMessageAck { msg_id: u64, from: SessionId },
    CouncilStarted { council_id: String, topic: String, agents: Vec<CouncilAgentDef> },
    CouncilRoundStart { council_id: String, round: u32 },
    CouncilAgentDelta { council_id: String, round: u32, agent_id: String, delta: String },
    CouncilAgentDone { council_id: String, round: u32, agent_id: String, full_text: String },
    CouncilRoundDone { council_id: String, round: u32, convergence: Num, agreements: Vec<String> },
    CouncilComplete { council_id: String, rounds: u32, reason: String, synthesis: String },
    CouncilButtIn { council_id: String, message: String },
    Error { session: Option<SessionId>, message: String },
    /// An event of a type that is not known here.
    Unknown,
}

/// The model of [`Event`].
#[allow(inconsistent_fields)]
pub enum EventV {
    SessionInit { session_id: SessionId, history: Seq<JsonV> },
    AgentText { session: SessionId, delta: Seq<char> },
    AgentThinking { session: SessionId, delta: Seq<char> },
    ToolRequested { session: SessionId, call: ToolCallV },
    TurnComplete { session: SessionId },
    ToolResult { session: SessionId, call: ActionId, output: ToolOutputV },
    PluginUp { plugin: Seq<char>, tools: Seq<ToolSpecV> },
    PluginDown { plugin: Seq<char>, reason: Seq<char> },
    ApprovalPending { session: SessionId, call: ToolCallV },
    SubAgentStarted { parent: SessionId, child: SessionId, prompt: Seq<char> },
    SensorReading { node_id: Seq<char>, reading: SensorReadingV, timestamp: u64 },
    WakeTriggered,
    AgentMessage { from: SessionId, to: SessionId, body: Seq<char>, msg_id: u64 },
    AgentMessageAck { msg_id: u64, from: SessionId },
    CouncilStarted { council_id: Seq<char>, topic: Seq<char>, agents: Seq<CouncilAgentDefV> },
    CouncilRoundStart { council_id: Seq<char>, round: u32 },
    CouncilAgentDelta { council_id: Seq<char>, round: u32, agent_id: Seq<char>, delta: Seq<char> },
    CouncilAgentDone { council_id: Seq<char>, round: u32, agent_id: Seq<char>, full_text: Seq<char> },
    CouncilRoundDone { council_id: Seq<char>, round: u32, convergence: NumV, agreements: Seq<Seq<char>> },
    CouncilComplete { council_id: Seq<char>, rounds: u32, reason: Seq<char>, synthesis: Seq<char> },
    CouncilButtIn { council_id: Seq<char>, message: Seq<char> },
    Error { session: Option<SessionId>, message: Seq<char> },
    Unknown,
}

impl View for Event {
    type V = EventV;

    open spec fn view(&self) -> EventV {
        match self {
            Event::SessionInit { session_id, history } => EventV::SessionInit {
                session_id: *session_id,
                history: views(history@),
            },
            Event::AgentText { session, delta } => EventV::AgentText {
                session: *session,
                delta: delta@,
            },
            Event::AgentThinking { session, delta } => EventV::AgentThinking {
                session: *session,
                delta: delta@,
            },
            Event::ToolRequested { session, call } => EventV::ToolRequested {
                session: *session,
                call: call@,
            },
            Event::TurnComplete { session } => EventV::TurnComplete {
                session: *session,
            },
            Event::ToolResult { session, call, output } => EventV::ToolResult {
                session: *session,
                call: *call,
                output: output@,
            },
            Event::PluginUp { plugin, tools } => EventV::PluginUp {
                plugin: plugin@,
                tools: views(tools@),
            },
            Event::PluginDown { plugin, reason } => EventV::PluginDown {
                plugin: plugin@,
                reason: reason@,
            },
            Event::ApprovalPending { session, call } => EventV::ApprovalPending {
                session: *session,
                call: call@,
            },
            Event::SubAgentStarted { parent, child, prompt } => EventV::SubAgentStarted {
                parent: *parent,
                child: *child,
                prompt: prompt@,
            },
            Event::SensorReading { node_id, reading, timestamp } => EventV::SensorReading {
                node_id: node_id@,
                reading: reading@,
                timestamp: *timestamp,
            },
            Event::WakeTriggered => EventV::WakeTriggered,
            Event::AgentMessage { from, to, body, msg_id } => EventV::AgentMessage {
                from: *from,
                to: *to,
                body: body@,
                msg_id: *msg_id,
            },
            Event::AgentMessageAck { msg_id, from } => EventV::AgentMessageAck {
                msg_id: *msg_id,
                from: *from,
            },
            Event::CouncilStarted { council_id, topic, agents } => EventV::CouncilStarted {
                council_id: council_id@,
                topic: topic@,
                agents: views(agents@),
            },
            Event::CouncilRoundStart { council_id, round } => EventV::CouncilRoundStart {
                council_id: council_id@,
                round: *round,
            },
            Event::CouncilAgentDelta { council_id, round, agent_id, delta } => EventV::CouncilAgentDelta {
                council_id: council_id@,
                round: *round,
                agent_id: agent_id@,
                delta: delta@,
            },
            Event::CouncilAgentDone { council_id, round, agent_id, full_text } => EventV::CouncilAgentDone {
                council_id: council_id@,
                round: *round,
                agent_id: agent_id@,
                full_text: full_text@,
            },
            Event::CouncilRoundDone { council_id, round, convergence, agreements } => EventV::CouncilRoundDone {
                council_id: council_id@,
                round: *round,
                convergence: convergence@,
                agreements: views(agreements@),
            },
            Event::CouncilComplete { council_id, rounds, reason, synthesis } => EventV::CouncilComplete {
                council_id: council_id@,
                rounds: *rounds,
                reason: reason@,
                synthesis: synthesis@,
            },
            Event::CouncilButtIn { council_id, message } => EventV::CouncilButtIn {
                council_id: council_id@,
                message: message@,
            },
            Event::Error { session, message } => EventV::Error {
                session: *session,
                message: message@,
            },
            Event::Unknown => EventV::Unknown,
        }
    }
}

// ── Fields ──────────────────────────────────────────────────────────────────

pub open spec fn u32_at(j: JsonV, k: Seq<char>) -> Option<u32> {
    match uint_at(j, k) {
        Some(n) => if n <= u32::MAX {
            Some(n as u32)
        } else {
            None
        },
        None => None,
    }
}

pub open spec fn u8_at(j: JsonV, k: Seq<char>) -> Option<u8> {
    match uint_at(j, k) {
        Some(n) => if n <= u8::MAX {
            Some(n as u8)
        } else {
            None
        },
        None => None,
    }
}

pub open spec fn session_at(j: JsonV, k: Seq<char>) -> Option<SessionId> {
    match uint_at(j, k) {
        Some(n) => Some(SessionId(n)),
        None => None,
    }
}

pub open spec fn action_at(j: JsonV, k: Seq<char>) -> Option<ActionId> {
    match uint_at(j, k) {
        Some(n) => Some(ActionId(n)),
        None => None,
    }
}

/// A text that may be missing or null.
pub open spec fn maybe_text_at(j: JsonV, k: Seq<char>) -> Option<Option<Seq<char>>> {
    match field(j, k) {
        None => Some(None),
        Some(JsonV::Null) => Some(None),
        Some(JsonV::Str(s)) => Some(Some(s)),
        _ => None,
    }
}

/// A session that may be missing or null.
pub open spec fn maybe_session_at(j: JsonV, k: Seq<char>) -> Option<Option<SessionId>> {
    match field(j, k) {
        None => Some(None),
        Some(JsonV::Null) => Some(None),
        Some(x) => match uint_v(x) {
            Some(n) => Some(Some(SessionId(n))),
            None => None,
        },
    }
}

/// An array that may be missing.
pub open spec fn maybe_items_at(j: JsonV, k: Seq<char>) -> Option<Seq<JsonV>> {
    match field(j, k) {
        None => Some(Seq::empty()),
        Some(JsonV::Arr(a)) => Some(a),
        _ => None,
    }
}

/// The tool call with these fields.
pub open spec fn call_of(j: JsonV) -> Option<ToolCallV> {
    match (
        action_at(j, "id"@),
        text_at(j, "tool"@),
        field(j, "args"@),
        flag_at(j, "needs_approval"@),
    ) {
        (Some(id), Some(tool), Some(args), Some(needs_approval)) => Some(
            ToolCallV {
                id,
                tool,
                args,
                needs_approval,
            },
        ),
        _ => None,
    }
}

/// The names of the fields of a tool call.
pub open spec fn call_names() -> Seq<Seq<char>> {
    seq!["id"@, "tool"@, "args"@, "needs_approval"@]
}

/// The tool call that a record describes.
pub open spec fn call_v(j: JsonV) -> Option<ToolCallV> {
    match record_v(j, call_names(), call_names().len()) {
        Some(o) => call_of(o),
        None => None,
    }
}

/// The tool output with these fields.
pub open spec fn output_of(j: JsonV) -> Option<ToolOutputV> {
    match (
        flag_at(j, "ok"@),
        field(j, "content"@),
    ) {
        (Some(ok), Some(content)) => Some(
            ToolOutputV {
                ok,
                content,
            },
        ),
        _ => None,
    }
}

/// The names of the fields of a tool output.
pub open spec fn output_names() -> Seq<Seq<char>> {
    seq!["ok"@, "content"@]
}

/// The tool output that a record describes.
pub open spec fn output_v(j: JsonV) -> Option<ToolOutputV> {
    match record_v(j, output_names(), output_names().len()) {
        Some(o) => output_of(o),
        None => None,
    }
}

/// The tool with these fields.
pub open spec fn tool_of(j: JsonV) -> Option<ToolSpecV> {
    match (
        text_at(j, "name"@),
        text_at(j, "description"@),
        field(j, "input_schema"@),
    ) {
        (Some(name), Some(description), Some(input_schema)) => Some(
            ToolSpecV {
                name,
                description,
                input_schema,
            },
        ),
        _ => None,
    }
}

/// The names of the fields of a tool.
pub open spec fn tool_names() -> Seq<Seq<char>> {
    seq!["name"@, "description"@, "input_schema"@]
}

/// The tool that a record describes.
pub open spec fn tool_v(j: JsonV) -> Option<ToolSpecV> {
    match record_v(j, tool_names(), tool_names().len()) {
        Some(o) => tool_of(o),
        None => None,
    }
}

/// The council member with these fields.
pub open spec fn agent_of(j: JsonV) -> Option<CouncilAgentDefV> {
    match (
        text_at(j, "id"@),
        text_at(j, "persona"@),
        maybe_text_at(j, "backend"@),
        maybe_text_at(j, "model"@),
        maybe_text_at(j, "color"@),
    ) {
        (Some(id), Some(persona), Some(backend), Some(model), Some(color)) => Some(
            CouncilAgentDefV {
                id,
                persona,
                backend,
                model,
                color,
            },
        ),
        _ => None,
    }
}

/// The names of the fields of a council member.
pub open spec fn agent_names() -> Seq<Seq<char>> {
    seq!["id"@, "persona"@, "backend"@, "model"@, "color"@]
}

/// The council member that a record describes.
pub open spec fn agent_v(j: JsonV) -> Option<CouncilAgentDefV> {
    match record_v(j, agent_names(), agent_names().len()) {
        Some(o) => agent_of(o),
        None => None,
    }
}

/// The texts of the first `n` items, where all of them are texts.
pub open spec fn texts_v(a: Seq<JsonV>, n: int) -> Option<Seq<Seq<char>>>
    decreases n,
{
    if n <= 0 {
        Some(Seq::empty())
    } else {
        match (texts_v(a, n - 1), text_v(a[n - 1])) {
            (Some(t), Some(x)) => Some(t.push(x)),
            _ => None,
        }
    }
}

proof fn texts_v_fails(a: Seq<JsonV>, n: int, m: int)
    requires
        0 <= n <= m,
        texts_v(a, n) is None,
    ensures
        texts_v(a, m) is None,
    decreases m - n,
{
    if n < m {
        texts_v_fails(a, n + 1, m);
    }
}

/// The tools of the first `n` items, where all of them describe one.
pub open spec fn tools_v(a: Seq<JsonV>, n: int) -> Option<Seq<ToolSpecV>>
    decreases n,
{
    if n <= 0 {
        Some(Seq::empty())
    } else {
        match (tools_v(a, n - 1), tool_v(a[n - 1])) {
            (Some(t), Some(x)) => Some(t.push(x)),
            _ => None,
        }
    }
}

proof fn tools_v_fails(a: Seq<JsonV>, n: int, m: int)
    requires
        0 <= n <= m,
        tools_v(a, n) is None,
    ensures
        tools_v(a, m) is None,
    decreases m - n,
{
    if n < m {
        tools_v_fails(a, n + 1, m);
    }
}

/// The council members of the first `n` items, where all of them describe one.
pub open spec fn agents_v(a: Seq<JsonV>, n: int) -> Option<Seq<CouncilAgentDefV>>
    decreases n,
{
    if n <= 0 {
        Some(Seq::empty())
    } else {
        match (agents_v(a, n - 1), agent_v(a[n - 1])) {
            (Some(t), Some(x)) => Some(t.push(x)),
            _ => None,
        }
    }
}

proof fn agents_v_fails(a: Seq<JsonV>, n: int, m: int)
    requires
        0 <= n <= m,
        agents_v(a, n) is None,
    ensures
        agents_v(a, m) is None,
    decreases m - n,
{
    if n < m {
        agents_v_fails(a, n + 1, m);
    }
}

pub open spec fn texts_at(j: JsonV, k: Seq<char>) -> Option<Seq<Seq<char>>> {
    match field(j, k) {
        Some(JsonV::Arr(a)) => texts_v(a, a.len() as int),
        _ => None,
    }
}

pub open spec fn tools_at(j: JsonV, k: Seq<char>) -> Option<Seq<ToolSpecV>> {
    match field(j, k) {
        Some(JsonV::Arr(a)) => tools_v(a, a.len() as int),
        _ => None,
    }
}

pub open spec fn agents_at(j: JsonV, k: Seq<char>) -> Option<Seq<CouncilAgentDefV>> {
    match field(j, k) {
        Some(JsonV::Arr(a)) => agents_v(a, a.len() as int),
        _ => None,
    }
}

pub open spec fn call_at(j: JsonV, k: Seq<char>) -> Option<ToolCallV> {
    match field(j, k) {
        Some(x) => call_v(x),
        None => None,
    }
}

pub open spec fn output_at(j: JsonV, k: Seq<char>) -> Option<ToolOutputV> {
    match field(j, k) {
        Some(x) => output_v(x),
        None => None,
    }
}

pub open spec fn reading_at(j: JsonV, k: Seq<char>) -> Option<SensorReadingV> {
    match field(j, k) {
        Some(x) => reading_v(x),
        None => None,
    }
}

/// The reading of the type `t` with these fields.
pub open spec fn reading_of(t: Seq<char>, j: JsonV) -> Option<SensorReadingV> {
    if t == "temperature"@ {
        match (
            num_at(j, "celsius"@),
            text_at(j, "sensor_id"@),
        ) {
            (Some(celsius), Some(sensor_id)) => Some(
                SensorReadingV::Temperature {
                    celsius,
                    sensor_id,
                },
            ),
            _ => None,
        }
    } else if t == "humidity"@ {
        match (
            num_at(j, "percent"@),
            text_at(j, "sensor_id"@),
        ) {
            (Some(percent), Some(sensor_id)) => Some(
                SensorReadingV::Humidity {
                    percent,
                    sensor_id,
                },
            ),
            _ => None,
        }
    } else if t == "pressure"@ {
        match (
            num_at(j, "hpa"@),
            text_at(j, "sensor_id"@),
        ) {
            (Some(hpa), Some(sensor_id)) => Some(
                SensorReadingV::Pressure {
                    hpa,
                    sensor_id,
                },
            ),
            _ => None,
        }
    } else if t == "motion"@ {
        match (
            flag_at(j, "detected"@),
            text_at(j, "sensor_id"@),
        ) {
            (Some(detected), Some(sensor_id)) => Some(
                SensorReadingV::Motion {
                    detected,
                    sensor_id,
                },
            ),
            _ => None,
        }
    } else if t == "distance"@ {
        match (
            num_at(j, "cm"@),
            text_at(j, "sensor_id"@),
        ) {
            (Some(cm), Some(sensor_id)) => Some(
                SensorReadingV::Distance {
                    cm,
                    sensor_id,
                },
            ),
            _ => None,
        }
    } else if t == "gpio_level"@ {
        match (
            u8_at(j, "pin"@),
            flag_at(j, "high"@),
        ) {
            (Some(pin), Some(high)) => Some(
                SensorReadingV::GpioLevel {
                    pin,
                    high,
                },
            ),
            _ => None,
        }
    } else if t == "air_quality"@ {
        match (
            num_at(j, "iaq"@),
            num_at(j, "co2_eq_ppm"@),
            num_at(j, "voc_ppm"@),
            u8_at(j, "accuracy"@),
            num_at(j, "temperature_c"@),
            num_at(j, "humidity_pct"@),
            num_at(j, "pressure_hpa"@),
            text_at(j, "sensor_id"@),
        ) {
            (Some(iaq), Some(co2_eq_ppm), Some(voc_ppm), Some(accuracy), Some(temperature_c), Some(humidity_pct), Some(pressure_hpa), Some(sensor_id)) => Some(
                SensorReadingV::AirQuality {
                    iaq,
                    co2_eq_ppm,
                    voc_ppm,
                    accuracy,
                    temperature_c,
                    humidity_pct,
                    pressure_hpa,
                    sensor_id,
                },
            ),
            _ => None,
        }
    } else if t == "thermal_frame"@ {
        match (
            num_at(j, "min_c"@),
            num_at(j, "max_c"@),
            num_at(j, "mean_c"@),
            text_at(j, "sensor_id"@),
        ) {
            (Some(min_c), Some(max_c), Some(mean_c), Some(sensor_id)) => Some(
                SensorReadingV::ThermalFrame {
                    min_c,
                    max_c,
                    mean_c,
                    sensor_id,
                },
            ),
            _ => None,
        }
    } else {
        Some(SensorReadingV::Unknown)
    }
}

/// The names of the fields of a reading of the type `t`.
pub open spec fn reading_names(t: Seq<char>) -> Seq<Seq<char>> {
    if t == "temperature"@ {
        seq!["celsius"@, "sensor_id"@]
    } else if t == "humidity"@ {
        seq!["percent"@, "sensor_id"@]
    } else if t == "pressure"@ {
        seq!["hpa"@, "sensor_id"@]
    } else if t == "motion"@ {
        seq!["detected"@, "sensor_id"@]
    } else if t == "distance"@ {
        seq!["cm"@, "sensor_id"@]
    } else if t == "gpio_level"@ {
        seq!["pin"@, "high"@]
    } else if t == "air_quality"@ {
        seq!["iaq"@, "co2_eq_ppm"@, "voc_ppm"@, "accuracy"@, "temperature_c"@, "humidity_pct"@, "pressure_hpa"@, "sensor_id"@]
    } else if t == "thermal_frame"@ {
        seq!["min_c"@, "max_c"@, "mean_c"@, "sensor_id"@]
    } else {
        Seq::empty()
    }
}

/// The type of the reading with the number `n`; an empty one where none has it.
pub open spec fn reading_type(n: u64) -> Seq<char> {
    if n == 0 {
        "temperature"@
    } else if n == 1 {
        "humidity"@
    } else if n == 2 {
        "pressure"@
    } else if n == 3 {
        "motion"@
    } else if n == 4 {
        "distance"@
    } else if n == 5 {
        "gpio_level"@
    } else if n == 6 {
        "air_quality"@
    } else if n == 7 {
        "thermal_frame"@
    } else {
        ""@
    }
}

/// The type of a reading, by its name or by its number.
pub open spec fn kind_v(x: JsonV) -> Option<Seq<char>> {
    match x {
        JsonV::Str(s) => Some(s),
        _ => match uint_v(x) {
            Some(n) => Some(reading_type(n)),
            None => None,
        },
    }
}

/// The reading of the type `t` whose fields a list holds.
pub open spec fn listed_reading(t: Seq<char>, a: Seq<JsonV>) -> Option<SensorReadingV> {
    match record_v(JsonV::Arr(a), reading_names(t), reading_names(t).len()) {
        Some(o) => reading_of(t, o),
        None => None,
    }
}

/// The reading that a record describes.
pub open spec fn reading_v(j: JsonV) -> Option<SensorReadingV> {
    match j {
        JsonV::Arr(a) => if a.len() > 0 && kind_v(a[0]) is Some {
            listed_reading(kind_v(a[0])->0, a.skip(1))
        } else {
            None
        },
        _ => match field(j, "kind"@) {
            Some(x) => match kind_v(x) {
                Some(t) => reading_of(t, j),
                None => None,
            },
            None => None,
        },
    }
}

/// The event of the type `t` with these fields.
pub open spec fn event_of(t: Seq<char>, j: JsonV) -> Option<EventV> {
    if t == "session_init"@ {
        match (
            session_at(j, "session_id"@),
            maybe_items_at(j, "history"@),
        ) {
            (Some(session_id), Some(history)) => Some(
                EventV::SessionInit {
                    session_id,
                    history,
                },
            ),
            _ => None,
        }
    } else if t == "agent_text"@ {
        match (
            session_at(j, "session"@),
            text_at(j, "delta"@),
        ) {
            (Some(session), Some(delta)) => Some(
                EventV::AgentText {
                    session,
                    delta,
                },
            ),
            _ => None,
        }
    } else if t == "agent_thinking"@ {
        match (
            session_at(j, "session"@),
            text_at(j, "delta"@),
        ) {
            (Some(session), Some(delta)) => Some(
                EventV::AgentThinking {
                    session,
                    delta,
                },
            ),
            _ => None,
        }
    } else if t == "tool_requested"@ {
        match (
            session_at(j, "session"@),
            call_at(j, "call"@),
        ) {
            (Some(session), Some(call)) => Some(
                EventV::ToolRequested {
                    session,
                    call,
                },
            ),
            _ => None,
        }
    } else if t == "turn_complete"@ {
        match session_at(j, "session"@) {
            Some(session) => Some(EventV::TurnComplete { session }),
            None => None,
        }
    } else if t == "tool_result"@ {
        match (
            session_at(j, "session"@),
            action_at(j, "call"@),
            output_at(j, "output"@),
        ) {
            (Some(session), Some(call), Some(output)) => Some(
                EventV::ToolResult {
                    session,
                    call,
                    output,
                },
            ),
            _ => None,
        }
    } else if t == "plugin_up"@ {
        match (
            text_at(j, "plugin"@),
            tools_at(j, "tools"@),
        ) {
            (Some(plugin), Some(tools)) => Some(
                EventV::PluginUp {
                    plugin,
                    tools,
                },
            ),
            _ => None,
        }
    } else if t == "plugin_down"@ {
        match (
            text_at(j, "plugin"@),
            text_at(j, "reason"@),
        ) {
            (Some(plugin), Some(reason)) => Some(
                EventV::PluginDown {
                    plugin,
                    reason,
                },
            ),
            _ => None,
        }
    } else if t == "approval_pending"@ {
        match (
            session_at(j, "session"@),
            call_at(j, "call"@),
        ) {
            (Some(session), Some(call)) => Some(
                EventV::ApprovalPending {
                    session,
                    call,
                },
            ),
            _ => None,
        }
    } else if t == "sub_agent_started"@ {
        match (
            session_at(j, "parent"@),
            session_at(j, "child"@),
            text_at(j, "prompt"@),
        ) {
            (Some(parent), Some(child), Some(prompt)) => Some(
                EventV::SubAgentStarted {
                    parent,
                    child,
                    prompt,
                },
            ),
            _ => None,
        }
    } else if t == "sensor_reading"@ {
        match (
            text_at(j, "node_id"@),
            reading_at(j, "reading"@),
            uint_at(j, "timestamp"@),
        ) {
            (Some(node_id), Some(reading), Some(timestamp)) => Some(
                EventV::SensorReading {
                    node_id,
                    reading,
                    timestamp,
                },
            ),
            _ => None,
        }
    } else if t == "wake_triggered"@ {
        Some(EventV::WakeTriggered)
    } else if t == "agent_message"@ {
        match (
            session_at(j, "from"@),
            session_at(j, "to"@),
            text_at(j, "body"@),
            uint_at(j, "msg_id"@),
        ) {
            (Some(from), Some(to), Some(body), Some(msg_id)) => Some(
                EventV::AgentMessage {
                    from,
                    to,
                    body,
                    msg_id,
                },
            ),
            _ => None,
        }
    } else if t == "agent_message_ack"@ {
        match (
            uint_at(j, "msg_id"@),
            session_at(j, "from"@),
        ) {
            (Some(msg_id), Some(from)) => Some(
                EventV::AgentMessageAck {
                    msg_id,
                    from,
                },
            ),
            _ => None,
        }
    } else if t == "council_started"@ {
        match (
            text_at(j, "council_id"@),
            text_at(j, "topic"@),
            agents_at(j, "agents"@),
        ) {
            (Some(council_id), Some(topic), Some(agents)) => Some(
                EventV::CouncilStarted {
                    council_id,
                    topic,
                    agents,
                },
            ),
            _ => None,
        }
    } else if t == "council_round_start"@ {
        match (
            text_at(j, "council_id"@),
            u32_at(j, "round"@),
        ) {
            (Some(council_id), Some(round)) => Some(
                EventV::CouncilRoundStart {
                    council_id,
                    round,
                },
            ),
            _ => None,
        }
    } else if t == "council_agent_delta"@ {
        match (
            text_at(j, "council_id"@),
            u32_at(j, "round"@),
            text_at(j, "agent_id"@),
            text_at(j, "delta"@),
        ) {
            (Some(council_id), Some(round), Some(agent_id), Some(delta)) => Some(
                EventV::CouncilAgentDelta {
                    council_id,
                    round,
                    agent_id,
                    delta,
                },
            ),
            _ => None,
        }
    } else if t == "council_agent_done"@ {
        match (
            text_at(j, "council_id"@),
            u32_at(j, "round"@),
            text_at(j, "agent_id"@),
            text_at(j, "full_text"@),
        ) {
            (Some(council_id), Some(round), Some(agent_id), Some(full_text)) => Some(
                EventV::CouncilAgentDone {
                    council_id,
                    round,
                    agent_id,
                    full_text,
                },
            ),
            _ => None,
        }
    } else if t == "council_round_done"@ {
        match (
            text_at(j, "council_id"@),
            u32_at(j, "round"@),
            num_at(j, "convergence"@),
            texts_at(j, "agreements"@),
        ) {
            (Some(council_id), Some(round), Some(convergence), Some(agreements)) => Some(
                EventV::CouncilRoundDone {
                    council_id,
                    round,
                    convergence,
                    agreements,
                },
            ),
            _ => None,
        }
    } else if t == "council_complete"@ {
        match (
            text_at(j, "council_id"@),
            u32_at(j, "rounds"@),
            text_at(j, "reason"@),
            text_at(j, "synthesis"@),
        ) {
            (Some(council_id), Some(rounds), Some(reason), Some(synthesis)) => Some(
                EventV::CouncilComplete {
                    council_id,
                    rounds,
                    reason,
                    synthesis,
                },
            ),
            _ => None,
        }
    } else if t == "council_butt_in"@ {
        match (
            text_at(j, "council_id"@),
            text_at(j, "message"@),
        ) {
            (Some(council_id), Some(message)) => Some(
                EventV::CouncilButtIn {
                    council_id,
                    message,
                },
            ),
            _ => None,
        }
    } else if t == "error"@ {
        match (
            maybe_session_at(j, "session"@),
            text_at(j, "message"@),
        ) {
            (Some(session), Some(message)) => Some(
                EventV::Error {
                    session,
                    message,
                },
            ),
            _ => None,
        }
    } else {
        Some(EventV::Unknown)
    }
}

/// The names of the fields of an event of the type `t`.
pub open spec fn event_names(t: Seq<char>) -> Seq<Seq<char>> {
    if t == "session_init"@ {
        seq!["session_id"@, "history"@]
    } else if t == "agent_text"@ {
        seq!["session"@, "delta"@]
    } else if t == "agent_thinking"@ {
        seq!["session"@, "delta"@]
    } else if t == "tool_requested"@ {
        seq!["session"@, "call"@]
    } else if t == "turn_complete"@ {
        seq!["session"@]
    } else if t == "tool_result"@ {
        seq!["session"@, "call"@, "output"@]
    } else if t == "plugin_up"@ {
        seq!["plugin"@, "tools"@]
    } else if t == "plugin_down"@ {
        seq!["plugin"@, "reason"@]
    } else if t == "approval_pending"@ {
        seq!["session"@, "call"@]
    } else if t == "sub_agent_started"@ {
        seq!["parent"@, "child"@, "prompt"@]
    } else if t == "sensor_reading"@ {
        seq!["node_id"@, "reading"@, "timestamp"@]
    } else if t == "agent_message"@ {
        seq!["from"@, "to"@, "body"@, "msg_id"@]
    } else if t == "agent_message_ack"@ {
        seq!["msg_id"@, "from"@]
    } else if t == "council_started"@ {
        seq!["council_id"@, "topic"@, "agents"@]
    } else if t == "council_round_start"@ {
        seq!["council_id"@, "round"@]
    } else if t == "council_agent_delta"@ {
        seq!["council_id"@, "round"@, "agent_id"@, "delta"@]
    } else if t == "council_agent_done"@ {
        seq!["council_id"@, "round"@, "agent_id"@, "full_text"@]
    } else if t == "council_round_done"@ {
        seq!["council_id"@, "round"@, "convergence"@, "agreements"@]
    } else if t == "council_complete"@ {
        seq!["council_id"@, "rounds"@, "reason"@, "synthesis"@]
    } else if t == "council_butt_in"@ {
        seq!["council_id"@, "message"@]
    } else if t == "error"@ {
        seq!["session"@, "message"@]
    } else {
        Seq::empty()
    }
}

/// How many values a list holds of the fields of an event at least: what was said in a
/// session may be missing.
pub open spec fn event_least(t: Seq<char>) -> nat {
    if t == "session_init"@ {
        1
    } else {
        event_names(t).len()
    }
}

/// The event of the type `t` whose fields a list holds.
pub open spec fn listed_event(t: Seq<char>, a: Seq<JsonV>) -> Option<EventV> {
    match record_v(JsonV::Arr(a), event_names(t), event_least(t)) {
        Some(o) => event_of(t, o),
        None => None,
    }
}

/// The event that a record describes.
pub open spec fn event_v(j: JsonV) -> Option<EventV> {
    match j {
        JsonV::Arr(a) => if a.len() > 0 && text_v(a[0]) is Some {
            listed_event(text_v(a[0])->0, a.skip(1))
        } else {
            None
        },
        _ => match text_at(j, "type"@) {
            Some(t) => event_of(t, j),
            None => None,
        },
    }
}

// ── Reading ─────────────────────────────────────────────────────────────────

fn read_u32(j: &Json, key: &str) -> (r: Option<u32>)
    ensures
        r == u32_at(j@, key@),
{
    match j.u64_at(key) {
        Some(n) => if n <= u32::MAX as u64 {
            Some(n as u32)
        } else {
            None
        },
        None => None,
    }
}

fn read_u8(j: &Json, key: &str) -> (r: Option<u8>)
    ensures
        r == u8_at(j@, key@),
{
    match j.u64_at(key) {
        Some(n) => if n <= u8::MAX as u64 {
            Some(n as u8)
        } else {
            None
        },
        None => None,
    }
}

fn read_session(j: &Json, key: &str) -> (r: Option<SessionId>)
    ensures
        r == session_at(j@, key@),
{
    match j.u64_at(key) {
        Some(n) => Some(SessionId(n)),
        None => None,
    }
}

fn read_action(j: &Json, key: &str) -> (r: Option<ActionId>)
    ensures
        r == action_at(j@, key@),
{
    match j.u64_at(key) {
        Some(n) => Some(ActionId(n)),
        None => None,
    }
}

fn read_maybe_text(j: &Json, key: &str) -> (r: Option<Option<String>>)
    ensures
        r is Some <==> maybe_text_at(j@, key@) is Some,
        r is Some ==> maybe_text_at(j@, key@) == Some(opt_text(r->0)),
{
    match j.get(key) {
        None => Some(None),
        Some(Json::Null) => Some(None),
        Some(x) => match x.as_str() {
            Some(s) => Some(Some(copy(s))),
            None => None,
        },
    }
}

fn read_maybe_session(j: &Json, key: &str) -> (r: Option<Option<SessionId>>)
    ensures
        r == maybe_session_at(j@, key@),
{
    match j.get(key) {
        None => Some(None),
        Some(Json::Null) => Some(None),
        Some(x) => match x.as_u64() {
            Some(n) => Some(Some(SessionId(n))),
            None => None,
        },
    }
}

fn copy_items(arr: &Vec<Json>) -> (r: Vec<Json>)
    ensures
        views(r@) == views(arr@),
{
    let mut out: Vec<Json> = Vec::new();
    for i in 0..arr.len()
        invariant
            views(out@) == views(arr@).take(i as int),
    {
        out.push(arr[i].copy());
        assert(views(arr@).take(i as int).push(arr@[i as int]@) =~= views(arr@).take(
            i as int + 1,
        ));
    }
    assert(views(arr@).take(arr@.len() as int) =~= views(arr@));
    out
}

fn read_items(j: &Json, key: &str) -> (r: Option<Vec<Json>>)
    ensures
        r is Some <==> maybe_items_at(j@, key@) is Some,
        r is Some ==> maybe_items_at(j@, key@) == Some(views(r->0@)),
{
    match j.get(key) {
        None => Some(Vec::new()),
        Some(x) => match x.as_array() {
            Some(arr) => Some(copy_items(arr)),
            None => None,
        },
    }
}

fn call_fields(j: &Json) -> (r: Option<ToolCall>)
    ensures
        r is Some <==> call_of(j@) is Some,
        r is Some ==> call_of(j@) == Some(r->0@),
{
    match (
        read_action(j, "id"),
        j.str_at("tool"),
        j.get("args"),
        j.bool_at("needs_approval"),
    ) {
        (Some(id), Some(tool), Some(args), Some(needs_approval)) => Some(
            ToolCall {
                id,
                tool: copy(tool),
                args: args.copy(),
                needs_approval,
            },
        ),
        _ => None,
    }
}

fn decode_call(j: &Json) -> (r: Option<ToolCall>)
    ensures
        r is Some <==> call_v(j@) is Some,
        r is Some ==> call_v(j@) == Some(r->0@),
{
    let names = vec!["id", "tool", "args", "needs_approval"];
    assert(views(names@) =~= call_names());
    match j.record(&names, names.len()) {
        Some(o) => call_fields(&o),
        None => None,
    }
}

fn output_fields(j: &Json) -> (r: Option<ToolOutput>)
    ensures
        r is Some <==> output_of(j@) is Some,
        r is Some ==> output_of(j@) == Some(r->0@),
{
    match (
        j.bool_at("ok"),
        j.get("content"),
    ) {
        (Some(ok), Some(content)) => Some(
            ToolOutput {
                ok,
                content: content.copy(),
            },
        ),
        _ => None,
    }
}

fn decode_output(j: &Json) -> (r: Option<ToolOutput>)
    ensures
        r is Some <==> output_v(j@) is Some,
        r is Some ==> output_v(j@) == Some(r->0@),
{
    let names = vec!["ok", "content"];
    assert(views(names@) =~= output_names());
    match j.record(&names, names.len()) {
        Some(o) => output_fields(&o),
        None => None,
    }
}

fn tool_fields(j: &Json) -> (r: Option<ToolSpec>)
    ensures
        r is Some <==> tool_of(j@) is Some,
        r is Some ==> tool_of(j@) == Some(r->0@),
{
    match (
        j.str_at("name"),
        j.str_at("description"),
        j.get("input_schema"),
    ) {
        (Some(name), Some(description), Some(input_schema)) => Some(
            ToolSpec {
                name: copy(name),
                description: copy(description),
                input_schema: input_schema.copy(),
            },
        ),
        _ => None,
    }
}

fn decode_tool(j: &Json) -> (r: Option<ToolSpec>)
    ensures
        r is Some <==> tool_v(j@) is Some,
        r is Some ==> tool_v(j@) == Some(r->0@),
{
    let names = vec!["name", "description", "input_schema"];
    assert(views(names@) =~= tool_names());
    match j.record(&names, names.len()) {
        Some(o) => tool_fields(&o),
        None => None,
    }
}

fn agent_fields(j: &Json) -> (r: Option<CouncilAgentDef>)
    ensures
        r is Some <==> agent_of(j@) is Some,
        r is Some ==> agent_of(j@) == Some(r->0@),
{
    match (
        j.str_at("id"),
        j.str_at("persona"),
        read_maybe_text(j, "backend"),
        read_maybe_text(j, "model"),
        read_maybe_text(j, "color"),
    ) {
        (Some(id), Some(persona), Some(backend), Some(model), Some(color)) => Some(
            CouncilAgentDef {
                id: copy(id),
                persona: copy(persona),
                backend,
                model,
                color,
            },
        ),
        _ => None,
    }
}

fn decode_agent(j: &Json) -> (r: Option<CouncilAgentDef>)
    ensures
        r is Some <==> agent_v(j@) is Some,
        r is Some ==> agent_v(j@) == Some(r->0@),
{
    let names = vec!["id", "persona", "backend", "model", "color"];
    assert(views(names@) =~= agent_names());
    match j.record(&names, names.len()) {
        Some(o) => agent_fields(&o),
        None => None,
    }
}

fn read_texts(j: &Json, key: &str) -> (r: Option<Vec<String>>)
    ensures
        r is Some <==> texts_at(j@, key@) is Some,
        r is Some ==> texts_at(j@, key@) == Some(views(r->0@)),
{
    let arr = match j.get(key) {
        Some(x) => match x.as_array() {
            Some(arr) => arr,
            None => {
                return None;
            },
        },
        None => {
            return None;
        },
    };
    let ghost a = views(arr@);
    let mut out: Vec<String> = Vec::new();
    for i in 0..arr.len()
        invariant
            a == views(arr@),
            field(j@, key@) == Some(JsonV::Arr(a)),
            texts_v(a, i as int) == Some(views(out@)),
    {
        assert(a[i as int] == arr@[i as int]@);
        match arr[i].as_str() {
            Some(x) => {
                out.push(copy(x));
            },
            None => {
                proof {
                    texts_v_fails(a, i as int + 1, a.len() as int);
                }
                return None;
            },
        }
    }
    assert(a.len() == arr@.len());
    Some(out)
}

fn read_tools(j: &Json, key: &str) -> (r: Option<Vec<ToolSpec>>)
    ensures
        r is Some <==> tools_at(j@, key@) is Some,
        r is Some ==> tools_at(j@, key@) == Some(views(r->0@)),
{
    let arr = match j.get(key) {
        Some(x) => match x.as_array() {
            Some(arr) => arr,
            None => {
                return None;
            },
        },
        None => {
            return None;
        },
    };
    let ghost a = views(arr@);
    let mut out: Vec<ToolSpec> = Vec::new();
    for i in 0..arr.len()
        invariant
            a == views(arr@),
            field(j@, key@) == Some(JsonV::Arr(a)),
            tools_v(a, i as int) == Some(views(out@)),
    {
        assert(a[i as int] == arr@[i as int]@);
        match decode_tool(&arr[i]) {
            Some(x) => {
                out.push(x);
            },
            None => {
                proof {
                    tools_v_fails(a, i as int + 1, a.len() as int);
                }
                return None;
            },
        }
    }
    assert(a.len() == arr@.len());
    Some(out)
}

fn read_agents(j: &Json, key: &str) -> (r: Option<Vec<CouncilAgentDef>>)
    ensures
        r is Some <==> agents_at(j@, key@) is Some,
        r is Some ==> agents_at(j@, key@) == Some(views(r->0@)),
{
    let arr = match j.get(key) {
        Some(x) => match x.as_array() {
            Some(arr) => arr,
            None => {
                return None;
            },
        },
        None => {
            return None;
        },
    };
    let ghost a = views(arr@);
    let mut out: Vec<CouncilAgentDef> = Vec::new();
    for i in 0..arr.len()
        invariant
            a == views(arr@),
            field(j@, key@) == Some(JsonV::Arr(a)),
            agents_v(a, i as int) == Some(views(out@)),
    {
        assert(a[i as int] == arr@[i as int]@);
        match decode_agent(&arr[i]) {
            Some(x) => {
                out.push(x);
            },
            None => {
                proof {
                    agents_v_fails(a, i as int + 1, a.len() as int);
                }
                return None;
            },
        }
    }
    assert(a.len() == arr@.len());
    Some(out)
}

fn names_1(a: &'static str) -> (r: Vec<&'static str>)
    ensures
        views(r@) == seq![a@],
{
    let v = vec![a];
    assert(views(v@) =~= seq![a@]);
    v
}

fn names_2(a: &'static str, b: &'static str) -> (r: Vec<&'static str>)
    ensures
        views(r@) == seq![a@, b@],
{
    let v = vec![a, b];
    assert(views(v@) =~= seq![a@, b@]);
    v
}

fn names_3(a: &'static str, b: &'static str, c: &'static str) -> (r: Vec<&'static str>)
    ensures
        views(r@) == seq![a@, b@, c@],
{
    let v = vec![a, b, c];
    assert(views(v@) =~= seq![a@, b@, c@]);
    v
}

fn names_4(
    a: &'static str,
    b: &'static str,
    c: &'static str,
    d: &'static str,
) -> (r: Vec<&'static str>)
    ensures
        views(r@) == seq![a@, b@, c@, d@],
{
    let v = vec![a, b, c, d];
    assert(views(v@) =~= seq![a@, b@, c@, d@]);
    v
}

fn names_8(
    a: &'static str,
    b: &'static str,
    c: &'static str,
    d: &'static str,
    e: &'static str,
    f: &'static str,
    g: &'static str,
    h: &'static str,
) -> (r: Vec<&'static str>)
    ensures
        views(r@) == seq![a@, b@, c@, d@, e@, f@, g@, h@],
{
    let v = vec![a, b, c, d, e, f, g, h];
    assert(views(v@) =~= seq![a@, b@, c@, d@, e@, f@, g@, h@]);
    v
}

/// Reads the fields of a reading of the type `t`.
fn reading_fields(t: &str, j: &Json) -> (r: Option<SensorReading>)
    ensures
        r is Some <==> reading_of(t@, j@) is Some,
        r is Some ==> reading_of(t@, j@) == Some(r->0@),
{
    if same(t, "temperature") {
        match (
            j.num_at("celsius"),
            j.str_at("sensor_id"),
        ) {
            (Some(celsius), Some(sensor_id)) => Some(
                SensorReading::Temperature {
                    celsius: celsius.copy(),
                    sensor_id: copy(sensor_id),
                },
            ),
            _ => None,
        }
    } else if same(t, "humidity") {
        match (
            j.num_at("percent"),
            j.str_at("sensor_id"),
        ) {
            (Some(percent), Some(sensor_id)) => Some(
                SensorReading::Humidity {
                    percent: percent.copy(),
                    sensor_id: copy(sensor_id),
                },
            ),
            _ => None,
        }
    } else if same(t, "pressure") {
        match (
            j.num_at("hpa"),
            j.str_at("sensor_id"),
        ) {
            (Some(hpa), Some(sensor_id)) => Some(
                SensorReading::Pressure {
                    hpa: hpa.copy(),
                    sensor_id: copy(sensor_id),
                },
            ),
            _ => None,
        }
    } else if same(t, "motion") {
        match (
            j.bool_at("detected"),
            j.str_at("sensor_id"),
        ) {
            (Some(detected), Some(sensor_id)) => Some(
                SensorReading::Motion {
                    detected,
                    sensor_id: copy(sensor_id),
                },
            ),
            _ => None,
        }
    } else if same(t, "distance") {
        match (
            j.num_at("cm"),
            j.str_at("sensor_id"),
        ) {
            (Some(cm), Some(sensor_id)) => Some(
                SensorReading::Distance {
                    cm: cm.copy(),
                    sensor_id: copy(sensor_id),
                },
            ),
            _ => None,
        }
    } else if same(t, "gpio_level") {
        match (
            read_u8(j, "pin"),
            j.bool_at("high"),
        ) {
            (Some(pin), Some(high)) => Some(
                SensorReading::GpioLevel {
                    pin,
                    high,
                },
            ),
            _ => None,
        }
    } else if same(t, "air_quality") {
        match (
            j.num_at("iaq"),
            j.num_at("co2_eq_ppm"),
            j.num_at("voc_ppm"),
            read_u8(j, "accuracy"),
            j.num_at("temperature_c"),
            j.num_at("humidity_pct"),
            j.num_at("pressure_hpa"),
            j.str_at("sensor_id"),
        ) {
            (Some(iaq), Some(co2_eq_ppm), Some(voc_ppm), Some(accuracy), Some(temperature_c), Some(humidity_pct), Some(pressure_hpa), Some(sensor_id)) => Some(
                SensorReading::AirQuality {
                    iaq: iaq.copy(),
                    co2_eq_ppm: co2_eq_ppm.copy(),
                    voc_ppm: voc_ppm.copy(),
                    accuracy,
                    temperature_c: temperature_c.copy(),
                    humidity_pct: humidity_pct.copy(),
                    pressure_hpa: pressure_hpa.copy(),
                    sensor_id: copy(sensor_id),
                },
            ),
            _ => None,
        }
    } else if same(t, "thermal_frame") {
        match (
            j.num_at("min_c"),
            j.num_at("max_c"),
            j.num_at("mean_c"),
            j.str_at("sensor_id"),
        ) {
            (Some(min_c), Some(max_c), Some(mean_c), Some(sensor_id)) => Some(
                SensorReading::ThermalFrame {
                    min_c: min_c.copy(),
                    max_c: max_c.copy(),
                    mean_c: mean_c.copy(),
                    sensor_id: copy(sensor_id),
                },
            ),
            _ => None,
        }
    } else {
        Some(SensorReading::Unknown)
    }
}

/// The names of the fields of a reading of the type `t`.
fn reading_list(t: &str) -> (r: Vec<&'static str>)
    ensures
        views(r@) == reading_names(t@),
{
    if same(t, "temperature") {
        names_2("celsius", "sensor_id")
    } else if same(t, "humidity") {
        names_2("percent", "sensor_id")
    } else if same(t, "pressure") {
        names_2("hpa", "sensor_id")
    } else if same(t, "motion") {
        names_2("detected", "sensor_id")
    } else if same(t, "distance") {
        names_2("cm", "sensor_id")
    } else if same(t, "gpio_level") {
        names_2("pin", "high")
    } else if same(t, "air_quality") {
        names_8("iaq", "co2_eq_ppm", "voc_ppm", "accuracy", "temperature_c", "humidity_pct", "pressure_hpa", "sensor_id")
    } else if same(t, "thermal_frame") {
        names_4("min_c", "max_c", "mean_c", "sensor_id")
    } else {
        Vec::new()
    }
}

/// The type of the reading with the number `n`.
fn numbered_type(n: u64) -> (r: &'static str)
    ensures
        r@ == reading_type(n),
{
    if n == 0 {
        "temperature"
    } else if n == 1 {
        "humidity"
    } else if n == 2 {
        "pressure"
    } else if n == 3 {
        "motion"
    } else if n == 4 {
        "distance"
    } else if n == 5 {
        "gpio_level"
    } else if n == 6 {
        "air_quality"
    } else if n == 7 {
        "thermal_frame"
    } else {
        ""
    }
}

fn kind_of(x: &Json) -> (r: Option<&str>)
    ensures
        r is Some <==> kind_v(x@) is Some,
        r is Some ==> kind_v(x@) == Some(r->0@),
{
    match x.as_str() {
        Some(s) => Some(s),
        None => match x.as_u64() {
            Some(n) => Some(numbered_type(n)),
            None => None,
        },
    }
}

/// Reads a sensor's reading.
fn decode_reading(j: &Json) -> (r: Option<SensorReading>)
    ensures
        r is Some <==> reading_v(j@) is Some,
        r is Some ==> reading_v(j@) == Some(r->0@),
{
    match j.as_array() {
        Some(arr) => {
            if arr.len() == 0 {
                return None;
            }
            assert(views(arr@)[0] == arr@[0]@);
            match kind_of(&arr[0]) {
                Some(t) => {
                    let names = reading_list(t);
                    match record_from(arr, 1, &names, names.len()) {
                        Some(o) => reading_fields(t, &o),
                        None => None,
                    }
                },
                None => None,
            }
        },
        None => match j.get("kind") {
            Some(x) => match kind_of(x) {
                Some(t) => reading_fields(t, j),
                None => None,
            },
            None => None,
        },
    }
}

fn read_call(j: &Json, key: &str) -> (r: Option<ToolCall>)
    ensures
        r is Some <==> call_at(j@, key@) is Some,
        r is Some ==> call_at(j@, key@) == Some(r->0@),
{
    match j.get(key) {
        Some(x) => decode_call(x),
        None => None,
    }
}

fn read_output(j: &Json, key: &str) -> (r: Option<ToolOutput>)
    ensures
        r is Some <==> output_at(j@, key@) is Some,
        r is Some ==> output_at(j@, key@) == Some(r->0@),
{
    match j.get(key) {
        Some(x) => decode_output(x),
        None => None,
    }
}

fn read_reading(j: &Json, key: &str) -> (r: Option<SensorReading>)
    ensures
        r is Some <==> reading_at(j@, key@) is Some,
        r is Some ==> reading_at(j@, key@) == Some(r->0@),
{
    match j.get(key) {
        Some(x) => decode_reading(x),
        None => None,
    }
}

/// Reads the fields of an event of the type `t`.
fn event_fields(t: &str, j: &Json) -> (r: Option<Event>)
    ensures
        r is Some <==> event_of(t@, j@) is Some,
        r is Some ==> event_of(t@, j@) == Some(r->0@),
{
    if same(t, "session_init") {
        match (
            read_session(j, "session_id"),
            read_items(j, "history"),
        ) {
            (Some(session_id), Some(history)) => Some(
                Event::SessionInit {
                    session_id,
                    history,
                },
            ),
            _ => None,
        }
    } else if same(t, "agent_text") {
        match (
            read_session(j, "session"),
            j.str_at("delta"),
        ) {
            (Some(session), Some(delta)) => Some(
                Event::AgentText {
                    session,
                    delta: copy(delta),
                },
            ),
            _ => None,
        }
    } else if same(t, "agent_thinking") {
        match (
            read_session(j, "session"),
            j.str_at("delta"),
        ) {
            (Some(session), Some(delta)) => Some(
                Event::AgentThinking {
                    session,
                    delta: copy(delta),
                },
            ),
            _ => None,
        }
    } else if same(t, "tool_requested") {
        match (
            read_session(j, "session"),
            read_call(j, "call"),
        ) {
            (Some(session), Some(call)) => Some(
                Event::ToolRequested {
                    session,
                    call,
                },
            ),
            _ => None,
        }
    } else if same(t, "turn_complete") {
        match read_session(j, "session") {
            Some(session) => Some(Event::TurnComplete { session }),
            None => None,
        }
    } else if same(t, "tool_result") {
        match (
            read_session(j, "session"),
            read_action(j, "call"),
            read_output(j, "output"),
        ) {
            (Some(session), Some(call), Some(output)) => Some(
                Event::ToolResult {
                    session,
                    call,
                    output,
                },
            ),
            _ => None,
        }
    } else if same(t, "plugin_up") {
        match (
            j.str_at("plugin"),
            read_tools(j, "tools"),
        ) {
            (Some(plugin), Some(tools)) => Some(
                Event::PluginUp {
                    plugin: PluginId(copy(plugin)),
                    tools,
                },
            ),
            _ => None,
        }
    } else if same(t, "plugin_down") {
        match (
            j.str_at("plugin"),
            j.str_at("reason"),
        ) {
            (Some(plugin), Some(reason)) => Some(
                Event::PluginDown {
                    plugin: PluginId(copy(plugin)),
                    reason: copy(reason),
                },
            ),
            _ => None,
        }
    } else if same(t, "approval_pending") {
        match (
            read_session(j, "session"),
            read_call(j, "call"),
        ) {
            (Some(session), Some(call)) => Some(
                Event::ApprovalPending {
                    session,
                    call,
                },
            ),
            _ => None,
        }
    } else if same(t, "sub_agent_started") {
        match (
            read_session(j, "parent"),
            read_session(j, "child"),
            j.str_at("prompt"),
        ) {
            (Some(parent), Some(child), Some(prompt)) => Some(
                Event::SubAgentStarted {
                    parent,
                    child,
                    prompt: copy(prompt),
                },
            ),
            _ => None,
        }
    } else if same(t, "sensor_reading") {
        match (
            j.str_at("node_id"),
            read_reading(j, "reading"),
            j.u64_at("timestamp"),
        ) {
            (Some(node_id), Some(reading), Some(timestamp)) => Some(
                Event::SensorReading {
                    node_id: copy(node_id),
                    reading,
                    timestamp,
                },
            ),
            _ => None,
        }
    } else if same(t, "wake_triggered") {
        Some(Event::WakeTriggered)
    } else if same(t, "agent_message") {
        match (
            read_session(j, "from"),
            read_session(j, "to"),
            j.str_at("body"),
            j.u64_at("msg_id"),
        ) {
            (Some(from), Some(to), Some(body), Some(msg_id)) => Some(
                Event::AgentMessage {
                    from,
                    to,
                    body: copy(body),
                    msg_id,
                },
            ),
            _ => None,
        }
    } else if same(t, "agent_message_ack") {
        match (
            j.u64_at("msg_id"),
            read_session(j, "from"),
        ) {
            (Some(msg_id), Some(from)) => Some(
                Event::AgentMessageAck {
                    msg_id,
                    from,
                },
            ),
            _ => None,
        }
    } else if same(t, "council_started") {
        match (
            j.str_at("council_id"),
            j.str_at("topic"),
            read_agents(j, "agents"),
        ) {
            (Some(council_id), Some(topic), Some(agents)) => Some(
                Event::CouncilStarted {
                    council_id: copy(council_id),
                    topic: copy(topic),
                    agents,
                },
            ),
            _ => None,
        }
    } else if same(t, "council_round_start") {
        match (
            j.str_at("council_id"),
            read_u32(j, "round"),
        ) {
            (Some(council_id), Some(round)) => Some(
                Event::CouncilRoundStart {
                    council_id: copy(council_id),
                    round,
                },
            ),
            _ => None,
        }
    } else if same(t, "council_agent_delta") {
        match (
            j.str_at("council_id"),
            read_u32(j, "round"),
            j.str_at("agent_id"),
            j.str_at("delta"),
        ) {
            (Some(council_id), Some(round), Some(agent_id), Some(delta)) => Some(
                Event::CouncilAgentDelta {
                    council_id: copy(council_id),
                    round,
                    agent_id: copy(agent_id),
                    delta: copy(delta),
                },
            ),
            _ => None,
        }
    } else if same(t, "council_agent_done") {
        match (
            j.str_at("council_id"),
            read_u32(j, "round"),
            j.str_at("agent_id"),
            j.str_at("full_text"),
        ) {
            (Some(council_id), Some(round), Some(agent_id), Some(full_text)) => Some(
                Event::CouncilAgentDone {
                    council_id: copy(council_id),
                    round,
                    agent_id: copy(agent_id),
                    full_text: copy(full_text),
                },
            ),
            _ => None,
        }
    } else if same(t, "council_round_done") {
        match (
            j.str_at("council_id"),
            read_u32(j, "round"),
            j.num_at("convergence"),
            read_texts(j, "agreements"),
        ) {
            (Some(council_id), Some(round), Some(convergence), Some(agreements)) => Some(
                Event::CouncilRoundDone {
                    council_id: copy(council_id),
                    round,
                    convergence: convergence.copy(),
                    agreements,
                },
            ),
            _ => None,
        }
    } else if same(t, "council_complete") {
        match (
            j.str_at("council_id"),
            read_u32(j, "rounds"),
            j.str_at("reason"),
            j.str_at("synthesis"),
        ) {
            (Some(council_id), Some(rounds), Some(reason), Some(synthesis)) => Some(
                Event::CouncilComplete {
                    council_id: copy(council_id),
                    rounds,
                    reason: copy(reason),
                    synthesis: copy(synthesis),
                },
            ),
            _ => None,
        }
    } else if same(t, "council_butt_in") {
        match (
            j.str_at("council_id"),
            j.str_at("message"),
        ) {
            (Some(council_id), Some(message)) => Some(
                Event::CouncilButtIn {
                    council_id: copy(council_id),
                    message: copy(message),
                },
            ),
            _ => None,
        }
    } else if same(t, "error") {
        match (
            read_maybe_session(j, "session"),
            j.str_at("message"),
        ) {
            (Some(session), Some(message)) => Some(
                Event::Error {
                    session,
                    message: copy(message),
                },
            ),
            _ => None,
        }
    } else {
        Some(Event::Unknown)
    }
}

/// The names of the fields of an event of the type `t`.
fn event_list(t: &str) -> (r: Vec<&'static str>)
    ensures
        views(r@) == event_names(t@),
{
    if same(t, "session_init") {
        names_2("session_id", "history")
    } else if same(t, "agent_text") {
        names_2("session", "delta")
    } else if same(t, "agent_thinking") {
        names_2("session", "delta")
    } else if same(t, "tool_requested") {
        names_2("session", "call")
    } else if same(t, "turn_complete") {
        names_1("session")
    } else if same(t, "tool_result") {
        names_3("session", "call", "output")
    } else if same(t, "plugin_up") {
        names_2("plugin", "tools")
    } else if same(t, "plugin_down") {
        names_2("plugin", "reason")
    } else if same(t, "approval_pending") {
        names_2("session", "call")
    } else if same(t, "sub_agent_started") {
        names_3("parent", "child", "prompt")
    } else if same(t, "sensor_reading") {
        names_3("node_id", "reading", "timestamp")
    } else if same(t, "agent_message") {
        names_4("from", "to", "body", "msg_id")
    } else if same(t, "agent_message_ack") {
        names_2("msg_id", "from")
    } else if same(t, "council_started") {
        names_3("council_id", "topic", "agents")
    } else if same(t, "council_round_start") {
        names_2("council_id", "round")
    } else if same(t, "council_agent_delta") {
        names_4("council_id", "round", "agent_id", "delta")
    } else if same(t, "council_agent_done") {
        names_4("council_id", "round", "agent_id", "full_text")
    } else if same(t, "council_round_done") {
        names_4("council_id", "round", "convergence", "agreements")
    } else if same(t, "council_complete") {
        names_4("council_id", "rounds", "reason", "synthesis")
    } else if same(t, "council_butt_in") {
        names_2("council_id", "message")
    } else if same(t, "error") {
        names_2("session", "message")
    } else {
        Vec::new()
    }
}

/// Reads an event from a JSON value.
pub fn decode_event(j: &Json) -> (r: Option<Event>)
    ensures
        r is Some <==> event_v(j@) is Some,
        r is Some ==> event_v(j@) == Some(r->0@),
{
    match j.as_array() {
        Some(arr) => {
            if arr.len() == 0 {
                return None;
            }
            assert(views(arr@)[0] == arr@[0]@);
            match arr[0].as_str() {
                Some(t) => {
                    let names = event_list(t);
                    let least: usize = if same(t, "session_init") {
                        1
                    } else {
                        names.len()
                    };
                    match record_from(arr, 1, &names, least) {
                        Some(o) => event_fields(t, &o),
                        None => None,
                    }
                },
                None => None,
            }
        },
        None => match j.str_at("type") {
            Some(t) => event_fields(t, j),
            None => None,
        },
    }
}

// ── Repeated names ──────────────────────────────────────────────────────────

/// Whether a part of a record repeats none of these names.
pub open spec fn part_clear(o: JsonV, k: Seq<char>, names: Seq<Seq<char>>) -> bool {
    match field(o, k) {
        Some(x) => clear_of(x, names),
        None => true,
    }
}

/// Whether no item of a part of a record repeats one of these names.
pub open spec fn items_clear(o: JsonV, k: Seq<char>, names: Seq<Seq<char>>) -> bool {
    match field(o, k) {
        Some(JsonV::Arr(a)) => forall|i: int| 0 <= i < a.len() ==> clear_of(#[trigger] a[i], names),
        _ => true,
    }
}

/// Whether a reading repeats none of the names that count in one of its kind.
pub open spec fn reading_clear(x: JsonV) -> bool {
    match field(x, "kind"@) {
        Some(k) => match kind_v(k) {
            Some(t) => clear_of(x, reading_names(t).push("kind"@)),
            None => true,
        },
        None => true,
    }
}

/// Whether what an event of the type `t` holds repeats no name that counts.
pub open spec fn parts_clear(t: Seq<char>, o: JsonV) -> bool {
    if t == "tool_requested"@ || t == "approval_pending"@ {
        part_clear(o, "call"@, call_names())
    } else if t == "tool_result"@ {
        part_clear(o, "output"@, output_names())
    } else if t == "plugin_up"@ {
        items_clear(o, "tools"@, tool_names())
    } else if t == "council_started"@ {
        items_clear(o, "agents"@, agent_names())
    } else if t == "sensor_reading"@ {
        match field(o, "reading"@) {
            Some(x) => reading_clear(x),
            None => true,
        }
    } else {
        true
    }
}

/// Whether an event repeats no name that counts: neither its type, nor a field that it
/// has, nor one of what it holds. Other names may be there as often as they like, and so
/// may those in values that are kept as they are.
pub open spec fn event_clear(d: JsonV) -> bool {
    match d {
        JsonV::Arr(a) => if a.len() > 0 && text_v(a[0]) is Some {
            let t = text_v(a[0])->0;
            match record_v(JsonV::Arr(a.skip(1)), event_names(t), event_least(t)) {
                Some(o) => parts_clear(t, o),
                None => true,
            }
        } else {
            true
        },
        _ => match text_at(d, "type"@) {
            Some(t) => clear_of(d, event_names(t).push("type"@)) && parts_clear(t, d),
            None => true,
        },
    }
}

fn is_part_clear(o: &Json, k: &str, names: &Vec<&str>) -> (r: bool)
    ensures
        r == part_clear(o@, k@, views(names@)),
{
    match o.get(k) {
        Some(x) => clear(x, names),
        None => true,
    }
}

fn are_items_clear(o: &Json, k: &str, names: &Vec<&str>) -> (r: bool)
    ensures
        r == items_clear(o@, k@, views(names@)),
{
    let arr = match o.get(k) {
        Some(x) => match x.as_array() {
            Some(arr) => arr,
            None => {
                return true;
            },
        },
        None => {
            return true;
        },
    };
    let ghost a = views(arr@);
    for i in 0..arr.len()
        invariant
            a == views(arr@),
            field(o@, k@) == Some(JsonV::Arr(a)),
            forall|j: int| 0 <= j < i ==> clear_of(#[trigger] a[j], views(names@)),
    {
        assert(a[i as int] == arr@[i as int]@);
        if !clear(&arr[i], names) {
            assert(!clear_of(field(o@, k@)->0->Arr_0[i as int], views(names@)));
            return false;
        }
    }
    assert(a.len() == arr@.len());
    true
}

fn is_reading_clear(x: &Json) -> (r: bool)
    ensures
        r == reading_clear(x@),
{
    match x.get("kind") {
        Some(k) => match kind_of(k) {
            Some(t) => {
                let mut names = reading_list(t);
                names.push("kind");
                clear(x, &names)
            },
            None => true,
        },
        None => true,
    }
}

fn are_parts_clear(t: &str, o: &Json) -> (r: bool)
    ensures
        r == parts_clear(t@, o@),
{
    if same(t, "tool_requested") || same(t, "approval_pending") {
        is_part_clear(o, "call", &names_4("id", "tool", "args", "needs_approval"))
    } else if same(t, "tool_result") {
        is_part_clear(o, "output", &names_2("ok", "content"))
    } else if same(t, "plugin_up") {
        are_items_clear(o, "tools", &names_3("name", "description", "input_schema"))
    } else if same(t, "council_started") {
        let names = vec!["id", "persona", "backend", "model", "color"];
        assert(views(names@) =~= agent_names());
        are_items_clear(o, "agents", &names)
    } else if same(t, "sensor_reading") {
        match o.get("reading") {
            Some(x) => is_reading_clear(x),
            None => true,
        }
    } else {
        true
    }
}

fn is_event_clear(d: &Json) -> (r: bool)
    ensures
        r == event_clear(d@),
{
    match d.as_array() {
        Some(arr) => {
            if arr.len() == 0 {
                return true;
            }
            assert(views(arr@)[0] == arr@[0]@);
            match arr[0].as_str() {
                Some(t) => {
                    let names = event_list(t);
                    let least: usize = if same(t, "session_init") {
                        1
                    } else {
                        names.len()
                    };
                    match record_from(arr, 1, &names, least) {
                        Some(o) => are_parts_clear(t, &o),
                        None => true,
                    }
                },
                None => true,
            }
        },
        None => match d.str_at("type") {
            Some(t) => {
                let mut names = event_list(t);
                names.push("type");
                clear(d, &names) && are_parts_clear(t, d)
            },
            None => true,
        },
    }
}

/// The event that a frame's text describes. One that repeats a name that counts is none.
pub open spec fn frame_event(text: Seq<char>) -> Option<EventV> {
    match (parsed(text), spelled(text)) {
        (Some(j), Some(d)) => if event_clear(d) {
            event_v(j)
        } else {
            None
        },
        _ => None,
    }
}

/// Reads an event from a frame's text.
pub fn read_frame(text: &str) -> (r: Option<Event>)
    ensures
        r is Some <==> frame_event(text@) is Some,
        r is Some ==> frame_event(text@) == Some(r->0@),
{
    match (parse_json(text), spell(text)) {
        (Some(j), Some(d)) => if is_event_clear(&d) {
            decode_event(&j)
        } else {
            None
        },
        _ => None,
    }
}

/// The session that an event is about, where it is about one.
pub open spec fn session_of(e: EventV) -> Option<SessionId> {
    match e {
        EventV::SessionInit { session_id, .. } => Some(session_id),
        EventV::AgentText { session, .. } => Some(session),
        EventV::AgentThinking { session, .. } => Some(session),
        EventV::ToolRequested { session, .. } => Some(session),
        EventV::TurnComplete { session } => Some(session),
        EventV::ToolResult { session, .. } => Some(session),
        EventV::ApprovalPending { session, .. } => Some(session),
        EventV::SubAgentStarted { parent, .. } => Some(parent),
        EventV::AgentMessage { to, .. } => Some(to),
        EventV::AgentMessageAck { from, .. } => Some(from),
        EventV::Error { session, .. } => session,
        _ => None,
    }
}

impl Event {
    /// The session that the event is about, where it is about one.
    pub fn session(&self) -> (r: Option<SessionId>)
        ensures
            r == session_of(self@),
    {
        match self {
            Event::SessionInit { session_id, .. } => Some(*session_id),
            Event::AgentText { session, .. } => Some(*session),
            Event::AgentThinking { session, .. } => Some(*session),
            Event::ToolRequested { session, .. } => Some(*session),
            Event::TurnComplete { session } => Some(*session),
            Event::ToolResult { session, .. } => Some(*session),
            Event::ApprovalPending { session, .. } => Some(*session),
            Event::SubAgentStarted { parent, .. } => Some(*parent),
            Event::AgentMessage { to, .. } => Some(*to),
            Event::AgentMessageAck { from, .. } => Some(*from),
            Event::Error { session, .. } => *session,
            _ => None,
        }
    }
}

} // verus!
