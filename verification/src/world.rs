//! The world's heads-up display: which station is active, and what is said there.
use vstd::prelude::*;
use crate::events::{Event, EventV};
use crate::ids::ActionId;
use crate::intents::{user_approval, user_prompt, Intent, IntentV};
use crate::stations::{desc, desc_v, kind_name, station_place, Station, StationRegistry};
use crate::text::{cat, copy, same, views};

verus! {

broadcast use {crate::text::views_push, crate::text::views_empty};

/// What the socket tells the display.
#[derive(Debug)]
pub enum WorldEvent {
    /// How the connection stands: "connected", "reconnecting" or "offline".
    Connection(String),
    /// The gateway named the session.
    SessionInit { session: u64 },
    /// The agent says more.
    AgentTextDelta { session: u64, delta: String },
    /// The agent is done.
    TurnComplete { session: u64 },
}

/// The model of a [`WorldEvent`].
pub enum WorldEventV {
    Connection(Seq<char>),
    SessionInit { session: u64 },
    AgentTextDelta { session: u64, delta: Seq<char> },
    TurnComplete { session: u64 },
}

impl View for WorldEvent {
    type V = WorldEventV;

    open spec fn view(&self) -> WorldEventV {
        match self {
            WorldEvent::Connection(s) => WorldEventV::Connection(s@),
            WorldEvent::SessionInit { session } => WorldEventV::SessionInit { session: *session },
            WorldEvent::AgentTextDelta { session, delta } => WorldEventV::AgentTextDelta {
                session: *session,
                delta: delta@,
            },
            WorldEvent::TurnComplete { session } => WorldEventV::TurnComplete { session: *session },
        }
    }
}

/// What the display is told of an event of the gateway.
pub open spec fn told_v(e: EventV) -> Option<WorldEventV> {
    match e {
        EventV::SessionInit { session_id, .. } => Some(
            WorldEventV::SessionInit { session: session_id.0 },
        ),
        EventV::AgentText { session, delta } => Some(
            WorldEventV::AgentTextDelta { session: session.0, delta },
        ),
        EventV::TurnComplete { session } => Some(WorldEventV::TurnComplete { session: session.0 }),
        _ => None,
    }
}

impl WorldEvent {
    /// What the display is told of an event of the gateway.
    pub fn of(e: Event) -> (r: Option<WorldEvent>)
        ensures
            r is Some <==> told_v(e@) is Some,
            r is Some ==> told_v(e@) == Some(r->0@),
    {
        match e {
            Event::SessionInit { session_id, .. } => Some(
                WorldEvent::SessionInit { session: session_id.0 },
            ),
            Event::AgentText { session, delta } => Some(
                WorldEvent::AgentTextDelta { session: session.0, delta },
            ),
            Event::TurnComplete { session } => Some(
                WorldEvent::TurnComplete { session: session.0 },
            ),
            _ => None,
        }
    }
}

/// What the display asks of the socket.
#[derive(Debug)]
pub enum WorldCommand {
    /// Say something at a station.
    Prompt { station_id: i32, text: String },
    /// Approve or reject a tool call.
    Approval { station_id: i32, action: u64, granted: bool },
}

/// The model of a [`WorldCommand`].
pub enum WorldCommandV {
    Prompt { station_id: i32, text: Seq<char> },
    Approval { station_id: i32, action: u64, granted: bool },
}

impl View for WorldCommand {
    type V = WorldCommandV;

    open spec fn view(&self) -> WorldCommandV {
        match self {
            WorldCommand::Prompt { station_id, text } => WorldCommandV::Prompt {
                station_id: *station_id,
                text: text@,
            },
            WorldCommand::Approval { station_id, action, granted } => WorldCommandV::Approval {
                station_id: *station_id,
                action: *action,
                granted: *granted,
            },
        }
    }
}

/// The frame of a command. Neither names a session.
pub open spec fn intent_v(c: WorldCommandV) -> IntentV {
    match c {
        WorldCommandV::Prompt { text, .. } => IntentV::UserPrompt { text },
        WorldCommandV::Approval { action, granted, .. } => IntentV::UserApproval {
            action,
            granted,
        },
    }
}

impl WorldCommand {
    /// The frame of the command.
    pub fn intent(&self) -> (r: Intent)
        ensures
            r@ == intent_v(self@),
    {
        match self {
            WorldCommand::Prompt { text, .. } => user_prompt(text.as_str()),
            WorldCommand::Approval { action, granted, .. } => user_approval(
                ActionId(*action),
                *granted,
            ),
        }
    }
}

/// A line of the active station's panel.
#[derive(Debug)]
pub struct ChatLine {
    pub role: String,
    pub text: String,
}

impl View for ChatLine {
    type V = (Seq<char>, Seq<char>);

    open spec fn view(&self) -> (Seq<char>, Seq<char>) {
        (self.role@, self.text@)
    }
}

/// The display.
#[derive(Debug)]
pub struct Hud {
    /// How the connection stands.
    pub status: String,
    /// The active station; negative while roaming.
    pub station: i32,
    /// Its title.
    pub title: String,
    /// The name of its kind.
    pub kind: String,
    /// What is said there.
    pub lines: Vec<ChatLine>,
}

/// The model of a [`Hud`].
pub struct HudV {
    pub status: Seq<char>,
    pub station: i32,
    pub title: Seq<char>,
    pub kind: Seq<char>,
    pub lines: Seq<(Seq<char>, Seq<char>)>,
}

impl View for Hud {
    type V = HudV;

    open spec fn view(&self) -> HudV {
        HudV {
            status: self.status@,
            station: self.station,
            title: self.title@,
            kind: self.kind@,
            lines: views(self.lines@),
        }
    }
}

/// The lines with more of the agent's words: on its last line, or on a new one.
pub open spec fn spoken(lines: Seq<(Seq<char>, Seq<char>)>, delta: Seq<char>) -> Seq<
    (Seq<char>, Seq<char>),
> {
    if lines.len() > 0 && lines.last().0 == "agent"@ {
        lines.drop_last().push(("agent"@, lines.last().1 + delta))
    } else {
        lines.push(("agent"@, delta))
    }
}

/// The display after an event. The agent's words go to the active station, where
/// there is one.
pub open spec fn shown_v(h: HudV, e: WorldEventV) -> HudV {
    match e {
        WorldEventV::Connection(status) => HudV { status, ..h },
        WorldEventV::AgentTextDelta { delta, .. } => if h.station >= 0 {
            HudV { lines: spoken(h.lines, delta), ..h }
        } else {
            h
        },
        _ => h,
    }
}

/// The display after a station is activated; a number that no station has changes
/// nothing.
pub open spec fn activated(h: HudV, stations: Seq<Station>, id: i32) -> HudV {
    let i = station_place(stations, id, 0);
    if i < stations.len() {
        HudV {
            title: desc_v(stations[i].kind).title,
            kind: kind_name(stations[i].kind),
            station: id,
            ..h
        }
    } else {
        h
    }
}

/// Adds the agent's words: on its last line, or on a new one.
pub fn append_or_extend_agent_line(lines: &mut Vec<ChatLine>, delta: &str)
    ensures
        views(final(lines)@) == spoken(views(old(lines)@), delta@),
{
    let ghost before = views(lines@);
    let n: usize = lines.len();
    if n > 0 && same(lines[n - 1].role.as_str(), "agent") {
        assert(before.last() == lines@[n - 1]@);
        let text = cat(lines[n - 1].text.as_str(), delta);
        lines[n - 1].text = text;
        assert(views(lines@) =~= before.drop_last().push(("agent"@, before.last().1 + delta@)));
    } else {
        if n > 0 {
            assert(before.last() == lines@[n - 1]@);
        }
        lines.push(ChatLine { role: copy("agent"), text: copy(delta) });
    }
}

impl Hud {
    /// A display that roams.
    pub fn new() -> (r: Hud)
        ensures
            r@.station == -1,
            r@.lines.len() == 0,
            r@.status.len() == 0 && r@.title.len() == 0 && r@.kind.len() == 0,
    {
        Hud {
            status: String::new(),
            station: -1,
            title: String::new(),
            kind: String::new(),
            lines: Vec::new(),
        }
    }

    /// The human says something: to the active station, or to nobody.
    pub fn send_prompt(&mut self, text: &str) -> (r: Option<WorldCommand>)
        ensures
            old(self)@.station < 0 ==> r is None && final(self)@ == old(self)@,
            old(self)@.station >= 0 ==> {
                &&& r is Some
                &&& r->0@ == (WorldCommandV::Prompt {
                    station_id: old(self)@.station,
                    text: text@,
                })
                &&& final(self)@ == (HudV {
                    lines: old(self)@.lines.push(("user"@, text@)),
                    ..old(self)@
                })
            },
    {
        if self.station < 0 {
            return None;
        }
        self.lines.push(ChatLine { role: copy("user"), text: copy(text) });
        Some(WorldCommand::Prompt { station_id: self.station, text: copy(text) })
    }

    /// The human approves or rejects a tool call.
    pub fn approve(&self, action: u64, granted: bool) -> (r: WorldCommand)
        ensures
            r@ == (WorldCommandV::Approval { station_id: self@.station, action, granted }),
    {
        WorldCommand::Approval { station_id: self.station, action, granted }
    }

    /// A station is activated.
    pub fn activate(&mut self, registry: &StationRegistry, id: i32)
        ensures
            final(self)@ == activated(old(self)@, registry.stations@, id),
    {
        match registry.get(id) {
            Some(s) => {
                let d = desc(s.kind);
                self.title = copy(d.title);
                self.kind = copy(s.kind.as_str());
                self.station = id;
            },
            None => {},
        }
    }

    /// The active station is left.
    pub fn dismiss(&mut self)
        ensures
            final(self)@ == (HudV { station: (-1) as i32, ..old(self)@ }),
    {
        self.station = -1;
    }

    /// Takes in what the socket tells.
    pub fn receive(&mut self, event: WorldEvent)
        ensures
            final(self)@ == shown_v(old(self)@, event@),
    {
        match event {
            WorldEvent::Connection(status) => {
                self.status = status;
            },
            WorldEvent::AgentTextDelta { delta, .. } => {
                if self.station >= 0 {
                    append_or_extend_agent_line(&mut self.lines, delta.as_str());
                }
            },
            _ => {},
        }
    }
}

} // verus!
