//! Stations: the places of the world where an agent's functions are reached.
use vstd::prelude::*;
use crate::ids::SessionId;

verus! {

/// How much hardware a station takes.
#[derive(Clone, Copy, Debug, PartialEq, Eq, PartialOrd, Ord, Structural)]
pub enum Tier {
    Standard,
    Pro,
}

/// What a station is for.
#[derive(Clone, Copy, Debug, PartialEq, Eq, Hash, Structural)]
pub enum StationKind {
    /// Chat, tool cards and approvals.
    Chat,
    /// The machine's load.
    System,
    /// Air quality and the thermal camera.
    Sensors,
    /// A council of agents.
    Council,
    /// A terminal, over a socket of its own.
    Terminal,
    /// The agent's memory.
    Memory,
    /// A panel that the agent lays out.
    Generative,
}

/// The name of a kind in the user interface.
pub open spec fn kind_name(k: StationKind) -> Seq<char> {
    match k {
        StationKind::Chat => "chat"@,
        StationKind::System => "system"@,
        StationKind::Sensors => "sensors"@,
        StationKind::Council => "council"@,
        StationKind::Terminal => "terminal"@,
        StationKind::Memory => "memory"@,
        StationKind::Generative => "generative"@,
    }
}

impl StationKind {
    /// The name in the user interface.
    pub fn as_str(self) -> (r: &'static str)
        ensures
            r@ == kind_name(self),
    {
        match self {
            StationKind::Chat => "chat",
            StationKind::System => "system",
            StationKind::Sensors => "sensors",
            StationKind::Council => "council",
            StationKind::Terminal => "terminal",
            StationKind::Memory => "memory",
            StationKind::Generative => "generative",
        }
    }
}

/// How a station gets what it shows.
#[derive(Clone, Copy, Debug, PartialEq)]
pub enum BindingSpec {
    /// It has a session of its own.
    Session,
    /// It reads what is told to all.
    BroadcastFilter,
    /// It asks a path of the gateway, so many times in a thousand seconds.
    RestPoll { path: &'static str, millihertz: u32 },
    /// It attaches to a council.
    Council,
    /// It opens a socket of its own.
    SideSocket { path: &'static str },
    /// It calls the tools whose names begin so.
    Tooled { tool_prefix: &'static str },
}

/// The model of a [`BindingSpec`].
pub enum BindingV {
    Session,
    BroadcastFilter,
    RestPoll { path: Seq<char>, millihertz: u32 },
    Council,
    SideSocket { path: Seq<char> },
    Tooled { tool_prefix: Seq<char> },
}

impl View for BindingSpec {
    type V = BindingV;

    open spec fn view(&self) -> BindingV {
        match self {
            BindingSpec::Session => BindingV::Session,
            BindingSpec::BroadcastFilter => BindingV::BroadcastFilter,
            BindingSpec::RestPoll { path, millihertz } => BindingV::RestPoll {
                path: path@,
                millihertz: *millihertz,
            },
            BindingSpec::Council => BindingV::Council,
            BindingSpec::SideSocket { path } => BindingV::SideSocket { path: path@ },
            BindingSpec::Tooled { tool_prefix } => BindingV::Tooled { tool_prefix: tool_prefix@ },
        }
    }
}

/// What is known of a kind of station.
#[derive(Clone, Copy, Debug)]
pub struct StationDesc {
    pub kind: StationKind,
    pub title: &'static str,
    pub icon: &'static str,
    pub binding: BindingSpec,
    pub tier_min: Tier,
}

/// The model of a [`StationDesc`].
pub struct StationDescV {
    pub kind: StationKind,
    pub title: Seq<char>,
    pub icon: Seq<char>,
    pub binding: BindingV,
    pub tier_min: Tier,
}

impl View for StationDesc {
    type V = StationDescV;

    open spec fn view(&self) -> StationDescV {
        StationDescV {
            kind: self.kind,
            title: self.title@,
            icon: self.icon@,
            binding: self.binding@,
            tier_min: self.tier_min,
        }
    }
}

pub open spec fn row_v(
    kind: StationKind,
    title: Seq<char>,
    icon: Seq<char>,
    binding: BindingV,
    tier_min: Tier,
) -> StationDescV {
    StationDescV { kind, title, icon, binding, tier_min }
}

/// The catalogue: one row for each kind.
pub open spec fn desc_v(k: StationKind) -> StationDescV {
    match k {
        StationKind::Chat => row_v(k, "Chat"@, "speech"@, BindingV::Session, Tier::Standard),
        StationKind::System => row_v(
            k,
            "System"@,
            "monolith"@,
            BindingV::RestPoll { path: "/api/run"@, millihertz: 500 },
            Tier::Standard,
        ),
        StationKind::Sensors => row_v(
            k,
            "Sensors"@,
            "leaf"@,
            BindingV::BroadcastFilter,
            Tier::Standard,
        ),
        StationKind::Council => row_v(k, "Council"@, "ring"@, BindingV::Council, Tier::Standard),
        StationKind::Terminal => row_v(
            k,
            "Terminal"@,
            "prompt"@,
            BindingV::SideSocket { path: "/terminal-ws"@ },
            Tier::Standard,
        ),
        StationKind::Memory => row_v(
            k,
            "Memory"@,
            "archive"@,
            BindingV::Tooled { tool_prefix: "cerebro_"@ },
            Tier::Standard,
        ),
        StationKind::Generative => row_v(
            k,
            "Generative"@,
            "panels"@,
            BindingV::Session,
            Tier::Pro,
        ),
    }
}

fn row(
    kind: StationKind,
    title: &'static str,
    icon: &'static str,
    binding: BindingSpec,
    tier_min: Tier,
) -> (r: StationDesc)
    ensures
        r@ == row_v(kind, title@, icon@, binding@, tier_min),
{
    StationDesc { kind, title, icon, binding, tier_min }
}

/// The catalogue's row for a kind.
pub fn desc(kind: StationKind) -> (r: StationDesc)
    ensures
        r@ == desc_v(kind),
{
    match kind {
        StationKind::Chat => row(kind, "Chat", "speech", BindingSpec::Session, Tier::Standard),
        StationKind::System => row(
            kind,
            "System",
            "monolith",
            BindingSpec::RestPoll { path: "/api/run", millihertz: 500 },
            Tier::Standard,
        ),
        StationKind::Sensors => row(
            kind,
            "Sensors",
            "leaf",
            BindingSpec::BroadcastFilter,
            Tier::Standard,
        ),
        StationKind::Council => row(
            kind,
            "Council",
            "ring",
            BindingSpec::Council,
            Tier::Standard,
        ),
        StationKind::Terminal => row(
            kind,
            "Terminal",
            "prompt",
            BindingSpec::SideSocket { path: "/terminal-ws" },
            Tier::Standard,
        ),
        StationKind::Memory => row(
            kind,
            "Memory",
            "archive",
            BindingSpec::Tooled { tool_prefix: "cerebro_" },
            Tier::Standard,
        ),
        StationKind::Generative => row(
            kind,
            "Generative",
            "panels",
            BindingSpec::Session,
            Tier::Pro,
        ),
    }
}

/// A station that stands in the world.
#[derive(Clone, Copy, Debug, PartialEq, Eq, Structural)]
pub struct Station {
    pub id: i32,
    pub kind: StationKind,
    /// The session that it is bound to, once it is.
    pub session: Option<SessionId>,
}

impl Station {
    /// A station that is bound to nothing.
    pub fn new(id: i32, kind: StationKind) -> (r: Station)
        ensures
            r == (Station { id, kind, session: None }),
    {
        Station { id, kind, session: None }
    }

    /// The catalogue's row for the station.
    pub fn desc(&self) -> (r: StationDesc)
        ensures
            r@ == desc_v(self.kind),
    {
        desc(self.kind)
    }
}

/// The stations of the world.
#[derive(Debug)]
pub struct StationRegistry {
    pub stations: Vec<Station>,
}

impl Default for StationRegistry {
    fn default() -> (r: StationRegistry)
        ensures
            r.stations@ == Seq::<Station>::empty(),
    {
        StationRegistry { stations: Vec::new() }
    }
}

/// The place of the first station numbered `id` from `i` on; the end where there is
/// none.
pub open spec fn station_place(s: Seq<Station>, id: i32, i: int) -> int
    decreases s.len() - i,
{
    if 0 <= i < s.len() && s[i].id != id {
        station_place(s, id, i + 1)
    } else {
        i
    }
}

pub open spec fn placed(id: i32, kind: StationKind) -> Station {
    Station { id, kind, session: None }
}

/// The stations that the world starts with: the chat, and one console of each kind
/// that stands in the hall.
pub open spec fn launch_stations() -> Seq<Station> {
    seq![
        placed(0, StationKind::Chat),
        placed(1, StationKind::System),
        placed(2, StationKind::Sensors),
        placed(3, StationKind::Council),
        placed(4, StationKind::Terminal),
        placed(5, StationKind::Memory),
    ]
}

impl StationRegistry {
    /// The stations that the world starts with.
    pub fn launch_layout() -> (r: StationRegistry)
        ensures
            r.stations@ == launch_stations(),
    {
        let mut stations: Vec<Station> = Vec::new();
        stations.push(Station::new(0, StationKind::Chat));
        stations.push(Station::new(1, StationKind::System));
        stations.push(Station::new(2, StationKind::Sensors));
        stations.push(Station::new(3, StationKind::Council));
        stations.push(Station::new(4, StationKind::Terminal));
        stations.push(Station::new(5, StationKind::Memory));
        assert(stations@ =~= launch_stations());
        StationRegistry { stations }
    }

    fn place(&self, id: i32) -> (r: usize)
        ensures
            r == station_place(self.stations@, id, 0),
            r <= self.stations@.len(),
    {
        let mut i: usize = 0;
        while i < self.stations.len() && self.stations[i].id != id
            invariant
                i <= self.stations@.len(),
                station_place(self.stations@, id, 0) == station_place(
                    self.stations@,
                    id,
                    i as int,
                ),
            decreases self.stations@.len() - i,
        {
            i = i + 1;
        }
        i
    }

    /// The station numbered `id`.
    pub fn get(&self, id: i32) -> (r: Option<&Station>)
        ensures
            ({
                let i = station_place(self.stations@, id, 0);
                r == if i < self.stations@.len() {
                    Some(&self.stations@[i])
                } else {
                    None::<&Station>
                }
            }),
    {
        let i: usize = self.place(id);
        if i < self.stations.len() {
            Some(&self.stations[i])
        } else {
            None
        }
    }

    /// The station numbered `id`, to be changed.
    pub fn get_mut(&mut self, id: i32) -> (r: Option<&mut Station>)
        ensures
            ({
                let i = station_place(old(self).stations@, id, 0);
                match r {
                    Some(s) => {
                        &&& i < old(self).stations@.len()
                        &&& *s == old(self).stations@[i]
                        &&& final(self).stations@ == old(self).stations@.update(i, *final(s))
                    },
                    None => {
                        &&& i >= old(self).stations@.len()
                        &&& final(self).stations@ == old(self).stations@
                    },
                }
            }),
    {
        let i: usize = self.place(id);
        if i < self.stations.len() {
            Some(&mut self.stations[i])
        } else {
            None
        }
    }
}

// ── Laws ────────────────────────────────────────────────────────────────────

/// Every kind has a row of its own in the catalogue.
pub proof fn every_kind_has_its_row(k: StationKind)
    ensures
        desc_v(k).kind == k,
{
}

/// No two stations of the first layout share a number or a kind.
pub proof fn launch_stations_differ(i: int, j: int)
    requires
        0 <= i < j < launch_stations().len(),
    ensures
        launch_stations()[i].id != launch_stations()[j].id,
        launch_stations()[i].kind != launch_stations()[j].kind,
{
}

} // verus!
