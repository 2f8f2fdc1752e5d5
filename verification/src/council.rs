//! The council: several agents deliberating on one topic.
use vstd::prelude::*;
use crate::colour::{accent_v, council_accent, Rgb};
use crate::events::{CouncilAgentDef, CouncilAgentDefV};
use crate::notices::{next_after, wrapping_next};
use crate::text::{cat, copy, same, views};

verus! {

broadcast use {crate::text::views_push, crate::text::views_empty};

/// A member of the council, with what it said in the round at hand.
#[derive(Debug)]
pub struct CouncilAgent {
    pub id: String,
    pub persona: String,
    pub accent: Rgb,
    pub text: String,
    pub done: bool,
}

/// The model of a [`CouncilAgent`].
pub struct CouncilAgentV {
    pub id: Seq<char>,
    pub persona: Seq<char>,
    pub accent: Rgb,
    pub text: Seq<char>,
    pub done: bool,
}

impl View for CouncilAgent {
    type V = CouncilAgentV;

    open spec fn view(&self) -> CouncilAgentV {
        CouncilAgentV {
            id: self.id@,
            persona: self.persona@,
            accent: self.accent,
            text: self.text@,
            done: self.done,
        }
    }
}

/// The council window.
#[derive(Debug)]
pub struct Council {
    pub agents: Vec<CouncilAgent>,
    pub topic: String,
    pub round: u32,
    pub active: bool,
    pub status: String,
    pub synthesis: String,
    pub scroll_tick: i32,
}

/// The model of a [`Council`].
pub struct CouncilV {
    pub agents: Seq<CouncilAgentV>,
    pub topic: Seq<char>,
    pub round: u32,
    pub active: bool,
    pub status: Seq<char>,
    pub synthesis: Seq<char>,
    pub scroll_tick: i32,
}

impl View for Council {
    type V = CouncilV;

    open spec fn view(&self) -> CouncilV {
        CouncilV {
            agents: views(self.agents@),
            topic: self.topic@,
            round: self.round,
            active: self.active,
            status: self.status@,
            synthesis: self.synthesis@,
            scroll_tick: self.scroll_tick,
        }
    }
}

/// A member as it sits down: under its persona, or its id where it has none.
pub open spec fn seated(a: CouncilAgentDefV, idx: nat) -> CouncilAgentV {
    CouncilAgentV {
        id: a.id,
        persona: if a.persona.len() == 0 {
            a.id
        } else {
            a.persona
        },
        accent: accent_v(a.color, idx),
        text: Seq::empty(),
        done: false,
    }
}

/// The council as it convenes.
pub open spec fn convened(c: CouncilV, topic: Seq<char>, agents: Seq<CouncilAgentDefV>) -> CouncilV {
    CouncilV {
        agents: Seq::new(agents.len(), |i: int| seated(agents[i], i as nat)),
        topic,
        round: 0,
        active: true,
        status: "deliberating"@,
        synthesis: Seq::empty(),
        scroll_tick: wrapping_next(c.scroll_tick),
    }
}

/// A new round: nobody has said anything.
pub open spec fn new_round(c: CouncilV, round: u32) -> CouncilV {
    CouncilV {
        round,
        agents: c.agents.map_values(
            |a: CouncilAgentV| CouncilAgentV { text: Seq::empty(), done: false, ..a },
        ),
        ..c
    }
}

/// The place of the first member named `id` from `i` on; the end where there is none.
pub open spec fn member_place(a: Seq<CouncilAgentV>, id: Seq<char>, i: int) -> int
    decreases a.len() - i,
{
    if 0 <= i < a.len() && a[i].id != id {
        member_place(a, id, i + 1)
    } else {
        i
    }
}

/// The first member named `id`, changed.
pub open spec fn with_member(c: CouncilV, id: Seq<char>, m: CouncilAgentV) -> CouncilV {
    let i = member_place(c.agents, id, 0);
    if i < c.agents.len() {
        CouncilV { agents: c.agents.update(i, m), ..c }
    } else {
        c
    }
}

/// The first member named `id`.
pub open spec fn member(c: CouncilV, id: Seq<char>) -> CouncilAgentV {
    c.agents[member_place(c.agents, id, 0)]
}

/// A member says more.
pub open spec fn said_more(c: CouncilV, id: Seq<char>, delta: Seq<char>) -> CouncilV {
    let m = member(c, id);
    let d = with_member(c, id, CouncilAgentV { text: m.text + delta, ..m });
    CouncilV { scroll_tick: wrapping_next(d.scroll_tick), ..d }
}

/// A member is done; its full text, where there is one, takes the place of the pieces.
pub open spec fn said_all(c: CouncilV, id: Seq<char>, full_text: Seq<char>) -> CouncilV {
    let m = member(c, id);
    with_member(
        c,
        id,
        CouncilAgentV {
            text: if full_text.len() == 0 {
                m.text
            } else {
                full_text
            },
            done: true,
            ..m
        },
    )
}

/// How a council ended, in words.
pub open spec fn ending(reason: Seq<char>) -> Seq<char> {
    if reason == "consensus"@ {
        "consensus"@
    } else if reason == "max_rounds"@ {
        "max rounds"@
    } else if reason == "stopped"@ {
        "stopped"@
    } else {
        "complete"@
    }
}

/// The council is over.
pub open spec fn adjourned(
    c: CouncilV,
    reason: Seq<char>,
    synthesis: Seq<char>,
    rounds: u32,
) -> CouncilV {
    CouncilV {
        active: false,
        status: ending(reason),
        round: rounds,
        synthesis,
        scroll_tick: wrapping_next(c.scroll_tick),
        ..c
    }
}

/// How a council ended, in words.
pub fn ending_text(reason: &str) -> (r: &'static str)
    ensures
        r@ == ending(reason@),
{
    if same(reason, "consensus") {
        "consensus"
    } else if same(reason, "max_rounds") {
        "max rounds"
    } else if same(reason, "stopped") {
        "stopped"
    } else {
        "complete"
    }
}

fn seat(a: &CouncilAgentDef, idx: usize) -> (r: CouncilAgent)
    ensures
        r@ == seated(a@, idx as nat),
{
    let persona = if a.persona.as_str().is_empty() {
        a.id.clone()
    } else {
        a.persona.clone()
    };
    let accent = match &a.color {
        Some(c) => council_accent(Some(c.as_str()), idx),
        None => council_accent(None, idx),
    };
    CouncilAgent { id: a.id.clone(), persona, accent, text: String::new(), done: false }
}

impl Council {
    /// No council.
    pub fn new() -> (r: Council)
        ensures
            r@ == (CouncilV {
                agents: Seq::empty(),
                topic: Seq::empty(),
                round: 0,
                active: false,
                status: Seq::empty(),
                synthesis: Seq::empty(),
                scroll_tick: 0,
            }),
    {
        Council {
            agents: Vec::new(),
            topic: String::new(),
            round: 0,
            active: false,
            status: String::new(),
            synthesis: String::new(),
            scroll_tick: 0,
        }
    }

    /// A council convenes.
    pub fn convene(&mut self, topic: &str, agents: &Vec<CouncilAgentDef>)
        ensures
            final(self)@ == convened(old(self)@, topic@, views(agents@)),
    {
        let ghost defs = views(agents@);
        let ghost want = Seq::new(defs.len(), |i: int| seated(defs[i], i as nat));
        let mut seats: Vec<CouncilAgent> = Vec::new();
        for i in 0..agents.len()
            invariant
                defs == views(agents@),
                want == Seq::new(defs.len(), |i: int| seated(defs[i], i as nat)),
                views(seats@) == want.take(i as int),
        {
            seats.push(seat(&agents[i], i));
            assert(want.take(i as int).push(want[i as int]) =~= want.take(i as int + 1));
        }
        assert(want.take(want.len() as int) =~= want);
        self.agents = seats;
        self.topic = copy(topic);
        self.round = 0;
        self.active = true;
        self.status = copy("deliberating");
        self.synthesis = String::new();
        self.scroll_tick = next_after(self.scroll_tick);
    }

    /// A round starts.
    pub fn start_round(&mut self, round: u32)
        ensures
            final(self)@ == new_round(old(self)@, round),
    {
        let ghost before = views(self.agents@);
        let ghost want = new_round(self@, round).agents;
        let mut i: usize = 0;
        self.round = round;
        while i < self.agents.len()
            invariant
                i <= self.agents@.len() == before.len(),
                want == before.map_values(
                    |a: CouncilAgentV| CouncilAgentV { text: Seq::empty(), done: false, ..a },
                ),
                forall|j: int| 0 <= j < i ==> views(self.agents@)[j] == want[j],
                forall|j: int| i <= j < before.len() ==> views(self.agents@)[j] == before[j],
                self@ == (CouncilV { agents: views(self.agents@), round, ..old(self)@ }),
            decreases self.agents@.len() - i,
        {
            self.agents[i].text = String::new();
            self.agents[i].done = false;
            i = i + 1;
        }
        assert(views(self.agents@) =~= want);
    }

    fn find(&self, id: &str) -> (r: usize)
        ensures
            r == member_place(self@.agents, id@, 0),
            r <= self.agents@.len(),
    {
        let mut i: usize = 0;
        while i < self.agents.len() && !same(self.agents[i].id.as_str(), id)
            invariant
                i <= self.agents@.len(),
                member_place(self@.agents, id@, 0) == member_place(self@.agents, id@, i as int),
            decreases self.agents@.len() - i,
        {
            i = i + 1;
        }
        i
    }

    /// A member says more.
    pub fn delta(&mut self, id: &str, delta: &str)
        ensures
            final(self)@ == said_more(old(self)@, id@, delta@),
    {
        let i: usize = self.find(id);
        if i < self.agents.len() {
            let ghost before = views(self.agents@);
            let text = cat(self.agents[i].text.as_str(), delta);
            self.agents[i].text = text;
            assert(views(self.agents@) =~= before.update(
                i as int,
                CouncilAgentV { text: before[i as int].text + delta@, ..before[i as int] },
            ));
        }
        self.scroll_tick = next_after(self.scroll_tick);
    }

    /// A member is done.
    pub fn finish(&mut self, id: &str, full_text: &str)
        ensures
            final(self)@ == said_all(old(self)@, id@, full_text@),
    {
        let i: usize = self.find(id);
        if i < self.agents.len() {
            let ghost before = views(self.agents@);
            if !full_text.is_empty() {
                self.agents[i].text = copy(full_text);
            }
            self.agents[i].done = true;
            assert(views(self.agents@) =~= before.update(
                i as int,
                CouncilAgentV {
                    text: if full_text@.len() == 0 {
                        before[i as int].text
                    } else {
                        full_text@
                    },
                    done: true,
                    ..before[i as int]
                },
            ));
        }
    }

    /// The council is over.
    pub fn adjourn(&mut self, reason: &str, synthesis: &str, rounds: u32)
        ensures
            final(self)@ == adjourned(old(self)@, reason@, synthesis@, rounds),
    {
        self.active = false;
        self.status = copy(ending_text(reason));
        self.round = rounds;
        self.synthesis = copy(synthesis);
        self.scroll_tick = next_after(self.scroll_tick);
    }
}

} // verus!
