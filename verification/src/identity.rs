//! Who sits at the device: the profiles, the PIN, and the agents that a profile owns.
use vstd::prelude::*;
use crate::effects::{notice, notice_v, Effect, EffectV, ToastKind};
use crate::json::{entries, flagged, items_or_none, put, text_at, uint_at, Json, JsonV};
use crate::reader::{json_flag, json_str, str_v};
use crate::shell::{build_identity_frame, identity_frame};
use crate::text::{
    cat3, copy, dec, dec_u64, head, same, take_chars, to_upper, upper_case, views,
};

verus! {

broadcast use {
    crate::text::views_push,
    crate::text::views_empty,
    crate::json::entries_empty,
};

// ── Profiles and agents ─────────────────────────────────────────────────────

/// The sign on a tile: the name's first letter, large.
pub open spec fn glyph_v(name: Seq<char>) -> Seq<char> {
    if name.len() == 0 {
        "?"@
    } else {
        upper_case(head(name, 1))
    }
}

/// The sign on a tile.
pub fn id_glyph(name: &str) -> (r: String)
    ensures
        r@ == glyph_v(name@),
{
    if name.is_empty() {
        copy("?")
    } else {
        to_upper(take_chars(name, 1))
    }
}

/// A profile.
#[derive(Debug, PartialEq)]
pub struct UserRow {
    pub id: String,
    pub name: String,
    pub has_pin: bool,
}

/// The model of a [`UserRow`].
pub struct UserRowV {
    pub id: Seq<char>,
    pub name: Seq<char>,
    pub has_pin: bool,
}

impl View for UserRow {
    type V = UserRowV;

    open spec fn view(&self) -> UserRowV {
        UserRowV {
            id: self.id@,
            name: self.name@,
            has_pin: self.has_pin,
        }
    }
}

/// A profile, from its body.
pub open spec fn user_row_v(j: JsonV) -> UserRowV {
    UserRowV {
        id: str_v(j, "id"@),
        name: str_v(j, "name"@),
        has_pin: flagged(j, "has_pin"@),
    }
}

fn user_row(j: &Json) -> (r: UserRow)
    ensures
        r@ == user_row_v(j@),
{
    UserRow {
        id: json_str(j, "id"),
        name: json_str(j, "name"),
        has_pin: json_flag(j, "has_pin"),
    }
}

/// The first `n` profiles.
pub open spec fn users_v(a: Seq<JsonV>, n: int) -> Seq<UserRowV>
    decreases n,
{
    if n <= 0 {
        Seq::empty()
    } else {
        users_v(a, n - 1).push(user_row_v(a[n - 1]))
    }
}

/// The profiles of a reply.
pub fn user_rows(body: &Json) -> (r: Vec<UserRow>)
    ensures
        views(r@) == users_v(items_or_none(body@, "users"@), items_or_none(body@, "users"@).len() as int),
{
    let arr = body.items_at("users");
    let ghost a = views(arr@);
    let mut out: Vec<UserRow> = Vec::new();
    for i in 0..arr.len()
        invariant
            a == views(arr@),
            views(out@) == users_v(a, i as int),
    {
        assert(a[i as int] == arr@[i as int]@);
        out.push(user_row(&arr[i]));
    }
    assert(a.len() == arr@.len());
    out
}

/// An agent.
#[derive(Debug, PartialEq)]
pub struct AgentRow {
    pub id: String,
    pub name: String,
    /// The profile that it belongs to.
    pub owner: String,
}

/// The model of a [`AgentRow`].
pub struct AgentRowV {
    pub id: Seq<char>,
    pub name: Seq<char>,
    pub owner: Seq<char>,
}

impl View for AgentRow {
    type V = AgentRowV;

    open spec fn view(&self) -> AgentRowV {
        AgentRowV {
            id: self.id@,
            name: self.name@,
            owner: self.owner@,
        }
    }
}

/// An agent, from its body.
pub open spec fn agent_row_v(j: JsonV) -> AgentRowV {
    AgentRowV {
        id: str_v(j, "id"@),
        name: str_v(j, "name"@),
        owner: str_v(j, "owner"@),
    }
}

fn agent_row(j: &Json) -> (r: AgentRow)
    ensures
        r@ == agent_row_v(j@),
{
    AgentRow {
        id: json_str(j, "id"),
        name: json_str(j, "name"),
        owner: json_str(j, "owner"),
    }
}

/// The first `n` agents.
pub open spec fn agents_v(a: Seq<JsonV>, n: int) -> Seq<AgentRowV>
    decreases n,
{
    if n <= 0 {
        Seq::empty()
    } else {
        agents_v(a, n - 1).push(agent_row_v(a[n - 1]))
    }
}

/// The agents of a reply.
pub fn agent_rows(body: &Json) -> (r: Vec<AgentRow>)
    ensures
        views(r@) == agents_v(items_or_none(body@, "agents"@), items_or_none(body@, "agents"@).len() as int),
{
    let arr = body.items_at("agents");
    let ghost a = views(arr@);
    let mut out: Vec<AgentRow> = Vec::new();
    for i in 0..arr.len()
        invariant
            a == views(arr@),
            views(out@) == agents_v(a, i as int),
    {
        assert(a[i as int] == arr@[i as int]@);
        out.push(agent_row(&arr[i]));
    }
    assert(a.len() == arr@.len());
    out
}

/// A tile of a profile.
#[derive(Debug, PartialEq)]
pub struct UserDef {
    pub id: String,
    pub name: String,
    pub has_pin: bool,
    pub glyph: String,
}

/// The model of a [`UserDef`].
pub struct UserDefV {
    pub id: Seq<char>,
    pub name: Seq<char>,
    pub has_pin: bool,
    pub glyph: Seq<char>,
}

impl View for UserDef {
    type V = UserDefV;

    open spec fn view(&self) -> UserDefV {
        UserDefV { id: self.id@, name: self.name@, has_pin: self.has_pin, glyph: self.glyph@ }
    }
}

/// A tile of an agent.
#[derive(Debug, PartialEq)]
pub struct AgentDef {
    pub id: String,
    pub name: String,
    pub glyph: String,
}

/// The model of an [`AgentDef`].
pub struct AgentDefV {
    pub id: Seq<char>,
    pub name: Seq<char>,
    pub glyph: Seq<char>,
}

impl View for AgentDef {
    type V = AgentDefV;

    open spec fn view(&self) -> AgentDefV {
        AgentDefV { id: self.id@, name: self.name@, glyph: self.glyph@ }
    }
}

/// The tiles of profiles.
pub open spec fn user_defs_v(u: Seq<UserRowV>) -> Seq<UserDefV> {
    Seq::new(
        u.len(),
        |i: int|
            UserDefV {
                id: u[i].id,
                name: u[i].name,
                has_pin: u[i].has_pin,
                glyph: glyph_v(u[i].name),
            },
    )
}

/// The tile of an agent.
pub open spec fn tile_v(a: AgentRowV) -> AgentDefV {
    AgentDefV { id: a.id, name: a.name, glyph: glyph_v(a.name) }
}

/// The tiles of those of the first `n` agents that a profile owns.
pub open spec fn owned_v(a: Seq<AgentRowV>, owner: Seq<char>, n: int) -> Seq<AgentDefV>
    decreases n,
{
    if n <= 0 {
        Seq::empty()
    } else if a[n - 1].owner == owner {
        owned_v(a, owner, n - 1).push(
            tile_v(a[n - 1]),
        )
    } else {
        owned_v(a, owner, n - 1)
    }
}

fn user_defs(users: &Vec<UserRow>) -> (r: Vec<UserDef>)
    ensures
        views(r@) == user_defs_v(views(users@)),
{
    let ghost u = views(users@);
    let mut out: Vec<UserDef> = Vec::new();
    assert(views(out@) =~= user_defs_v(u).take(0));
    for i in 0..users.len()
        invariant
            u == views(users@),
            views(out@) == user_defs_v(u).take(i as int),
    {
        assert(u[i as int] == users@[i as int]@);
        let x = &users[i];
        out.push(
            UserDef {
                id: copy(x.id.as_str()),
                name: copy(x.name.as_str()),
                has_pin: x.has_pin,
                glyph: id_glyph(x.name.as_str()),
            },
        );
        assert(user_defs_v(u).take(i as int).push(user_defs_v(u)[i as int]) =~= user_defs_v(u).take(
            i as int + 1,
        ));
    }
    assert(user_defs_v(u).take(u.len() as int) =~= user_defs_v(u));
    out
}

// ── The screen ──────────────────────────────────────────────────────────────

/// What the screen asks for.
#[derive(Clone, Copy, Debug, PartialEq, Eq, Structural)]
pub enum Ask {
    Profile,
    Pin,
    Agent,
}

/// The screen, and what it knows.
#[derive(Debug)]
pub struct Identity {
    pub users: Vec<UserRow>,
    pub agents: Vec<AgentRow>,
    /// The number of the profile that was picked.
    pub selected: String,
    pub pin: String,
    /// Whether the screen is there to log in: without a token there is no connection yet.
    pub login: bool,
    pub open: bool,
    pub step: Ask,
    pub selected_name: String,
    pub pin_error: bool,
    pub pin_message: String,
    pub user_tiles: Vec<UserDef>,
    pub agent_tiles: Vec<AgentDef>,
}

/// The model of the screen.
pub struct IdentityV {
    pub users: Seq<UserRowV>,
    pub agents: Seq<AgentRowV>,
    pub selected: Seq<char>,
    pub pin: Seq<char>,
    pub login: bool,
    pub open: bool,
    pub step: Ask,
    pub selected_name: Seq<char>,
    pub pin_error: bool,
    pub pin_message: Seq<char>,
    pub user_tiles: Seq<UserDefV>,
    pub agent_tiles: Seq<AgentDefV>,
}

impl View for Identity {
    type V = IdentityV;

    open spec fn view(&self) -> IdentityV {
        IdentityV {
            users: views(self.users@),
            agents: views(self.agents@),
            selected: self.selected@,
            pin: self.pin@,
            login: self.login,
            open: self.open,
            step: self.step,
            selected_name: self.selected_name@,
            pin_error: self.pin_error,
            pin_message: self.pin_message@,
            user_tiles: views(self.user_tiles@),
            agent_tiles: views(self.agent_tiles@),
        }
    }
}

/// Whether there is nothing to choose: one profile at most, no PIN, one agent at most.
pub open spec fn trivial_v(u: Seq<UserRowV>, a: Seq<AgentRowV>) -> bool {
    u.len() <= 1 && (forall|i: int| 0 <= i < u.len() ==> !(#[trigger] u[i]).has_pin) && a.len() <= 1
}

/// The profiles of a reply.
pub open spec fn users_of(body: JsonV) -> Seq<UserRowV> {
    users_v(items_or_none(body, "users"@), items_or_none(body, "users"@).len() as int)
}

/// The agents of a reply.
pub open spec fn agents_of(body: JsonV) -> Seq<AgentRowV> {
    agents_v(items_or_none(body, "agents"@), items_or_none(body, "agents"@).len() as int)
}

/// The place of the first profile `id` from `i` on; the end where there is none.
pub open spec fn user_place(u: Seq<UserRowV>, id: Seq<char>, i: int) -> int
    decreases u.len() - i,
{
    if 0 <= i < u.len() && u[i].id != id {
        user_place(u, id, i + 1)
    } else {
        i
    }
}

/// The profile `id`.
pub open spec fn user_v(u: Seq<UserRowV>, id: Seq<char>) -> Option<UserRowV> {
    let i = user_place(u, id, 0);
    if i < u.len() {
        Some(u[i])
    } else {
        None
    }
}

/// The profile that the device logs in by itself.
pub open spec fn default_v(body: JsonV) -> Option<UserRowV> {
    match text_at(body, "default_user"@) {
        Some(id) => user_v(users_of(body), id),
        None => None,
    }
}

/// The screen with a connection there: it opens only where there is something to choose.
pub open spec fn booted(s: IdentityV, body: JsonV) -> IdentityV {
    let t = IdentityV { users: users_of(body), agents: agents_of(body), ..s };
    if trivial_v(t.users, t.agents) {
        t
    } else {
        IdentityV {
            user_tiles: user_defs_v(t.users),
            step: Ask::Profile,
            pin: Seq::empty(),
            pin_error: false,
            open: true,
            ..t
        }
    }
}

/// The screen without a connection: it opens in any case. The device's own profile is
/// picked ahead where it has a PIN.
pub open spec fn login_booted(s: IdentityV, body: JsonV) -> IdentityV {
    let t = IdentityV {
        users: users_of(body),
        login: true,
        user_tiles: user_defs_v(users_of(body)),
        pin: Seq::empty(),
        pin_error: false,
        pin_message: Seq::empty(),
        open: true,
        ..s
    };
    match default_v(body) {
        Some(u) if u.has_pin => IdentityV {
            selected: u.id,
            selected_name: u.name,
            step: Ask::Pin,
            ..t
        },
        _ => IdentityV { step: Ask::Profile, ..t },
    }
}

/// The screen with the keypad empty and quiet.
pub open spec fn keypad_cleared(s: IdentityV) -> IdentityV {
    IdentityV { pin: Seq::empty(), pin_error: false, pin_message: Seq::empty(), ..s }
}

/// The tiles of the agents that a profile owns.
pub open spec fn agents_shown(s: IdentityV, owner: Seq<char>) -> IdentityV {
    IdentityV {
        agent_tiles: owned_v(s.agents, owner, s.agents.len() as int),
        step: Ask::Agent,
        ..s
    }
}

/// The screen after a profile was picked.
pub open spec fn user_picked(s: IdentityV, id: Seq<char>) -> IdentityV {
    let (has_pin, name) = match user_v(s.users, id) {
        Some(u) => (u.has_pin, u.name),
        None => (false, id),
    };
    let t = IdentityV { selected: id, selected_name: name, ..keypad_cleared(s) };
    if has_pin {
        IdentityV { step: Ask::Pin, ..t }
    } else if s.login {
        t
    } else {
        agents_shown(t, id)
    }
}

/// Whether the pick of a profile logs in at once.
pub open spec fn pick_logs_in(s: IdentityV, id: Seq<char>) -> bool {
    s.login && match user_v(s.users, id) {
        Some(u) => !u.has_pin,
        None => true,
    }
}

/// How many digits a PIN has at most.
pub const PIN_LEN: usize = 6;

/// The keypad after a key that is no command.
pub open spec fn typed(s: IdentityV, key: Seq<char>) -> IdentityV {
    IdentityV {
        pin: if s.pin.len() < PIN_LEN {
            s.pin + key
        } else {
            s.pin
        },
        pin_error: false,
        pin_message: Seq::empty(),
        ..s
    }
}

/// The keypad after the last digit was taken back.
pub open spec fn untyped(s: IdentityV) -> IdentityV {
    IdentityV {
        pin: if s.pin.len() == 0 {
            s.pin
        } else {
            s.pin.drop_last()
        },
        pin_error: false,
        pin_message: Seq::empty(),
        ..s
    }
}

/// The screen after a key. The one that confirms changes nothing yet.
pub open spec fn keyed(s: IdentityV, key: Seq<char>) -> IdentityV {
    if key == "DEL"@ {
        untyped(s)
    } else if key == "OK"@ {
        s
    } else {
        typed(s, key)
    }
}

/// A request that the screen makes.
#[derive(Debug, PartialEq)]
pub enum PinRequest {
    /// Log in with the profile and its PIN.
    Login { user_id: String, pin: String },
    /// Ask whether the PIN is the profile's.
    Verify { user_id: String, pin: String },
}

/// The model of a [`PinRequest`].
pub enum PinRequestV {
    Login { user_id: Seq<char>, pin: Seq<char> },
    Verify { user_id: Seq<char>, pin: Seq<char> },
}

impl View for PinRequest {
    type V = PinRequestV;

    open spec fn view(&self) -> PinRequestV {
        match self {
            PinRequest::Login { user_id, pin } => PinRequestV::Login { user_id: user_id@, pin: pin@ },
            PinRequest::Verify { user_id, pin } => PinRequestV::Verify {
                user_id: user_id@,
                pin: pin@,
            },
        }
    }
}

/// The request that a key makes: only the one that confirms makes one.
pub open spec fn key_request_v(s: IdentityV, key: Seq<char>) -> Option<PinRequestV> {
    if key != "OK"@ {
        None
    } else if s.login {
        Some(PinRequestV::Login { user_id: s.selected, pin: s.pin })
    } else {
        Some(PinRequestV::Verify { user_id: s.selected, pin: s.pin })
    }
}

/// What is sent with either request.
pub open spec fn pin_body_v(user_id: Seq<char>, pin: Seq<char>) -> JsonV {
    JsonV::Obj(seq![("user_id"@, JsonV::Str(user_id)), ("pin"@, JsonV::Str(pin))])
}

/// Why a reply let nobody in.
pub open spec fn refusal_v(body: JsonV) -> Seq<char> {
    if flagged(body, "locked"@) {
        match uint_at(body, "retry_after_secs"@) {
            Some(s) => "Too many tries — locked "@ + dec(s as nat) + "s"@,
            None => "Too many tries — locked"@,
        }
    } else {
        "Wrong PIN — try again"@
    }
}

/// The screen after the reply on a PIN; none where the daemon was not reached.
pub open spec fn pin_answered(s: IdentityV, reply: Option<JsonV>) -> IdentityV {
    let t = IdentityV { pin: Seq::empty(), ..s };
    match reply {
        None => IdentityV {
            pin_error: true,
            pin_message: "Can't reach agentd — try again"@,
            ..t
        },
        Some(body) => if flagged(body, "ok"@) {
            agents_shown(IdentityV { pin_error: false, pin_message: Seq::empty(), ..t }, s.selected)
        } else {
            IdentityV { pin_error: true, pin_message: refusal_v(body), ..t }
        },
    }
}

/// What the reply to a login comes to.
#[derive(Debug)]
pub enum LoginOutcome {
    /// Start over with this token.
    Relaunch(String),
    /// Nobody is in; the notice says why.
    Refused(Effect),
}

/// The model of a [`LoginOutcome`].
pub enum LoginOutcomeV {
    Relaunch(Seq<char>),
    Refused(EffectV),
}

impl View for LoginOutcome {
    type V = LoginOutcomeV;

    open spec fn view(&self) -> LoginOutcomeV {
        match self {
            LoginOutcome::Relaunch(t) => LoginOutcomeV::Relaunch(t@),
            LoginOutcome::Refused(e) => LoginOutcomeV::Refused(e@),
        }
    }
}

/// The token of a reply that lets the profile in.
pub open spec fn token_v(body: JsonV) -> Option<Seq<char>> {
    if flagged(body, "ok"@) {
        text_at(body, "token"@)
    } else {
        None
    }
}

/// What the reply to a login comes to; none where the daemon was not reached.
pub open spec fn login_outcome_v(reply: Option<JsonV>) -> LoginOutcomeV {
    match reply {
        None => LoginOutcomeV::Refused(
            notice_v(ToastKind::Error, "Login failed — can't reach agentd"@),
        ),
        Some(body) => match token_v(body) {
            Some(t) => LoginOutcomeV::Relaunch(t),
            None => LoginOutcomeV::Refused(notice_v(ToastKind::Error, refusal_v(body))),
        },
    }
}

/// The screen after the reply to a login. Where the daemon was not reached the digits
/// stay.
pub open spec fn login_answered(s: IdentityV, reply: Option<JsonV>) -> IdentityV {
    match reply {
        None => IdentityV {
            pin_error: true,
            pin_message: "Can't reach agentd — try again"@,
            ..s
        },
        Some(body) => match token_v(body) {
            Some(_) => s,
            None => IdentityV {
                pin: Seq::empty(),
                pin_error: true,
                pin_message: refusal_v(body),
                ..s
            },
        },
    }
}

/// The model of a reply.
pub open spec fn reply_v(reply: Option<&Json>) -> Option<JsonV> {
    match reply {
        Some(body) => Some(body@),
        None => None,
    }
}

impl PinRequest {
    /// Where the request is sent.
    pub fn path(&self) -> (r: &'static str)
        ensures
            r@ == match self@ {
                PinRequestV::Login { .. } => "/api/auth/login"@,
                PinRequestV::Verify { .. } => "/api/identities/verify"@,
            },
    {
        match self {
            PinRequest::Login { .. } => "/api/auth/login",
            PinRequest::Verify { .. } => "/api/identities/verify",
        }
    }

    /// What is sent.
    pub fn body(&self) -> (r: Json)
        ensures
            r@ == match self@ {
                PinRequestV::Login { user_id, pin } => pin_body_v(user_id, pin),
                PinRequestV::Verify { user_id, pin } => pin_body_v(user_id, pin),
            },
    {
        match self {
            PinRequest::Login { user_id, pin } => pin_body(user_id.as_str(), pin.as_str()),
            PinRequest::Verify { user_id, pin } => pin_body(user_id.as_str(), pin.as_str()),
        }
    }
}

fn pin_body(user_id: &str, pin: &str) -> (r: Json)
    ensures
        r@ == pin_body_v(user_id@, pin@),
{
    let mut e: Vec<(String, Json)> = Vec::new();
    put(&mut e, "user_id", Json::str(user_id));
    put(&mut e, "pin", Json::str(pin));
    assert(entries(e@) =~= pin_body_v(user_id@, pin@)->Obj_0);
    Json::object(e)
}

fn refusal(body: &Json) -> (r: String)
    ensures
        r@ == refusal_v(body@),
{
    if json_flag(body, "locked") {
        match body.u64_at("retry_after_secs") {
            Some(s) => cat3("Too many tries — locked ", dec_u64(s).as_str(), "s"),
            None => copy("Too many tries — locked"),
        }
    } else {
        copy("Wrong PIN — try again")
    }
}

fn find_user(users: &Vec<UserRow>, id: &str) -> (r: Option<usize>)
    ensures
        match r {
            Some(i) => i < users@.len() && user_v(views(users@), id@) == Some(users@[i as int]@),
            None => user_v(views(users@), id@) is None,
        },
{
    let ghost u = views(users@);
    let mut i: usize = 0;
    while i < users.len() && !same(users[i].id.as_str(), id)
        invariant
            u == views(users@),
            i <= users.len(),
            user_place(u, id@, 0) == user_place(u, id@, i as int),
        decreases users.len() - i,
    {
        assert(u[i as int] == users@[i as int]@);
        i = i + 1;
    }
    if i < users.len() {
        assert(u[i as int] == users@[i as int]@);
        Some(i)
    } else {
        None
    }
}

fn is_trivial(users: &Vec<UserRow>, agents: &Vec<AgentRow>) -> (r: bool)
    ensures
        r == trivial_v(views(users@), views(agents@)),
{
    let ghost u = views(users@);
    if users.len() > 1 || agents.len() > 1 {
        return false;
    }
    if users.len() == 1 {
        assert(u[0] == users@[0]@);
        let has_pin = users[0].has_pin;
        if has_pin {
            assert(u[0].has_pin);
        }
        !has_pin
    } else {
        true
    }
}

/// The profile that the device logs in by itself without asking: its own, where that has
/// no PIN.
pub fn open_default(body: &Json) -> (r: Option<PinRequest>)
    ensures
        match r {
            Some(q) => default_v(body@) is Some && !default_v(body@)->0.has_pin && q@
                == (PinRequestV::Login { user_id: default_v(body@)->0.id, pin: Seq::empty() }),
            None => default_v(body@) is None || default_v(body@)->0.has_pin,
        },
{
    let users = user_rows(body);
    match body.str_at("default_user") {
        Some(id) => match find_user(&users, id) {
            Some(i) => if users[i].has_pin {
                None
            } else {
                Some(PinRequest::Login { user_id: copy(users[i].id.as_str()), pin: String::new() })
            },
            None => None,
        },
        None => None,
    }
}

impl Identity {
    /// The screen before anything is known.
    pub fn new() -> (r: Identity)
        ensures
            r@ == (IdentityV {
                users: Seq::empty(),
                agents: Seq::empty(),
                selected: Seq::empty(),
                pin: Seq::empty(),
                login: false,
                open: false,
                step: Ask::Profile,
                selected_name: Seq::empty(),
                pin_error: false,
                pin_message: Seq::empty(),
                user_tiles: Seq::empty(),
                agent_tiles: Seq::empty(),
            }),
    {
        Identity {
            users: Vec::new(),
            agents: Vec::new(),
            selected: String::new(),
            pin: String::new(),
            login: false,
            open: false,
            step: Ask::Profile,
            selected_name: String::new(),
            pin_error: false,
            pin_message: String::new(),
            user_tiles: Vec::new(),
            agent_tiles: Vec::new(),
        }
    }

    /// How many digits the keypad shows.
    pub fn pin_filled(&self) -> (n: usize)
        ensures
            n == self@.pin.len(),
    {
        self.pin.as_str().unicode_len()
    }

    /// Takes the profiles and agents, with a connection there.
    pub fn boot(&mut self, body: &Json)
        ensures
            final(self)@ == booted(old(self)@, body@),
    {
        self.users = user_rows(body);
        self.agents = agent_rows(body);
        if !is_trivial(&self.users, &self.agents) {
            self.user_tiles = user_defs(&self.users);
            self.step = Ask::Profile;
            self.pin = String::new();
            self.pin_error = false;
            self.open = true;
        }
    }

    /// Takes the profiles, with no connection yet.
    pub fn boot_login(&mut self, body: &Json)
        ensures
            final(self)@ == login_booted(old(self)@, body@),
    {
        self.users = user_rows(body);
        self.login = true;
        self.user_tiles = user_defs(&self.users);
        self.pin = String::new();
        self.pin_error = false;
        self.pin_message = String::new();
        self.open = true;
        self.step = Ask::Profile;
        match body.str_at("default_user") {
            Some(id) => match find_user(&self.users, id) {
                Some(i) => {
                    if self.users[i].has_pin {
                        self.selected = copy(self.users[i].id.as_str());
                        self.selected_name = copy(self.users[i].name.as_str());
                        self.step = Ask::Pin;
                    }
                },
                None => {},
            },
            None => {},
        }
    }

    /// Shows the agents that a profile owns.
    pub fn id_load_agents(&mut self, owner: &str)
        ensures
            final(self)@ == (IdentityV {
                agent_tiles: owned_v(old(self)@.agents, owner@, old(self)@.agents.len() as int),
                ..old(self)@
            }),
    {
        let ghost a = self@.agents;
        let mut out: Vec<AgentDef> = Vec::new();
        for i in 0..self.agents.len()
            invariant
                a == views(self.agents@),
                views(out@) == owned_v(a, owner@, i as int),
        {
            assert(a[i as int] == self.agents@[i as int]@);
            let g = &self.agents[i];
            if same(g.owner.as_str(), owner) {
                out.push(
                    AgentDef {
                        id: copy(g.id.as_str()),
                        name: copy(g.name.as_str()),
                        glyph: id_glyph(g.name.as_str()),
                    },
                );
            }
        }
        assert(a.len() == self.agents@.len());
        self.agent_tiles = out;
    }

    /// The human picks a profile. One without a PIN logs in at once, where the screen is
    /// there to log in.
    pub fn pick_user(&mut self, id: &str) -> (r: Option<PinRequest>)
        ensures
            final(self)@ == user_picked(old(self)@, id@),
            match r {
                Some(q) => pick_logs_in(old(self)@, id@) && q@ == (PinRequestV::Login {
                    user_id: id@,
                    pin: Seq::empty(),
                }),
                None => !pick_logs_in(old(self)@, id@),
            },
    {
        let (has_pin, name) = match find_user(&self.users, id) {
            Some(i) => (self.users[i].has_pin, copy(self.users[i].name.as_str())),
            None => (false, copy(id)),
        };
        self.selected = copy(id);
        self.selected_name = name;
        self.pin = String::new();
        self.pin_error = false;
        self.pin_message = String::new();
        if has_pin {
            self.step = Ask::Pin;
            None
        } else if self.login {
            Some(PinRequest::Login { user_id: copy(id), pin: String::new() })
        } else {
            self.id_load_agents(id);
            self.step = Ask::Agent;
            None
        }
    }

    /// The human presses a key.
    pub fn key(&mut self, k: &str) -> (r: Option<PinRequest>)
        ensures
            final(self)@ == keyed(old(self)@, k@),
            match r {
                Some(q) => key_request_v(old(self)@, k@) == Some(q@),
                None => key_request_v(old(self)@, k@) is None,
            },
    {
        proof {
            reveal_strlit("DEL");
            reveal_strlit("OK");
        }
        if same(k, "DEL") {
            let n = self.pin.as_str().unicode_len();
            if n > 0 {
                self.pin = copy(take_chars(self.pin.as_str(), n - 1));
                assert(self.pin@ =~= old(self)@.pin.drop_last());
            }
            self.pin_error = false;
            self.pin_message = String::new();
            assert("DEL"@.len() != "OK"@.len());
            None
        } else if same(k, "OK") {
            let user_id = copy(self.selected.as_str());
            let pin = copy(self.pin.as_str());
            if self.login {
                Some(PinRequest::Login { user_id, pin })
            } else {
                Some(PinRequest::Verify { user_id, pin })
            }
        } else {
            if self.pin.as_str().unicode_len() < PIN_LEN {
                self.pin.append(k);
            }
            self.pin_error = false;
            self.pin_message = String::new();
            None
        }
    }

    /// The reply on a PIN came; none where the daemon was not reached.
    pub fn verified(&mut self, reply: Option<&Json>)
        ensures
            final(self)@ == pin_answered(old(self)@, reply_v(reply)),
    {
        self.pin = String::new();
        match reply {
            None => {
                self.pin_error = true;
                self.pin_message = copy("Can't reach agentd — try again");
            },
            Some(body) => {
                if json_flag(body, "ok") {
                    let owner = copy(self.selected.as_str());
                    self.id_load_agents(owner.as_str());
                    self.pin_error = false;
                    self.pin_message = String::new();
                    self.step = Ask::Agent;
                } else {
                    self.pin_error = true;
                    self.pin_message = refusal(body);
                }
            },
        }
    }

    /// The reply to a login came; none where the daemon was not reached.
    pub fn logged_in(&mut self, reply: Option<&Json>) -> (r: LoginOutcome)
        ensures
            r@ == login_outcome_v(reply_v(reply)),
            final(self)@ == login_answered(old(self)@, reply_v(reply)),
    {
        match reply {
            None => {
                self.pin_error = true;
                self.pin_message = copy("Can't reach agentd — try again");
                LoginOutcome::Refused(
                    notice(ToastKind::Error, copy("Login failed — can't reach agentd")),
                )
            },
            Some(body) => {
                if json_flag(body, "ok") {
                    match body.str_at("token") {
                        Some(t) => {
                            return LoginOutcome::Relaunch(copy(t));
                        },
                        None => {},
                    }
                }
                let msg = refusal(body);
                self.pin = String::new();
                self.pin_error = true;
                self.pin_message = copy(msg.as_str());
                LoginOutcome::Refused(notice(ToastKind::Error, msg))
            },
        }
    }

    /// The human picks an agent: the session is bound to it, and the screen closes.
    pub fn pick_agent(&mut self, id: &str) -> (r: Effect)
        ensures
            final(self)@ == (IdentityV { open: false, ..old(self)@ }),
            r@ == EffectV::Send(identity_frame(id@)),
    {
        self.open = false;
        Effect::Send(build_identity_frame(id))
    }

    /// The human goes back to the profiles.
    pub fn back(&mut self)
        ensures
            final(self)@ == (IdentityV { step: Ask::Profile, ..keypad_cleared(old(self)@) }),
    {
        self.pin = String::new();
        self.pin_error = false;
        self.pin_message = String::new();
        self.step = Ask::Profile;
    }
}

// ── Laws ────────────────────────────────────────────────────────────────────

/// A PIN that is typed digit by digit never gets longer than it may be.
pub proof fn pin_stays_short(s: IdentityV, key: Seq<char>)
    requires
        s.pin.len() <= PIN_LEN,
        key.len() == 1 || key == "DEL"@ || key == "OK"@,
    ensures
        keyed(s, key).pin.len() <= PIN_LEN,
{
}

/// A digit that is taken back leaves the PIN as it was.
pub proof fn taking_back_a_digit(s: IdentityV, key: Seq<char>)
    requires
        s.pin.len() < PIN_LEN,
        key.len() == 1,
    ensures
        keyed(keyed(s, key), "DEL"@).pin == s.pin,
{
    reveal_strlit("DEL");
    reveal_strlit("OK");
    assert("DEL"@.len() == 3 && "OK"@.len() == 2);
    assert((s.pin + key).drop_last() =~= s.pin);
}

/// A profile with a PIN never gets to its agents by being picked: the PIN is asked for.
pub proof fn protected_profile_asks_its_pin(s: IdentityV, id: Seq<char>)
    requires
        user_v(s.users, id) is Some,
        user_v(s.users, id)->0.has_pin,
    ensures
        user_picked(s, id).step == Ask::Pin,
        user_picked(s, id).agent_tiles == s.agent_tiles,
        !pick_logs_in(s, id),
{
}

/// A PIN that is refused shows no agents, says so, and is forgotten.
pub proof fn refused_pin_opens_nothing(s: IdentityV, reply: Option<JsonV>)
    requires
        match reply {
            Some(body) => !flagged(body, "ok"@),
            None => true,
        },
    ensures
        pin_answered(s, reply).step == s.step,
        pin_answered(s, reply).agent_tiles == s.agent_tiles,
        pin_answered(s, reply).pin_error,
        pin_answered(s, reply).pin.len() == 0,
{
}

/// A login starts over with a token only where the reply says that it succeeded and holds
/// that token.
pub proof fn no_token_no_login(reply: Option<JsonV>, token: Seq<char>)
    requires
        login_outcome_v(reply) == LoginOutcomeV::Relaunch(token),
    ensures
        reply is Some,
        flagged(reply->0, "ok"@),
        text_at(reply->0, "token"@) == Some(token),
{
}

/// Whether a tile is that of one of the first `n` agents, and the profile owns it.
pub open spec fn tile_of_owned(a: Seq<AgentRowV>, owner: Seq<char>, n: int, d: AgentDefV) -> bool {
    exists|i: int| 0 <= i < n && (#[trigger] a[i]).owner == owner && tile_v(a[i]) == d
}

/// Every agent that is shown belongs to the profile, and every agent of the profile is
/// shown.
pub proof fn agents_shown_are_owned(a: Seq<AgentRowV>, owner: Seq<char>, n: int)
    requires
        0 <= n <= a.len(),
    ensures
        forall|i: int|
            0 <= i < n && (#[trigger] a[i]).owner == owner ==> owned_v(a, owner, n).contains(
                tile_v(a[i]),
            ),
        forall|k: int|
            0 <= k < owned_v(a, owner, n).len() ==> tile_of_owned(
                a,
                owner,
                n,
                #[trigger] owned_v(a, owner, n)[k],
            ),
    decreases n,
{
    if n > 0 {
        agents_shown_are_owned(a, owner, n - 1);
        let before = owned_v(a, owner, n - 1);
        let now = owned_v(a, owner, n);
        assert forall|i: int| 0 <= i < n && (#[trigger] a[i]).owner == owner implies now.contains(
            tile_v(a[i]),
        ) by {
            let d = tile_v(a[i]);
            if i == n - 1 {
                assert(now[now.len() - 1] == d);
            } else {
                assert(before.contains(d));
                let k = choose|k: int| 0 <= k < before.len() && before[k] == d;
                assert(now[k] == d);
            }
        }
        assert forall|k: int| 0 <= k < now.len() implies tile_of_owned(
            a,
            owner,
            n,
            #[trigger] now[k],
        ) by {
            if k < before.len() {
                assert(now[k] == before[k]);
                assert(tile_of_owned(a, owner, n - 1, before[k]));
            } else {
                assert(a[n - 1].owner == owner);
            }
        }
    }
}

} // verus!
