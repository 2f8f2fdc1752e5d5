//! The client of the agent's gateway: one socket, one session.
//!
//! The program owns the socket. It tells the client what happened to it, and the
//! client says what is to be done next: write a frame, hand an event on, wait and
//! connect again, or stop.
use vstd::prelude::*;
use tokio_tungstenite::tungstenite::client::IntoClientRequest;
use crate::events::{frame_event, read_frame, Event, EventV};
use crate::ids::SessionId;
use crate::intents::{frame_v, Intent, IntentV};
use crate::text::{byte_count, byte_len, cat, copy, fit, take_bytes};

verus! {

// ── The upgrade request ─────────────────────────────────────────────────────

/// `http::Request`, which the socket is opened with.
#[verifier::external_type_specification]
#[verifier::external_body]
#[verifier::reject_recursive_types(T)]
pub struct ExRequest<T>(tokio_tungstenite::tungstenite::http::Request<T>);

/// `tungstenite::Error`.
#[verifier::external_type_specification]
#[verifier::external_body]
pub struct ExError(tokio_tungstenite::tungstenite::Error);

/// The values of a request's `Authorization` header.
pub uninterp spec fn authorization(
    r: tokio_tungstenite::tungstenite::http::Request<()>,
) -> Seq<Seq<char>>;

/// The URI of a request, as `http::Uri` prints it.
pub uninterp spec fn target(r: tokio_tungstenite::tungstenite::http::Request<()>) -> Seq<char>;

/// How many names a request's header map holds, as `HeaderMap::keys_len` counts them.
pub uninterp spec fn header_names(r: tokio_tungstenite::tungstenite::http::Request<()>) -> nat;

/// How many names a header map holds at most where one more is sure to find room. A map of
/// the largest size that met many collisions refuses to grow above this.
pub const ROOMY: u64 = 6_553;

/// The URI that `tungstenite` makes a request to for an address, as `http::Uri` prints it.
/// There is none where the address does not parse as a URI, or has no host.
pub uninterp spec fn target_of(url: Seq<char>) -> Option<Seq<char>>;

/// Calls `IntoClientRequest::into_client_request` of `tungstenite`. Whether there is a
/// request, and to which URI, depends on the address alone; a fresh one names no
/// authorization, and holds the five headers of a handshake. What those headers say, a
/// random key among them, is left unsaid.
#[verifier::external_body]
fn client_request(url: &str) -> (r: Result<
    tokio_tungstenite::tungstenite::http::Request<()>,
    tokio_tungstenite::tungstenite::Error,
>)
    ensures
        match r {
            Ok(q) => {
                &&& target_of(url@) == Some(target(q))
                &&& authorization(q) == Seq::<Seq<char>>::empty()
                &&& header_names(q) == 5
            },
            Err(_) => target_of(url@) is None,
        },
{
    url.into_client_request()
}

/// Whether a text can be a header's value: it holds no control character but tabs.
pub open spec fn header_text(s: Seq<char>) -> bool {
    forall|i: int|
        0 <= i < s.len() ==> (#[trigger] s[i] == '\t' || (s[i] as u32 >= 32 && s[i] as u32 != 127))
}

/// Parses an `http::HeaderValue`, and puts it into the request's header map with
/// `HeaderMap::insert` in place of what stood there; the URI stays. A text that is no
/// header value leaves the request as it is. `insert` panics on a map that cannot grow, so
/// the map is to hold few enough names.
#[verifier::external_body]
fn set_authorization(
    r: &mut tokio_tungstenite::tungstenite::http::Request<()>,
    value: &str,
) -> (done: bool)
    requires
        header_names(*old(r)) <= ROOMY,
    ensures
        done == header_text(value@),
        done ==> authorization(*final(r)) == seq![value@] && target(*final(r)) == target(*old(r)),
        done ==> header_names(*final(r)) == header_names(*old(r)) + if authorization(
            *old(r),
        ).len() == 0 {
            1nat
        } else {
            0nat
        },
        !done ==> *final(r) == *old(r),
{
    match value.parse() {
        Ok(v) => {
            r.headers_mut().insert(tokio_tungstenite::tungstenite::http::header::AUTHORIZATION, v);
            true
        }
        Err(_) => false,
    }
}

/// Why no request can be made.
#[derive(Clone, Copy, Debug, PartialEq, Eq, Structural)]
pub enum BadRequest {
    /// The address is none.
    Url,
    /// The token cannot stand in a header.
    Token,
}

/// What is sent for a token.
pub open spec fn bearer(token: Seq<char>) -> Seq<char> {
    "Bearer "@ + token
}

/// Builds the request that opens the socket, with the token where there is one.
pub fn build_request(url: &str, token: Option<&str>) -> (r: Result<
    tokio_tungstenite::tungstenite::http::Request<()>,
    BadRequest,
>)
    ensures
        match r {
            Ok(q) => {
                &&& target_of(url@) == Some(target(q))
                &&& match token {
                    Some(t) => {
                        &&& header_text(bearer(t@))
                        &&& authorization(q) == seq![bearer(t@)]
                        &&& header_names(q) == 6
                    },
                    None => authorization(q) == Seq::<Seq<char>>::empty() && header_names(q) == 5,
                }
            },
            Err(BadRequest::Url) => target_of(url@) is None,
            Err(BadRequest::Token) => target_of(url@) is Some && token is Some && !header_text(
                bearer(token->0@),
            ),
        },
{
    match client_request(url) {
        Ok(mut request) => match token {
            Some(t) => {
                let value = cat("Bearer ", t);
                if set_authorization(&mut request, value.as_str()) {
                    Ok(request)
                } else {
                    Err(BadRequest::Token)
                }
            },
            None => Ok(request),
        },
        Err(_) => Err(BadRequest::Url),
    }
}

// ── The log ─────────────────────────────────────────────────────────────────

/// How many bytes of a frame go into the log.
pub const LOG_BYTES: u64 = 200;

/// A frame as the log shows it.
pub open spec fn truncated(s: Seq<char>) -> Seq<char> {
    if byte_count(s) <= LOG_BYTES {
        s
    } else {
        fit(s, LOG_BYTES as nat) + "…"@
    }
}

/// Cuts a frame for the log, between two characters.
pub fn truncate(s: &str) -> (r: String)
    ensures
        r@ == truncated(s@),
{
    if byte_len(s) <= LOG_BYTES as u128 {
        copy(s)
    } else {
        let mut out = copy(take_bytes(s, LOG_BYTES));
        out.append("…");
        out
    }
}

// ── The connection ──────────────────────────────────────────────────────────

/// The session of a client that knows none.
pub const NO_SESSION: u64 = u64::MAX;

/// How long a client first waits before it connects again, in milliseconds.
pub const FIRST_BACKOFF_MS: u64 = 250;

/// How long it waits at most.
pub const MAX_BACKOFF_MS: u64 = 30_000;

/// A client.
#[derive(Debug)]
pub struct WorldClient {
    /// The session that the socket is bound to.
    pub session: u64,
    /// How long the next wait is, in milliseconds.
    pub backoff_ms: u64,
}

/// The model of a [`WorldClient`].
pub struct ClientV {
    pub session: u64,
    pub backoff_ms: u64,
}

impl View for WorldClient {
    type V = ClientV;

    open spec fn view(&self) -> ClientV {
        ClientV { session: self.session, backoff_ms: self.backoff_ms }
    }
}

/// Why a connection is over.
#[derive(Clone, Copy, Debug, PartialEq, Eq, Structural)]
pub enum Loss {
    BadRequest,
    ConnectFailed,
    SendFailed,
    ServerClose,
    ReadError,
    StreamEnded,
}

/// What happened to the socket, or to those who use the client.
#[derive(Debug)]
pub enum Happened {
    /// It is time to connect; says whether anyone still listens, and whether anyone may
    /// still want a frame sent.
    Due { listened_to: bool, intents_to_come: bool },
    /// Someone wants a frame sent.
    Wanted(Intent),
    /// Nobody will want a frame sent any more.
    NoMoreIntents,
    /// A text frame came.
    Text(String),
    /// A frame of another sort came.
    OtherFrame,
    /// An event could not be handed on: nobody listens.
    ListenerGone,
    /// The connection is over.
    Lost(Loss),
}

/// The model of [`Happened`].
pub enum HappenedV {
    Due { listened_to: bool, intents_to_come: bool },
    Wanted(IntentV),
    NoMoreIntents,
    Text(Seq<char>),
    OtherFrame,
    ListenerGone,
    Lost(Loss),
}

impl View for Happened {
    type V = HappenedV;

    open spec fn view(&self) -> HappenedV {
        match self {
            Happened::Due { listened_to, intents_to_come } => HappenedV::Due {
                listened_to: *listened_to,
                intents_to_come: *intents_to_come,
            },
            Happened::Wanted(i) => HappenedV::Wanted(i@),
            Happened::NoMoreIntents => HappenedV::NoMoreIntents,
            Happened::Text(t) => HappenedV::Text(t@),
            Happened::OtherFrame => HappenedV::OtherFrame,
            Happened::ListenerGone => HappenedV::ListenerGone,
            Happened::Lost(l) => HappenedV::Lost(*l),
        }
    }
}

/// What is to be done.
#[derive(Debug)]
pub enum Step {
    /// Open the socket.
    Connect,
    /// Send a frame.
    Write(String),
    /// Hand an event on.
    Deliver(Event),
    /// Drop a frame that is no event; this much of it goes into the log.
    Drop(String),
    /// Read on.
    Nothing,
    /// Wait, then see whether to connect again.
    Wait { ms: u64, reason: Loss },
    /// Stop; close the socket where it is open.
    Stop { close: bool },
}

/// The model of a [`Step`].
pub enum StepV {
    Connect,
    Write(Seq<char>),
    Deliver(EventV),
    Drop(Seq<char>),
    Nothing,
    Wait { ms: u64, reason: Loss },
    Stop { close: bool },
}

impl View for Step {
    type V = StepV;

    open spec fn view(&self) -> StepV {
        match self {
            Step::Connect => StepV::Connect,
            Step::Write(t) => StepV::Write(t@),
            Step::Deliver(e) => StepV::Deliver(e@),
            Step::Drop(t) => StepV::Drop(t@),
            Step::Nothing => StepV::Nothing,
            Step::Wait { ms, reason } => StepV::Wait { ms: *ms, reason: *reason },
            Step::Stop { close } => StepV::Stop { close: *close },
        }
    }
}

/// The wait after one of `ms`: twice as long, within bounds.
pub open spec fn next_backoff(ms: u64) -> u64 {
    if ms * 2 > MAX_BACKOFF_MS {
        MAX_BACKOFF_MS
    } else {
        (ms * 2) as u64
    }
}

/// The session that a client knows after an event.
pub open spec fn session_after(c: ClientV, e: EventV) -> u64 {
    match e {
        EventV::SessionInit { session_id, .. } => session_id.0,
        _ => c.session,
    }
}

/// What a client knows and does when something happened.
pub open spec fn step_v(c: ClientV, h: HappenedV) -> (ClientV, StepV) {
    match h {
        HappenedV::Due { listened_to, intents_to_come } => (c, if listened_to && intents_to_come {
            StepV::Connect
        } else {
            StepV::Stop { close: false }
        }),
        HappenedV::Wanted(i) => (c, StepV::Write(frame_v(i))),
        HappenedV::NoMoreIntents => (c, StepV::Stop { close: true }),
        HappenedV::Text(t) => match frame_event(t) {
            Some(e) => (ClientV { session: session_after(c, e), ..c }, StepV::Deliver(e)),
            None => (c, StepV::Drop(truncated(t))),
        },
        HappenedV::OtherFrame => (c, StepV::Nothing),
        HappenedV::ListenerGone => (c, StepV::Stop { close: false }),
        HappenedV::Lost(reason) => (
            ClientV { session: NO_SESSION, backoff_ms: next_backoff(c.backoff_ms) },
            StepV::Wait { ms: c.backoff_ms, reason },
        ),
    }
}

/// Doubles a wait, within bounds.
pub fn double_backoff(ms: u64, max: u64) -> (r: u64)
    ensures
        r == if ms * 2 > max {
            max as int
        } else {
            ms * 2
        },
{
    if ms > max / 2 {
        max
    } else {
        ms * 2
    }
}

impl WorldClient {
    /// A client that is not connected.
    pub fn new() -> (r: WorldClient)
        ensures
            r@ == (ClientV { session: NO_SESSION, backoff_ms: FIRST_BACKOFF_MS }),
    {
        WorldClient { session: NO_SESSION, backoff_ms: FIRST_BACKOFF_MS }
    }

    /// The session that the socket is bound to, once it is known.
    pub fn session_id(&self) -> (r: Option<SessionId>)
        ensures
            r == if self@.session == NO_SESSION {
                None::<SessionId>
            } else {
                Some(SessionId(self@.session))
            },
    {
        if self.session == NO_SESSION {
            None
        } else {
            Some(SessionId(self.session))
        }
    }

    /// Takes in what happened, and says what is to be done.
    pub fn step(&mut self, happened: Happened) -> (r: Step)
        ensures
            (final(self)@, r@) == step_v(old(self)@, happened@),
    {
        match happened {
            Happened::Due { listened_to, intents_to_come } => {
                if listened_to && intents_to_come {
                    Step::Connect
                } else {
                    Step::Stop { close: false }
                }
            },
            Happened::Wanted(i) => Step::Write(i.to_json()),
            Happened::NoMoreIntents => Step::Stop { close: true },
            Happened::Text(t) => match read_frame(t.as_str()) {
                Some(e) => {
                    match &e {
                        Event::SessionInit { session_id, .. } => {
                            self.session = session_id.0;
                        },
                        _ => {},
                    }
                    Step::Deliver(e)
                },
                None => Step::Drop(truncate(t.as_str())),
            },
            Happened::OtherFrame => Step::Nothing,
            Happened::ListenerGone => Step::Stop { close: false },
            Happened::Lost(reason) => {
                let ms: u64 = self.backoff_ms;
                self.session = NO_SESSION;
                self.backoff_ms = double_backoff(ms, MAX_BACKOFF_MS);
                Step::Wait { ms, reason }
            },
        }
    }
}

impl Loss {
    /// The reason in words.
    pub fn reason(&self) -> (r: &'static str)
        ensures
            r@ == match self {
                Loss::BadRequest => "bad request"@,
                Loss::ConnectFailed => "connect failed"@,
                Loss::SendFailed => "send failed"@,
                Loss::ServerClose => "server close"@,
                Loss::ReadError => "read error"@,
                Loss::StreamEnded => "stream ended"@,
            },
    {
        match self {
            Loss::BadRequest => "bad request",
            Loss::ConnectFailed => "connect failed",
            Loss::SendFailed => "send failed",
            Loss::ServerClose => "server close",
            Loss::ReadError => "read error",
            Loss::StreamEnded => "stream ended",
        }
    }
}

// ── Laws ────────────────────────────────────────────────────────────────────

/// A client that lost its connection knows no session until the gateway names one,
/// and its waits never exceed their bound.
pub proof fn a_lost_client_knows_no_session(c: ClientV, h: HappenedV)
    requires
        c.backoff_ms <= MAX_BACKOFF_MS,
    ensures
        h is Lost ==> step_v(c, h).0.session == NO_SESSION,
        step_v(c, h).0.backoff_ms <= MAX_BACKOFF_MS,
        step_v(c, h).1 matches StepV::Wait { ms, .. } ==> ms <= MAX_BACKOFF_MS,
        step_v(c, h).0.session != c.session ==> h is Lost || step_v(c, h).1 is Deliver,
{
}

/// A client stops as soon as it learns that nobody listens or that nobody will want a frame
/// sent any more, and for no other reason: a lost connection is always tried again.
pub proof fn a_client_runs_while_it_is_used(c: ClientV, h: HappenedV)
    ensures
        step_v(c, h).1 is Stop <==> match h {
            HappenedV::Due { listened_to, intents_to_come } => !listened_to || !intents_to_come,
            HappenedV::NoMoreIntents => true,
            HappenedV::ListenerGone => true,
            _ => false,
        },
        h is Lost ==> step_v(c, h).1 is Wait,
{
}

/// A cut frame takes up a bounded number of bytes.
pub proof fn truncation_is_bounded(s: Seq<char>)
    ensures
        byte_count(truncated(s)) <= LOG_BYTES + 3,
{
    if byte_count(s) > LOG_BYTES {
        crate::text::fitting_bounds(s, LOG_BYTES as nat);
        crate::text::byte_count_add(fit(s, LOG_BYTES as nat), "…"@);
        reveal_strlit("…");
        assert("…"@ =~= seq!['…']);
        assert(byte_count("…"@) == 3) by {
            assert("…"@.drop_last() =~= Seq::<char>::empty());
            assert(byte_count(Seq::<char>::empty()) == 0);
            assert("…"@.last() == '…');
            assert('…' as u32 == 0x2026);
        }
    }
}

} // verus!
