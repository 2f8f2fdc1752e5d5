//! The work board: what runs, what waits, and what is done.
use vstd::prelude::*;
use crate::colour::{persona_rgb, rgb_v, Rgb};
use crate::reader::plural_v;
use crate::text::{
    begins, cat, cat3, copy, dec, dec_len, dec_u64, head, same, starts_with, take_chars, views,
};

verus! {

broadcast use {crate::text::views_push, crate::text::views_empty};

/// A card of the board.
#[derive(Debug)]
pub struct BoardCard {
    pub id: String,
    pub title: String,
    pub subtitle: String,
    pub badge: String,
    pub accent: Rgb,
}

/// The model of a [`BoardCard`].
pub struct BoardCardV {
    pub id: Seq<char>,
    pub title: Seq<char>,
    pub subtitle: Seq<char>,
    pub badge: Seq<char>,
    pub accent: Rgb,
}

impl View for BoardCard {
    type V = BoardCardV;

    open spec fn view(&self) -> BoardCardV {
        BoardCardV {
            id: self.id@,
            title: self.title@,
            subtitle: self.subtitle@,
            badge: self.badge@,
            accent: self.accent,
        }
    }
}

/// The board: six lanes of cards, and who of which batch waits for approval.
#[derive(Debug)]
pub struct Board {
    /// The agent's own goals.
    pub goals: Vec<BoardCard>,
    /// The workers of its batches.
    pub workers: Vec<BoardCard>,
    /// The turn at hand.
    pub active: Vec<BoardCard>,
    /// What waits for the human.
    pub blocked: Vec<BoardCard>,
    /// Sub-agents that run.
    pub subagents: Vec<BoardCard>,
    /// What is over, newest first.
    pub recent: Vec<BoardCard>,
    /// The workers that wait for approval, each with its batch.
    pub awaiting: Vec<(u64, u64)>,
}

/// The model of a [`Board`].
pub struct BoardV {
    pub goals: Seq<BoardCardV>,
    pub workers: Seq<BoardCardV>,
    pub active: Seq<BoardCardV>,
    pub blocked: Seq<BoardCardV>,
    pub subagents: Seq<BoardCardV>,
    pub recent: Seq<BoardCardV>,
    pub awaiting: Seq<(u64, u64)>,
}

impl View for Board {
    type V = BoardV;

    open spec fn view(&self) -> BoardV {
        BoardV {
            goals: views(self.goals@),
            workers: views(self.workers@),
            active: views(self.active@),
            blocked: views(self.blocked@),
            subagents: views(self.subagents@),
            recent: views(self.recent@),
            awaiting: self.awaiting@,
        }
    }
}

/// How many cards of finished work are kept.
pub const BOARD_RECENT_CAP: usize = 16;

pub const BLUE: u32 = 0x60a5fa;

pub const AMBER: u32 = 0xfbbf24;

pub const VIOLET: u32 = 0xa78bfa;

pub const SLATE: u32 = 0x94a3b8;

pub const GREEN: u32 = 0x34d399;

pub const TEAL: u32 = 0x2dd4bf;

pub const RED: u32 = 0xef4444;

pub const CYAN: u32 = 0x22d3ee;

pub const STEEL: u32 = 0x7d91af;

/// The state of a goal.
#[derive(Clone, Copy, Debug, PartialEq, Eq, Structural)]
pub enum GoalState {
    Acting,
    Done,
    Failed,
    Blocked,
    Cancelled,
    /// Any state that the board has no colour for.
    Other,
}

/// The state of a worker.
#[derive(Clone, Copy, Debug, PartialEq, Eq, Structural)]
pub enum WorkerState {
    Queued,
    Running,
    Blocked,
    Parked,
    Idle,
    Done,
    Failed,
    Cancelled,
}

/// How one worker of a batch came out.
#[derive(Clone, Copy, Debug, PartialEq, Eq, Structural)]
pub struct BatchRow {
    pub state: WorkerState,
    pub timed_out: bool,
}

// ── Lanes ───────────────────────────────────────────────────────────────────

/// The place of the first card named `id` from `i` on; the end where there is none.
pub open spec fn card_at(lane: Seq<BoardCardV>, id: Seq<char>, i: int) -> int
    decreases lane.len() - i,
{
    if 0 <= i < lane.len() && lane[i].id != id {
        card_at(lane, id, i + 1)
    } else {
        i
    }
}

/// The lane without the first card named `id`.
pub open spec fn dropped(lane: Seq<BoardCardV>, id: Seq<char>) -> Seq<BoardCardV> {
    let i = card_at(lane, id, 0);
    if i < lane.len() {
        lane.remove(i)
    } else {
        lane
    }
}

/// The lane with a card: in the place of the one it replaces, or at the end.
pub open spec fn upserted(lane: Seq<BoardCardV>, card: BoardCardV) -> Seq<BoardCardV> {
    let i = card_at(lane, card.id, 0);
    if i < lane.len() {
        lane.update(i, card)
    } else {
        lane.push(card)
    }
}

/// The lane with a card at its head, cut to its bound.
pub open spec fn headed(lane: Seq<BoardCardV>, card: BoardCardV) -> Seq<BoardCardV> {
    let all = seq![card] + lane;
    if all.len() > BOARD_RECENT_CAP {
        all.take(BOARD_RECENT_CAP as int)
    } else {
        all
    }
}

fn board_find(lane: &Vec<BoardCard>, id: &str) -> (r: Option<usize>)
    ensures
        match r {
            Some(i) => i < lane@.len() && i == card_at(views(lane@), id@, 0),
            None => card_at(views(lane@), id@, 0) >= lane@.len(),
        },
{
    let mut i: usize = 0;
    while i < lane.len() && !same(lane[i].id.as_str(), id)
        invariant
            i <= lane@.len(),
            card_at(views(lane@), id@, 0) == card_at(views(lane@), id@, i as int),
        decreases lane@.len() - i,
    {
        i = i + 1;
    }
    if i < lane.len() {
        Some(i)
    } else {
        None
    }
}

/// Drops the first card named `id`.
pub fn board_remove(lane: &mut Vec<BoardCard>, id: &str)
    ensures
        views(final(lane)@) == dropped(views(old(lane)@), id@),
{
    match board_find(lane, id) {
        Some(i) => {
            let ghost before = views(lane@);
            lane.remove(i);
            assert(views(lane@) =~= before.remove(i as int));
        },
        None => {},
    }
}

/// Puts a card in the place of the one it replaces, or at the end.
pub fn board_upsert(lane: &mut Vec<BoardCard>, card: BoardCard)
    ensures
        views(final(lane)@) == upserted(views(old(lane)@), card@),
{
    match board_find(lane, card.id.as_str()) {
        Some(i) => {
            let ghost before = views(lane@);
            lane.set(i, card);
            assert(views(lane@) =~= before.update(i as int, card@));
        },
        None => {
            lane.push(card);
        },
    }
}

fn push_head(lane: &mut Vec<BoardCard>, card: BoardCard)
    ensures
        views(final(lane)@) == headed(views(old(lane)@), card@),
{
    let ghost before = views(lane@);
    lane.insert(0, card);
    let ghost all = seq![card@] + before;
    assert(views(lane@) =~= all);
    if lane.len() > BOARD_RECENT_CAP {
        lane.truncate(BOARD_RECENT_CAP);
        assert(views(lane@) =~= all.take(BOARD_RECENT_CAP as int));
    }
}

/// A card.
pub open spec fn card_v(
    id: Seq<char>,
    title: Seq<char>,
    subtitle: Seq<char>,
    badge: Seq<char>,
    accent: u32,
) -> BoardCardV {
    BoardCardV { id, title, subtitle, badge, accent: rgb_v(accent) }
}

fn board_card(id: String, title: String, subtitle: String, badge: &str, accent: u32) -> (r:
    BoardCard)
    ensures
        r@ == card_v(id@, title@, subtitle@, badge@, accent),
{
    BoardCard { id, title, subtitle, badge: copy(badge), accent: persona_rgb(accent) }
}

// ── Who waits ───────────────────────────────────────────────────────────────

/// How many of the first `n` waiting workers are of a batch.
pub open spec fn waiting(a: Seq<(u64, u64)>, batch: u64, n: int) -> nat
    decreases n,
{
    if n <= 0 {
        0
    } else {
        waiting(a, batch, n - 1) + if a[n - 1].0 == batch {
            1nat
        } else {
            0
        }
    }
}

/// The first `n` waiting workers without one.
pub open spec fn without_worker(a: Seq<(u64, u64)>, pair: (u64, u64), n: int) -> Seq<(u64, u64)>
    decreases n,
{
    if n <= 0 {
        Seq::empty()
    } else if a[n - 1] == pair {
        without_worker(a, pair, n - 1)
    } else {
        without_worker(a, pair, n - 1).push(a[n - 1])
    }
}

/// Who waits, once a worker started or stopped waiting.
pub open spec fn waiters(a: Seq<(u64, u64)>, pair: (u64, u64), awaits: bool) -> Seq<(u64, u64)> {
    if !awaits {
        without_worker(a, pair, a.len() as int)
    } else if a.contains(pair) {
        a
    } else {
        a.push(pair)
    }
}

// ── What the operations do ──────────────────────────────────────────────────

/// The card of the turn at hand.
pub open spec fn turn_card(subtitle: Seq<char>) -> BoardCardV {
    card_v("turn"@, "Agent turn"@, subtitle, "RUN"@, BLUE)
}

pub open spec fn active_v(b: BoardV, subtitle: Seq<char>) -> BoardV {
    BoardV { active: upserted(b.active, turn_card(subtitle)), ..b }
}

pub open spec fn add_blocked_v(b: BoardV, id: Seq<char>, tool: Seq<char>, preview: Seq<char>) -> BoardV {
    BoardV {
        blocked: upserted(b.blocked, card_v(id, "approve: "@ + tool, preview, "ASK"@, AMBER)),
        ..b
    }
}

pub open spec fn clear_blocked_v(b: BoardV, id: Seq<char>) -> BoardV {
    BoardV { blocked: dropped(b.blocked, id), ..b }
}

pub open spec fn subagent_id(session: u64) -> Seq<char> {
    "sub"@ + dec(session as nat)
}

pub open spec fn add_subagent_v(b: BoardV, session: u64, prompt: Seq<char>) -> BoardV {
    BoardV {
        subagents: upserted(
            b.subagents,
            card_v(
                subagent_id(session),
                "Sub-agent "@ + dec(session as nat),
                head(prompt, 80),
                "SUB"@,
                VIOLET,
            ),
        ),
        ..b
    }
}

pub open spec fn remove_subagent_v(b: BoardV, session: u64) -> BoardV {
    BoardV { subagents: dropped(b.subagents, subagent_id(session)), ..b }
}

pub open spec fn recent_v(
    b: BoardV,
    title: Seq<char>,
    subtitle: Seq<char>,
    badge: Seq<char>,
    accent: u32,
) -> BoardV {
    BoardV {
        recent: headed(b.recent, card_v(Seq::empty(), title, subtitle, badge, accent)),
        ..b
    }
}

/// The badge and colour of a goal's state.
pub open spec fn goal_look(s: GoalState) -> (Seq<char>, u32) {
    match s {
        GoalState::Acting => ("RUN"@, BLUE),
        GoalState::Done => ("DONE"@, GREEN),
        GoalState::Failed => ("FAIL"@, RED),
        GoalState::Blocked => ("BLOCK"@, AMBER),
        GoalState::Cancelled => ("STOP"@, SLATE),
        GoalState::Other => ("…"@, SLATE),
    }
}

/// The badge and colour of a worker's state.
pub open spec fn worker_look(s: WorkerState) -> (Seq<char>, u32) {
    match s {
        WorkerState::Queued => ("QUEUE"@, SLATE),
        WorkerState::Running => ("RUN"@, CYAN),
        WorkerState::Blocked => ("BLOCK"@, AMBER),
        WorkerState::Parked => ("PARK"@, STEEL),
        WorkerState::Idle => ("IDLE"@, SLATE),
        WorkerState::Done => ("DONE"@, GREEN),
        WorkerState::Failed => ("FAIL"@, RED),
        WorkerState::Cancelled => ("STOP"@, SLATE),
    }
}

/// A subtitle; work that needs no approval says so.
pub open spec fn marked(base: Seq<char>, yolo: bool) -> Seq<char> {
    if yolo {
        "⚡ AUTO · "@ + base
    } else {
        base
    }
}

/// Something, and the detail behind it where there is one.
pub open spec fn detailed(base: Seq<char>, detail: Seq<char>) -> Seq<char> {
    if detail.len() == 0 {
        base
    } else {
        base + " · "@ + detail
    }
}

/// A goal moved on.
pub open spec fn goal_v(
    b: BoardV,
    goal: u64,
    objective: Seq<char>,
    state: GoalState,
    step: u64,
    max_steps: u64,
    detail: Seq<char>,
    yolo: bool,
) -> BoardV {
    let (badge, accent) = goal_look(state);
    let base = "step "@ + dec(step as nat) + "/"@ + dec(max_steps as nat);
    BoardV {
        goals: upserted(
            b.goals,
            card_v(
                "goal"@ + dec(goal as nat),
                head(objective, 60),
                marked(detailed(base, detail), yolo),
                badge,
                accent,
            ),
        ),
        ..b
    }
}

pub open spec fn batch_id(batch: u64) -> Seq<char> {
    "batchappr"@ + dec(batch as nat)
}

/// The one card that stands for all the waiting workers of a batch.
pub open spec fn approvals_v(b: BoardV, batch: u64, worker: u64, awaits: bool) -> BoardV {
    let w = waiters(b.awaiting, (batch, worker), awaits);
    let n = waiting(w, batch, w.len() as int);
    BoardV {
        awaiting: w,
        blocked: if n == 0 {
            dropped(b.blocked, batch_id(batch))
        } else {
            upserted(
                b.blocked,
                card_v(
                    batch_id(batch),
                    "Batch "@ + dec(batch as nat) + " workers"@,
                    dec(n) + " approval"@ + plural_v(n) + " pending"@,
                    "BATCH"@,
                    AMBER,
                ),
            )
        },
        ..b
    }
}

/// A worker's subtitle: its host, where that is another node, its batch, its detail.
pub open spec fn worker_line(batch: u64, detail: Seq<char>, node: Option<Seq<char>>) -> Seq<char> {
    let base = detailed("batch "@ + dec(batch as nat), detail);
    match node {
        Some(n) => "@"@ + n + " · "@ + base,
        None => base,
    }
}

/// Whether a worker waits for approval.
pub open spec fn awaits_approval(state: WorkerState, detail: Seq<char>) -> bool {
    state == WorkerState::Blocked && begins(detail, "awaiting approval"@)
}

/// A worker moved on.
pub open spec fn worker_v(
    b: BoardV,
    worker: u64,
    batch: u64,
    state: WorkerState,
    task: Seq<char>,
    detail: Seq<char>,
    yolo: bool,
    node: Option<Seq<char>>,
) -> BoardV {
    let (badge, accent) = worker_look(state);
    let c = BoardV {
        workers: upserted(
            b.workers,
            card_v(
                "worker"@ + dec(worker as nat),
                head(task, 60),
                marked(worker_line(batch, detail, node), yolo),
                badge,
                accent,
            ),
        ),
        ..b
    };
    approvals_v(c, batch, worker, awaits_approval(state, detail))
}

/// How many of the first `n` rows timed out.
pub open spec fn rows_late(rows: Seq<BatchRow>, n: int) -> nat
    decreases n,
{
    if n <= 0 {
        0
    } else {
        rows_late(rows, n - 1) + if rows[n - 1].timed_out {
            1nat
        } else {
            0
        }
    }
}

/// How many of the first `n` rows are done in time.
pub open spec fn rows_done(rows: Seq<BatchRow>, n: int) -> nat
    decreases n,
{
    if n <= 0 {
        0
    } else {
        rows_done(rows, n - 1) + if !rows[n - 1].timed_out && rows[n - 1].state
            == WorkerState::Done {
            1nat
        } else {
            0
        }
    }
}

/// A batch reported: how many of its workers are done, failed and late.
pub open spec fn batch_v(b: BoardV, batch: u64, rows: Seq<BatchRow>) -> BoardV {
    let n = rows.len() as int;
    let done = rows_done(rows, n);
    let late = rows_late(rows, n);
    recent_v(
        b,
        "Batch "@ + dec(batch as nat) + " reported"@,
        dec(done) + " done · "@ + dec((n - done - late) as nat) + " failed · "@ + dec(late)
            + " timed out"@,
        "BATCH"@,
        CYAN,
    )
}

/// A node of the mesh went dark or came back.
pub open spec fn node_v(b: BoardV, node: Seq<char>, status: Seq<char>, secs: u64) -> BoardV {
    if status == "dark"@ {
        recent_v(
            b,
            "Node "@ + node + " "@ + "DARK"@,
            "no heartbeat for ~"@ + dec(secs as nat) + "s"@,
            "DARK"@,
            RED,
        )
    } else {
        recent_v(b, "Node "@ + node + " "@ + "back online"@, "heartbeat restored"@, "UP"@, GREEN)
    }
}

/// The cards among the first `n` that stand for batches.
pub open spec fn batch_cards(lane: Seq<BoardCardV>, n: int) -> Seq<BoardCardV>
    decreases n,
{
    if n <= 0 {
        Seq::empty()
    } else if begins(lane[n - 1].id, "batchappr"@) {
        batch_cards(lane, n - 1).push(lane[n - 1])
    } else {
        batch_cards(lane, n - 1)
    }
}

/// The turn is over: its card goes, and so do its questions. What the workers of a
/// batch ask stays.
pub open spec fn turn_done_v(b: BoardV) -> BoardV {
    recent_v(
        BoardV {
            active: dropped(b.active, "turn"@),
            blocked: batch_cards(b.blocked, b.blocked.len() as int),
            ..b
        },
        "Turn complete"@,
        Seq::empty(),
        "DONE"@,
        SLATE,
    )
}

// ── The operations ──────────────────────────────────────────────────────────

fn look_of_goal(s: GoalState) -> (r: (&'static str, u32))
    ensures
        (r.0@, r.1) == goal_look(s),
{
    match s {
        GoalState::Acting => ("RUN", BLUE),
        GoalState::Done => ("DONE", GREEN),
        GoalState::Failed => ("FAIL", RED),
        GoalState::Blocked => ("BLOCK", AMBER),
        GoalState::Cancelled => ("STOP", SLATE),
        GoalState::Other => ("…", SLATE),
    }
}

fn look_of_worker(s: WorkerState) -> (r: (&'static str, u32))
    ensures
        (r.0@, r.1) == worker_look(s),
{
    match s {
        WorkerState::Queued => ("QUEUE", SLATE),
        WorkerState::Running => ("RUN", CYAN),
        WorkerState::Blocked => ("BLOCK", AMBER),
        WorkerState::Parked => ("PARK", STEEL),
        WorkerState::Idle => ("IDLE", SLATE),
        WorkerState::Done => ("DONE", GREEN),
        WorkerState::Failed => ("FAIL", RED),
        WorkerState::Cancelled => ("STOP", SLATE),
    }
}

fn mark(base: String, yolo: bool) -> (r: String)
    ensures
        r@ == marked(base@, yolo),
{
    if yolo {
        cat("⚡ AUTO · ", base.as_str())
    } else {
        base
    }
}

fn with_detail(base: String, detail: &str) -> (r: String)
    ensures
        r@ == detailed(base@, detail@),
{
    if detail.is_empty() {
        base
    } else {
        cat3(base.as_str(), " · ", detail)
    }
}

fn count_waiting(a: &Vec<(u64, u64)>, batch: u64) -> (n: usize)
    ensures
        n == waiting(a@, batch, a@.len() as int),
{
    let mut n: usize = 0;
    for i in 0..a.len()
        invariant
            n == waiting(a@, batch, i as int),
            n <= i,
    {
        if a[i].0 == batch {
            n = n + 1;
        }
    }
    n
}

fn holds_pair(a: &Vec<(u64, u64)>, batch: u64, worker: u64) -> (r: bool)
    ensures
        r == a@.contains((batch, worker)),
{
    for i in 0..a.len()
        invariant
            forall|j: int| 0 <= j < i ==> a@[j] != (batch, worker),
    {
        if a[i].0 == batch && a[i].1 == worker {
            assert(a@[i as int] == (batch, worker));
            return true;
        }
    }
    false
}

fn update_waiters(a: &mut Vec<(u64, u64)>, batch: u64, worker: u64, awaits: bool)
    ensures
        final(a)@ == waiters(old(a)@, (batch, worker), awaits),
{
    if awaits {
        if !holds_pair(a, batch, worker) {
            a.push((batch, worker));
        }
    } else {
        let mut kept: Vec<(u64, u64)> = Vec::new();
        for i in 0..a.len()
            invariant
                kept@ == without_worker(a@, (batch, worker), i as int),
        {
            if !(a[i].0 == batch && a[i].1 == worker) {
                kept.push((a[i].0, a[i].1));
            }
        }
        *a = kept;
    }
}

impl Board {
    /// An empty board.
    pub fn new() -> (r: Board)
        ensures
            r@ == (BoardV {
                goals: Seq::empty(),
                workers: Seq::empty(),
                active: Seq::empty(),
                blocked: Seq::empty(),
                subagents: Seq::empty(),
                recent: Seq::empty(),
                awaiting: Seq::empty(),
            }),
    {
        Board {
            goals: Vec::new(),
            workers: Vec::new(),
            active: Vec::new(),
            blocked: Vec::new(),
            subagents: Vec::new(),
            recent: Vec::new(),
            awaiting: Vec::new(),
        }
    }

    /// Says what the turn at hand is doing.
    pub fn board_active(&mut self, subtitle: &str)
        ensures
            final(self)@ == active_v(old(self)@, subtitle@),
    {
        board_upsert(
            &mut self.active,
            board_card(copy("turn"), copy("Agent turn"), copy(subtitle), "RUN", BLUE),
        );
    }

    /// A call waits for approval.
    pub fn board_add_blocked(&mut self, call_id: &str, tool: &str, preview: &str)
        ensures
            final(self)@ == add_blocked_v(old(self)@, call_id@, tool@, preview@),
    {
        board_upsert(
            &mut self.blocked,
            board_card(copy(call_id), cat("approve: ", tool), copy(preview), "ASK", AMBER),
        );
    }

    /// A call waits no more.
    pub fn board_clear_blocked(&mut self, call_id: &str)
        ensures
            final(self)@ == clear_blocked_v(old(self)@, call_id@),
    {
        board_remove(&mut self.blocked, call_id);
    }

    /// A sub-agent started.
    pub fn board_add_subagent(&mut self, session: u64, prompt: &str)
        ensures
            final(self)@ == add_subagent_v(old(self)@, session, prompt@),
    {
        let number = dec_u64(session);
        board_upsert(
            &mut self.subagents,
            board_card(
                cat("sub", number.as_str()),
                cat("Sub-agent ", number.as_str()),
                copy(take_chars(prompt, 80)),
                "SUB",
                VIOLET,
            ),
        );
    }

    /// A sub-agent is done.
    pub fn board_remove_subagent(&mut self, session: u64)
        ensures
            final(self)@ == remove_subagent_v(old(self)@, session),
    {
        board_remove(&mut self.subagents, cat("sub", dec_u64(session).as_str()).as_str());
    }

    /// Something is over.
    pub fn board_push_recent(&mut self, title: String, subtitle: String, badge: &str, accent: u32)
        ensures
            final(self)@ == recent_v(old(self)@, title@, subtitle@, badge@, accent),
    {
        push_head(
            &mut self.recent,
            board_card(String::new(), title, subtitle, badge, accent),
        );
    }

    /// A goal moved on.
    pub fn board_goal(
        &mut self,
        goal: u64,
        objective: &str,
        state: GoalState,
        step: u64,
        max_steps: u64,
        detail: &str,
        yolo: bool,
    )
        ensures
            final(self)@ == goal_v(
                old(self)@,
                goal,
                objective@,
                state,
                step,
                max_steps,
                detail@,
                yolo,
            ),
    {
        let (badge, accent) = look_of_goal(state);
        let mut base = copy("step ");
        base.append(dec_u64(step).as_str());
        base.append("/");
        base.append(dec_u64(max_steps).as_str());
        let subtitle = mark(with_detail(base, detail), yolo);
        board_upsert(
            &mut self.goals,
            board_card(
                cat("goal", dec_u64(goal).as_str()),
                copy(take_chars(objective, 60)),
                subtitle,
                badge,
                accent,
            ),
        );
    }

    /// A worker started or stopped waiting for approval: one card for its batch.
    pub fn board_worker_approval(&mut self, batch: u64, worker: u64, awaits: bool)
        ensures
            final(self)@ == approvals_v(old(self)@, batch, worker, awaits),
    {
        update_waiters(&mut self.awaiting, batch, worker, awaits);
        let n: usize = count_waiting(&self.awaiting, batch);
        let number = dec_u64(batch);
        let key = cat("batchappr", number.as_str());
        if n == 0 {
            board_remove(&mut self.blocked, key.as_str());
        } else {
            let mut line = dec_len(n);
            line.append(" approval");
            line.append(
                if n == 1 {
                    ""
                } else {
                    "s"
                },
            );
            line.append(" pending");
            board_upsert(
                &mut self.blocked,
                board_card(key, cat3("Batch ", number.as_str(), " workers"), line, "BATCH", AMBER),
            );
        }
    }

    /// A worker moved on.
    pub fn board_worker(
        &mut self,
        worker: u64,
        batch: u64,
        state: WorkerState,
        task: &str,
        detail: &str,
        yolo: bool,
        node: &Option<String>,
    )
        ensures
            final(self)@ == worker_v(
                old(self)@,
                worker,
                batch,
                state,
                task@,
                detail@,
                yolo,
                match *node {
                    Some(n) => Some(n@),
                    None => None,
                },
            ),
    {
        let (badge, accent) = look_of_worker(state);
        let mut base = with_detail(cat("batch ", dec_u64(batch).as_str()), detail);
        match node {
            Some(n) => {
                let mut line = cat3("@", n.as_str(), " · ");
                line.append(base.as_str());
                base = line;
            },
            None => {},
        }
        board_upsert(
            &mut self.workers,
            board_card(
                cat("worker", dec_u64(worker).as_str()),
                copy(take_chars(task, 60)),
                mark(base, yolo),
                badge,
                accent,
            ),
        );
        let awaits = state == WorkerState::Blocked && starts_with(detail, "awaiting approval");
        self.board_worker_approval(batch, worker, awaits);
    }

    /// A batch reported.
    pub fn board_batch_done(&mut self, batch: u64, rows: &Vec<BatchRow>)
        ensures
            final(self)@ == batch_v(old(self)@, batch, rows@),
    {
        let mut done: usize = 0;
        let mut late: usize = 0;
        let mut failed: usize = 0;
        for i in 0..rows.len()
            invariant
                done == rows_done(rows@, i as int),
                late == rows_late(rows@, i as int),
                failed == i - done - late,
                done + late + failed == i,
        {
            if rows[i].timed_out {
                late = late + 1;
            } else if rows[i].state == WorkerState::Done {
                done = done + 1;
            } else {
                failed = failed + 1;
            }
        }
        let mut line = dec_len(done);
        line.append(" done · ");
        line.append(dec_len(failed).as_str());
        line.append(" failed · ");
        line.append(dec_len(late).as_str());
        line.append(" timed out");
        self.board_push_recent(
            cat3("Batch ", dec_u64(batch).as_str(), " reported"),
            line,
            "BATCH",
            CYAN,
        );
    }

    /// A node of the mesh went dark or came back.
    pub fn board_node_status(&mut self, node: &str, status: &str, secs: u64)
        ensures
            final(self)@ == node_v(old(self)@, node@, status@, secs),
    {
        let mut title = cat3("Node ", node, " ");
        if same(status, "dark") {
            title.append("DARK");
            self.board_push_recent(
                title,
                cat3("no heartbeat for ~", dec_u64(secs).as_str(), "s"),
                "DARK",
                RED,
            );
        } else {
            title.append("back online");
            self.board_push_recent(title, copy("heartbeat restored"), "UP", GREEN);
        }
    }

    /// The turn is over.
    pub fn board_turn_done(&mut self)
        ensures
            final(self)@ == turn_done_v(old(self)@),
    {
        board_remove(&mut self.active, "turn");
        let ghost lane = views(self.blocked@);
        let mut kept: Vec<BoardCard> = Vec::new();
        let mut rest: Vec<BoardCard> = Vec::new();
        std::mem::swap(&mut rest, &mut self.blocked);
        for c in it: rest
            invariant
                views(it.seq()) == lane,
                views(kept@) == batch_cards(lane, it.index()),
        {
            assert(c@ == lane[it.index()]);
            if starts_with(c.id.as_str(), "batchappr") {
                kept.push(c);
            }
        }
        self.blocked = kept;
        self.board_push_recent(copy("Turn complete"), String::new(), "DONE", SLATE);
    }
}

// ── Laws ────────────────────────────────────────────────────────────────────

/// The lane of finished work keeps its bound, with the newest card at its head.
pub proof fn recent_is_bounded(
    b: BoardV,
    title: Seq<char>,
    subtitle: Seq<char>,
    badge: Seq<char>,
    accent: u32,
)
    requires
        b.recent.len() <= BOARD_RECENT_CAP,
    ensures
        0 < recent_v(b, title, subtitle, badge, accent).recent.len() <= BOARD_RECENT_CAP,
        recent_v(b, title, subtitle, badge, accent).recent[0] == card_v(
            Seq::empty(),
            title,
            subtitle,
            badge,
            accent,
        ),
{
}

proof fn card_at_bounds(lane: Seq<BoardCardV>, id: Seq<char>, i: int)
    requires
        0 <= i <= lane.len(),
    ensures
        i <= card_at(lane, id, i) <= lane.len(),
        card_at(lane, id, i) < lane.len() ==> lane[card_at(lane, id, i)].id == id,
        forall|j: int| i <= j < card_at(lane, id, i) ==> (#[trigger] lane[j]).id != id,
    decreases lane.len() - i,
{
    if i < lane.len() && lane[i].id != id {
        card_at_bounds(lane, id, i + 1);
    }
}

/// No two cards share a name.
pub open spec fn names_differ(lane: Seq<BoardCardV>) -> bool {
    forall|i: int, j: int|
        0 <= i < j < lane.len() ==> (#[trigger] lane[i]).id != (#[trigger] lane[j]).id
}

/// Putting a card down keeps names distinct, leaves the card there, and every other
/// card as it was.
pub proof fn upsert_keeps(lane: Seq<BoardCardV>, card: BoardCardV)
    requires
        names_differ(lane),
    ensures
        names_differ(upserted(lane, card)),
        card_at(upserted(lane, card), card.id, 0) < upserted(lane, card).len(),
        upserted(lane, card)[card_at(upserted(lane, card), card.id, 0)] == card,
        lane.len() <= upserted(lane, card).len() <= lane.len() + 1,
        forall|i: int|
            0 <= i < lane.len() && (#[trigger] lane[i]).id != card.id ==> upserted(lane, card)[i]
                == lane[i],
{
    card_at_bounds(lane, card.id, 0);
    let u = upserted(lane, card);
    card_at_bounds(u, card.id, 0);
    let i = card_at(lane, card.id, 0);
    if i < lane.len() {
        assert forall|j: int| 0 <= j < u.len() implies (#[trigger] u[j]).id == lane[j].id by {}
        assert(u[i].id == card.id);
    } else {
        assert forall|j: int| 0 <= j < lane.len() implies #[trigger] u[j] == lane[j] by {}
        assert(u[lane.len() as int].id == card.id);
    }
}

/// Dropping a card keeps names distinct, and the card is gone.
pub proof fn drop_keeps(lane: Seq<BoardCardV>, id: Seq<char>)
    requires
        names_differ(lane),
    ensures
        names_differ(dropped(lane, id)),
        card_at(dropped(lane, id), id, 0) == dropped(lane, id).len(),
{
    card_at_bounds(lane, id, 0);
    let u = dropped(lane, id);
    card_at_bounds(u, id, 0);
    let i = card_at(lane, id, 0);
    if i < lane.len() {
        assert forall|j: int| 0 <= j < u.len() implies #[trigger] u[j] == lane[if j < i {
            j
        } else {
            j + 1
        }] by {}
    }
}

proof fn batch_cards_keep(lane: Seq<BoardCardV>, n: int, i: int)
    requires
        0 <= i < n <= lane.len(),
        begins(lane[i].id, "batchappr"@),
    ensures
        batch_cards(lane, n).contains(lane[i]),
    decreases n,
{
    if i == n - 1 {
        assert(batch_cards(lane, n).last() == lane[i]);
        assert(batch_cards(lane, n)[batch_cards(lane, n).len() - 1] == lane[i]);
    } else {
        batch_cards_keep(lane, n - 1, i);
        let before = batch_cards(lane, n - 1);
        let j = choose|j: int| 0 <= j < before.len() && before[j] == lane[i];
        assert(batch_cards(lane, n)[j] == lane[i]);
    }
}

proof fn batch_cards_only(lane: Seq<BoardCardV>, n: int)
    requires
        0 <= n <= lane.len(),
    ensures
        forall|j: int|
            0 <= j < batch_cards(lane, n).len() ==> begins(
                (#[trigger] batch_cards(lane, n)[j]).id,
                "batchappr"@,
            ),
    decreases n,
{
    if n > 0 {
        batch_cards_only(lane, n - 1);
        let before = batch_cards(lane, n - 1);
        let all = batch_cards(lane, n);
        assert forall|j: int| 0 <= j < all.len() implies begins(
            (#[trigger] all[j]).id,
            "batchappr"@,
        ) by {
            if j < before.len() {
                assert(all[j] == before[j]);
            }
        }
    }
}

/// When a turn is over, the questions of the workers' batches are all still there,
/// and no other question is.
pub proof fn turns_spare_batches(b: BoardV, i: int)
    requires
        0 <= i < b.blocked.len(),
    ensures
        begins(b.blocked[i].id, "batchappr"@) ==> turn_done_v(b).blocked.contains(b.blocked[i]),
        forall|j: int|
            0 <= j < turn_done_v(b).blocked.len() ==> begins(
                (#[trigger] turn_done_v(b).blocked[j]).id,
                "batchappr"@,
            ),
{
    batch_cards_only(b.blocked, b.blocked.len() as int);
    if begins(b.blocked[i].id, "batchappr"@) {
        batch_cards_keep(b.blocked, b.blocked.len() as int, i);
    }
}

proof fn without_worker_lacks(a: Seq<(u64, u64)>, pair: (u64, u64), n: int)
    requires
        0 <= n <= a.len(),
    ensures
        !without_worker(a, pair, n).contains(pair),
    decreases n,
{
    if n > 0 {
        without_worker_lacks(a, pair, n - 1);
        let before = without_worker(a, pair, n - 1);
        let all = without_worker(a, pair, n);
        if all.contains(pair) {
            let j = choose|j: int| 0 <= j < all.len() && all[j] == pair;
            if j < before.len() {
                assert(before[j] == pair);
            }
        }
    }
}

proof fn waiting_counts(a: Seq<(u64, u64)>, batch: u64, n: int, j: int)
    requires
        0 <= j < n <= a.len(),
        a[j].0 == batch,
    ensures
        waiting(a, batch, n) > 0,
    decreases n,
{
    if j < n - 1 {
        waiting_counts(a, batch, n - 1, j);
    }
}

/// While a worker waits, its batch has a card in the lane of what waits; once it does
/// not, the worker is not counted.
pub proof fn a_waiting_worker_shows(b: BoardV, batch: u64, worker: u64)
    requires
        names_differ(b.blocked),
    ensures
        ({
            let c = approvals_v(b, batch, worker, true);
            card_at(c.blocked, batch_id(batch), 0) < c.blocked.len()
        }),
        !approvals_v(b, batch, worker, false).awaiting.contains((batch, worker)),
{
    let w = waiters(b.awaiting, (batch, worker), true);
    assert(w.contains((batch, worker))) by {
        if !b.awaiting.contains((batch, worker)) {
            assert(w[w.len() - 1] == (batch, worker));
        }
    }
    let j = choose|j: int| 0 <= j < w.len() && w[j] == (batch, worker);
    waiting_counts(w, batch, w.len() as int, j);
    let n = waiting(w, batch, w.len() as int);
    upsert_keeps(
        b.blocked,
        card_v(
            batch_id(batch),
            "Batch "@ + dec(batch as nat) + " workers"@,
            dec(n) + " approval"@ + plural_v(n) + " pending"@,
            "BATCH"@,
            AMBER,
        ),
    );
    without_worker_lacks(b.awaiting, (batch, worker), b.awaiting.len() as int);
}

} // verus!
