//! What the lanes of the work board show.
use vstd::prelude::*;
use crate::board::{
    active_v, add_blocked_v, add_subagent_v, approvals_v, awaits_approval, batch_v, card_at,
    clear_blocked_v, dropped, goal_v, names_differ, node_v, recent_v, remove_subagent_v, rows_done,
    rows_late, turn_done_v, upserted, waiters, waiting, without_worker, worker_v, BatchRow,
    BoardCardV, BoardV, GoalState, WorkerState,
};
use crate::text::{begins, dec, head};

verus! {

// ── Lanes ───────────────────────────────────────────────────────────────────

proof fn card_is_at(lane: Seq<BoardCardV>, id: Seq<char>, i: int, from: int)
    requires
        0 <= from <= i < lane.len(),
        lane[i].id == id,
        forall|j: int| from <= j < i ==> (#[trigger] lane[j]).id != id,
    ensures
        card_at(lane, id, from) == i,
    decreases i - from,
{
    if from < i {
        card_is_at(lane, id, i, from + 1);
    }
}

proof fn card_is_nowhere(lane: Seq<BoardCardV>, id: Seq<char>, from: int)
    requires
        0 <= from <= lane.len(),
        forall|j: int| from <= j < lane.len() ==> (#[trigger] lane[j]).id != id,
    ensures
        card_at(lane, id, from) == lane.len(),
    decreases lane.len() - from,
{
    if from < lane.len() {
        card_is_nowhere(lane, id, from + 1);
    }
}

/// Whether a lane has a card of a name.
pub open spec fn carded(lane: Seq<BoardCardV>, id: Seq<char>) -> bool {
    exists|i: int| 0 <= i < lane.len() && (#[trigger] lane[i]).id == id
}

/// A card goes where the one of its name is, which it replaces; where there is none, it goes
/// to the end. No other card changes or moves.
pub proof fn cards_are_put_in_place(lane: Seq<BoardCardV>, card: BoardCardV)
    requires
        names_differ(lane),
    ensures
        forall|i: int|
            0 <= i < lane.len() && (#[trigger] lane[i]).id == card.id ==> upserted(lane, card)
                == lane.update(i, card),
        !carded(lane, card.id) ==> upserted(lane, card) == lane.push(card),
        upserted(lane, card).contains(card),
{
    assert forall|i: int| 0 <= i < lane.len() && (#[trigger] lane[i]).id == card.id implies upserted(
        lane,
        card,
    ) == lane.update(i, card) by {
        card_is_at(lane, card.id, i, 0);
    }
    let u = upserted(lane, card);
    if carded(lane, card.id) {
        let i = choose|i: int| 0 <= i < lane.len() && (#[trigger] lane[i]).id == card.id;
        card_is_at(lane, card.id, i, 0);
        assert(u[i] == card);
    } else {
        card_is_nowhere(lane, card.id, 0);
        assert(u[lane.len() as int] == card);
    }
}

/// Dropping a card takes the one of that name away and no other; where there is none, it
/// takes none away.
pub proof fn cards_are_dropped_alone(lane: Seq<BoardCardV>, id: Seq<char>)
    requires
        names_differ(lane),
    ensures
        forall|i: int|
            0 <= i < lane.len() && (#[trigger] lane[i]).id == id ==> dropped(lane, id)
                == lane.remove(i),
        !carded(lane, id) ==> dropped(lane, id) == lane,
        !carded(dropped(lane, id), id),
{
    assert forall|i: int| 0 <= i < lane.len() && (#[trigger] lane[i]).id == id implies dropped(
        lane,
        id,
    ) == lane.remove(i) by {
        card_is_at(lane, id, i, 0);
    }
    if carded(lane, id) {
        let i = choose|i: int| 0 <= i < lane.len() && (#[trigger] lane[i]).id == id;
        let d = dropped(lane, id);
        assert(d == lane.remove(i));
        if carded(d, id) {
            let j = choose|j: int| 0 <= j < d.len() && (#[trigger] d[j]).id == id;
            let k = if j < i {
                j
            } else {
                j + 1
            };
            assert(d[j] == lane[k]);
            assert(j < i ==> lane[j].id != lane[i].id);
            assert(k > i ==> lane[i].id != lane[k].id);
        }
    } else {
        card_is_nowhere(lane, id, 0);
    }
}

/// What was finished last stands first, above what was finished before, sixteen cards at
/// most.
pub proof fn the_newest_stands_first(
    b: BoardV,
    title: Seq<char>,
    subtitle: Seq<char>,
    badge: Seq<char>,
    accent: u32,
    i: int,
)
    requires
        0 <= i < 15,
        i < b.recent.len(),
    ensures
        ({
            let r = recent_v(b, title, subtitle, badge, accent);
            &&& r == BoardV { recent: r.recent, ..b }
            &&& 0 < r.recent.len() <= 16
            &&& r.recent[0].title == title && r.recent[0].subtitle == subtitle
            &&& r.recent[0].badge == badge
            &&& i + 1 < r.recent.len() && r.recent[i + 1] == b.recent[i]
        }),
{
}

// ── What the lanes are told ─────────────────────────────────────────────────

/// The current turn is one card in its own lane, with what the agent is at.
pub proof fn the_turn_is_one_card(b: BoardV, subtitle: Seq<char>)
    requires
        b.active.len() == 0 || (b.active.len() == 1 && b.active[0].id == "turn"@),
    ensures
        ({
            let c = active_v(b, subtitle);
            &&& c == BoardV { active: c.active, ..b }
            &&& c.active.len() == 1
            &&& c.active[0].id == "turn"@
            &&& c.active[0].subtitle == subtitle
            &&& c.active[0].badge == "RUN"@
        }),
{
    reveal_with_fuel(card_at, 2);
}

/// A call that waits for the human has a card that asks for it; one that was answered has
/// none any more. No other lane changes.
pub proof fn questions_have_a_card(b: BoardV, id: Seq<char>, tool: Seq<char>, preview: Seq<char>)
    requires
        names_differ(b.blocked),
    ensures
        ({
            let c = add_blocked_v(b, id, tool, preview);
            &&& c == BoardV { blocked: c.blocked, ..b }
            &&& exists|i: int|
                0 <= i < c.blocked.len() && (#[trigger] c.blocked[i]).id == id && c.blocked[i].title
                    == "approve: "@ + tool && c.blocked[i].subtitle == preview && c.blocked[i].badge
                    == "ASK"@
        }),
        ({
            let c = clear_blocked_v(b, id);
            &&& c == BoardV { blocked: c.blocked, ..b }
            &&& !carded(c.blocked, id)
            &&& forall|i: int|
                0 <= i < b.blocked.len() && (#[trigger] b.blocked[i]).id != id
                    ==> c.blocked.contains(b.blocked[i])
        }),
{
    let card = crate::board::card_v(id, "approve: "@ + tool, preview, "ASK"@, crate::board::AMBER);
    cards_are_put_in_place(b.blocked, card);
    let c = add_blocked_v(b, id, tool, preview);
    let i = choose|i: int| 0 <= i < c.blocked.len() && c.blocked[i] == card;
    assert(c.blocked[i].id == id);
    cards_are_dropped_alone(b.blocked, id);
    let d = clear_blocked_v(b, id);
    assert forall|j: int|
        0 <= j < b.blocked.len() && (#[trigger] b.blocked[j]).id != id implies d.blocked.contains(
        b.blocked[j],
    ) by {
        if carded(b.blocked, id) {
            let k = choose|k: int| 0 <= k < b.blocked.len() && (#[trigger] b.blocked[k]).id == id;
            assert(d.blocked == b.blocked.remove(k));
            let y = if j < k {
                j
            } else {
                j - 1
            };
            assert(d.blocked[y] == b.blocked[j]);
        } else {
            assert(d.blocked[j] == b.blocked[j]);
        }
    }
}

/// A sub-agent has a card of its own from its start to the end of its turn.
pub proof fn sub_agents_have_a_card(b: BoardV, session: u64, prompt: Seq<char>)
    requires
        names_differ(b.subagents),
    ensures
        ({
            let id = "sub"@ + dec(session as nat);
            let c = add_subagent_v(b, session, prompt);
            &&& c == BoardV { subagents: c.subagents, ..b }
            &&& exists|i: int|
                0 <= i < c.subagents.len() && (#[trigger] c.subagents[i]).id == id
                    && c.subagents[i].subtitle == head(prompt, 80) && c.subagents[i].badge == "SUB"@
            &&& !carded(remove_subagent_v(b, session).subagents, id)
            &&& remove_subagent_v(b, session) == BoardV {
                subagents: remove_subagent_v(b, session).subagents,
                ..b
            }
        }),
{
    let id = "sub"@ + dec(session as nat);
    let c = add_subagent_v(b, session, prompt);
    let card = crate::board::card_v(
        id,
        "Sub-agent "@ + dec(session as nat),
        head(prompt, 80),
        "SUB"@,
        crate::board::VIOLET,
    );
    cards_are_put_in_place(b.subagents, card);
    let i = choose|i: int| 0 <= i < c.subagents.len() && c.subagents[i] == card;
    assert(c.subagents[i].id == id);
    cards_are_dropped_alone(b.subagents, id);
}

/// The badge of a goal.
pub open spec fn goal_badge(s: GoalState) -> Seq<char> {
    match s {
        GoalState::Acting => "RUN"@,
        GoalState::Done => "DONE"@,
        GoalState::Failed => "FAIL"@,
        GoalState::Blocked => "BLOCK"@,
        GoalState::Cancelled => "STOP"@,
        GoalState::Other => "…"@,
    }
}

/// A goal has one card, which tells its objective, how far it has come, and how it stands.
/// Each new word on it replaces the last, and no other goal's card changes.
pub proof fn goals_have_one_card(
    b: BoardV,
    goal: u64,
    objective: Seq<char>,
    state: GoalState,
    step: u64,
    max_steps: u64,
    detail: Seq<char>,
    yolo: bool,
)
    requires
        names_differ(b.goals),
    ensures
        ({
            let id = "goal"@ + dec(goal as nat);
            let c = goal_v(b, goal, objective, state, step, max_steps, detail, yolo);
            let base = "step "@ + dec(step as nat) + "/"@ + dec(max_steps as nat);
            let line = if detail.len() == 0 {
                base
            } else {
                base + " · "@ + detail
            };
            &&& c == BoardV { goals: c.goals, ..b }
            &&& exists|i: int|
                0 <= i < c.goals.len() && (#[trigger] c.goals[i]).id == id && c.goals[i].title == head(
                    objective,
                    60,
                ) && c.goals[i].badge == goal_badge(state) && c.goals[i].subtitle == if yolo {
                    "⚡ AUTO · "@ + line
                } else {
                    line
                }
            &&& forall|i: int|
                0 <= i < b.goals.len() && (#[trigger] b.goals[i]).id != id ==> c.goals[i]
                    == b.goals[i]
            &&& carded(b.goals, id) ==> c.goals.len() == b.goals.len()
            &&& !carded(b.goals, id) ==> c.goals.len() == b.goals.len() + 1
        }),
{
    let id = "goal"@ + dec(goal as nat);
    let c = goal_v(b, goal, objective, state, step, max_steps, detail, yolo);
    let (badge, accent) = crate::board::goal_look(state);
    let base = "step "@ + dec(step as nat) + "/"@ + dec(max_steps as nat);
    let card = crate::board::card_v(
        id,
        head(objective, 60),
        crate::board::marked(crate::board::detailed(base, detail), yolo),
        badge,
        accent,
    );
    cards_are_put_in_place(b.goals, card);
    let i = choose|i: int| 0 <= i < c.goals.len() && c.goals[i] == card;
    assert(c.goals[i].id == id);
}

/// The badge of a worker.
pub open spec fn worker_badge(s: WorkerState) -> Seq<char> {
    match s {
        WorkerState::Queued => "QUEUE"@,
        WorkerState::Running => "RUN"@,
        WorkerState::Blocked => "BLOCK"@,
        WorkerState::Parked => "PARK"@,
        WorkerState::Idle => "IDLE"@,
        WorkerState::Done => "DONE"@,
        WorkerState::Failed => "FAIL"@,
        WorkerState::Cancelled => "STOP"@,
    }
}

/// A worker has one card, which tells its task and how it stands. It counts among those that
/// wait for the human exactly while it is blocked and says so.
pub proof fn workers_have_one_card(
    b: BoardV,
    worker: u64,
    batch: u64,
    state: WorkerState,
    task: Seq<char>,
    detail: Seq<char>,
    yolo: bool,
    node: Option<Seq<char>>,
)
    requires
        names_differ(b.workers),
    ensures
        ({
            let id = "worker"@ + dec(worker as nat);
            let c = worker_v(b, worker, batch, state, task, detail, yolo, node);
            let waits = state == WorkerState::Blocked && begins(detail, "awaiting approval"@);
            &&& c == BoardV {
                workers: c.workers,
                blocked: c.blocked,
                awaiting: c.awaiting,
                ..b
            }
            &&& exists|i: int|
                0 <= i < c.workers.len() && (#[trigger] c.workers[i]).id == id && c.workers[i].title
                    == head(task, 60) && c.workers[i].badge == worker_badge(state)
            &&& forall|i: int|
                0 <= i < b.workers.len() && (#[trigger] b.workers[i]).id != id ==> c.workers[i]
                    == b.workers[i]
            &&& c.awaiting.contains((batch, worker)) <==> waits
            &&& forall|p: (u64, u64)|
                p != (batch, worker) ==> (c.awaiting.contains(p) <==> #[trigger] b.awaiting.contains(
                    p,
                ))
        }),
{
    let id = "worker"@ + dec(worker as nat);
    let c = worker_v(b, worker, batch, state, task, detail, yolo, node);
    let (badge, accent) = crate::board::worker_look(state);
    let card = crate::board::card_v(
        id,
        head(task, 60),
        crate::board::marked(crate::board::worker_line(batch, detail, node), yolo),
        badge,
        accent,
    );
    cards_are_put_in_place(b.workers, card);
    let i = choose|i: int| 0 <= i < c.workers.len() && c.workers[i] == card;
    assert(c.workers[i].id == id);
    waiters_are_told(b.awaiting, (batch, worker), awaits_approval(state, detail));
}

proof fn without_worker_keeps(a: Seq<(u64, u64)>, pair: (u64, u64), n: int, p: (u64, u64))
    requires
        0 <= n <= a.len(),
    ensures
        without_worker(a, pair, n).contains(p) ==> p != pair && a.contains(p),
        forall|j: int|
            0 <= j < n && #[trigger] a[j] == p && p != pair ==> without_worker(a, pair, n).contains(p),
    decreases n,
{
    if n > 0 {
        without_worker_keeps(a, pair, n - 1, p);
        pushed_contains(without_worker(a, pair, n - 1), a[n - 1], p);
        assert(a.contains(a[n - 1]));
    }
}

proof fn pushed_contains(w: Seq<(u64, u64)>, x: (u64, u64), p: (u64, u64))
    ensures
        w.push(x).contains(p) <==> w.contains(p) || p == x,
{
    if w.contains(p) {
        let j = choose|j: int| 0 <= j < w.len() && w[j] == p;
        assert(w.push(x)[j] == p);
    }
    if p == x {
        assert(w.push(x)[w.len() as int] == p);
    }
    if w.push(x).contains(p) && p != x {
        let j = choose|j: int| 0 <= j < w.push(x).len() && w.push(x)[j] == p;
        assert(w[j] == p);
    }
}

/// A worker that waits is counted, one that does not is not, and nothing changes for the
/// others.
pub proof fn waiters_are_told(a: Seq<(u64, u64)>, pair: (u64, u64), awaits: bool)
    ensures
        waiters(a, pair, awaits).contains(pair) == awaits,
        forall|p: (u64, u64)|
            p != pair ==> (waiters(a, pair, awaits).contains(p) <==> #[trigger] a.contains(p)),
{
    without_worker_keeps(a, pair, a.len() as int, pair);
    assert forall|p: (u64, u64)| p != pair implies (waiters(a, pair, awaits).contains(p)
        <==> #[trigger] a.contains(p)) by {
        pushed_contains(a, pair, p);
        without_worker_keeps(a, pair, a.len() as int, p);
        if a.contains(p) {
            let j = choose|j: int| 0 <= j < a.len() && a[j] == p;
            assert(a[j] == p);
        }
    }
    pushed_contains(a, pair, pair);
}

/// The workers of a batch that wait for the human are one card, which tells how many they
/// are; where none waits, there is none.
pub proof fn batches_wait_as_one_card(b: BoardV, batch: u64, worker: u64, awaits: bool)
    requires
        names_differ(b.blocked),
    ensures
        ({
            let id = "batchappr"@ + dec(batch as nat);
            let c = approvals_v(b, batch, worker, awaits);
            let n = waiting(c.awaiting, batch, c.awaiting.len() as int);
            &&& n == 0 ==> !carded(c.blocked, id)
            &&& n == 1 ==> exists|i: int|
                0 <= i < c.blocked.len() && (#[trigger] c.blocked[i]).id == id
                    && c.blocked[i].subtitle == dec(1) + " approval"@ + ""@ + " pending"@
            &&& n > 1 ==> exists|i: int|
                0 <= i < c.blocked.len() && (#[trigger] c.blocked[i]).id == id
                    && c.blocked[i].subtitle == dec(n) + " approval"@ + "s"@ + " pending"@
            &&& n == 0 <==> forall|i: int|
                0 <= i < c.awaiting.len() ==> (#[trigger] c.awaiting[i]).0 != batch
            &&& forall|i: int|
                0 <= i < b.blocked.len() && (#[trigger] b.blocked[i]).id != id && n > 0
                    ==> c.blocked[i] == b.blocked[i]
        }),
{
    let id = "batchappr"@ + dec(batch as nat);
    let c = approvals_v(b, batch, worker, awaits);
    let n = waiting(c.awaiting, batch, c.awaiting.len() as int);
    none_waits(c.awaiting, batch, c.awaiting.len() as int);
    cards_are_dropped_alone(b.blocked, id);
    if n > 0 {
        let card = crate::board::card_v(
            id,
            "Batch "@ + dec(batch as nat) + " workers"@,
            dec(n) + " approval"@ + crate::reader::plural_v(n) + " pending"@,
            "BATCH"@,
            crate::board::AMBER,
        );
        cards_are_put_in_place(b.blocked, card);
        let i = choose|i: int| 0 <= i < c.blocked.len() && c.blocked[i] == card;
        assert(c.blocked[i].id == id);
    }
}

proof fn none_waits(a: Seq<(u64, u64)>, batch: u64, n: int)
    requires
        0 <= n <= a.len(),
    ensures
        waiting(a, batch, n) == 0 <==> forall|i: int| 0 <= i < n ==> (#[trigger] a[i]).0 != batch,
    decreases n,
{
    if n > 0 {
        none_waits(a, batch, n - 1);
        if waiting(a, batch, n) != 0 && waiting(a, batch, n - 1) == 0 {
            assert(a[n - 1].0 == batch);
        }
    }
}

/// The end of a turn takes its card away, and the questions of single calls with it. What
/// the batches ask stays, and the turn stands first among what was finished.
pub proof fn turns_leave_the_board(b: BoardV, i: int)
    requires
        names_differ(b.active),
        0 <= i < b.blocked.len(),
    ensures
        ({
            let c = turn_done_v(b);
            &&& !carded(c.active, "turn"@)
            &&& c.recent.len() > 0
            &&& c.recent[0].title == "Turn complete"@ && c.recent[0].badge == "DONE"@
            &&& begins(b.blocked[i].id, "batchappr"@) ==> c.blocked.contains(b.blocked[i])
            &&& !begins(b.blocked[i].id, "batchappr"@) ==> !carded(c.blocked, b.blocked[i].id)
            &&& c.goals == b.goals && c.workers == b.workers && c.subagents == b.subagents
            &&& c.awaiting == b.awaiting
        }),
{
    cards_are_dropped_alone(b.active, "turn"@);
    crate::board::turns_spare_batches(b, i);
    let c = turn_done_v(b);
    if !begins(b.blocked[i].id, "batchappr"@) && carded(c.blocked, b.blocked[i].id) {
        let j = choose|j: int|
            0 <= j < c.blocked.len() && (#[trigger] c.blocked[j]).id == b.blocked[i].id;
        assert(begins(c.blocked[j].id, "batchappr"@));
    }
}

proof fn rows_are_counted(rows: Seq<BatchRow>, n: int)
    requires
        0 <= n <= rows.len(),
    ensures
        rows_done(rows, n) + rows_late(rows, n) <= n,
        (forall|i: int| 0 <= i < n ==> (#[trigger] rows[i]).timed_out) ==> rows_late(rows, n) == n,
        (forall|i: int|
            0 <= i < n ==> !(#[trigger] rows[i]).timed_out && rows[i].state == WorkerState::Done)
            ==> rows_done(rows, n) == n,
        (forall|i: int| 0 <= i < n ==> !(#[trigger] rows[i]).timed_out) ==> rows_late(rows, n) == 0,
    decreases n,
{
    if n > 0 {
        rows_are_counted(rows, n - 1);
    }
}

/// The report of a batch counts each of its rows once: as done, as failed or as too late.
pub proof fn reports_count_every_row(b: BoardV, batch: u64, rows: Seq<BatchRow>)
    ensures
        ({
            let c = batch_v(b, batch, rows);
            let done = rows_done(rows, rows.len() as int);
            let late = rows_late(rows, rows.len() as int);
            let failed = rows.len() - done - late;
            &&& failed >= 0
            &&& c.recent.len() > 0
            &&& c.recent[0].title == "Batch "@ + dec(batch as nat) + " reported"@
            &&& c.recent[0].subtitle == dec(done) + " done · "@ + dec(failed as nat) + " failed · "@
                + dec(late) + " timed out"@
            &&& (forall|i: int| 0 <= i < rows.len() ==> (#[trigger] rows[i]).timed_out) ==> late
                == rows.len()
            &&& (forall|i: int|
                0 <= i < rows.len() ==> !(#[trigger] rows[i]).timed_out && rows[i].state
                    == WorkerState::Done) ==> done == rows.len()
        }),
{
    rows_are_counted(rows, rows.len() as int);
}

/// One more row of a batch is counted where it belongs.
pub proof fn rows_count_where_they_belong(rows: Seq<BatchRow>, row: BatchRow)
    ensures
        ({
            let all = rows.push(row);
            let (n, m) = (rows.len() as int, rows.len() as int + 1);
            &&& row.timed_out ==> rows_late(all, m) == rows_late(rows, n) + 1 && rows_done(all, m)
                == rows_done(rows, n)
            &&& !row.timed_out && row.state == WorkerState::Done ==> rows_late(all, m) == rows_late(
                rows,
                n,
            ) && rows_done(all, m) == rows_done(rows, n) + 1
            &&& !row.timed_out && row.state != WorkerState::Done ==> rows_late(all, m) == rows_late(
                rows,
                n,
            ) && rows_done(all, m) == rows_done(rows, n)
        }),
{
    rows_before(rows, row, rows.len() as int);
}

proof fn rows_before(rows: Seq<BatchRow>, row: BatchRow, n: int)
    requires
        0 <= n <= rows.len(),
    ensures
        rows_late(rows.push(row), n) == rows_late(rows, n),
        rows_done(rows.push(row), n) == rows_done(rows, n),
    decreases n,
{
    if n > 0 {
        rows_before(rows, row, n - 1);
    }
}

/// A node that went dark is told as such, and one that came back as back.
pub proof fn nodes_are_told(b: BoardV, node: Seq<char>, status: Seq<char>, secs: u64)
    ensures
        node_v(b, node, status, secs).recent.len() > 0,
        status == "dark"@ ==> node_v(b, node, status, secs).recent[0].badge == "DARK"@,
        status != "dark"@ ==> node_v(b, node, status, secs).recent[0].badge == "UP"@,
        node_v(b, node, status, secs) == (BoardV {
            recent: node_v(b, node, status, secs).recent,
            ..b
        }),
{
}

} // verus!
