//! How sessions are listed, picked and swept.
use vstd::prelude::*;
use crate::json::{text_or, uint_or, JsonV};
use crate::sessions::{
    due_v, picked, place_v, session_rows_v, swept_v, time_ago_v, toggled, wide, SessionItemV,
    SweepKind, SweepStep, SweepV,
};
use crate::text::dec;

verus! {

/// How long ago a session was active is told in full minutes, hours or days.
pub proof fn session_ages_are_told(now: nat, then: nat)
    ensures
        now < then + 60 ==> time_ago_v(now, then) == "just now"@,
        then + 60 <= now < then + 3_600 ==> exists|m: nat|
            time_ago_v(now, then) == #[trigger] dec(m) + " min ago"@ && 0 <= now - then - 60 * m
                < 60,
        then + 3_600 <= now < then + 86_400 ==> exists|h: nat|
            time_ago_v(now, then) == #[trigger] dec(h) + " hr ago"@ && 0 <= now - then - 3_600 * h
                < 3_600,
        then + 86_400 <= now ==> exists|n: nat|
            time_ago_v(now, then) == #[trigger] dec(n) + " days ago"@ && 0 <= now - then - 86_400
                * n < 86_400,
{
    let d = now - then;
    if 60 <= d < 3_600 {
        let m = (d / 60) as nat;
        assert(time_ago_v(now, then) == dec(m) + " min ago"@ && 0 <= d - 60 * m < 60);
    } else if 3_600 <= d < 86_400 {
        let h = (d / 3_600) as nat;
        assert(time_ago_v(now, then) == dec(h) + " hr ago"@ && 0 <= d - 3_600 * h < 3_600);
    } else if 86_400 <= d {
        let n = (d / 86_400) as nat;
        assert(time_ago_v(now, then) == dec(n) + " days ago"@ && 0 <= d - 86_400 * n < 86_400);
    }
}

/// Sessions are listed in their order, each with its preview and age, and none picked.
pub proof fn sessions_are_listed(a: Seq<JsonV>, n: int, now: u64, i: int)
    requires
        0 <= i < n <= a.len(),
    ensures
        session_rows_v(a, n, now).len() == n,
        session_rows_v(a, n, now)[i].preview == text_or(a[i], "preview"@, ""@),
        session_rows_v(a, n, now)[i].time_ago == time_ago_v(
            now as nat,
            uint_or(a[i], "last_active"@, 0) as nat,
        ),
        session_rows_v(a, n, now)[i].session_id == uint_or(a[i], "session_id"@, 0) as i32,
        session_rows_v(a, n, now)[i].message_count == uint_or(a[i], "message_count"@, 0) as i32,
        !session_rows_v(a, n, now)[i].selected,
    decreases n,
{
    if n == 1 {
        assert(session_rows_v(a, 0, now).len() == 0);
    } else if i < n - 1 {
        sessions_are_listed(a, n - 1, now, i);
    } else {
        sessions_are_listed(a, n - 1, now, 0);
    }
}

proof fn session_is_at(s: Seq<SessionItemV>, id: i32, i: int, from: int)
    requires
        0 <= from <= i < s.len(),
        s[i].session_id == id,
        forall|j: int| 0 <= j < i ==> (#[trigger] s[j]).session_id != id,
    ensures
        place_v(s, id, from) == i,
    decreases i - from,
{
    if from < i {
        session_is_at(s, id, i, from + 1);
    }
}

/// Picking a session turns the mark of that session, and of no other.
pub proof fn picking_turns_one_mark(s: Seq<SessionItemV>, id: i32, i: int, j: int)
    requires
        0 <= i < s.len(),
        0 <= j < s.len(),
        s[i].session_id == id,
        forall|h: int| 0 <= h < i ==> (#[trigger] s[h]).session_id != id,
    ensures
        toggled(s, id).len() == s.len(),
        toggled(s, id)[i] == (SessionItemV { selected: !s[i].selected, ..s[i] }),
        j != i ==> toggled(s, id)[j] == s[j],
{
    session_is_at(s, id, i, 0);
}

/// The sessions that are picked are those with the mark.
pub proof fn marked_sessions_are_picked(s: Seq<SessionItemV>, n: int, i: int)
    requires
        0 <= n <= s.len(),
    ensures
        0 <= i < n && s[i].selected ==> picked(s, n).contains(wide(s[i].session_id)),
        0 <= i < picked(s, n).len() ==> exists|j: int|
            0 <= j < n && (#[trigger] s[j]).selected && picked(s, n)[i] == wide(s[j].session_id),
    decreases n,
{
    if n > 0 {
        marked_sessions_are_picked(s, n - 1, i);
        let p = picked(s, n - 1);
        let q = picked(s, n);
        if 0 <= i < n && s[i].selected {
            if i == n - 1 {
                assert(q[q.len() - 1] == wide(s[i].session_id));
            } else {
                let h = choose|h: int| 0 <= h < p.len() && p[h] == wide(s[i].session_id);
                assert(q[h] == wide(s[i].session_id));
            }
        }
        if 0 <= i < q.len() && i == p.len() {
            assert(s[n - 1].selected);
        }
    }
}

/// A sweep asks for one session after the other what it is for, and counts those that went
/// well.
pub proof fn sweeps_take_each_session(s: SweepV, ok: bool)
    requires
        0 <= s.at < s.ids.len(),
        s.kind != SweepKind::ConsolidateDelete,
    ensures
        s.kind == SweepKind::Archive ==> due_v(s) == Some(SweepStep::Archive(s.ids[s.at])),
        s.kind == SweepKind::Delete ==> due_v(s) == Some(SweepStep::Delete(s.ids[s.at])),
        s.kind == SweepKind::Consolidate ==> due_v(s) == Some(SweepStep::Consolidate(s.ids[s.at])),
        swept_v(s, ok).at == s.at + 1,
        swept_v(s, ok).done == s.done + if ok {
            1int
        } else {
            0
        },
{
}

} // verus!
