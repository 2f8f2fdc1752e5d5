//! What the inbox shows of the peers' messages.
use vstd::prelude::*;
use crate::inbox::{
    ago_v, peer_place, peers_differ, seeded, threads_v, unread_v, upserted, InboxThreadV,
};
use crate::json::{int_or, items_or_none, text_or, JsonV};
use crate::text::dec;

verus! {

proof fn peer_is_at(t: Seq<InboxThreadV>, node: Seq<char>, i: int, from: int)
    requires
        peers_differ(t),
        0 <= from <= i < t.len(),
        t[i].node_id == node,
    ensures
        peer_place(t, node, from) == i,
    decreases i - from,
{
    if from < i {
        assert(t[from].node_id != t[i].node_id);
        peer_is_at(t, node, i, from + 1);
    }
}

proof fn peer_is_nowhere(t: Seq<InboxThreadV>, node: Seq<char>, from: int)
    requires
        0 <= from <= t.len(),
        forall|j: int| 0 <= j < t.len() ==> (#[trigger] t[j]).node_id != node,
    ensures
        peer_place(t, node, from) == t.len(),
    decreases t.len() - from,
{
    if from < t.len() {
        peer_is_nowhere(t, node, from + 1);
    }
}

/// A message from a peer that has a thread brings the thread to the top, with one message
/// more unread; the other threads keep their order.
pub proof fn messages_raise_their_thread(
    t: Seq<InboxThreadV>,
    node: Seq<char>,
    session: i32,
    preview: Seq<char>,
    now: i64,
    i: int,
)
    requires
        peers_differ(t),
        0 <= i < t.len(),
        t[i].node_id == node,
        t[i].unread < i32::MAX,
    ensures
        ({
            let u = upserted(t, node, session, preview, now);
            &&& u.len() == t.len()
            &&& u[0].node_id == node && u[0].preview == preview && u[0].session == session
            &&& u[0].unread == t[i].unread + 1
            &&& u[0].last_seen == "just now"@
            &&& forall|j: int| 0 <= j < i ==> u[j + 1] == #[trigger] t[j]
            &&& forall|j: int| i < j < t.len() ==> #[trigger] u[j] == t[j]
        }),
{
    peer_is_at(t, node, i, 0);
}

/// A message from a peer without a thread starts one, above the others.
pub proof fn messages_start_a_thread(
    t: Seq<InboxThreadV>,
    node: Seq<char>,
    session: i32,
    preview: Seq<char>,
    now: i64,
)
    requires
        forall|j: int| 0 <= j < t.len() ==> (#[trigger] t[j]).node_id != node,
    ensures
        ({
            let u = upserted(t, node, session, preview, now);
            &&& u.len() == t.len() + 1
            &&& u.skip(1) == t
            &&& u[0].node_id == node && u[0].preview == preview && u[0].session == session
            &&& u[0].unread == 1
        }),
{
    peer_is_nowhere(t, node, 0);
    assert(upserted(t, node, session, preview, now).skip(1) =~= t);
}

/// The messages that are unread are those of each thread together.
pub proof fn unread_messages_add_up(a: Seq<InboxThreadV>, b: Seq<InboxThreadV>)
    ensures
        unread_v(a + b, (a + b).len() as int) == unread_v(a, a.len() as int) + unread_v(
            b,
            b.len() as int,
        ),
        a.len() == 1 ==> unread_v(a, 1) == a[0].unread,
    decreases b.len(),
{
    reveal_with_fuel(unread_v, 2);
    if b.len() == 0 {
        assert(a + b =~= a);
    } else {
        let c = b.drop_last();
        unread_messages_add_up(a, c);
        unread_alike(a + b, a + c, (a + c).len() as int);
        unread_alike(b, c, c.len() as int);
    }
}

proof fn unread_alike(a: Seq<InboxThreadV>, b: Seq<InboxThreadV>, n: int)
    requires
        n <= a.len() && n <= b.len(),
        forall|i: int| 0 <= i < n ==> a[i] == b[i],
    ensures
        unread_v(a, n) == unread_v(b, n),
    decreases n,
{
    if n > 0 {
        unread_alike(a, b, n - 1);
    }
}

proof fn threads_in_order(a: Seq<JsonV>, now: i64, n: int)
    requires
        0 <= n <= a.len(),
        forall|j: int| 0 <= j < a.len() ==> text_or(#[trigger] a[j], "node_id"@, ""@).len() > 0,
    ensures
        threads_v(a, now, n).len() == n,
        forall|j: int|
            0 <= j < n ==> (#[trigger] threads_v(a, now, n)[j]).node_id == text_or(
                a[j],
                "node_id"@,
                ""@,
            ) && threads_v(a, now, n)[j].preview == text_or(a[j], "preview"@, ""@) && threads_v(
                a,
                now,
                n,
            )[j].last_seen == ago_v(now - int_or(a[j], "last_ts"@, 0)),
    decreases n,
{
    if n > 0 {
        threads_in_order(a, now, n - 1);
        assert(text_or(a[n - 1], "node_id"@, ""@).len() > 0);
    }
}

/// The threads that are kept elsewhere come in their order, each with its peer and preview.
pub proof fn threads_are_brought_in(body: JsonV, now: i64, i: int)
    requires
        0 <= i < items_or_none(body, "threads"@).len(),
        forall|j: int|
            0 <= j < items_or_none(body, "threads"@).len() ==> text_or(
                #[trigger] items_or_none(body, "threads"@)[j],
                "node_id"@,
                ""@,
            ).len() > 0,
    ensures
        seeded(body, now).len() == items_or_none(body, "threads"@).len(),
        seeded(body, now)[i].node_id == text_or(
            items_or_none(body, "threads"@)[i],
            "node_id"@,
            ""@,
        ),
        seeded(body, now)[i].preview == text_or(
            items_or_none(body, "threads"@)[i],
            "preview"@,
            ""@,
        ),
{
    let a = items_or_none(body, "threads"@);
    threads_in_order(a, now, a.len() as int);
}

/// How long ago something was is told in the nearest minutes or hours, or in full days.
pub proof fn ages_are_told(d: int)
    ensures
        d < 45 ==> ago_v(d) == "just now"@,
        45 <= d < 5_400 ==> exists|m: nat|
            ago_v(d) == #[trigger] dec(m) + "m ago"@ && -30 <= d - 60 * m <= 30,
        5_400 <= d < 86_400 ==> exists|h: nat|
            ago_v(d) == #[trigger] dec(h) + "h ago"@ && -1_800 <= d - 3_600 * h <= 1_800,
        86_400 <= d ==> exists|n: nat|
            ago_v(d) == #[trigger] dec(n) + "d ago"@ && 0 <= d - 86_400 * n < 86_400,
{
    if 45 <= d < 5_400 {
        let m = ((d + 30) / 60) as nat;
        assert(ago_v(d) == dec(m) + "m ago"@ && -30 <= d - 60 * m <= 30);
    } else if 5_400 <= d < 86_400 {
        let h = ((d + 1_800) / 3_600) as nat;
        assert(ago_v(d) == dec(h) + "h ago"@ && -1_800 <= d - 3_600 * h <= 1_800);
    } else if 86_400 <= d {
        let n = (d / 86_400) as nat;
        assert(ago_v(d) == dec(n) + "d ago"@ && 0 <= d - 86_400 * n < 86_400);
    }
}

} // verus!
