//! The mesh inbox: one thread for each peer, the latest on top.
use vstd::prelude::*;
use crate::json::{int_or, items_at, items_or_none, Json, JsonV};
use crate::notices::{next_after, wrapping_next};
use crate::reader::{json_str, str_v};
use crate::text::{cat, copy, dec, decimal, same, views};

verus! {

broadcast use {crate::text::views_push, crate::text::views_empty};

/// What a peer wrote last, and how much of it is unread.
#[derive(Debug)]
pub struct InboxThread {
    pub node_id: String,
    pub preview: String,
    pub unread: i32,
    /// How long ago it wrote, in words.
    pub last_seen: String,
    /// When it wrote, in seconds.
    pub last_ts: i32,
    pub session: i32,
}

/// The model of an [`InboxThread`].
pub struct InboxThreadV {
    pub node_id: Seq<char>,
    pub preview: Seq<char>,
    pub unread: i32,
    pub last_seen: Seq<char>,
    pub last_ts: i32,
    pub session: i32,
}

impl View for InboxThread {
    type V = InboxThreadV;

    open spec fn view(&self) -> InboxThreadV {
        InboxThreadV {
            node_id: self.node_id@,
            preview: self.preview@,
            unread: self.unread,
            last_seen: self.last_seen@,
            last_ts: self.last_ts,
            session: self.session,
        }
    }
}

/// The inbox.
#[derive(Debug)]
pub struct Inbox {
    pub threads: Vec<InboxThread>,
}

impl View for Inbox {
    type V = Seq<InboxThreadV>;

    open spec fn view(&self) -> Seq<InboxThreadV> {
        views(self.threads@)
    }
}

/// A span of seconds in words.
pub open spec fn ago_v(delta: int) -> Seq<char> {
    let d = if delta < 0 {
        0
    } else {
        delta
    };
    if d < 45 {
        "just now"@
    } else if d < 5_400 {
        dec(((d + 30) / 60) as nat) + "m ago"@
    } else if d < 86_400 {
        dec(((d + 1_800) / 3_600) as nat) + "h ago"@
    } else {
        dec((d / 86_400) as nat) + "d ago"@
    }
}

fn ago(delta: i128) -> (r: String)
    ensures
        r@ == ago_v(delta as int),
{
    if delta < 45 {
        copy("just now")
    } else if delta < 5_400 {
        cat(decimal(((delta + 30) / 60) as u128).as_str(), "m ago")
    } else if delta < 86_400 {
        cat(decimal(((delta + 1_800) / 3_600) as u128).as_str(), "h ago")
    } else {
        cat(decimal((delta / 86_400) as u128).as_str(), "d ago")
    }
}

/// A span of seconds in words.
pub fn ago_label(delta: i64) -> (r: String)
    ensures
        r@ == ago_v(delta as int),
{
    ago(delta as i128)
}

/// A moment's lower half: what a 32-bit field keeps of it.
pub open spec fn low_half(n: i64) -> i32 {
    n as i32
}

/// The place of the first thread of a peer from `i` on; the end where there is none.
pub open spec fn peer_place(t: Seq<InboxThreadV>, node: Seq<char>, i: int) -> int
    decreases t.len() - i,
{
    if 0 <= i < t.len() && t[i].node_id != node {
        peer_place(t, node, i + 1)
    } else {
        i
    }
}

/// The inbox after a peer wrote: its thread is on top, with one more unread.
pub open spec fn upserted(
    t: Seq<InboxThreadV>,
    node: Seq<char>,
    session: i32,
    preview: Seq<char>,
    now: i64,
) -> Seq<InboxThreadV> {
    let i = peer_place(t, node, 0);
    let rest = if i < t.len() {
        t.remove(i)
    } else {
        t
    };
    let unread = if i < t.len() {
        t[i].unread
    } else {
        0
    };
    seq![
        InboxThreadV {
            node_id: node,
            preview,
            unread: wrapping_next(unread),
            last_seen: ago_v(0),
            last_ts: low_half(now),
            session,
        },
    ] + rest
}

/// A thread once its session was opened.
pub open spec fn seen(t: InboxThreadV, session: i32) -> InboxThreadV {
    if t.session == session {
        InboxThreadV { unread: 0, ..t }
    } else {
        t
    }
}

/// A thread with its time told anew.
pub open spec fn restamped(t: InboxThreadV, now: i64) -> InboxThreadV {
    InboxThreadV { last_seen: ago_v(now - t.last_ts), ..t }
}

/// How much is unread in the first `n` threads.
pub open spec fn unread_v(t: Seq<InboxThreadV>, n: int) -> int
    decreases n,
{
    if n <= 0 {
        0
    } else {
        unread_v(t, n - 1) + t[n - 1].unread
    }
}

/// The thread that a row of the gateway's list describes.
pub open spec fn thread_v(row: JsonV, now: i64) -> InboxThreadV {
    let ts = int_or(row, "last_ts"@, 0);
    InboxThreadV {
        node_id: str_v(row, "node_id"@),
        preview: str_v(row, "preview"@),
        unread: int_or(row, "unread"@, 0) as i32,
        last_seen: ago_v(now - ts),
        last_ts: low_half(ts),
        session: int_or(row, "session"@, 0) as i32,
    }
}

/// The threads of the first `n` rows; a row without a peer has none.
pub open spec fn threads_v(a: Seq<JsonV>, now: i64, n: int) -> Seq<InboxThreadV>
    decreases n,
{
    if n <= 0 {
        Seq::empty()
    } else if str_v(a[n - 1], "node_id"@).len() == 0 {
        threads_v(a, now, n - 1)
    } else {
        threads_v(a, now, n - 1).push(thread_v(a[n - 1], now))
    }
}

/// The inbox that the gateway's list describes.
pub open spec fn seeded(body: JsonV, now: i64) -> Seq<InboxThreadV> {
    let a = items_or_none(body, "threads"@);
    threads_v(a, now, a.len() as int)
}

fn narrow(n: i64) -> (r: i32)
    ensures
        r == n as i32,
{
    #[verifier::truncate]
    (n as i32)
}

impl Inbox {
    /// An empty inbox.
    pub fn new() -> (r: Inbox)
        ensures
            r@ == Seq::<InboxThreadV>::empty(),
    {
        Inbox { threads: Vec::new() }
    }

    /// A peer wrote.
    pub fn upsert(&mut self, from: &str, session: i32, preview: &str, now: i64)
        ensures
            final(self)@ == upserted(old(self)@, from@, session, preview@, now),
    {
        let ghost before = self@;
        let mut i: usize = 0;
        while i < self.threads.len() && !same(self.threads[i].node_id.as_str(), from)
            invariant
                i <= self.threads@.len(),
                self@ == before,
                peer_place(before, from@, 0) == peer_place(before, from@, i as int),
            decreases self.threads@.len() - i,
        {
            i = i + 1;
        }
        let mut unread: i32 = 0;
        let ghost rest = if i < before.len() {
            before.remove(i as int)
        } else {
            before
        };
        if i < self.threads.len() {
            unread = self.threads[i].unread;
            self.threads.remove(i);
            assert(views(self.threads@) =~= rest);
        }
        let item = InboxThread {
            node_id: copy(from),
            preview: copy(preview),
            unread: next_after(unread),
            last_seen: ago_label(0),
            last_ts: narrow(now),
            session,
        };
        self.threads.insert(0, item);
        assert(views(self.threads@) =~= seq![item@] + rest);
    }

    /// The human opened a session: its thread is read.
    pub fn clear_session(&mut self, session: i32)
        ensures
            final(self)@ == old(self)@.map_values(|t: InboxThreadV| seen(t, session)),
    {
        let ghost before = self@;
        let ghost want = before.map_values(|t: InboxThreadV| seen(t, session));
        let mut i: usize = 0;
        while i < self.threads.len()
            invariant
                i <= self.threads@.len() == before.len(),
                want == before.map_values(|t: InboxThreadV| seen(t, session)),
                forall|j: int| 0 <= j < i ==> views(self.threads@)[j] == want[j],
                forall|j: int| i <= j < before.len() ==> views(self.threads@)[j] == before[j],
            decreases self.threads@.len() - i,
        {
            if self.threads[i].session == session {
                self.threads[i].unread = 0;
            }
            i = i + 1;
        }
        assert(self@ =~= want);
    }

    /// Tells every thread's time anew.
    pub fn restamp(&mut self, now: i64)
        ensures
            final(self)@ == old(self)@.map_values(|t: InboxThreadV| restamped(t, now)),
    {
        let ghost before = self@;
        let ghost want = before.map_values(|t: InboxThreadV| restamped(t, now));
        let mut i: usize = 0;
        while i < self.threads.len()
            invariant
                i <= self.threads@.len() == before.len(),
                want == before.map_values(|t: InboxThreadV| restamped(t, now)),
                forall|j: int| 0 <= j < i ==> views(self.threads@)[j] == want[j],
                forall|j: int| i <= j < before.len() ==> views(self.threads@)[j] == before[j],
            decreases self.threads@.len() - i,
        {
            assert(views(self.threads@)[i as int] == before[i as int]);
            let delta: i128 = now as i128 - self.threads[i].last_ts as i128;
            self.threads[i].last_seen = ago(delta);
            i = i + 1;
        }
        assert(self@ =~= want);
    }

    /// How much is unread.
    pub fn unread(&self) -> (r: i128)
        ensures
            r == unread_v(self@, self@.len() as int),
    {
        let mut n: i128 = 0;
        for i in 0..self.threads.len()
            invariant
                n == unread_v(self@, i as int),
                -0x8000_0000 * (i as int) <= n <= 0x8000_0000 * (i as int),
                self.threads@.len() <= usize::MAX,
        {
            n = n + self.threads[i].unread as i128;
        }
        n
    }

    /// Takes in the gateway's list of threads.
    pub fn seed(&mut self, body: &Json, now: i64)
        ensures
            final(self)@ == seeded(body@, now),
    {
        let arr = body.items_at("threads");
        let ghost a = views(arr@);
        let mut out: Vec<InboxThread> = Vec::new();
        for i in 0..arr.len()
            invariant
                a == views(arr@),
                views(out@) == threads_v(a, now, i as int),
        {
            assert(a[i as int] == arr@[i as int]@);
            let node_id = json_str(&arr[i], "node_id");
            if !node_id.as_str().is_empty() {
                let ts: i64 = arr[i].i64_or("last_ts", 0);
                out.push(
                    InboxThread {
                        node_id,
                        preview: json_str(&arr[i], "preview"),
                        unread: narrow(arr[i].i64_or("unread", 0)),
                        last_seen: ago(now as i128 - ts as i128),
                        last_ts: narrow(ts),
                        session: narrow(arr[i].i64_or("session", 0)),
                    },
                );
            }
        }
        self.threads = out;
    }
}

// ── Laws ────────────────────────────────────────────────────────────────────

/// No two threads are of the same peer.
pub open spec fn peers_differ(t: Seq<InboxThreadV>) -> bool {
    forall|i: int, j: int|
        0 <= i < j < t.len() ==> (#[trigger] t[i]).node_id != (#[trigger] t[j]).node_id
}

proof fn peer_place_bounds(t: Seq<InboxThreadV>, node: Seq<char>, i: int)
    requires
        0 <= i <= t.len(),
    ensures
        i <= peer_place(t, node, i) <= t.len(),
        peer_place(t, node, i) < t.len() ==> t[peer_place(t, node, i)].node_id == node,
        forall|j: int| i <= j < peer_place(t, node, i) ==> (#[trigger] t[j]).node_id != node,
    decreases t.len() - i,
{
    if i < t.len() && t[i].node_id != node {
        peer_place_bounds(t, node, i + 1);
    }
}

/// A peer keeps one thread, whatever it writes, and the one that wrote last is on top.
pub proof fn peers_keep_one_thread(
    t: Seq<InboxThreadV>,
    node: Seq<char>,
    session: i32,
    preview: Seq<char>,
    now: i64,
)
    requires
        peers_differ(t),
    ensures
        peers_differ(upserted(t, node, session, preview, now)),
        upserted(t, node, session, preview, now)[0].node_id == node,
        upserted(t, node, session, preview, now).len() <= t.len() + 1,
{
    peer_place_bounds(t, node, 0);
    let i = peer_place(t, node, 0);
    let u = upserted(t, node, session, preview, now);
    if i < t.len() {
        assert forall|j: int| 0 < j < u.len() implies #[trigger] u[j] == t[if j - 1 < i {
            j - 1
        } else {
            j
        }] by {}
    } else {
        assert forall|j: int| 0 < j < u.len() implies #[trigger] u[j] == t[j - 1] by {}
    }
}

/// Opening a session leaves nothing of it unread.
pub proof fn opened_sessions_are_read(t: Seq<InboxThreadV>, session: i32, i: int)
    requires
        0 <= i < t.len(),
    ensures
        ({
            let u = t.map_values(|x: InboxThreadV| seen(x, session));
            &&& u[i].session == session ==> u[i].unread == 0
            &&& u[i].session != session ==> u[i] == t[i]
        }),
{
}

} // verus!
