//! Notices: the toasts on screen, and the log behind them.
use vstd::prelude::*;
use crate::effects::{ToastKind, NOWHERE};
use crate::text::{copy, views};

verus! {

broadcast use {crate::text::views_push, crate::text::views_empty};

/// A notice.
#[derive(Debug)]
pub struct ToastItem {
    pub id: i32,
    pub kind: ToastKind,
    pub text: String,
    /// How long it stays, in milliseconds.
    pub timeout_ms: i32,
    /// The session that a click opens; none where it is negative.
    pub action_session: i32,
}

/// The model of a [`ToastItem`].
pub struct ToastItemV {
    pub id: i32,
    pub kind: ToastKind,
    pub text: Seq<char>,
    pub timeout_ms: i32,
    pub action_session: i32,
}

impl View for ToastItem {
    type V = ToastItemV;

    open spec fn view(&self) -> ToastItemV {
        ToastItemV {
            id: self.id,
            kind: self.kind,
            text: self.text@,
            timeout_ms: self.timeout_ms,
            action_session: self.action_session,
        }
    }
}

/// The notices of the shell.
#[derive(Debug)]
pub struct Notices {
    /// Those on screen, oldest first.
    pub toasts: Vec<ToastItem>,
    /// All of them, newest first.
    pub log: Vec<ToastItem>,
    /// How many came since the log was last cleared.
    pub unread: i32,
    /// The number that the next one gets.
    pub next_id: i32,
}

/// The model of [`Notices`].
pub struct NoticesV {
    pub toasts: Seq<ToastItemV>,
    pub log: Seq<ToastItemV>,
    pub unread: i32,
    pub next_id: i32,
}

impl View for Notices {
    type V = NoticesV;

    open spec fn view(&self) -> NoticesV {
        NoticesV {
            toasts: views(self.toasts@),
            log: views(self.log@),
            unread: self.unread,
            next_id: self.next_id,
        }
    }
}

/// The number after `n`.
pub open spec fn wrapping_next(n: i32) -> i32 {
    if n == i32::MAX {
        i32::MIN
    } else {
        (n + 1) as i32
    }
}

/// The number after `n`.
pub fn next_after(n: i32) -> (r: i32)
    ensures
        r == wrapping_next(n),
{
    if n == i32::MAX {
        i32::MIN
    } else {
        n + 1
    }
}

/// How long a notice of a kind stays.
pub open spec fn timeout_of(kind: ToastKind) -> i32 {
    match kind {
        ToastKind::Error => 7000,
        ToastKind::Warn => 6000,
        _ => 4000,
    }
}

/// A new notice: on screen as the newest, and at the head of the log.
pub open spec fn toasted(n: NoticesV, kind: ToastKind, text: Seq<char>, session: i32) -> NoticesV {
    let item = ToastItemV {
        id: n.next_id,
        kind,
        text,
        timeout_ms: timeout_of(kind),
        action_session: session,
    };
    NoticesV {
        toasts: n.toasts.push(item),
        log: seq![item] + n.log,
        unread: wrapping_next(n.unread),
        next_id: wrapping_next(n.next_id),
    }
}

/// The place of the first notice numbered `id` from `i` on.
pub open spec fn toast_place(s: Seq<ToastItemV>, id: i32, i: int) -> int
    decreases s.len() - i,
{
    if 0 <= i < s.len() && s[i].id != id {
        toast_place(s, id, i + 1)
    } else {
        i
    }
}

/// A notice taken off the screen. The log keeps it.
pub open spec fn dismissed(n: NoticesV, id: i32) -> NoticesV {
    let i = toast_place(n.toasts, id, 0);
    if i < n.toasts.len() {
        NoticesV { toasts: n.toasts.remove(i), ..n }
    } else {
        n
    }
}

impl Notices {
    /// No notices.
    pub fn new() -> (r: Notices)
        ensures
            r@ == (NoticesV {
                toasts: Seq::empty(),
                log: Seq::empty(),
                unread: 0,
                next_id: 1,
            }),
    {
        Notices { toasts: Vec::new(), log: Vec::new(), unread: 0, next_id: 1 }
    }

    /// Shows a notice; a click on it opens `action_session`, where that is not negative.
    pub fn toast_action(&mut self, kind: ToastKind, text: &str, action_session: i32)
        ensures
            final(self)@ == toasted(old(self)@, kind, text@, action_session),
    {
        let timeout_ms: i32 = match kind {
            ToastKind::Error => 7000,
            ToastKind::Warn => 6000,
            _ => 4000,
        };
        let id: i32 = self.next_id;
        self.next_id = next_after(id);
        self.toasts.push(ToastItem { id, kind, text: copy(text), timeout_ms, action_session });
        let ghost log = self.log@;
        let item = ToastItem { id, kind, text: copy(text), timeout_ms, action_session };
        self.log.insert(0, item);
        assert(views(self.log@) =~= seq![item@] + views(log));
        self.unread = next_after(self.unread);
    }

    /// Shows a notice.
    pub fn toast(&mut self, kind: ToastKind, text: &str)
        ensures
            final(self)@ == toasted(old(self)@, kind, text@, NOWHERE),
    {
        self.toast_action(kind, text, NOWHERE);
    }

    /// Takes a notice off the screen.
    pub fn dismiss_toast(&mut self, id: i32)
        ensures
            final(self)@ == dismissed(old(self)@, id),
    {
        let ghost before = views(self.toasts@);
        let mut i: usize = 0;
        while i < self.toasts.len() && self.toasts[i].id != id
            invariant
                i <= self.toasts@.len(),
                before == views(self.toasts@),
                self@ == old(self)@,
                toast_place(before, id, 0) == toast_place(before, id, i as int),
            decreases self.toasts@.len() - i,
        {
            i = i + 1;
        }
        if i < self.toasts.len() {
            self.toasts.remove(i);
            assert(views(self.toasts@) =~= before.remove(i as int));
        }
    }

    /// Empties the log.
    pub fn clear_log(&mut self)
        ensures
            final(self)@ == (NoticesV { log: Seq::empty(), unread: 0, ..old(self)@ }),
    {
        self.log = Vec::new();
        self.unread = 0;
    }
}

// ── Laws ────────────────────────────────────────────────────────────────────

/// A notice that has just come can be taken off the screen again, and the log still
/// holds it.
pub proof fn dismissing_a_new_toast(n: NoticesV, kind: ToastKind, text: Seq<char>, session: i32)
    requires
        forall|i: int| 0 <= i < n.toasts.len() ==> (#[trigger] n.toasts[i]).id != n.next_id,
    ensures
        dismissed(toasted(n, kind, text, session), n.next_id).toasts == n.toasts,
        dismissed(toasted(n, kind, text, session), n.next_id).log == toasted(
            n,
            kind,
            text,
            session,
        ).log,
{
    let t = toasted(n, kind, text, session);
    toast_place_at_end(t.toasts, n.next_id, 0);
    assert(t.toasts.remove(n.toasts.len() as int) =~= n.toasts);
}

proof fn toast_place_at_end(s: Seq<ToastItemV>, id: i32, i: int)
    requires
        0 <= i < s.len(),
        s.last().id == id,
        forall|j: int| 0 <= j < s.len() - 1 ==> (#[trigger] s[j]).id != id,
    ensures
        toast_place(s, id, i) == s.len() - 1,
    decreases s.len() - i,
{
    if i < s.len() - 1 {
        toast_place_at_end(s, id, i + 1);
    }
}

} // verus!
