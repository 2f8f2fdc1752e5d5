//! How notices are shown, and how events are told.
use vstd::prelude::*;
use crate::effects::ToastKind;
use crate::journal::{cut_text, part_v, parts_v};
use crate::json::JsonV;
use crate::notices::{dismissed, toast_place, toasted, NoticesV};

verus! {

/// A notice is shown last and logged first, with what it says; it is one more that is unread.
/// Errors stay longest, then warnings.
pub proof fn notices_are_shown(n: NoticesV, kind: ToastKind, text: Seq<char>, session: i32)
    requires
        n.unread < i32::MAX,
    ensures
        ({
            let m = toasted(n, kind, text, session);
            let t = m.toasts.last();
            &&& m.toasts.drop_last() == n.toasts
            &&& m.log.skip(1) == n.log && m.log[0] == t
            &&& t.text == text && t.kind == kind && t.action_session == session
            &&& m.unread == n.unread + 1
            &&& kind == ToastKind::Error ==> t.timeout_ms == 7000
            &&& kind == ToastKind::Warn ==> t.timeout_ms == 6000
            &&& kind == ToastKind::Info || kind == ToastKind::Success ==> t.timeout_ms == 4000
        }),
{
    let m = toasted(n, kind, text, session);
    assert(m.toasts.drop_last() =~= n.toasts);
    assert(m.log.skip(1) =~= n.log);
}

proof fn toast_is_at(n: NoticesV, id: i32, i: int, from: int)
    requires
        0 <= from <= i < n.toasts.len(),
        n.toasts[i].id == id,
        forall|j: int| 0 <= j < i ==> (#[trigger] n.toasts[j]).id != id,
    ensures
        toast_place(n.toasts, id, from) == i,
    decreases i - from,
{
    if from < i {
        toast_is_at(n, id, i, from + 1);
    }
}

/// A notice that is dismissed goes alone, and stays in the log.
pub proof fn notices_go_alone(n: NoticesV, i: int)
    requires
        0 <= i < n.toasts.len(),
        forall|j: int| 0 <= j < i ==> (#[trigger] n.toasts[j]).id != n.toasts[i].id,
    ensures
        dismissed(n, n.toasts[i].id).toasts == n.toasts.take(i) + n.toasts.skip(i + 1),
        dismissed(n, n.toasts[i].id).log == n.log,
        dismissed(n, n.toasts[i].id).unread == n.unread,
{
    toast_is_at(n, n.toasts[i].id, i, 0);
    assert(n.toasts.remove(i) =~= n.toasts.take(i) + n.toasts.skip(i + 1));
}

/// The parts of an event are told in their order, as long as there are no more than four.
pub proof fn parts_are_told(e: Seq<(Seq<char>, JsonV)>, n: int, i: int)
    requires
        0 <= i < n <= e.len(),
        n <= 4,
        forall|j: int| 0 <= j < e.len() ==> part_v(#[trigger] e[j]) is Some,
    ensures
        parts_v(e, n).len() == n,
        parts_v(e, n)[i] == part_v(e[i])->0,
    decreases n,
{
    assert(part_v(e[n - 1]) is Some);
    if n == 1 {
        assert(parts_v(e, 0).len() == 0);
    } else if i < n - 1 {
        parts_are_told(e, n - 1, i);
    } else {
        parts_are_told(e, n - 1, 0);
    }
}

/// A part is told by its name and what it holds; the type is not told again.
pub proof fn parts_are_named(name: Seq<char>, s: Seq<char>, b: bool)
    ensures
        part_v(("type"@, JsonV::Str(s))) is None,
        name != "type"@ && s.len() <= 40 ==> part_v((name, JsonV::Str(s))) == Some(
            name + "="@ + s,
        ),
        name != "type"@ ==> part_v((name, JsonV::Bool(b))) == Some(
            name + "="@ + if b {
                "true"@
            } else {
                "false"@
            },
        ),
{
    if s.len() <= 40 {
        assert(s.take(s.len() as int) =~= s);
        assert(cut_text(s, 40) =~= s);
        assert(name + "="@ + cut_text(s, 40) =~= name + "="@ + s);
    }
}

} // verus!
