//! What a reflex does when its event comes.
use vstd::prelude::*;
use crate::apps::{app_named, AppKind};
use crate::desktop::{
    agent_close_v, agent_focus_v, agent_open_v, has_bit, kind_place, DesktopV,
};
use crate::effects::EffectV;
use crate::desktop::WindowDesc;
use crate::json::{flagged, text_or, JsonV};
use crate::reflex::{
    acted_all, acts, applied_v, counted_v, due_v, fired, is_action, is_trigger, key_place, keyed,
    keys_differ, remove_v, stamped_v, ReflexV,
};

verus! {

/// Whether a reflex waits for an event, and has rested long enough: thirty seconds.
pub open spec fn ready(r: ReflexV, trigger: Seq<char>, now: u64) -> bool {
    r.on == trigger && (r.last_fired matches Some(at) ==> now - at >= 30_000)
}

/// Whether the reflex at `i` is the one that is ready.
pub open spec fn only_ready(t: Seq<ReflexV>, trigger: Seq<char>, now: u64, i: int) -> bool {
    &&& 0 <= i < t.len()
    &&& ready(t[i], trigger, now)
    &&& forall|j: int| 0 <= j < t.len() && j != i ==> !ready(#[trigger] t[j], trigger, now)
}

proof fn dues_of_one(t: Seq<ReflexV>, trigger: Seq<char>, now: u64, i: int, n: int)
    requires
        0 <= n <= t.len(),
        forall|j: int| 0 <= j < t.len() && j != i ==> !ready(#[trigger] t[j], trigger, now),
        0 <= i < t.len() ==> ready(t[i], trigger, now),
    ensures
        n <= i || i < 0 ==> due_v(t, trigger, now, n).len() == 0 && stamped_v(t, trigger, now, n)
            == t.take(n),
        0 <= i < n ==> due_v(t, trigger, now, n) == seq![(t[i].action, t[i].app)] && stamped_v(
            t,
            trigger,
            now,
            n,
        ) == t.take(n).update(i, ReflexV { last_fired: Some(now), ..t[i] }),
    decreases n,
{
    if n > 0 {
        dues_of_one(t, trigger, now, i, n - 1);
        let x = t[n - 1];
        assert(n - 1 != i ==> !ready(x, trigger, now));
        assert(stamped_v(t, trigger, now, n) =~= if 0 <= i < n {
            t.take(n).update(i, ReflexV { last_fired: Some(now), ..t[i] })
        } else {
            t.take(n)
        });
        if i == n - 1 {
            assert(due_v(t, trigger, now, n) =~= seq![(t[i].action, t[i].app)]);
        }
    } else {
        assert(t.take(0) =~= Seq::<ReflexV>::empty());
    }
}

/// Where no reflex is ready for an event, nothing happens.
pub proof fn nothing_is_ready(d: DesktopV, t: Seq<ReflexV>, trigger: Seq<char>, now: u64)
    requires
        forall|j: int| 0 <= j < t.len() ==> !ready(#[trigger] t[j], trigger, now),
    ensures
        fired(d, t, trigger, now) == (d, t, Seq::<EffectV>::empty()),
{
    dues_of_one(t, trigger, now, -1, t.len() as int);
    assert(t.take(t.len() as int) =~= t);
}

/// The reflex that is ready does what it was left for, as the agent would: it opens its app,
/// raises it or closes it. It then rests, whatever came of it. No other reflex changes.
pub proof fn a_ready_reflex_acts(
    d: DesktopV,
    t: Seq<ReflexV>,
    trigger: Seq<char>,
    now: u64,
    i: int,
    k: AppKind,
)
    requires
        only_ready(t, trigger, now, i),
        app_named(t[i].app) == Some(k),
    ensures
        ({
            let (e, u, fx) = fired(d, t, trigger, now);
            &&& t[i].action == "open"@ ==> e == agent_open_v(d, k)
            &&& t[i].action == "focus"@ ==> e == agent_focus_v(d, k)
            &&& t[i].action == "close"@ ==> e == agent_close_v(d, k)
            &&& u.len() == t.len()
            &&& forall|j: int| 0 <= j < t.len() && !(t[j].on == trigger && t[j].app == t[i].app)
                ==> #[trigger] u[j] == t[j]
            &&& t[i].action == "open"@ && has_bit(d.latched, k) ==> fx.len() == 0
            &&& t[i].action == "open"@ && !has_bit(d.latched, k) ==> fx.len() == 3 && fx[0]
                == EffectV::Refresh(k) && fx[2] == EffectV::SaveReflexes
        }),
{
    reveal_strlit("open");
    reveal_strlit("focus");
    reveal_strlit("close");
    assert("open"@.len() == 4 && "focus"@.len() == 5 && "close"@.len() == 5);
    assert("focus"@[0] == 'f' && "close"@[0] == 'c');
    dues_of_one(t, trigger, now, i, t.len() as int);
    assert(t.take(t.len() as int) =~= t);
    let s = t.update(i, ReflexV { last_fired: Some(now), ..t[i] });
    let dues = seq![(t[i].action, t[i].app)];
    reveal_with_fuel(acted_all, 2);
    counting_changes_one(s, trigger, t[i].action, t[i].app, 0);
    let (e, u, fx) = fired(d, t, trigger, now);
    assert forall|j: int| 0 <= j < t.len() && !(t[j].on == trigger && t[j].app == t[i].app) implies
        #[trigger] u[j] == t[j] by {
        assert(j != i);
        assert(s[j] == t[j]);
    }
}

proof fn counting_changes_one(
    t: Seq<ReflexV>,
    trigger: Seq<char>,
    action: Seq<char>,
    app: Seq<char>,
    i: int,
)
    requires
        0 <= i <= t.len(),
    ensures
        counted_v(t, trigger, action, app, i).len() == t.len(),
        forall|j: int|
            0 <= j < t.len() && !(t[j].on == trigger && t[j].app == app) ==> (
            #[trigger] counted_v(t, trigger, action, app, i)[j]) == t[j],
    decreases t.len() - i,
{
    if i < t.len() {
        counting_changes_one(t, trigger, action, app, i + 1);
    }
}

/// What the agent leaves with the shell is kept where the event, the app and the action are
/// known; a rule for the same event and app is replaced, and others stay. What it takes back
/// is gone. Anything else changes nothing.
pub proof fn words_on_reflexes(t: Seq<ReflexV>, args: JsonV, i: int)
    requires
        keys_differ(t),
        0 <= i < t.len(),
    ensures
        ({
            let on = text_or(args, "on"@, ""@);
            let app = text_or(args, "app"@, ""@);
            let action = text_or(args, "do"@, ""@);
            let known = is_trigger(on) && app_named(app) is Some;
            let u = applied_v(t, args);
            let mine = t[i].on == on && t[i].app == app;
            &&& !known ==> u == t
            &&& known && flagged(args, "remove"@) ==> (mine ==> !u.contains(t[i])) && (!mine
                ==> u.contains(t[i]))
            &&& known && !flagged(args, "remove"@) && !is_action(action) ==> u == t
            &&& known && !flagged(args, "remove"@) && is_action(action) && mine ==> u == t.update(
                i,
                ReflexV { on, action, app, fires: 0, last_fired: None },
            )
            &&& !mine && !flagged(args, "remove"@) ==> u[i] == t[i]
        }),
{
    let on = text_or(args, "on"@, ""@);
    let app = text_or(args, "app"@, ""@);
    removing_takes_one(t, on, app, t.len() as int, i);
    key_is_found(t, on, app, 0);
    if t[i].on == on && t[i].app == app {
        key_is_at(t, on, app, i, 0);
    }
}

/// A rule for an event and an app that have none yet comes last, with nothing counted, as
/// long as fewer than eight are kept.
pub proof fn new_rules_come_last(t: Seq<ReflexV>, args: JsonV)
    requires
        is_trigger(text_or(args, "on"@, ""@)),
        app_named(text_or(args, "app"@, ""@)) is Some,
        is_action(text_or(args, "do"@, ""@)),
        !flagged(args, "remove"@),
        forall|j: int|
            0 <= j < t.len() ==> !((#[trigger] t[j]).on == text_or(args, "on"@, ""@) && t[j].app
                == text_or(args, "app"@, ""@)),
    ensures
        t.len() < 8 ==> applied_v(t, args) == t.push(
            ReflexV {
                on: text_or(args, "on"@, ""@),
                action: text_or(args, "do"@, ""@),
                app: text_or(args, "app"@, ""@),
                fires: 0,
                last_fired: None,
            },
        ),
        t.len() >= 8 ==> applied_v(t, args) == t,
{
    key_is_found(t, text_or(args, "on"@, ""@), text_or(args, "app"@, ""@), 0);
}

proof fn key_is_found(t: Seq<ReflexV>, on: Seq<char>, app: Seq<char>, from: int)
    requires
        0 <= from <= t.len(),
    ensures
        from <= key_place(t, on, app, from) <= t.len(),
        key_place(t, on, app, from) < t.len() ==> t[key_place(t, on, app, from)].on == on && t[
            key_place(t, on, app, from)].app == app,
    decreases t.len() - from,
{
    if from < t.len() {
        key_is_found(t, on, app, from + 1);
    }
}

proof fn counting_counts_one(
    t: Seq<ReflexV>,
    trigger: Seq<char>,
    action: Seq<char>,
    app: Seq<char>,
    i: int,
    from: int,
)
    requires
        0 <= from <= i < t.len(),
        t[i].on == trigger && t[i].app == app && t[i].action == action,
        forall|j: int|
            0 <= j < t.len() && j != i ==> !((#[trigger] t[j]).on == trigger && t[j].app == app),
    ensures
        counted_v(t, trigger, action, app, from)[i] == (ReflexV {
            fires: counted_v(t, trigger, action, app, from)[i].fires,
            ..t[i]
        }),
        t[i].fires < u32::MAX ==> counted_v(t, trigger, action, app, from)[i].fires == t[i].fires
            + 1,
    decreases i - from,
{
    if from < i {
        counting_counts_one(t, trigger, action, app, i, from + 1);
    }
}

/// Whether there is something for a reflex to do: a window that is not open yet, one that can
/// be raised, or one that can be closed and is not being dragged.
pub open spec fn can_act(d: DesktopV, action: Seq<char>, k: AppKind) -> bool {
    ||| action == "open"@ && !has_bit(d.latched, k)
    ||| action == "focus"@ && exists|j: int|
        0 <= j < d.windows.len() && (#[trigger] d.windows[j]).kind == k
    ||| action == "close"@ && first_of_kind_is_free(d, k)
}

/// Whether the first window of an app is there and not being dragged.
pub open spec fn first_of_kind_is_free(d: DesktopV, k: AppKind) -> bool {
    exists|j: int|
        0 <= j < d.windows.len() && (#[trigger] d.windows[j]).kind == k && d.windows[j].id
            != d.dragging && forall|h: int| 0 <= h < j ==> (#[trigger] d.windows[h]).kind != k
}

proof fn place_of_kind(ws: Seq<WindowDesc>, k: AppKind, from: int)
    requires
        0 <= from <= ws.len(),
    ensures
        from <= kind_place(ws, k, from) <= ws.len(),
        kind_place(ws, k, from) < ws.len() ==> ws[kind_place(ws, k, from)].kind == k,
        forall|h: int| from <= h < kind_place(ws, k, from) ==> (#[trigger] ws[h]).kind != k,
    decreases ws.len() - from,
{
    if from < ws.len() && ws[from].kind != k {
        place_of_kind(ws, k, from + 1);
    }
}

/// A reflex that was ready is stamped with the time. It is counted where there was something
/// for it to do, and only there; where there was not, nothing is told.
pub proof fn a_ready_reflex_is_counted(
    d: DesktopV,
    t: Seq<ReflexV>,
    trigger: Seq<char>,
    now: u64,
    i: int,
    k: AppKind,
)
    requires
        keys_differ(t),
        only_ready(t, trigger, now, i),
        app_named(t[i].app) == Some(k),
        t[i].fires < u32::MAX,
        is_action(t[i].action),
    ensures
        ({
            let (e, u, fx) = fired(d, t, trigger, now);
            let counted = if can_act(d, t[i].action, k) {
                t[i].fires + 1
            } else {
                t[i].fires as int
            };
            &&& u == t.update(
                i,
                ReflexV { fires: counted as u32, last_fired: Some(now), ..t[i] },
            )
            &&& can_act(d, t[i].action, k) <==> fx.len() > 0
            &&& fx.len() > 0 ==> fx.last() == EffectV::SaveReflexes
        }),
{
    reveal_strlit("open");
    reveal_strlit("focus");
    reveal_strlit("close");
    assert("open"@.len() == 4 && "focus"@.len() == 5 && "close"@.len() == 5);
    assert("focus"@[0] == 'f' && "close"@[0] == 'c');
    dues_of_one(t, trigger, now, i, t.len() as int);
    assert(t.take(t.len() as int) =~= t);
    let s = t.update(i, ReflexV { last_fired: Some(now), ..t[i] });
    reveal_with_fuel(acted_all, 2);
    assert forall|j: int| 0 <= j < s.len() && j != i implies !((#[trigger] s[j]).on == trigger
        && s[j].app == t[i].app) by {
        assert(s[j] == t[j]);
        if i < j {
            assert(!keyed(t[j], t[i].on, t[i].app));
        } else {
            assert(!keyed(t[i], t[j].on, t[j].app));
        }
    }
    counting_changes_one(s, trigger, t[i].action, t[i].app, 0);
    counting_counts_one(s, trigger, t[i].action, t[i].app, i, 0);
    place_of_kind(d.windows, k, 0);
    let p = kind_place(d.windows, k, 0);
    assert(acts(d, t[i].action, k) == can_act(d, t[i].action, k)) by {
        if first_of_kind_is_free(d, k) {
            let j = choose|j: int|
                0 <= j < d.windows.len() && (#[trigger] d.windows[j]).kind == k && d.windows[j].id
                    != d.dragging && forall|h: int|
                    0 <= h < j ==> (#[trigger] d.windows[h]).kind != k;
            assert(j == p);
        }
    }
    let (e, u, fx) = fired(d, t, trigger, now);
    let c = counted_v(s, trigger, t[i].action, t[i].app, 0);
    assert forall|j: int| 0 <= j < t.len() && j != i implies #[trigger] c[j] == t[j] by {
        assert(s[j] == t[j]);
    }
    if can_act(d, t[i].action, k) {
        assert(u == c);
    } else {
        assert(u == s);
    }
}

proof fn key_is_at(t: Seq<ReflexV>, on: Seq<char>, app: Seq<char>, i: int, from: int)
    requires
        keys_differ(t),
        0 <= from <= i < t.len(),
        t[i].on == on && t[i].app == app,
    ensures
        key_place(t, on, app, from) == i,
    decreases i - from,
{
    if from < i {
        assert(!keyed(t[i], t[from].on, t[from].app));
        key_is_at(t, on, app, i, from + 1);
    }
}

proof fn removing_takes_one(t: Seq<ReflexV>, on: Seq<char>, app: Seq<char>, n: int, i: int)
    requires
        0 <= n <= t.len(),
        0 <= i < t.len(),
    ensures
        forall|j: int|
            0 <= j < remove_v(t, on, app, n).len() ==> !((#[trigger] remove_v(t, on, app, n)[j]).on
                == on && remove_v(t, on, app, n)[j].app == app),
        i < n && !(t[i].on == on && t[i].app == app) ==> remove_v(t, on, app, n).contains(t[i]),
    decreases n,
{
    if n > 0 {
        removing_takes_one(t, on, app, n - 1, i);
        let r = remove_v(t, on, app, n - 1);
        let s = remove_v(t, on, app, n);
        if i < n && !(t[i].on == on && t[i].app == app) {
            if i == n - 1 {
                assert(s[s.len() - 1] == t[i]);
            } else {
                let j = choose|j: int| 0 <= j < r.len() && r[j] == t[i];
                assert(s[j] == t[i]);
            }
        }
    }
}

} // verus!
