//! What each word on a window does to it, and to the others.
use vstd::prelude::*;
use crate::apps::{app_named, slug, title, AppKind};
use crate::cut_laws::says;
use crate::desktop::{
    agent_close_v, agent_focus_v, agent_open_v, focus_v, has_bit, has_kind, id_place,
    id_place_bounds, kind_place, kind_place_bounds, launch_v, maximize_v, menu_launch_v, minimize_v,
    reshape_v, set_minimized_v, task_activate_v, top_visible, user_close_v, DesktopV, Placement,
    WindowDesc,
};
use crate::desktop_laws::{bit_facts, other_bit_facts, shown, wf};
use crate::dispatch::dispatched;
use crate::effects::{EffectV, ToastKind, NOWHERE};
use crate::json::{text_at, JsonV};
use crate::mirror::window_json;
use crate::shell::{ShellEventV, ShellV};

verus! {

// ── Where the focus is ──────────────────────────────────────────────────────

/// Whether a window is the topmost one that shows.
pub open spec fn on_top(ws: Seq<WindowDesc>, j: int) -> bool {
    &&& 0 <= j < ws.len()
    &&& !ws[j].minimized
    &&& forall|m: int| j < m < ws.len() ==> (#[trigger] ws[m]).minimized
}

/// Whether no window shows.
pub open spec fn all_hidden(ws: Seq<WindowDesc>) -> bool {
    forall|m: int| 0 <= m < ws.len() ==> (#[trigger] ws[m]).minimized
}

/// Whether the topmost window that shows has the focus; where none shows, none has it.
pub open spec fn top_has_focus(d: DesktopV) -> bool {
    ||| exists|j: int| #[trigger] on_top(d.windows, j) && d.windows[j].id == d.focused
    ||| all_hidden(d.windows) && d.focused == 0
}

proof fn top_visible_is_on_top(ws: Seq<WindowDesc>, n: int)
    requires
        0 <= n <= ws.len(),
        forall|m: int| n <= m < ws.len() ==> (#[trigger] ws[m]).minimized,
    ensures
        (exists|j: int| #[trigger] on_top(ws, j) && ws[j].id == top_visible(ws, n)) || (all_hidden(ws)
            && top_visible(ws, n) == 0),
    decreases n,
{
    if n > 0 {
        if ws[n - 1].minimized {
            top_visible_is_on_top(ws, n - 1);
        } else {
            assert(on_top(ws, n - 1));
        }
    }
}

/// On a desktop with one window for each app, the window at `i` is the one that is found by
/// its app and by its number.
pub proof fn found_at(d: DesktopV, i: int)
    requires
        wf(d),
        0 <= i < d.windows.len(),
    ensures
        kind_place(d.windows, d.windows[i].kind, 0) == i,
        id_place(d.windows, d.windows[i].id, 0) == i,
{
    kind_place_bounds(d.windows, d.windows[i].kind, 0);
    id_place_bounds(d.windows, d.windows[i].id, 0);
}

proof fn absent(d: DesktopV, k: AppKind)
    requires
        !shown(d.windows, k),
    ensures
        !has_kind(d.windows, k),
{
    kind_place_bounds(d.windows, k, 0);
}

/// Whether two desktops differ in nothing but their windows, the focus, the numbers, and
/// the bits of one app.
pub open spec fn rest_alike(d: DesktopV, e: DesktopV, k: AppKind) -> bool {
    &&& d.dragging == e.dragging
    &&& d.mode == e.mode
    &&& forall|o: AppKind|
        o != k ==> #[trigger] has_bit(d.opened, o) == has_bit(e.opened, o)
    &&& forall|o: AppKind|
        o != k ==> #[trigger] has_bit(d.latched, o) == has_bit(e.latched, o)
    &&& forall|o: AppKind|
        o != k ==> #[trigger] has_bit(d.shaped, o) == has_bit(e.shaped, o)
    &&& forall|o: AppKind|
        o != k ==> #[trigger] has_bit(d.shaped_max, o) == has_bit(e.shaped_max, o)
}

proof fn bits_of_others(k: AppKind)
    ensures
        forall|mask: u32, o: AppKind|
            o != k ==> #[trigger] has_bit(crate::desktop::with_bit(mask, k), o) == has_bit(mask, o),
        forall|mask: u32, o: AppKind|
            o != k ==> #[trigger] has_bit(crate::desktop::without_bit(mask, k), o) == has_bit(
                mask,
                o,
            ),
        forall|mask: u32| #[trigger] has_bit(crate::desktop::with_bit(mask, k), k),
        forall|mask: u32| !#[trigger] has_bit(crate::desktop::without_bit(mask, k), k),
{
    assert forall|mask: u32, o: AppKind| o != k implies #[trigger] has_bit(
        crate::desktop::with_bit(mask, k),
        o,
    ) == has_bit(mask, o) by {
        other_bit_facts(mask, k, o);
    }
    assert forall|mask: u32, o: AppKind| o != k implies #[trigger] has_bit(
        crate::desktop::without_bit(mask, k),
        o,
    ) == has_bit(mask, o) by {
        other_bit_facts(mask, k, o);
    }
    assert forall|mask: u32| #[trigger] has_bit(crate::desktop::with_bit(mask, k), k) by {
        bit_facts(mask, k);
    }
    assert forall|mask: u32| !#[trigger] has_bit(crate::desktop::without_bit(mask, k), k) by {
        bit_facts(mask, k);
    }
}

// ── The agent's words ───────────────────────────────────────────────────────

/// Closing an app takes its window away and leaves the others where they are, one above
/// the other as before. The topmost window that shows gets the focus, and the shape of the
/// closed one is remembered. Nothing is latched, and the agent's mark on the app goes.
pub proof fn agent_close_takes_one_window(d: DesktopV, i: int)
    requires
        wf(d),
        0 <= i < d.windows.len(),
        d.windows[i].id != d.dragging,
    ensures
        ({
            let k = d.windows[i].kind;
            let e = agent_close_v(d, k);
            &&& e.windows == d.windows.remove(i)
            &&& !shown(e.windows, k)
            &&& top_has_focus(e)
            &&& !has_bit(e.opened, k)
            &&& e.latched == d.latched
            &&& has_bit(e.shaped, k)
            &&& has_bit(e.shaped_max, k) == d.windows[i].maximized
            &&& e.next_id == d.next_id
            &&& rest_alike(d, e, k)
        }),
{
    let k = d.windows[i].kind;
    let e = agent_close_v(d, k);
    found_at(d, i);
    bits_of_others(k);
    top_visible_is_on_top(e.windows, e.windows.len() as int);
    if shown(e.windows, k) {
        let a = choose|a: int| 0 <= a < e.windows.len() && (#[trigger] e.windows[a]).kind == k;
        let b = if a < i {
            a
        } else {
            a + 1
        };
        assert(e.windows[a] == d.windows[b]);
    }
}

/// Closing an app that has no window, or whose window is under the pointer, takes no
/// window away and moves none.
pub proof fn agent_close_of_nothing(d: DesktopV, k: AppKind)
    requires
        wf(d),
        forall|i: int|
            0 <= i < d.windows.len() && (#[trigger] d.windows[i]).kind == k ==> d.windows[i].id
                == d.dragging,
    ensures
        agent_close_v(d, k).windows == d.windows,
        agent_close_v(d, k).focused == d.focused,
        agent_close_v(d, k).latched == d.latched,
{
    kind_place_bounds(d.windows, k, 0);
}

/// Raising an app brings its window back where it was minimized, puts it above all others,
/// which stay as they are, and gives it the focus. Nothing else changes.
pub proof fn agent_focus_raises_one_window(d: DesktopV, i: int)
    requires
        wf(d),
        0 <= i < d.windows.len(),
    ensures
        ({
            let e = agent_focus_v(d, d.windows[i].kind);
            let w = WindowDesc { minimized: false, ..d.windows[i] };
            &&& e == DesktopV {
                windows: d.windows.remove(i).push(w),
                focused: d.windows[i].id,
                ..d
            }
            &&& on_top(e.windows, e.windows.len() - 1)
            &&& e.windows.last().id == d.windows[i].id
        }),
{
    found_at(d, i);
    raised_window(d, i);
}

/// The window at `i`, shown and raised.
proof fn raised_window(d: DesktopV, i: int)
    requires
        wf(d),
        0 <= i < d.windows.len(),
    ensures
        focus_v(set_minimized_v(d, d.windows[i].id, false), d.windows[i].id) == (DesktopV {
            windows: d.windows.remove(i).push(WindowDesc { minimized: false, ..d.windows[i] }),
            focused: d.windows[i].id,
            ..d
        }),
{
    found_at(d, i);
    let id = d.windows[i].id;
    let w = WindowDesc { minimized: false, ..d.windows[i] };
    let e = set_minimized_v(d, id, false);
    assert(e.windows =~= d.windows.update(i, w));
    id_place_bounds(e.windows, id, 0);
    let p = id_place(e.windows, id, 0);
    assert(e.windows[i].id == id);
    assert(p == i) by {
        if p < i {
            assert(e.windows[p] == d.windows[p]);
        }
    }
    assert(e.windows.remove(i).push(w) =~= d.windows.remove(i).push(w));
}

/// Raising an app that has no window changes nothing.
pub proof fn agent_focus_of_nothing(d: DesktopV, k: AppKind)
    requires
        !shown(d.windows, k),
    ensures
        agent_focus_v(d, k) == d,
{
    absent(d, k);
}

/// The agent's opening an app that has a window raises that window as it is; one that has
/// none gets a new one above all others, with the next number. Either way it shows and has
/// the focus, and the other windows stay as they are. An app that the human closed stays
/// closed.
pub proof fn agent_open_shows_one_window(d: DesktopV, k: AppKind)
    requires
        wf(d),
        d.next_id < i32::MAX,
    ensures
        ({
            let e = agent_open_v(d, k);
            &&& has_bit(d.latched, k) ==> e == d
            &&& !has_bit(d.latched, k) ==> opened_window(d, e, k) && rest_alike(d, e, k)
            &&& !has_bit(d.latched, k) ==> (has_bit(e.opened, k) <==> (!shown(d.windows, k)
                || has_bit(d.opened, k)))
        }),
{
    if !has_bit(d.latched, k) {
        opening_shows(
            DesktopV {
                latched: crate::desktop::without_bit(d.latched, k),
                opened: crate::desktop::without_bit(d.opened, k),
                ..d
            },
            k,
        );
        bits_of_others(k);
        kind_place_bounds(d.windows, k, 0);
    }
}

/// Whether an app's window was opened or raised.
pub open spec fn opened_window(d: DesktopV, e: DesktopV, k: AppKind) -> bool {
    &&& e.windows.len() > 0
    &&& e.windows.last().kind == k
    &&& !e.windows.last().minimized
    &&& e.focused == e.windows.last().id
    &&& e.shaped == d.shaped
    &&& e.shaped_max == d.shaped_max
    &&& shown(d.windows, k) ==> e.next_id == d.next_id && forall|i: int|
        0 <= i < d.windows.len() && (#[trigger] d.windows[i]).kind == k ==> {
            &&& e.windows.drop_last() == d.windows.remove(i)
            &&& e.windows.last() == WindowDesc { minimized: false, ..d.windows[i] }
        }
    &&& !shown(d.windows, k) ==> {
        &&& e.windows.drop_last() == d.windows
        &&& e.windows.last().id == d.next_id
        &&& e.next_id == d.next_id + 1
        &&& e.windows.last().maximized == (has_bit(d.shaped, k) && has_bit(d.shaped_max, k))
        &&& has_bit(d.shaped, k) <==> e.windows.last().placement == Placement::Remembered
    }
}

proof fn opening_shows(d: DesktopV, k: AppKind)
    requires
        wf(d),
        d.next_id < i32::MAX,
    ensures
        opened_window(d, launch_v(d, k), k),
        launch_v(d, k).latched == d.latched,
        launch_v(d, k).opened == d.opened,
        launch_v(d, k).dragging == d.dragging,
        launch_v(d, k).mode == d.mode,
{
    let e = launch_v(d, k);
    kind_place_bounds(d.windows, k, 0);
    if shown(d.windows, k) {
        let j = kind_place(d.windows, k, 0);
        raised_window(d, j);
        assert forall|i: int| 0 <= i < d.windows.len() && (#[trigger] d.windows[i]).kind
            == k implies {
            &&& e.windows.drop_last() == d.windows.remove(i)
            &&& e.windows.last() == WindowDesc { minimized: false, ..d.windows[i] }
        } by {
            found_at(d, i);
            assert(e.windows.drop_last() =~= d.windows.remove(i));
        }
    } else {
        absent(d, k);
        let w = crate::desktop::fresh_v(d, k);
        let ws = d.windows.push(w);
        id_place_bounds(ws, d.next_id, 0);
        let p = id_place(ws, d.next_id, 0);
        assert(ws[d.windows.len() as int].id == d.next_id);
        assert(p == d.windows.len()) by {
            if p < d.windows.len() {
                assert(ws[p] == d.windows[p]);
            }
        }
        assert(e.windows.drop_last() =~= d.windows);
    }
}

// ── The human's words ───────────────────────────────────────────────────────

/// The human's opening an app shows its window, and makes it the human's.
pub proof fn menu_launch_shows_one_window(d: DesktopV, k: AppKind)
    requires
        wf(d),
        d.next_id < i32::MAX,
    ensures
        opened_window(d, menu_launch_v(d, k), k),
        rest_alike(d, menu_launch_v(d, k), k),
        !has_bit(menu_launch_v(d, k).latched, k),
        !has_bit(menu_launch_v(d, k).opened, k),
{
    opening_shows(
        DesktopV {
            latched: crate::desktop::without_bit(d.latched, k),
            opened: crate::desktop::without_bit(d.opened, k),
            ..d
        },
        k,
    );
    bits_of_others(k);
}

/// The human's closing a window takes that one away, leaves the others where they are, and
/// gives the focus to the topmost that shows. The app is latched where the agent had opened
/// it, or where it is the reader, and not otherwise.
pub proof fn user_close_takes_one_window(d: DesktopV, i: int)
    requires
        wf(d),
        0 <= i < d.windows.len(),
    ensures
        ({
            let w = d.windows[i];
            let e = user_close_v(d, w.id);
            let overruled = has_bit(d.opened, w.kind) || w.kind == AppKind::Occipital;
            &&& e.windows == d.windows.remove(i)
            &&& top_has_focus(e)
            &&& overruled ==> has_bit(e.latched, w.kind) && !has_bit(e.opened, w.kind)
            &&& !overruled ==> e.latched == d.latched && e.opened == d.opened
            &&& has_bit(e.shaped, w.kind)
            &&& has_bit(e.shaped_max, w.kind) == w.maximized
            &&& e.next_id == d.next_id
            &&& rest_alike(d, e, w.kind)
        }),
{
    let e = user_close_v(d, d.windows[i].id);
    found_at(d, i);
    bits_of_others(d.windows[i].kind);
    top_visible_is_on_top(e.windows, e.windows.len() as int);
}

/// Minimizing a window hides that one and no other, and gives the focus to the topmost that
/// shows. The windows stay one above the other as before.
pub proof fn minimizing_hides_one_window(d: DesktopV, i: int)
    requires
        wf(d),
        0 <= i < d.windows.len(),
    ensures
        ({
            let e = minimize_v(d, d.windows[i].id);
            &&& e.windows == d.windows.update(i, WindowDesc { minimized: true, ..d.windows[i] })
            &&& top_has_focus(e)
            &&& e == DesktopV { windows: e.windows, focused: e.focused, ..d }
        }),
{
    let e = minimize_v(d, d.windows[i].id);
    found_at(d, i);
    top_visible_is_on_top(e.windows, e.windows.len() as int);
}

/// Maximizing a window fills the desktop with it, or gives it its size back; it is raised
/// and gets the focus, and its shape is remembered. The others stay as they are.
pub proof fn maximizing_turns_one_window(d: DesktopV, i: int)
    requires
        wf(d),
        0 <= i < d.windows.len(),
    ensures
        ({
            let w = d.windows[i];
            let e = maximize_v(d, w.id);
            &&& e.windows == d.windows.remove(i).push(WindowDesc { maximized: !w.maximized, ..w })
            &&& e.focused == w.id
            &&& has_bit(e.shaped, w.kind)
            &&& has_bit(e.shaped_max, w.kind) == !w.maximized
            &&& e.latched == d.latched
            &&& e.opened == d.opened
            &&& rest_alike(d, e, w.kind)
        }),
{
    let w = d.windows[i];
    let v = WindowDesc { maximized: !w.maximized, ..w };
    found_at(d, i);
    bits_of_others(w.kind);
    let ws = d.windows.update(i, v);
    id_place_bounds(ws, w.id, 0);
    let p = id_place(ws, w.id, 0);
    assert(ws[i].id == w.id);
    assert(p == i) by {
        if p < i {
            assert(ws[p] == d.windows[p]);
        }
    }
    assert(maximize_v(d, w.id).windows =~= d.windows.remove(i).push(v));
}

/// A click in the task bar on a window that is minimized brings it back on top with the
/// focus; on the one with the focus it hides it; on any other it raises that one.
pub proof fn task_bar_turns_to_one_window(d: DesktopV, i: int)
    requires
        wf(d),
        0 <= i < d.windows.len(),
    ensures
        ({
            let w = d.windows[i];
            let e = task_activate_v(d, w.id);
            &&& w.minimized || d.focused != w.id ==> {
                &&& e.windows == d.windows.remove(i).push(WindowDesc { minimized: false, ..w })
                &&& e.focused == w.id
            }
            &&& !w.minimized && d.focused == w.id ==> {
                &&& e.windows == d.windows.update(i, WindowDesc { minimized: true, ..w })
                &&& top_has_focus(e)
            }
            &&& e == DesktopV { windows: e.windows, focused: e.focused, ..d }
        }),
{
    let w = d.windows[i];
    found_at(d, i);
    raised_window(d, i);
    minimizing_hides_one_window(d, i);
    assert(!w.minimized ==> WindowDesc { minimized: false, ..w } == w);
}

/// A window that a hand moved keeps that place; no other window changes, and none is raised.
pub proof fn dragging_moves_one_window(d: DesktopV, i: int)
    requires
        wf(d),
        0 <= i < d.windows.len(),
    ensures
        ({
            let w = d.windows[i];
            let e = reshape_v(d, w.id);
            &&& e.windows == d.windows.update(i, WindowDesc { placement: Placement::Free, ..w })
            &&& e.focused == d.focused
            &&& has_bit(e.shaped, w.kind)
            &&& has_bit(e.shaped_max, w.kind) == w.maximized
            &&& e.latched == d.latched
            &&& e.opened == d.opened
            &&& rest_alike(d, e, w.kind)
        }),
{
    let w = d.windows[i];
    let v = WindowDesc { placement: Placement::Free, ..w };
    found_at(d, i);
    bits_of_others(w.kind);
    let ws = d.windows.update(i, v);
    id_place_bounds(ws, w.id, 0);
    let p = id_place(ws, w.id, 0);
    assert(ws[i].id == w.id);
    assert(p == i) by {
        if p < i {
            assert(ws[p] == d.windows[p]);
        }
    }
}

/// A number that no window has changes no window, whatever is done with it.
pub proof fn absent_numbers_change_no_window(d: DesktopV, id: i32)
    requires
        forall|i: int| 0 <= i < d.windows.len() ==> (#[trigger] d.windows[i]).id != id,
    ensures
        focus_v(d, id) == d,
        user_close_v(d, id).windows == d.windows,
        minimize_v(d, id).windows == d.windows,
        maximize_v(d, id).windows == d.windows,
        reshape_v(d, id) == d,
        user_close_v(d, id).latched == d.latched,
{
    id_place_bounds(d.windows, id, 0);
}

// ── From the agent's frames ─────────────────────────────────────────────────

/// Whether a frame is a call of a tool on an app, within the ration of a turn.
pub open spec fn calls(
    s: ShellV,
    ev: JsonV,
    event: Option<ShellEventV>,
    tool: Seq<char>,
    k: AppKind,
) -> bool {
    &&& text_at(ev, "type"@) == Some("tool_requested"@)
    &&& s.mutations < 4
    &&& event matches Some(ShellEventV::ToolRequested { call }) && call.tool == tool && (text_at(
        call.args,
        "app"@,
    ) matches Some(name) && app_named(name) == Some(k))
}

proof fn call_frames_fire_nothing()
    ensures
        !crate::reflex::is_trigger("tool_requested"@),
        "tool_requested"@ != "session_init"@,
        "tool_requested"@ != "hello"@,
        "tool_requested"@ != "turn_started"@,
        "tool_requested"@ != "mesh_message"@,
{
    reveal_strlit("tool_requested");
    reveal_strlit("session_init");
    reveal_strlit("hello");
    reveal_strlit("turn_started");
    reveal_strlit("mesh_message");
    reveal_strlit("sensor_alert");
    reveal_strlit("wake_triggered");
    reveal_strlit("mesh_node_status");
    reveal_strlit("goal_state_changed");
    reveal_strlit("council_started");
    reveal_strlit("evolution_proposed");
    reveal_strlit("error");
    assert("tool_requested"@[0] == 't' && "tool_requested"@.len() == 14);
    assert("wake_triggered"@[0] == 'w');
}

/// Whether a tool is none of those that do more than stage one window.
pub open spec fn stages_one(t: Seq<char>) -> bool {
    t != "ui_arrange"@ && t != "ui_theme"@ && t != "ui_reflex"@ && t != "display_face"@ && t
        != "sketch_draw"@
}

proof fn verbs_unlike()
    ensures
        "ui_open"@ != "ui_close"@,
        "ui_open"@ != "ui_focus"@,
        "ui_close"@ != "ui_focus"@,
        stages_one("ui_open"@),
        stages_one("ui_close"@),
        stages_one("ui_focus"@),
{
    reveal_strlit("ui_open");
    reveal_strlit("ui_close");
    reveal_strlit("ui_focus");
    reveal_strlit("ui_arrange");
    reveal_strlit("ui_theme");
    reveal_strlit("ui_reflex");
    reveal_strlit("display_face");
    reveal_strlit("sketch_draw");
    assert("ui_open"@.len() == 7 && "ui_arrange"@.len() == 10 && "ui_reflex"@.len() == 9);
    assert("display_face"@.len() == 12 && "sketch_draw"@.len() == 11);
    assert("ui_close"@[3] == 'c' && "ui_focus"@[3] == 'f' && "ui_theme"@[3] == 't');
}

/// A call to close an app leaves no window of it, where that is not under the pointer. The
/// other windows stay as they are, and the topmost that shows has the focus. Nothing is
/// said in the chat, and nothing is announced.
pub proof fn close_calls_close(
    s: ShellV,
    ev: JsonV,
    event: Option<ShellEventV>,
    now_ms: u64,
    now_secs: i64,
    i: int,
)
    requires
        wf(s.desk),
        0 <= i < s.desk.windows.len(),
        s.desk.windows[i].id != s.desk.dragging,
        calls(s, ev, event, "ui_close"@, s.desk.windows[i].kind),
    ensures
        ({
            let (t, fx) = dispatched(s, ev, event, now_ms, now_secs);
            &&& !shown(t.desk.windows, s.desk.windows[i].kind)
            &&& t.desk.windows == s.desk.windows.remove(i)
            &&& top_has_focus(t.desk)
            &&& t.desk.latched == s.desk.latched
            &&& t.mutations == s.mutations + 1
            &&& t == ShellV { desk: t.desk, mutations: t.mutations, ..s }
            &&& fx.len() == 0
        }),
{
    call_frames_fire_nothing();
    verbs_unlike();
    agent_close_takes_one_window(s.desk, i);
}

/// A call to raise an app puts its window on top, where it shows and has the focus, and
/// leaves the other windows as they are.
pub proof fn focus_calls_raise(
    s: ShellV,
    ev: JsonV,
    event: Option<ShellEventV>,
    now_ms: u64,
    now_secs: i64,
    i: int,
)
    requires
        wf(s.desk),
        0 <= i < s.desk.windows.len(),
        calls(s, ev, event, "ui_focus"@, s.desk.windows[i].kind),
    ensures
        ({
            let (t, fx) = dispatched(s, ev, event, now_ms, now_secs);
            let w = s.desk.windows[i];
            &&& t.desk.windows.last() == WindowDesc { minimized: false, ..w }
            &&& t.desk.windows.drop_last() == s.desk.windows.remove(i)
            &&& t.desk.focused == w.id
            &&& t.mutations == s.mutations + 1
            &&& t == ShellV { desk: t.desk, mutations: t.mutations, ..s }
            &&& fx.len() == 0
        }),
{
    call_frames_fire_nothing();
    verbs_unlike();
    agent_focus_raises_one_window(s.desk, i);
    let t = dispatched(s, ev, event, now_ms, now_secs).0;
    assert(t.desk.windows.drop_last() =~= s.desk.windows.remove(i));
}

/// A call to open an app that is not latched shows its window on top with the focus, has it
/// brought up to date, and says so where the window is new. One that is latched stays as it
/// is, and nothing is said.
pub proof fn open_calls_open(
    s: ShellV,
    ev: JsonV,
    event: Option<ShellEventV>,
    now_ms: u64,
    now_secs: i64,
    k: AppKind,
)
    requires
        wf(s.desk),
        s.desk.next_id < i32::MAX,
        calls(s, ev, event, "ui_open"@, k),
    ensures
        ({
            let (t, fx) = dispatched(s, ev, event, now_ms, now_secs);
            &&& t.mutations == s.mutations + 1
            &&& t == ShellV { desk: t.desk, mutations: t.mutations, ..s }
            &&& has_bit(s.desk.latched, k) ==> t.desk == s.desk && fx.len() == 0
            &&& !has_bit(s.desk.latched, k) ==> opened_window(s.desk, t.desk, k) && fx.len() > 0
                && fx[0] == EffectV::Refresh(k)
            &&& !has_bit(s.desk.latched, k) && shown(s.desk.windows, k) ==> fx.len() == 1
            &&& !has_bit(s.desk.latched, k) && !shown(s.desk.windows, k) ==> fx.len() == 2
                && fx[1] == (EffectV::Toast {
                kind: ToastKind::Info,
                text: "🪟 APEX opened "@ + crate::apps::title(k),
                session: NOWHERE,
            })
        }),
{
    call_frames_fire_nothing();
    verbs_unlike();
    agent_open_shows_one_window(s.desk, k);
    kind_place_bounds(s.desk.windows, k, 0);
}

/// Of a window it is told which app it is, and whether it is hidden, fills the screen or has
/// the focus.
pub proof fn windows_are_described(w: WindowDesc, focused: i32)
    ensures
        says(window_json(w, focused), "app"@, JsonV::Str(slug(w.kind))),
        says(window_json(w, focused), "title"@, JsonV::Str(title(w.kind))),
        says(window_json(w, focused), "minimized"@, JsonV::Bool(w.minimized)),
        says(window_json(w, focused), "maximized"@, JsonV::Bool(w.maximized)),
        says(window_json(w, focused), "focused"@, JsonV::Bool(w.id == focused)),
{
    let e = window_json(w, focused)->Obj_0;
    assert(e[0].0 == "app"@ && e[1].0 == "title"@ && e[2].0 == "minimized"@);
    assert(e[3].0 == "maximized"@ && e[4].0 == "focused"@);
}

} // verus!
