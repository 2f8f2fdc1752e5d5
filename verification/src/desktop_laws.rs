//! What holds of every desktop, and what the human's choices mean for the agent's.
use vstd::prelude::*;
use crate::apps::{ordinal, AppKind};
use crate::arrange::{
    arrange_v, arranges, cast_v, cleared_v, is_layout, opened_by, place_v, placed_v, seats,
    staged_v, tiles_v, ARRANGE_MAX,
};
use crate::desktop::{
    agent_close_v, agent_focus_v, agent_open_v, focus_v, fresh_v, has_bit, has_id, has_kind,
    id_place, id_place_bounds, kind_place, kind_place_bounds, launch_v, maximize_v, menu_launch_v, minimize_v,
    note_id_v, refocus_v, reshape_v, set_minimized_v, task_activate_v, top_visible, update_v,
    user_close_v, window_v, with_bit, without_bit, DesktopV, Placement, ShellMode, Tile, WindowDesc,
};

verus! {

// ── Well-formed desktops ────────────────────────────────────────────────────

/// Whether some window is numbered `id`.
pub open spec fn numbered(ws: Seq<WindowDesc>, id: i32) -> bool {
    exists|i: int| 0 <= i < ws.len() && (#[trigger] ws[i]).id == id
}

/// Whether some window is an app's.
pub open spec fn shown(ws: Seq<WindowDesc>, k: AppKind) -> bool {
    exists|i: int| 0 <= i < ws.len() && (#[trigger] ws[i]).kind == k
}

/// No two windows share a number or an app.
pub open spec fn distinct(ws: Seq<WindowDesc>) -> bool {
    forall|i: int, j: int|
        0 <= i < j < ws.len() ==> (#[trigger] ws[i]).id != (#[trigger] ws[j]).id && ws[i].kind
            != ws[j].kind
}

/// Every number has been given out.
pub open spec fn below(ws: Seq<WindowDesc>, next: i32) -> bool {
    forall|i: int| 0 <= i < ws.len() ==> 0 < (#[trigger] ws[i]).id < next
}

/// A desktop as the operations keep it: one window for each app, a number for each
/// window, and the focus on a window or nowhere.
pub open spec fn wf(d: DesktopV) -> bool {
    &&& distinct(d.windows)
    &&& below(d.windows, d.next_id)
    &&& d.focused == 0 || numbered(d.windows, d.focused)
    &&& d.next_id > 0
}

proof fn has_id_means(ws: Seq<WindowDesc>, id: i32)
    ensures
        has_id(ws, id) <==> numbered(ws, id),
        0 <= id_place(ws, id, 0) <= ws.len(),
        has_id(ws, id) ==> ws[id_place(ws, id, 0)].id == id,
{
    id_place_bounds(ws, id, 0);
}

proof fn has_kind_means(ws: Seq<WindowDesc>, k: AppKind)
    ensures
        has_kind(ws, k) <==> shown(ws, k),
        0 <= kind_place(ws, k, 0) <= ws.len(),
        has_kind(ws, k) ==> ws[kind_place(ws, k, 0)].kind == k,
{
    kind_place_bounds(ws, k, 0);
}

/// Raising a window keeps the desktop well-formed, and keeps its windows.
pub proof fn focus_keeps(d: DesktopV, id: i32)
    requires
        wf(d),
    ensures
        wf(focus_v(d, id)),
        focus_v(d, id).windows.to_multiset() == d.windows.to_multiset(),
        has_id(d.windows, id) ==> focus_v(d, id).windows.last() == window_v(d, id) && focus_v(
            d,
            id,
        ).focused == id,
{
    has_id_means(d.windows, id);
    let i = id_place(d.windows, id, 0);
    if i < d.windows.len() {
        let ws = focus_v(d, id).windows;
        let n = d.windows.len();
        assert forall|a: int| 0 <= a < ws.len() implies #[trigger] ws[a] == d.windows[if a < i {
            a
        } else if a < n - 1 {
            a + 1
        } else {
            i
        }] by {}
        assert(ws[n - 1].id == id);
        d.windows.to_multiset_ensures();
        d.windows.remove(i).to_multiset_ensures();
        assert(ws.to_multiset() =~= d.windows.to_multiset());
    }
}

pub proof fn update_keeps(d: DesktopV, id: i32, w: WindowDesc)
    requires
        wf(d),
        has_id(d.windows, id) ==> w.id == id && w.kind == window_v(d, id).kind,
    ensures
        wf(update_v(d, id, w)),
        update_v(d, id, w).windows.len() == d.windows.len(),
        update_v(d, id, w).next_id == d.next_id,
        has_id(d.windows, id) ==> has_id(update_v(d, id, w).windows, id) && window_v(
            update_v(d, id, w),
            id,
        ) == w,
        forall|k: AppKind| shown(update_v(d, id, w).windows, k) <==> shown(d.windows, k),
{
    has_id_means(d.windows, id);
    let i = id_place(d.windows, id, 0);
    if i < d.windows.len() {
        let ws = update_v(d, id, w).windows;
        assert forall|a: int| 0 <= a < ws.len() implies (#[trigger] ws[a]).id == d.windows[a].id
            && ws[a].kind == d.windows[a].kind by {}
        if d.focused != 0 {
            let a = choose|a: int| 0 <= a < d.windows.len() && (#[trigger] d.windows[a]).id
                == d.focused;
            assert(ws[a].id == d.focused);
        }
        assert(ws[i].id == id);
        has_id_means(ws, id);
        assert(id_place(ws, id, 0) == i);
        assert forall|k: AppKind| shown(ws, k) <==> shown(d.windows, k) by {
            if shown(ws, k) {
                let a = choose|a: int| 0 <= a < ws.len() && (#[trigger] ws[a]).kind == k;
                assert(d.windows[a].kind == k);
            }
            if shown(d.windows, k) {
                let a = choose|a: int| 0 <= a < d.windows.len() && (#[trigger] d.windows[a]).kind
                    == k;
                assert(ws[a].kind == k);
            }
        }
    }
}

proof fn top_visible_is_there(ws: Seq<WindowDesc>, n: int)
    requires
        0 <= n <= ws.len(),
    ensures
        top_visible(ws, n) == 0 || numbered(ws, top_visible(ws, n)),
    decreases n,
{
    if n > 0 {
        if !ws[n - 1].minimized {
            assert(ws[n - 1].id == top_visible(ws, n));
        } else {
            top_visible_is_there(ws, n - 1);
        }
    }
}

proof fn refocus_keeps(d: DesktopV)
    requires
        distinct(d.windows),
        below(d.windows, d.next_id),
        d.next_id > 0,
    ensures
        wf(refocus_v(d)),
{
    top_visible_is_there(d.windows, d.windows.len() as int);
}

proof fn remove_keeps(ws: Seq<WindowDesc>, next: i32, i: int)
    requires
        distinct(ws),
        below(ws, next),
        0 <= i < ws.len(),
    ensures
        distinct(ws.remove(i)),
        below(ws.remove(i), next),
        !shown(ws.remove(i), ws[i].kind),
{
    let r = ws.remove(i);
    assert forall|a: int| 0 <= a < r.len() implies #[trigger] r[a] == ws[if a < i {
        a
    } else {
        a + 1
    }] by {}
}

/// Opening an app keeps the desktop well-formed while there are numbers left. Its
/// window is then on top, shows, and has the focus.
pub proof fn launch_keeps(d: DesktopV, k: AppKind)
    requires
        wf(d),
        d.next_id < i32::MAX,
    ensures
        wf(launch_v(d, k)),
        launch_v(d, k).windows.len() > 0,
        launch_v(d, k).windows.last().kind == k,
        launch_v(d, k).windows.last().id == launch_v(d, k).focused,
        !launch_v(d, k).windows.last().minimized,
        shown(launch_v(d, k).windows, k),
        d.next_id <= launch_v(d, k).next_id <= d.next_id + 1,
{
    has_kind_means(d.windows, k);
    let i = kind_place(d.windows, k, 0);
    if i < d.windows.len() {
        let id = d.windows[i].id;
        has_id_means(d.windows, id);
        assert(numbered(d.windows, id));
        assert(id_place(d.windows, id, 0) == i);
        let w = WindowDesc { minimized: false, ..window_v(d, id) };
        update_keeps(d, id, w);
        let e = set_minimized_v(d, id, false);
        focus_keeps(e, id);
        assert(focus_v(e, id).windows.last() == w);
    } else {
        let w = fresh_v(d, k);
        let e = DesktopV {
            windows: d.windows.push(w),
            next_id: (d.next_id + 1) as i32,
            ..d
        };
        assert forall|a: int| 0 <= a < d.windows.len() implies (#[trigger] d.windows[a]).kind
            != k by {}
        assert forall|a: int, b: int| 0 <= a < b < e.windows.len() implies (
        #[trigger] e.windows[a]).id != (#[trigger] e.windows[b]).id && e.windows[a].kind
            != e.windows[b].kind by {
            assert(e.windows[a] == d.windows[a]);
            if b < d.windows.len() {
                assert(e.windows[b] == d.windows[b]);
            }
        }
        assert(e.windows[d.windows.len() as int] == w);
        if d.focused != 0 {
            let a = choose|a: int| 0 <= a < d.windows.len() && (#[trigger] d.windows[a]).id
                == d.focused;
            assert(e.windows[a].id == d.focused);
        }
        assert(wf(e));
        has_id_means(e.windows, w.id);
        assert(numbered(e.windows, w.id));
        let p = id_place(e.windows, w.id, 0);
        assert(p == d.windows.len());
        focus_keeps(e, w.id);
    }
    let ws = launch_v(d, k).windows;
    assert(ws[ws.len() - 1].kind == k);
}

/// The human's opening an app keeps the desktop well-formed while there are numbers
/// left.
pub proof fn menu_launch_keeps(d: DesktopV, k: AppKind)
    requires
        wf(d),
        d.next_id < i32::MAX,
    ensures
        wf(menu_launch_v(d, k)),
        shown(menu_launch_v(d, k).windows, k),
        menu_launch_v(d, k).next_id <= d.next_id + 1,
{
    launch_keeps(
        DesktopV {
            latched: without_bit(d.latched, k),
            opened: without_bit(d.opened, k),
            ..d
        },
        k,
    );
}

/// The agent's opening an app keeps the desktop well-formed while there are numbers
/// left.
pub proof fn agent_open_keeps(d: DesktopV, k: AppKind)
    requires
        wf(d),
        d.next_id < i32::MAX,
    ensures
        wf(agent_open_v(d, k)),
        !has_bit(d.latched, k) ==> shown(agent_open_v(d, k).windows, k),
        agent_open_v(d, k).next_id <= d.next_id + 1,
{
    menu_launch_keeps(d, k);
}

/// Closing a window keeps the desktop well-formed, and the closed app has no window.
pub proof fn user_close_keeps(d: DesktopV, id: i32)
    requires
        wf(d),
    ensures
        wf(user_close_v(d, id)),
        has_id(d.windows, id) ==> !shown(user_close_v(d, id).windows, window_v(d, id).kind),
{
    has_id_means(d.windows, id);
    let i = id_place(d.windows, id, 0);
    if i < d.windows.len() {
        remove_keeps(d.windows, d.next_id, i);
        let e = user_close_v(d, id);
        refocus_keeps(DesktopV { focused: d.focused, ..e });
    } else {
        refocus_keeps(d);
    }
}

/// The agent's closing an app keeps the desktop well-formed.
pub proof fn agent_close_keeps(d: DesktopV, k: AppKind)
    requires
        wf(d),
    ensures
        wf(agent_close_v(d, k)),
{
    has_kind_means(d.windows, k);
    let i = kind_place(d.windows, k, 0);
    if i < d.windows.len() && d.windows[i].id != d.dragging {
        remove_keeps(d.windows, d.next_id, i);
        refocus_keeps(DesktopV { focused: d.focused, ..agent_close_v(d, k) });
    }
}

/// The agent's raising an app keeps the desktop well-formed.
pub proof fn agent_focus_keeps(d: DesktopV, k: AppKind)
    requires
        wf(d),
    ensures
        wf(agent_focus_v(d, k)),
{
    has_kind_means(d.windows, k);
    let i = kind_place(d.windows, k, 0);
    if i < d.windows.len() {
        let id = d.windows[i].id;
        has_id_means(d.windows, id);
        update_keeps(d, id, WindowDesc { minimized: false, ..window_v(d, id) });
        focus_keeps(set_minimized_v(d, id, false), id);
    }
}

/// Minimizing, maximizing, a click in the task bar and a drag keep the desktop
/// well-formed.
pub proof fn hands_keep(d: DesktopV, id: i32)
    requires
        wf(d),
    ensures
        wf(minimize_v(d, id)),
        wf(maximize_v(d, id)),
        wf(task_activate_v(d, id)),
        wf(reshape_v(d, id)),
{
    has_id_means(d.windows, id);
    let w = window_v(d, id);
    update_keeps(d, id, WindowDesc { minimized: true, ..w });
    refocus_keeps(set_minimized_v(d, id, true));
    update_keeps(d, id, WindowDesc { maximized: !w.maximized, ..w });
    focus_keeps(
        note_id_v(update_v(d, id, WindowDesc { maximized: !w.maximized, ..w }), id),
        id,
    );
    update_keeps(d, id, WindowDesc { minimized: false, ..w });
    focus_keeps(set_minimized_v(d, id, false), id);
    focus_keeps(d, id);
    update_keeps(d, id, WindowDesc { placement: Placement::Free, ..w });
}

// ── The human wins ──────────────────────────────────────────────────────────

pub proof fn bit_facts(mask: u32, k: AppKind)
    ensures
        has_bit(with_bit(mask, k), k),
        !has_bit(without_bit(mask, k), k),
{
    let o = ordinal(k) as u32;
    assert(o < 32 ==> (mask | (1u32 << o)) & (1u32 << o) != 0 && (mask & !(1u32 << o)) & (1u32
        << o) == 0) by (bit_vector);
}

pub proof fn other_bit_facts(mask: u32, k: AppKind, other: AppKind)
    requires
        k != other,
    ensures
        has_bit(with_bit(mask, k), other) == has_bit(mask, other),
        has_bit(without_bit(mask, k), other) == has_bit(mask, other),
{
    let a = ordinal(k) as u32;
    let b = ordinal(other) as u32;
    assert(a < 32 && b < 32 && a != b ==> (mask | (1u32 << a)) & (1u32 << b) == mask & (1u32 << b)
        && (mask & !(1u32 << a)) & (1u32 << b) == mask & (1u32 << b)) by (bit_vector);
}

/// Where the human closes a window that the agent opened, the agent cannot open that
/// app again: trying leaves the desktop as it is.
pub proof fn closing_latches(d: DesktopV, id: i32)
    requires
        has_id(d.windows, id),
        has_bit(d.opened, window_v(d, id).kind) || window_v(d, id).kind == AppKind::Occipital,
    ensures
        has_bit(user_close_v(d, id).latched, window_v(d, id).kind),
        !has_bit(user_close_v(d, id).opened, window_v(d, id).kind),
        agent_open_v(user_close_v(d, id), window_v(d, id).kind) == user_close_v(d, id),
{
    let k = window_v(d, id).kind;
    bit_facts(d.latched, k);
    bit_facts(d.opened, k);
}

/// Closing a window that the human opened latches nothing, the reader's aside.
pub proof fn own_windows_close_freely(d: DesktopV, id: i32)
    requires
        has_id(d.windows, id),
        !has_bit(d.opened, window_v(d, id).kind),
        window_v(d, id).kind != AppKind::Occipital,
    ensures
        user_close_v(d, id).latched == d.latched,
{
}

/// What the agent closes itself is not latched.
pub proof fn agent_close_latches_nothing(d: DesktopV, k: AppKind)
    ensures
        agent_close_v(d, k).latched == d.latched,
{
}

/// The human's opening an app lifts its latch, and no other app's; the window is then
/// the human's.
pub proof fn menu_launch_invites(d: DesktopV, k: AppKind)
    ensures
        !has_bit(menu_launch_v(d, k).latched, k),
        !has_bit(menu_launch_v(d, k).opened, k),
        forall|o: AppKind|
            o != k ==> has_bit(menu_launch_v(d, k).latched, o) == has_bit(d.latched, o),
{
    bit_facts(d.latched, k);
    bit_facts(d.opened, k);
    assert forall|o: AppKind| o != k implies has_bit(menu_launch_v(d, k).latched, o) == has_bit(
        d.latched,
        o,
    ) by {
        other_bit_facts(d.latched, k, o);
    }
}

/// The agent never lifts a latch by opening an app.
pub proof fn agent_open_respects_latches(d: DesktopV, k: AppKind, o: AppKind)
    ensures
        has_bit(agent_open_v(d, k).latched, o) == has_bit(d.latched, o),
{
    if !has_bit(d.latched, k) {
        if o != k {
            other_bit_facts(d.latched, k, o);
        } else {
            bit_facts(d.latched, k);
        }
    }
}

/// A window under the pointer is not closed by the agent.
pub proof fn drag_guards_close(d: DesktopV, k: AppKind)
    requires
        has_kind(d.windows, k),
        d.windows[kind_place(d.windows, k, 0)].id == d.dragging,
    ensures
        agent_close_v(d, k) == d,
{
}

// ── Layouts ─────────────────────────────────────────────────────────────────

pub proof fn staged_facts(d: DesktopV, apps: Seq<Seq<char>>, i: int, kinds: Seq<AppKind>, cap: nat)
    requires
        wf(d),
        0 <= i,
        kinds.len() <= cap,
        d.next_id + (cap - kinds.len()) < i32::MAX,
        forall|a: int| 0 <= a < kinds.len() ==> !has_bit(d.latched, #[trigger] kinds[a]),
        forall|a: int, b: int| 0 <= a < b < kinds.len() ==> kinds[a] != kinds[b],
    ensures
        ({
            let (e, ks) = staged_v(d, apps, i, kinds, cap);
            &&& wf(e)
            &&& ks.len() <= cap
            &&& forall|a: int| 0 <= a < ks.len() ==> !has_bit(d.latched, #[trigger] ks[a])
            &&& forall|a: int, b: int| 0 <= a < b < ks.len() ==> ks[a] != ks[b]
            &&& forall|o: AppKind| has_bit(e.latched, o) == has_bit(d.latched, o)
        }),
    decreases apps.len() - i,
{
    if i < apps.len() && kinds.len() < cap {
        match crate::apps::app_named(apps[i]) {
            Some(k) => {
                if kinds.contains(k) || has_bit(d.latched, k) {
                    staged_facts(d, apps, i + 1, kinds, cap);
                } else {
                    let e = agent_open_v(d, k);
                    agent_open_keeps(d, k);
                    assert forall|o: AppKind| has_bit(e.latched, o) == has_bit(d.latched, o) by {
                        agent_open_respects_latches(d, k, o);
                    }
                    let more = kinds.push(k);
                    assert forall|a: int| 0 <= a < more.len() implies !has_bit(
                        e.latched,
                        #[trigger] more[a],
                    ) by {
                        if a < kinds.len() {
                            assert(more[a] == kinds[a]);
                        }
                    }
                    assert forall|a: int, b: int| 0 <= a < b < more.len() implies more[a]
                        != more[b] by {
                        if b == kinds.len() {
                            assert(kinds[a] == more[a]);
                        }
                    }
                    staged_facts(e, apps, i + 1, more, cap);
                }
            },
            None => {
                staged_facts(d, apps, i + 1, kinds, cap);
            },
        }
    }
}

pub proof fn place_keeps(d: DesktopV, k: AppKind, t: Tile)
    requires
        wf(d),
    ensures
        wf(place_v(d, k, t)),
        place_v(d, k, t).latched == d.latched,
        place_v(d, k, t).opened == d.opened,
{
    has_kind_means(d.windows, k);
    let row = kind_place(d.windows, k, 0);
    if row < d.windows.len() && d.windows[row].id != d.dragging {
        let id = d.windows[row].id;
        has_id_means(d.windows, id);
        update_keeps(
            d,
            id,
            WindowDesc {
                minimized: false,
                maximized: false,
                placement: Placement::Tiled(t),
                ..window_v(d, id)
            },
        );
    }
}

pub proof fn placed_keeps(d: DesktopV, kinds: Seq<AppKind>, tiles: Seq<Tile>, i: int)
    requires
        wf(d),
        0 <= i,
    ensures
        wf(placed_v(d, kinds, tiles, i)),
        placed_v(d, kinds, tiles, i).latched == d.latched,
        placed_v(d, kinds, tiles, i).opened == d.opened,
    decreases kinds.len() - i,
{
    if i < kinds.len() {
        if i < tiles.len() {
            place_keeps(d, kinds[i], tiles[i]);
            placed_keeps(place_v(d, kinds[i], tiles[i]), kinds, tiles, i + 1);
        } else {
            placed_keeps(d, kinds, tiles, i + 1);
        }
    }
}

pub proof fn cleared_keeps(d: DesktopV, main: AppKind, i: int)
    requires
        wf(d),
        0 <= i,
    ensures
        wf(cleared_v(d, main, i)),
        cleared_v(d, main, i).latched == d.latched,
    decreases d.windows.len() - i,
{
    if i < d.windows.len() {
        let w = d.windows[i];
        has_id_means(d.windows, w.id);
        if w.kind != main && !w.minimized && w.id != d.dragging {
            update_keeps(d, w.id, WindowDesc { minimized: true, ..window_v(d, w.id) });
            cleared_keeps(set_minimized_v(d, w.id, true), main, i + 1);
        } else {
            cleared_keeps(d, main, i + 1);
        }
    }
}

/// A layout keeps the desktop well-formed while there are numbers left. It opens six
/// apps at most, none of them twice and none that is latched, and lifts no latch.
pub proof fn arrange_keeps(d: DesktopV, layout: Seq<char>, apps: Seq<Seq<char>>)
    requires
        wf(d),
        d.next_id + ARRANGE_MAX < i32::MAX,
    ensures
        wf(arrange_v(d, layout, apps)),
        opened_by(d, layout, apps).len() <= ARRANGE_MAX,
        forall|a: int|
            0 <= a < opened_by(d, layout, apps).len() ==> !has_bit(
                d.latched,
                #[trigger] opened_by(d, layout, apps)[a],
            ),
        forall|a: int, b: int|
            0 <= a < b < opened_by(d, layout, apps).len() ==> opened_by(d, layout, apps)[a]
                != opened_by(d, layout, apps)[b],
        forall|o: AppKind|
            has_bit(arrange_v(d, layout, apps).latched, o) == has_bit(d.latched, o),
{
    if is_layout(layout) && d.mode == ShellMode::Desktop {
        let (e, kinds) = cast_v(d, layout, apps);
        if apps.len() > 0 {
            staged_facts(d, apps, 0, Seq::empty(), seats(layout));
        }
        if kinds.len() > 0 {
            let tiles = tiles_v(layout, kinds.len());
            placed_keeps(e, kinds, tiles, 0);
            let f = placed_v(e, kinds, tiles, 0);
            cleared_keeps(f, kinds[0], 0);
            let g = if layout == "focus"@ {
                cleared_v(f, kinds[0], 0)
            } else {
                f
            };
            let row = kind_place(g.windows, kinds[0], 0);
            has_kind_means(g.windows, kinds[0]);
            if row < g.windows.len() {
                focus_keeps(g, g.windows[row].id);
            }
        }
    }
}

/// A layout has as many places as windows, "focus" aside, which has one.
pub proof fn tiles_match_windows(layout: Seq<char>, n: nat)
    requires
        is_layout(layout),
        n > 0,
    ensures
        layout == "focus"@ ==> tiles_v(layout, n).len() == 1,
        layout != "focus"@ ==> tiles_v(layout, n).len() == n,
{
}

// ── The hand on a window ────────────────────────────────────────────────────

/// Whether a window is on the desktop just as it is.
pub open spec fn stands(d: DesktopV, w: WindowDesc) -> bool {
    d.windows.contains(w)
}

proof fn raising_moves_nothing(d: DesktopV, id: i32, w: WindowDesc)
    requires
        stands(d, w),
    ensures
        stands(focus_v(d, id), w),
        focus_v(d, id).dragging == d.dragging,
{
    has_id_means(d.windows, id);
    let i = id_place(d.windows, id, 0);
    if i < d.windows.len() {
        let q = choose|q: int| 0 <= q < d.windows.len() && d.windows[q] == w;
        let ws = focus_v(d, id).windows;
        if q < i {
            assert(ws[q] == w);
        } else if q == i {
            assert(ws[ws.len() - 1] == w);
        } else {
            assert(ws[q - 1] == w);
        }
    }
}

proof fn change_spares_others(d: DesktopV, id: i32, v: WindowDesc, w: WindowDesc)
    requires
        stands(d, w),
        has_id(d.windows, id) && window_v(d, id) == w ==> v == w,
    ensures
        stands(update_v(d, id, v), w),
        update_v(d, id, v).dragging == d.dragging,
{
    has_id_means(d.windows, id);
    let i = id_place(d.windows, id, 0);
    if i < d.windows.len() {
        let q = choose|q: int| 0 <= q < d.windows.len() && d.windows[q] == w;
        assert(update_v(d, id, v).windows[q] == if q == i {
            v
        } else {
            w
        });
    }
}

proof fn opening_spares(d: DesktopV, k: AppKind, w: WindowDesc)
    requires
        stands(d, w),
        !w.minimized,
    ensures
        stands(agent_open_v(d, k), w),
        agent_open_v(d, k).dragging == d.dragging,
{
    if !has_bit(d.latched, k) {
        let e = DesktopV {
            latched: without_bit(d.latched, k),
            opened: without_bit(d.opened, k),
            ..d
        };
        has_kind_means(e.windows, k);
        let i = kind_place(e.windows, k, 0);
        if i < e.windows.len() {
            let id = e.windows[i].id;
            change_spares_others(e, id, WindowDesc { minimized: false, ..window_v(e, id) }, w);
            raising_moves_nothing(set_minimized_v(e, id, false), id, w);
        } else {
            let f = DesktopV {
                windows: e.windows.push(fresh_v(e, k)),
                next_id: crate::desktop::next_number(e.next_id),
                ..e
            };
            let q = choose|q: int| 0 <= q < e.windows.len() && e.windows[q] == w;
            assert(f.windows[q] == w);
            raising_moves_nothing(f, e.next_id, w);
        }
    }
}

proof fn staging_spares(
    d: DesktopV,
    apps: Seq<Seq<char>>,
    i: int,
    kinds: Seq<AppKind>,
    cap: nat,
    w: WindowDesc,
)
    requires
        stands(d, w),
        !w.minimized,
    ensures
        stands(staged_v(d, apps, i, kinds, cap).0, w),
        staged_v(d, apps, i, kinds, cap).0.dragging == d.dragging,
    decreases apps.len() - i,
{
    if !(i < 0 || i >= apps.len() || kinds.len() >= cap) {
        match crate::apps::app_named(apps[i]) {
            Some(k) => if kinds.contains(k) || has_bit(d.latched, k) {
                staging_spares(d, apps, i + 1, kinds, cap, w);
            } else {
                opening_spares(d, k, w);
                staging_spares(agent_open_v(d, k), apps, i + 1, kinds.push(k), cap, w);
            },
            None => staging_spares(d, apps, i + 1, kinds, cap, w),
        }
    }
}

proof fn placing_spares(
    d: DesktopV,
    kinds: Seq<AppKind>,
    tiles: Seq<Tile>,
    i: int,
    w: WindowDesc,
)
    requires
        stands(d, w),
        w.id == d.dragging,
    ensures
        stands(placed_v(d, kinds, tiles, i), w),
        placed_v(d, kinds, tiles, i).dragging == d.dragging,
    decreases kinds.len() - i,
{
    if 0 <= i < kinds.len() {
        if i < tiles.len() {
            let row = kind_place(d.windows, kinds[i], 0);
            has_kind_means(d.windows, kinds[i]);
            if row < d.windows.len() && d.windows[row].id != d.dragging {
                let id = d.windows[row].id;
                has_id_means(d.windows, id);
                change_spares_others(
                    d,
                    id,
                    WindowDesc {
                        minimized: false,
                        maximized: false,
                        placement: Placement::Tiled(tiles[i]),
                        ..window_v(d, id)
                    },
                    w,
                );
            }
            placing_spares(place_v(d, kinds[i], tiles[i]), kinds, tiles, i + 1, w);
        } else {
            placing_spares(d, kinds, tiles, i + 1, w);
        }
    }
}

proof fn clearing_spares(d: DesktopV, main: AppKind, i: int, w: WindowDesc)
    requires
        0 <= i,
        stands(d, w),
        w.id == d.dragging,
    ensures
        stands(cleared_v(d, main, i), w),
        cleared_v(d, main, i).dragging == d.dragging,
    decreases d.windows.len() - i,
{
    if i < d.windows.len() {
        let v = d.windows[i];
        if v.kind != main && !v.minimized && v.id != d.dragging {
            has_id_means(d.windows, v.id);
            change_spares_others(
                d,
                v.id,
                WindowDesc { minimized: true, ..window_v(d, v.id) },
                w,
            );
            clearing_spares(set_minimized_v(d, v.id, true), main, i + 1, w);
        } else {
            clearing_spares(d, main, i + 1, w);
        }
    }
}

/// A layout never fights the hand: a window under the pointer keeps its place, its size
/// and its state.
pub proof fn layouts_spare_the_hand(
    d: DesktopV,
    layout: Seq<char>,
    apps: Seq<Seq<char>>,
    w: WindowDesc,
)
    requires
        stands(d, w),
        w.id == d.dragging,
        !w.minimized,
    ensures
        stands(arrange_v(d, layout, apps), w),
{
    if is_layout(layout) && d.mode == ShellMode::Desktop {
        let (e, kinds) = cast_v(d, layout, apps);
        if apps.len() > 0 {
            staging_spares(d, apps, 0, Seq::empty(), seats(layout), w);
        }
        if kinds.len() > 0 {
            let tiles = tiles_v(layout, kinds.len());
            placing_spares(e, kinds, tiles, 0, w);
            let f = placed_v(e, kinds, tiles, 0);
            clearing_spares(f, kinds[0], 0, w);
            let g = if layout == "focus"@ {
                cleared_v(f, kinds[0], 0)
            } else {
                f
            };
            let row = kind_place(g.windows, kinds[0], 0);
            if row < g.windows.len() {
                raising_moves_nothing(g, g.windows[row].id, w);
            }
        }
    }
}

/// Whether a window is out of the way of the main app: minimized, its own, or under the
/// pointer.
pub open spec fn out_of_the_way(w: WindowDesc, main: AppKind, dragging: i32) -> bool {
    w.minimized || w.kind == main || w.id == dragging
}

proof fn clearing_clears(d: DesktopV, main: AppKind, i: int)
    requires
        wf(d),
        0 <= i,
        forall|j: int|
            0 <= j < i && j < d.windows.len() ==> out_of_the_way(
                #[trigger] d.windows[j],
                main,
                d.dragging,
            ),
    ensures
        forall|j: int|
            0 <= j < cleared_v(d, main, i).windows.len() ==> out_of_the_way(
                #[trigger] cleared_v(d, main, i).windows[j],
                main,
                d.dragging,
            ),
        cleared_v(d, main, i).dragging == d.dragging,
    decreases d.windows.len() - i,
{
    if i < d.windows.len() {
        let w = d.windows[i];
        has_id_means(d.windows, w.id);
        if w.kind != main && !w.minimized && w.id != d.dragging {
            let v = WindowDesc { minimized: true, ..window_v(d, w.id) };
            update_keeps(d, w.id, v);
            let p = id_place(d.windows, w.id, 0);
            assert(p == i);
            let e = set_minimized_v(d, w.id, true);
            assert forall|j: int| 0 <= j < i + 1 && j < e.windows.len() implies out_of_the_way(
                #[trigger] e.windows[j],
                main,
                e.dragging,
            ) by {
                if j < i {
                    assert(e.windows[j] == d.windows[j]);
                }
            }
            clearing_clears(e, main, i + 1);
        } else {
            clearing_clears(d, main, i + 1);
        }
    }
}

/// The layout "focus" leaves one thing on stage: every window is minimized but that of the
/// main app and one under the pointer.
pub proof fn focus_clears_the_stage(d: DesktopV, apps: Seq<Seq<char>>, j: int)
    requires
        wf(d),
        d.next_id + ARRANGE_MAX < i32::MAX,
        arranges(d, "focus"@, apps),
        0 <= j < arrange_v(d, "focus"@, apps).windows.len(),
    ensures
        out_of_the_way(
            arrange_v(d, "focus"@, apps).windows[j],
            cast_v(d, "focus"@, apps).1[0],
            cast_v(d, "focus"@, apps).0.dragging,
        ),
{
    let layout = "focus"@;
    let (e, kinds) = cast_v(d, layout, apps);
    if apps.len() > 0 {
        staged_facts(d, apps, 0, Seq::empty(), seats(layout));
    }
    let tiles = tiles_v(layout, kinds.len());
    placed_keeps(e, kinds, tiles, 0);
    placed_drags(e, kinds, tiles, 0);
    let f = placed_v(e, kinds, tiles, 0);
    cleared_keeps(f, kinds[0], 0);
    clearing_clears(f, kinds[0], 0);
    let g = cleared_v(f, kinds[0], 0);
    let row = kind_place(g.windows, kinds[0], 0);
    has_kind_means(g.windows, kinds[0]);
    if row < g.windows.len() {
        let id = g.windows[row].id;
        has_id_means(g.windows, id);
        let i = id_place(g.windows, id, 0);
        let n = g.windows.len();
        assert(focus_v(g, id).windows[j] == g.windows[if j < i {
            j
        } else if j < n - 1 {
            j + 1
        } else {
            i
        }]);
    }
}

proof fn placed_drags(d: DesktopV, kinds: Seq<AppKind>, tiles: Seq<Tile>, i: int)
    ensures
        placed_v(d, kinds, tiles, i).dragging == d.dragging,
    decreases kinds.len() - i,
{
    if 0 <= i < kinds.len() {
        if i < tiles.len() {
            placed_drags(place_v(d, kinds[i], tiles[i]), kinds, tiles, i + 1);
        } else {
            placed_drags(d, kinds, tiles, i + 1);
        }
    }
}

} // verus!
