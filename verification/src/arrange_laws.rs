//! What a layout makes of the windows: who takes part, and where each one ends up.
use vstd::prelude::*;
use crate::apps::{app_named, AppKind};
use crate::arrange::{
    arrange_v, arranges, cast_v, cleared_v, grid_cols, grid_rows, opened_by, place_v, placed_v,
    root_up, seats, showing_v, staged_v, tiles_v, visible_v,
};
use crate::desktop::{
    agent_open_v, has_bit, kind_place, kind_place_bounds, set_minimized_v, DesktopV, Placement,
    ShellMode, Tile, WindowDesc,
};
use crate::desktop_laws::{
    agent_open_keeps, agent_open_respects_latches, cleared_keeps, distinct, placed_keeps, shown,
    staged_facts, wf,
};
use crate::window_laws::{all_hidden, found_at, on_top};

verus! {

// ── Who takes part ──────────────────────────────────────────────────────────

/// The names of the layouts.
pub open spec fn is_known(layout: Seq<char>) -> bool {
    layout == "focus"@ || layout == "split"@ || layout == "main-side"@ || layout == "grid"@
}

/// How many of the windows between the place `i` and the place `n` show.
pub open spec fn shown_above(ws: Seq<WindowDesc>, i: int, n: int) -> nat
    decreases n - i,
{
    if n <= i + 1 {
        0
    } else if ws[n - 1].minimized {
        shown_above(ws, i, n - 1)
    } else {
        shown_above(ws, i, n - 1) + 1
    }
}

/// How many windows above the one at `i` show: the topmost that shows has the rank zero.
pub open spec fn rank(ws: Seq<WindowDesc>, i: int) -> nat {
    shown_above(ws, i, ws.len() as int)
}

/// How many windows show.
pub open spec fn showing(ws: Seq<WindowDesc>) -> nat {
    shown_above(ws, -1, ws.len() as int)
}

proof fn one_more_above(ws: Seq<WindowDesc>, i: int, n: int)
    requires
        0 <= i < n <= ws.len(),
    ensures
        shown_above(ws, i - 1, n) == shown_above(ws, i, n) + if ws[i].minimized {
            0nat
        } else {
            1nat
        },
    decreases n - i,
{
    if n > i + 1 {
        one_more_above(ws, i, n - 1);
    } else {
        reveal_with_fuel(shown_above, 2);
    }
}

/// Whether the window at `j` shows and has the rank `a`.
pub open spec fn ranked(ws: Seq<WindowDesc>, j: int, a: int) -> bool {
    0 <= j < ws.len() && !ws[j].minimized && rank(ws, j) == a
}

/// Whether a list holds the apps of the windows from `n` on that show, each in the place of
/// its rank.
pub open spec fn ranks(ws: Seq<WindowDesc>, n: int, found: Seq<AppKind>) -> bool {
    &&& forall|j: int, a: int| #[trigger]
        ranked(ws, j, a) && n <= j ==> a < found.len() && found[a] == ws[j].kind
    &&& forall|a: int| 0 <= a < found.len() ==> #[trigger] has_rank(ws, n, a)
}

/// Whether a window from `n` on shows and has the rank `a`.
pub open spec fn has_rank(ws: Seq<WindowDesc>, n: int, a: int) -> bool {
    exists|j: int| n <= j && #[trigger] ranked(ws, j, a)
}

proof fn ranks_found(ws: Seq<WindowDesc>, n: int, found: Seq<AppKind>)
    requires
        distinct(ws),
        0 <= n <= ws.len(),
        found.len() == shown_above(ws, n - 1, ws.len() as int),
        ranks(ws, n, found),
    ensures
        showing_v(ws, n, found).len() == showing(ws),
        ranks(ws, 0, showing_v(ws, n, found)),
    decreases n,
{
    if n > 0 {
        let w = ws[n - 1];
        one_more_above(ws, n - 1, ws.len() as int);
        if w.minimized {
            assert forall|j: int, a: int| #[trigger]
                ranked(ws, j, a) && n - 1 <= j implies a < found.len() && found[a]
                == ws[j].kind by {
                assert(j != n - 1);
            }
            assert forall|a: int| 0 <= a < found.len() implies #[trigger] has_rank(ws, n - 1, a) by {
                assert(has_rank(ws, n, a));
                let j = choose|j: int| n <= j && #[trigger] ranked(ws, j, a);
                assert(ranked(ws, j, a));
            }
            ranks_found(ws, n - 1, found);
        } else {
            assert(!found.contains(w.kind)) by {
                if found.contains(w.kind) {
                    let a = choose|a: int| 0 <= a < found.len() && found[a] == w.kind;
                    assert(has_rank(ws, n, a));
                    let j = choose|j: int| n <= j && #[trigger] ranked(ws, j, a);
                    assert(found[a] == ws[j].kind);
                    assert(ws[n - 1].kind != ws[j].kind);
                }
            }
            let more = found.push(w.kind);
            assert(ranked(ws, n - 1, found.len() as int));
            assert forall|j: int, a: int| #[trigger]
                ranked(ws, j, a) && n - 1 <= j implies a < more.len() && more[a] == ws[j].kind by {
                if j == n - 1 {
                    assert(a == found.len());
                }
            }
            assert forall|a: int| 0 <= a < more.len() implies #[trigger] has_rank(ws, n - 1, a) by {
                if a < found.len() {
                    assert(has_rank(ws, n, a));
                    let j = choose|j: int| n <= j && #[trigger] ranked(ws, j, a);
                    assert(ranked(ws, j, a));
                }
            }
            ranks_found(ws, n - 1, more);
        }
    }
}

/// Where no apps are named, those that show take part, the topmost first, six at most. One
/// that is minimized does not.
pub proof fn those_that_show_take_part(d: DesktopV, layout: Seq<char>)
    requires
        distinct(d.windows),
    ensures
        ({
            let kinds = cast_v(d, layout, Seq::empty()).1;
            let n = showing(d.windows);
            &&& cast_v(d, layout, Seq::empty()).0 == d
            &&& kinds.len() == if n < 6 {
                n
            } else {
                6
            }
            &&& forall|j: int, a: int| #[trigger]
                ranked(d.windows, j, a) && a < 6 ==> a < kinds.len() && kinds[a]
                    == d.windows[j].kind
            &&& forall|a: int| 0 <= a < kinds.len() ==> #[trigger] has_rank(d.windows, 0, a)
        }),
{
    let ws = d.windows;
    let found = showing_v(ws, ws.len() as int, Seq::empty());
    ranks_found(ws, ws.len() as int, Seq::empty());
    let kinds = visible_v(ws);
    assert forall|j: int, a: int| #[trigger]
        ranked(ws, j, a) && a < 6 implies a < kinds.len() && kinds[a] == ws[j].kind by {
        assert(found[a] == ws[j].kind);
    }
}

proof fn nothing_above_the_top(ws: Seq<WindowDesc>, t: int, n: int)
    requires
        on_top(ws, t),
        t < n <= ws.len(),
    ensures
        shown_above(ws, t, n) == 0,
    decreases n,
{
    if n > t + 1 {
        nothing_above_the_top(ws, t, n - 1);
    }
}

proof fn nothing_shows(ws: Seq<WindowDesc>, n: int)
    requires
        all_hidden(ws),
        0 <= n <= ws.len(),
    ensures
        shown_above(ws, -1, n) == 0,
    decreases n,
{
    if n > 0 {
        nothing_shows(ws, n - 1);
    }
}

// ── Where each window ends up ───────────────────────────────────────────────

/// A window on a tile.
pub open spec fn tiled(w: WindowDesc, t: Tile) -> WindowDesc {
    WindowDesc { minimized: false, maximized: false, placement: Placement::Tiled(t), ..w }
}

proof fn place_at(d: DesktopV, k: AppKind, t: Tile, j: int)
    requires
        wf(d),
        0 <= j < d.windows.len(),
    ensures
        ({
            let e = place_v(d, k, t);
            &&& e.windows.len() == d.windows.len()
            &&& e.windows[j] == if d.windows[j].kind == k && d.windows[j].id != d.dragging {
                tiled(d.windows[j], t)
            } else {
                d.windows[j]
            }
            &&& e.dragging == d.dragging
            &&& e.next_id == d.next_id
            &&& e.mode == d.mode
            &&& e.focused == d.focused
        }),
{
    kind_place_bounds(d.windows, k, 0);
    let row = kind_place(d.windows, k, 0);
    if row < d.windows.len() {
        found_at(d, row);
        if j != row {
            assert(d.windows[j].kind != k);
        }
    }
}

proof fn placed_at(d: DesktopV, kinds: Seq<AppKind>, tiles: Seq<Tile>, i: int, j: int)
    requires
        wf(d),
        0 <= i,
        0 <= j < d.windows.len(),
        forall|a: int, b: int| 0 <= a < b < kinds.len() ==> kinds[a] != kinds[b],
    ensures
        ({
            let e = placed_v(d, kinds, tiles, i);
            &&& e.windows.len() == d.windows.len()
            &&& e.dragging == d.dragging
            &&& e.next_id == d.next_id
            &&& e.mode == d.mode
            &&& e.focused == d.focused
            &&& e.windows[j].id == d.windows[j].id
            &&& e.windows[j].kind == d.windows[j].kind
            &&& d.windows[j].id == d.dragging ==> e.windows[j] == d.windows[j]
            &&& (forall|a: int|
                i <= a < kinds.len() && a < tiles.len() ==> kinds[a] != d.windows[j].kind)
                ==> e.windows[j] == d.windows[j]
            &&& forall|a: int|
                i <= a < kinds.len() && a < tiles.len() && kinds[a] == d.windows[j].kind
                    && d.windows[j].id != d.dragging ==> e.windows[j] == tiled(
                    d.windows[j],
                    #[trigger] tiles[a],
                )
        }),
    decreases kinds.len() - i,
{
    if i < kinds.len() {
        if i < tiles.len() {
            let e = place_v(d, kinds[i], tiles[i]);
            place_at(d, kinds[i], tiles[i], j);
            crate::desktop_laws::place_keeps(d, kinds[i], tiles[i]);
            placed_at(e, kinds, tiles, i + 1, j);
            if kinds[i] == d.windows[j].kind {
                assert forall|a: int| i + 1 <= a < kinds.len() && a < tiles.len() implies kinds[a]
                    != e.windows[j].kind by {}
            }
        } else {
            placed_at(d, kinds, tiles, i + 1, j);
        }
    }
}

proof fn cleared_at(d: DesktopV, main: AppKind, i: int, j: int)
    requires
        wf(d),
        0 <= i,
        0 <= j < d.windows.len(),
    ensures
        ({
            let e = cleared_v(d, main, i);
            &&& e.windows.len() == d.windows.len()
            &&& e.dragging == d.dragging
            &&& e.next_id == d.next_id
            &&& e.mode == d.mode
            &&& e.windows[j] == if j >= i && d.windows[j].kind != main && d.windows[j].id
                != d.dragging {
                WindowDesc { minimized: true, ..d.windows[j] }
            } else {
                d.windows[j]
            }
        }),
    decreases d.windows.len() - i,
{
    if i < d.windows.len() {
        let w = d.windows[i];
        found_at(d, i);
        if w.kind != main && !w.minimized && w.id != d.dragging {
            let e = set_minimized_v(d, w.id, true);
            crate::desktop_laws::update_keeps(
                d,
                w.id,
                WindowDesc { minimized: true, ..crate::desktop::window_v(d, w.id) },
            );
            cleared_at(e, main, i + 1, j);
        } else {
            cleared_at(d, main, i + 1, j);
        }
    }
}

/// Where the window at `j` stands once the one at `t` is raised above the `n`.
pub open spec fn moved_to(j: int, t: int, n: int) -> int {
    if j < t {
        j
    } else if j > t {
        j - 1
    } else {
        n - 1
    }
}

/// What becomes of the window at `j` when those apps are put on those tiles.
proof fn laid_out(
    d: DesktopV,
    e: DesktopV,
    layout: Seq<char>,
    kinds: Seq<AppKind>,
    apps: Seq<Seq<char>>,
    t: int,
    j: int,
)
    requires
        wf(e),
        is_known(layout),
        d.mode == ShellMode::Desktop,
        cast_v(d, layout, apps) == (e, kinds),
        kinds.len() > 0,
        forall|a: int, b: int| 0 <= a < b < kinds.len() ==> kinds[a] != kinds[b],
        0 <= t < e.windows.len(),
        e.windows[t].kind == kinds[0],
        0 <= j < e.windows.len(),
    ensures
        ({
            let r = arrange_v(d, layout, apps);
            let w = e.windows[j];
            let x = r.windows[moved_to(j, t, e.windows.len() as int)];
            let tiles = tiles_v(layout, kinds.len());
            &&& r.windows.len() == e.windows.len()
            &&& r.focused == e.windows[t].id
            &&& r.next_id == e.next_id
            &&& r.mode == e.mode
            &&& r.dragging == e.dragging
            &&& x.id == w.id && x.kind == w.kind
            &&& w.id == e.dragging ==> x == w
            &&& forall|a: int|
                0 <= a < kinds.len() && a < tiles.len() && kinds[a] == w.kind && w.id != e.dragging
                    && (layout != "focus"@ || a == 0) ==> x == tiled(w, #[trigger] tiles[a])
            &&& layout != "focus"@ && !kinds.contains(w.kind) ==> x == w
            &&& layout == "focus"@ && w.kind != kinds[0] && w.id != e.dragging ==> x.minimized
                && x.placement == w.placement
        }),
{
    let tiles = tiles_v(layout, kinds.len());
    let f = placed_v(e, kinds, tiles, 0);
    placed_keeps(e, kinds, tiles, 0);
    placed_at(e, kinds, tiles, 0, j);
    placed_at(e, kinds, tiles, 0, t);
    let g = if layout == "focus"@ {
        cleared_v(f, kinds[0], 0)
    } else {
        f
    };
    cleared_keeps(f, kinds[0], 0);
    cleared_at(f, kinds[0], 0, j);
    cleared_at(f, kinds[0], 0, t);
    assert(g.windows[t].kind == kinds[0]);
    found_at(g, t);
    if layout == "focus"@ {
        assert(tiles.len() == 1);
        if w_is_other(e, kinds, j) {
            assert forall|a: int| 0 <= a < kinds.len() && a < tiles.len() implies kinds[a]
                != e.windows[j].kind by {}
        }
    } else if !kinds.contains(e.windows[j].kind) {
        assert forall|a: int| 0 <= a < kinds.len() && a < tiles.len() implies kinds[a]
            != e.windows[j].kind by {}
    }
    let r = arrange_v(d, layout, apps);
    assert(r.windows == g.windows.remove(t).push(g.windows[t]));
    assert(r.windows[moved_to(j, t, e.windows.len() as int)] == g.windows[j]);
}

spec fn w_is_other(e: DesktopV, kinds: Seq<AppKind>, j: int) -> bool {
    e.windows[j].kind != kinds[0]
}

/// A layout for no named apps turns to the windows that show. The topmost of them, at `t`,
/// is raised above all and gets the focus, and is the main one. Of the others:
///
/// * one that is minimized stays minimized, just as it is;
/// * one that shows is put on the tile of its rank, where the layout has one;
/// * under "focus" every other window is minimized;
/// * one that finds no seat stays as it is, and so does one under the pointer.
///
/// The windows stay one above the other as before, and nothing is opened or latched.
pub proof fn layouts_arrange_what_shows(d: DesktopV, layout: Seq<char>, t: int, j: int)
    requires
        wf(d),
        d.mode == ShellMode::Desktop,
        is_known(layout),
        on_top(d.windows, t),
        0 <= j < d.windows.len(),
    ensures
        ({
            let n = d.windows.len() as int;
            let e = arrange_v(d, layout, Seq::empty());
            let m = if showing(d.windows) < 6 {
                showing(d.windows)
            } else {
                6
            };
            let w = d.windows[j];
            let x = e.windows[moved_to(j, t, n)];
            &&& arranges(d, layout, Seq::empty())
            &&& opened_by(d, layout, Seq::empty()).len() == 0
            &&& e.windows.len() == n
            &&& e.focused == d.windows[t].id
            &&& e.windows.last().kind == d.windows[t].kind
            &&& e.next_id == d.next_id
            &&& x.id == w.id && x.kind == w.kind
            &&& w.minimized || w.id == d.dragging ==> x == w || (layout == "focus"@ && x.minimized)
            &&& w.id == d.dragging ==> x == w
            &&& w.minimized ==> x.minimized && x.placement == w.placement
            &&& !w.minimized && w.id != d.dragging && layout != "focus"@ && rank(d.windows, j) < 6
                ==> x == tiled(w, tiles_v(layout, m)[rank(d.windows, j) as int])
            &&& !w.minimized && layout != "focus"@ && rank(d.windows, j) >= 6 ==> x == w
            &&& w.id != d.dragging && layout == "focus"@ && j != t ==> x.minimized
            &&& w.id != d.dragging && layout == "focus"@ && j == t ==> x == tiled(w, Tile::Whole)
        }),
{
    let ws = d.windows;
    those_that_show_take_part(d, layout);
    nothing_above_the_top(ws, t, ws.len() as int);
    let kinds = cast_v(d, layout, Seq::empty()).1;
    assert(rank(ws, t) == 0);
    one_more_above(ws, t, ws.len() as int);
    assert(ranked(ws, t, 0));
    assert forall|a: int, b: int| 0 <= a < b < kinds.len() implies kinds[a] != kinds[b] by {
        assert(has_rank(ws, 0, a) && has_rank(ws, 0, b));
        let x = choose|x: int| 0 <= x && #[trigger] ranked(ws, x, a);
        let y = choose|y: int| 0 <= y && #[trigger] ranked(ws, y, b);
        assert(x != y);
        assert(x < y ==> ws[x].kind != ws[y].kind);
        assert(y < x ==> ws[y].kind != ws[x].kind);
    }
    laid_out(d, d, layout, kinds, Seq::empty(), t, j);
    laid_out(d, d, layout, kinds, Seq::empty(), t, t);
    let w = ws[j];
    let r = rank(ws, j) as int;
    assert(!w.minimized ==> ranked(ws, j, r));
    if w.minimized || r >= 6 {
        if kinds.contains(w.kind) {
            let a = choose|a: int| 0 <= a < kinds.len() && kinds[a] == w.kind;
            assert(has_rank(ws, 0, a));
            let x = choose|x: int| 0 <= x && #[trigger] ranked(ws, x, a);
            assert(x < j ==> ws[x].kind != ws[j].kind);
            assert(j < x ==> ws[j].kind != ws[x].kind);
            assert(x == j);
        }
    }
    assert(j < t ==> ws[j].kind != ws[t].kind);
    assert(t < j ==> ws[t].kind != ws[j].kind);
    let tiles = tiles_v(layout, kinds.len());
    crate::desktop_laws::tiles_match_windows(layout, kinds.len());
    if !w.minimized && r < 6 && layout != "focus"@ {
        assert(tiles[r] == tiles_v(layout, kinds.len())[r]);
    }
    if layout == "focus"@ {
        assert(tiles[0] == Tile::Whole);
    }
}

/// Where no window shows and no apps are named, a layout changes nothing.
pub proof fn nothing_to_arrange(d: DesktopV, layout: Seq<char>)
    requires
        distinct(d.windows),
        all_hidden(d.windows),
    ensures
        arrange_v(d, layout, Seq::empty()) == d,
        !arranges(d, layout, Seq::empty()),
{
    those_that_show_take_part(d, layout);
    nothing_shows(d.windows, d.windows.len() as int);
}

/// Where the desktop is no desktop, and for a name that is no layout, a layout changes
/// nothing and opens nothing.
pub proof fn layouts_need_a_desktop(d: DesktopV, layout: Seq<char>, apps: Seq<Seq<char>>)
    requires
        d.mode != ShellMode::Desktop || !is_known(layout),
    ensures
        arrange_v(d, layout, apps) == d,
        !arranges(d, layout, apps),
        opened_by(d, layout, apps).len() == 0,
{
}

// ── Named apps ──────────────────────────────────────────────────────────────

/// Whether the name at `j` is that of an app.
#[verifier::opaque]
pub open spec fn names(apps: Seq<Seq<char>>, j: int, k: AppKind) -> bool {
    app_named(apps[j]) == Some(k)
}

/// Whether some name among the first `n` is that of an app.
pub open spec fn named(apps: Seq<Seq<char>>, n: int, k: AppKind) -> bool {
    exists|j: int| 0 <= j < n && j < apps.len() && #[trigger] names(apps, j, k)
}

/// Whether each of the first `n` names is taken care of: what it names is latched, or takes
/// part.
pub open spec fn cared_for(d: DesktopV, apps: Seq<Seq<char>>, n: int, ks: Seq<AppKind>) -> bool {
    forall|j: int, k: AppKind|
        0 <= j < n && #[trigger] names(apps, j, k) ==> has_bit(d.latched, k) || ks.contains(k)
}

/// Whether each app of a list is named among the first `n` names.
pub open spec fn all_named(apps: Seq<Seq<char>>, n: int, ks: Seq<AppKind>) -> bool {
    forall|a: int| 0 <= a < ks.len() ==> named(apps, n, #[trigger] ks[a])
}

proof fn named_later(apps: Seq<Seq<char>>, n: int, m: int, ks: Seq<AppKind>)
    requires
        all_named(apps, n, ks),
        n <= m,
    ensures
        all_named(apps, m, ks),
{
    assert forall|a: int| 0 <= a < ks.len() implies named(apps, m, #[trigger] ks[a]) by {
        assert(named(apps, n, ks[a]));
        let j = choose|j: int| 0 <= j < n && j < apps.len() && #[trigger] names(apps, j, ks[a]);
        assert(names(apps, j, ks[a]));
    }
}

proof fn staged_names(d: DesktopV, apps: Seq<Seq<char>>, i: int, kinds: Seq<AppKind>, cap: nat)
    requires
        0 <= i <= apps.len(),
        kinds.len() <= cap,
        all_named(apps, i, kinds),
        cared_for(d, apps, i, kinds),
    ensures
        staged_v(d, apps, i, kinds, cap).1.len() <= cap,
        all_named(apps, apps.len() as int, staged_v(d, apps, i, kinds, cap).1),
        staged_v(d, apps, i, kinds, cap).1.len() < cap ==> cared_for(
            d,
            apps,
            apps.len() as int,
            staged_v(d, apps, i, kinds, cap).1,
        ),
    decreases apps.len() - i,
{
    named_later(apps, i, apps.len() as int, kinds);
    if i < apps.len() && kinds.len() < cap {
        named_later(apps, i, i + 1, kinds);
        let here = app_named(apps[i]);
        assert forall|k: AppKind| names(apps, i, k) implies here == Some(k) by {
            reveal(names);
        }
        match here {
            Some(k) => {
                assert(names(apps, i, k)) by {
                    reveal(names);
                }
                if kinds.contains(k) || has_bit(d.latched, k) {
                    staged_names(d, apps, i + 1, kinds, cap);
                } else {
                    let e = agent_open_v(d, k);
                    let more = kinds.push(k);
                    assert forall|o: AppKind| has_bit(e.latched, o) == has_bit(d.latched, o) by {
                        agent_open_respects_latches(d, k, o);
                    }
                    assert forall|a: int| 0 <= a < more.len() implies named(
                        apps,
                        i + 1,
                        #[trigger] more[a],
                    ) by {
                        if a < kinds.len() {
                            assert(named(apps, i + 1, kinds[a]));
                        }
                    }
                    assert forall|j: int, o: AppKind|
                        0 <= j < i + 1 && #[trigger] names(apps, j, o) implies has_bit(e.latched, o)
                        || more.contains(o) by {
                        if j < i {
                            if kinds.contains(o) {
                                let a = choose|a: int| 0 <= a < kinds.len() && kinds[a] == o;
                                assert(more[a] == o);
                            }
                        } else {
                            assert(more[kinds.len() as int] == k);
                        }
                    }
                    staged_names(e, apps, i + 1, more, cap);
                    let ks = staged_v(d, apps, i, kinds, cap).1;
                    if ks.len() < cap {
                        assert forall|j: int, o: AppKind|
                            0 <= j < apps.len() && #[trigger] names(apps, j, o) implies has_bit(
                            d.latched,
                            o,
                        ) || ks.contains(o) by {
                            assert(has_bit(e.latched, o) == has_bit(d.latched, o));
                        }
                    }
                }
            },
            None => {
                staged_names(d, apps, i + 1, kinds, cap);
            },
        }
    }
}

/// Where apps are named, exactly those are opened that a name stands for, that are not
/// latched, and that find a seat: under "focus" there is one, and six otherwise.
pub proof fn named_apps_take_part(d: DesktopV, layout: Seq<char>, apps: Seq<Seq<char>>)
    requires
        wf(d),
        d.next_id + 6 < i32::MAX,
        d.mode == ShellMode::Desktop,
        is_known(layout),
        apps.len() > 0,
    ensures
        ({
            let ks = opened_by(d, layout, apps);
            let room: nat = if layout == "focus"@ {
                1
            } else {
                6
            };
            &&& ks.len() <= room
            &&& arranges(d, layout, apps) <==> ks.len() > 0
            &&& all_named(apps, apps.len() as int, ks)
            &&& forall|a: int| 0 <= a < ks.len() ==> !has_bit(d.latched, #[trigger] ks[a])
            &&& forall|a: int, b: int| 0 <= a < b < ks.len() ==> ks[a] != ks[b]
            &&& ks.len() < room ==> cared_for(d, apps, apps.len() as int, ks)
        }),
{
    staged_facts(d, apps, 0, Seq::empty(), seats(layout));
    staged_names(d, apps, 0, Seq::empty(), seats(layout));
}

proof fn staged_of_fewer(
    d: DesktopV,
    apps: Seq<Seq<char>>,
    n: int,
    i: int,
    kinds: Seq<AppKind>,
    cap: nat,
)
    requires
        0 <= i <= n <= apps.len(),
        kinds.len() <= cap,
    ensures
        ({
            let few = staged_v(d, apps.take(n), i, kinds, cap).1;
            let all = staged_v(d, apps, i, kinds, cap).1;
            &&& few.len() <= all.len()
            &&& all.take(few.len() as int) == few
        }),
    decreases n - i,
{
    let all = staged_v(d, apps, i, kinds, cap).1;
    staged_grows(d, apps, i, kinds, cap);
    if i < n && kinds.len() < cap {
        assert(apps.take(n)[i] == apps[i]);
        match app_named(apps[i]) {
            Some(k) => {
                if kinds.contains(k) || has_bit(d.latched, k) {
                    staged_of_fewer(d, apps, n, i + 1, kinds, cap);
                } else {
                    staged_of_fewer(agent_open_v(d, k), apps, n, i + 1, kinds.push(k), cap);
                }
            },
            None => {
                staged_of_fewer(d, apps, n, i + 1, kinds, cap);
            },
        }
    }
}

proof fn staged_grows(d: DesktopV, apps: Seq<Seq<char>>, i: int, kinds: Seq<AppKind>, cap: nat)
    requires
        0 <= i <= apps.len(),
        kinds.len() <= cap,
    ensures
        kinds.len() <= staged_v(d, apps, i, kinds, cap).1.len(),
        staged_v(d, apps, i, kinds, cap).1.take(kinds.len() as int) == kinds,
    decreases apps.len() - i,
{
    assert(kinds.take(kinds.len() as int) =~= kinds);
    if i < apps.len() && kinds.len() < cap {
        match app_named(apps[i]) {
            Some(k) => {
                if kinds.contains(k) || has_bit(d.latched, k) {
                    staged_grows(d, apps, i + 1, kinds, cap);
                } else {
                    let more = kinds.push(k);
                    staged_grows(agent_open_v(d, k), apps, i + 1, more, cap);
                    let ks = staged_v(d, apps, i, kinds, cap).1;
                    assert(ks.take(kinds.len() as int) =~= ks.take(more.len() as int).take(
                        kinds.len() as int,
                    ));
                    assert(more.take(kinds.len() as int) =~= kinds);
                }
            },
            None => {
                staged_grows(d, apps, i + 1, kinds, cap);
            },
        }
    }
}

/// Names are read in their order: those that come later take nothing from those before.
pub proof fn earlier_names_come_first(d: DesktopV, layout: Seq<char>, apps: Seq<Seq<char>>, n: int)
    requires
        0 < n <= apps.len(),
    ensures
        ({
            let few = opened_by(d, layout, apps.take(n));
            let all = opened_by(d, layout, apps);
            &&& few.len() <= all.len()
            &&& all.take(few.len() as int) == few
        }),
{
    staged_of_fewer(d, apps, n, 0, Seq::empty(), seats(layout));
    let all = opened_by(d, layout, apps);
    assert(all.take(0) =~= Seq::<AppKind>::empty());
}

proof fn staged_shows(d: DesktopV, apps: Seq<Seq<char>>, i: int, kinds: Seq<AppKind>, cap: nat)
    requires
        wf(d),
        0 <= i,
        kinds.len() <= cap,
        d.next_id + (cap - kinds.len()) < i32::MAX,
        forall|a: int| 0 <= a < kinds.len() ==> shown(d.windows, #[trigger] kinds[a]),
    ensures
        ({
            let (e, ks) = staged_v(d, apps, i, kinds, cap);
            &&& wf(e)
            &&& e.mode == d.mode
            &&& e.dragging == d.dragging
            &&& forall|a: int| 0 <= a < ks.len() ==> shown(e.windows, #[trigger] ks[a])
        }),
    decreases apps.len() - i,
{
    if i < apps.len() && kinds.len() < cap {
        match app_named(apps[i]) {
            Some(k) => {
                if kinds.contains(k) || has_bit(d.latched, k) {
                    staged_shows(d, apps, i + 1, kinds, cap);
                } else {
                    let e = agent_open_v(d, k);
                    agent_open_keeps(d, k);
                    crate::window_laws::agent_open_shows_one_window(d, k);
                    let more = kinds.push(k);
                    assert forall|a: int| 0 <= a < more.len() implies shown(
                        e.windows,
                        #[trigger] more[a],
                    ) by {
                        if a < kinds.len() {
                            assert(more[a] == kinds[a]);
                            assert(shown(d.windows, kinds[a]));
                            let x = choose|x: int|
                                0 <= x < d.windows.len() && (#[trigger] d.windows[x]).kind
                                    == kinds[a];
                            still_there(d, e, k, x);
                        }
                    }
                    staged_shows(e, apps, i + 1, more, cap);
                }
            },
            None => {
                staged_shows(d, apps, i + 1, kinds, cap);
            },
        }
    }
}

proof fn still_there(d: DesktopV, e: DesktopV, k: AppKind, x: int)
    requires
        0 <= x < d.windows.len(),
        crate::window_laws::opened_window(d, e, k),
    ensures
        shown(e.windows, d.windows[x].kind),
{
    let n = e.windows.len();
    if d.windows[x].kind == k {
        assert(e.windows[n - 1].kind == k);
    } else if shown(d.windows, k) {
        let i = choose|i: int| 0 <= i < d.windows.len() && (#[trigger] d.windows[i]).kind == k;
        let y = if x < i {
            x
        } else {
            x - 1
        };
        assert(d.windows[i].kind == k && i != x);
        let rest = e.windows.drop_last();
        assert(rest == d.windows.remove(i));
        assert(rest.len() == n - 1 && rest.len() == d.windows.len() - 1);
        assert(rest[y] == e.windows[y]);
        assert(d.windows.remove(i)[y] == d.windows[x]);
        assert(e.windows[y] == d.windows[x]);
    } else {
        let rest = e.windows.drop_last();
        assert(rest.len() == n - 1 && rest[x] == e.windows[x]);
        assert(e.windows[x] == d.windows[x]);
    }
}

/// Every app that a layout opened has a window on the tile of its turn, unless that is
/// under the pointer; the first is on top and has the focus.
pub proof fn named_apps_are_tiled(d: DesktopV, layout: Seq<char>, apps: Seq<Seq<char>>, a: int)
    requires
        wf(d),
        d.next_id + 6 < i32::MAX,
        d.mode == ShellMode::Desktop,
        is_known(layout),
        0 <= a < opened_by(d, layout, apps).len(),
    ensures
        ({
            let ks = opened_by(d, layout, apps);
            let e = arrange_v(d, layout, apps);
            &&& e.windows.len() > 0
            &&& e.windows.last().kind == ks[0]
            &&& e.focused == e.windows.last().id
            &&& exists|x: int|
                0 <= x < e.windows.len() && (#[trigger] e.windows[x]).kind == ks[a] && (
                e.windows[x].id != d.dragging ==> !e.windows[x].minimized && !e.windows[x].maximized
                    && e.windows[x].placement == Placement::Tiled(tiles_v(layout, ks.len())[a]))
        }),
{
    let (e, ks) = cast_v(d, layout, apps);
    staged_facts(d, apps, 0, Seq::empty(), seats(layout));
    staged_shows(d, apps, 0, Seq::empty(), seats(layout));
    assert(shown(e.windows, ks[0]) && shown(e.windows, ks[a]));
    let t = choose|t: int| 0 <= t < e.windows.len() && (#[trigger] e.windows[t]).kind == ks[0];
    let j = choose|j: int| 0 <= j < e.windows.len() && (#[trigger] e.windows[j]).kind == ks[a];
    laid_out(d, e, layout, ks, apps, t, t);
    laid_out(d, e, layout, ks, apps, t, j);
    let r = arrange_v(d, layout, apps);
    let x = moved_to(j, t, e.windows.len() as int);
    crate::desktop_laws::tiles_match_windows(layout, ks.len());
    let tiles = tiles_v(layout, ks.len());
    assert(a < tiles.len());
    assert(r.windows[x].kind == ks[a]);
    if e.windows[j].id != d.dragging {
        assert(r.windows[x] == tiled(e.windows[j], tiles[a]));
    }
}

// ── The tiles ───────────────────────────────────────────────────────────────

proof fn root_up_is_the_root(n: nat, c: nat)
    requires
        1 <= c,
        c == 1 || (c - 1) * (c - 1) < n,
    ensures
        ({
            let r = root_up(n, c);
            &&& r >= c
            &&& r * r >= n
            &&& r == 1 || (r - 1) * (r - 1) < n
        }),
    decreases n - c,
{
    if c * c < n {
        assert(c < n) by (nonlinear_arith)
            requires
                c * c < n,
                1 <= c,
        ;
        root_up_is_the_root(n, c + 1);
    }
}

/// The tiles of several windows. "split" has columns side by side, the first on the left;
/// "main-side" a large pane and the others below each other beside it; "grid" rows that are
/// filled from the left, in as many columns as the root of their number, rounded up, and no
/// more rows than it takes.
pub proof fn tiles_of_several(n: nat, i: int)
    requires
        1 < n <= usize::MAX,
        0 <= i < n,
    ensures
        tiles_v("split"@, n)[i] == (Tile::Column { at: i as usize, of: n as usize }),
        tiles_v("main-side"@, n)[0] == Tile::Main,
        i > 0 ==> tiles_v("main-side"@, n)[i] == (Tile::Side {
            at: (i - 1) as usize,
            of: (n - 1) as usize,
        }),
        tiles_v("grid"@, n)[i] matches Tile::Cell { col, row, cols, rows } && {
            &&& row * cols + col == i
            &&& col < cols
            &&& row < rows
            &&& cols * cols >= n
            &&& (cols - 1) * (cols - 1) < n
            &&& rows * cols >= n
            &&& (rows - 1) * cols < n
        },
{
    reveal_strlit("focus");
    reveal_strlit("split");
    reveal_strlit("main-side");
    reveal_strlit("grid");
    assert("focus"@[0] == 'f' && "split"@[0] == 's');
    assert("focus"@.len() == 5 && "main-side"@.len() == 9 && "grid"@.len() == 4);
    let cols = grid_cols(n) as int;
    let rows = grid_rows(n, cols as nat) as int;
    root_up_is_the_root(n, 1);
    crate::arrange::grid_has_columns(n);
    assert((cols - 1) * (cols - 1) < n) by {
        if cols == 1 {
            assert((cols - 1) * (cols - 1) == 0);
        }
    }
    let q = i / cols;
    assert(0 <= i % cols < cols && q * cols + i % cols == i) by {
        vstd::arithmetic::div_mod::lemma_fundamental_div_mod(i, cols);
        vstd::arithmetic::div_mod::lemma_mod_bound(i, cols);
        assert(cols * q == q * cols) by (nonlinear_arith);
    }
    let x = n + cols - 1;
    assert(rows * cols <= x < rows * cols + cols) by {
        vstd::arithmetic::div_mod::lemma_fundamental_div_mod(x, cols);
        vstd::arithmetic::div_mod::lemma_mod_bound(x, cols);
        assert(cols * rows == rows * cols) by (nonlinear_arith);
    }
    assert((rows - 1) * cols == rows * cols - cols) by (nonlinear_arith);
    assert(0 <= q) by (nonlinear_arith)
        requires
            q == i / cols,
            i >= 0,
            cols >= 1,
    ;
    assert(q < rows) by (nonlinear_arith)
        requires
            q * cols <= i,
            i < rows * cols,
            cols >= 1,
    ;
    assert(rows <= n) by (nonlinear_arith)
        requires
            (rows - 1) * cols < n,
            cols >= 1,
            n >= 1,
    ;
}

} // verus!
