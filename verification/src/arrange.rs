//! Preset layouts: staging several windows at once.
use vstd::prelude::*;
use crate::apps::{app_named, kind_from_slug, AppKind};
use crate::desktop::{
    agent_open_v, focus_v, has_bit, id_place_bounds, kind_place, note_shape_v, set_minimized_v,
    update_v, window_v, Desktop, DesktopV, Placement, ShellMode, Tile, WindowDesc,
};
use crate::text::{same, views};

verus! {

broadcast use {crate::text::views_push, crate::text::views_empty};

/// The names of the layouts.
pub const ARRANGE_LAYOUTS: [&'static str; 4] = ["focus", "split", "main-side", "grid"];

/// The most windows that a layout places.
pub const ARRANGE_MAX: usize = 6;

/// Whether a text names a layout.
pub open spec fn is_layout(s: Seq<char>) -> bool {
    s == "focus"@ || s == "split"@ || s == "main-side"@ || s == "grid"@
}

/// Whether a text names a layout.
pub fn known_layout(s: &str) -> (r: bool)
    ensures
        r == is_layout(s@),
{
    same(s, "focus") || same(s, "split") || same(s, "main-side") || same(s, "grid")
}

/// The least number from `c` on whose square is at least `n`.
pub open spec fn root_up(n: nat, c: nat) -> nat
    decreases n - c,
    via root_up_decreases
{
    if c * c >= n {
        c
    } else {
        root_up(n, c + 1)
    }
}

#[via_fn]
proof fn root_up_decreases(n: nat, c: nat) {
    assert(c * c < n ==> c < n) by (nonlinear_arith);
}

/// How many columns a grid of `n` windows has.
pub open spec fn grid_cols(n: nat) -> nat {
    root_up(n, 1)
}

/// How many rows `n` windows take in `cols` columns.
pub open spec fn grid_rows(n: nat, cols: nat) -> nat {
    ((n + cols - 1) / cols as int) as nat
}

/// The places of `n` windows in a layout, the main one first. The layout "focus" has
/// one place, whatever `n` is.
pub open spec fn tiles_v(layout: Seq<char>, n: nat) -> Seq<Tile> {
    let cols = grid_cols(n);
    if n == 0 || !is_layout(layout) {
        Seq::empty()
    } else if layout == "focus"@ || n == 1 {
        seq![Tile::Whole]
    } else if layout == "split"@ {
        Seq::new(n, |i: int| Tile::Column { at: i as usize, of: n as usize })
    } else if layout == "main-side"@ {
        Seq::new(
            n,
            |i: int|
                if i == 0 {
                    Tile::Main
                } else {
                    Tile::Side { at: (i - 1) as usize, of: (n - 1) as usize }
                },
        )
    } else {
        Seq::new(
            n,
            |i: int|
                Tile::Cell {
                    col: (i % cols as int) as usize,
                    row: (i / cols as int) as usize,
                    cols: cols as usize,
                    rows: grid_rows(n, cols) as usize,
                },
        )
    }
}

proof fn root_up_bounds(n: nat, c: nat)
    requires
        1 <= c <= n + 1,
    ensures
        root_up(n, c) >= c,
        n >= 1 && c <= n ==> root_up(n, c) <= n,
    decreases n + 1 - c,
{
    if c * c < n {
        assert(c + 1 <= n) by (nonlinear_arith)
            requires
                c * c < n,
                1 <= c,
        ;
        root_up_bounds(n, c + 1);
    }
}

/// A grid has a column at least, and no more columns than windows.
pub proof fn grid_has_columns(n: nat)
    ensures
        n >= 1 ==> 1 <= grid_cols(n) <= n,
{
    if n >= 1 {
        root_up_bounds(n, 1);
    }
}

fn square_below(c: usize, n: usize) -> (r: bool)
    ensures
        r == ((c as nat) * (c as nat) < n),
{
    assert((c as int) * (c as int) <= u64::MAX as int * u64::MAX as int) by (nonlinear_arith)
        requires
            0 <= c <= u64::MAX,
    ;
    (c as u128) * (c as u128) < n as u128
}

fn columns(n: usize) -> (c: usize)
    requires
        n >= 1,
    ensures
        c == grid_cols(n as nat),
        1 <= c <= n,
{
    let mut c: usize = 1;
    proof {
        root_up_bounds(n as nat, 1);
    }
    while square_below(c, n)
        invariant
            1 <= c <= n,
            grid_cols(n as nat) == root_up(n as nat, c as nat),
        decreases n - c,
    {
        assert(c + 1 <= n) by (nonlinear_arith)
            requires
                (c as nat) * (c as nat) < n,
                1 <= c,
        ;
        c = c + 1;
    }
    c
}

/// The places of `n` windows in a layout, the main one first.
pub fn arrange_tiles(layout: &str, n: usize) -> (r: Vec<Tile>)
    ensures
        r@ == tiles_v(layout@, n as nat),
{
    let mut out: Vec<Tile> = Vec::new();
    if n == 0 || !known_layout(layout) {
        return out;
    }
    if same(layout, "focus") || n == 1 {
        out.push(Tile::Whole);
        assert(out@ =~= seq![Tile::Whole]);
        return out;
    }
    let split = same(layout, "split");
    let side = same(layout, "main-side");
    let cols: usize = columns(n);
    let rows: usize = (n - 1) / cols + 1;
    assert(rows == grid_rows(n as nat, cols as nat)) by (nonlinear_arith)
        requires
            rows == (n - 1) / cols as int + 1,
            n >= 1,
            cols >= 1,
    ;
    let ghost want = tiles_v(layout@, n as nat);
    for i in 0..n
        invariant
            n > 1,
            1 <= cols <= n,
            cols == grid_cols(n as nat),
            rows == grid_rows(n as nat, cols as nat),
            is_layout(layout@),
            layout@ != "focus"@,
            split == (layout@ == "split"@),
            side == (layout@ == "main-side"@),
            want == tiles_v(layout@, n as nat),
            want.len() == n,
            out@ == want.take(i as int),
    {
        let t = if split {
            Tile::Column { at: i, of: n }
        } else if side {
            if i == 0 {
                Tile::Main
            } else {
                Tile::Side { at: i - 1, of: n - 1 }
            }
        } else {
            Tile::Cell { col: i % cols, row: i / cols, cols, rows }
        };
        assert(t == want[i as int]);
        out.push(t);
        assert(want.take(i as int).push(t) =~= want.take(i as int + 1));
    }
    assert(want.take(n as int) =~= want);
    out
}

// ── Who takes part ──────────────────────────────────────────────────────────

/// The apps among the first `n` windows that show, the topmost first, behind those
/// in `found`.
pub open spec fn showing_v(ws: Seq<WindowDesc>, n: int, found: Seq<AppKind>) -> Seq<AppKind>
    decreases n,
{
    if n <= 0 {
        found
    } else {
        let w = ws[n - 1];
        showing_v(
            ws,
            n - 1,
            if !w.minimized && !found.contains(w.kind) {
                found.push(w.kind)
            } else {
                found
            },
        )
    }
}

/// The apps that take part when none are named: those that show, six at most.
pub open spec fn visible_v(ws: Seq<WindowDesc>) -> Seq<AppKind> {
    let found = showing_v(ws, ws.len() as int, Seq::empty());
    if found.len() > ARRANGE_MAX {
        found.take(ARRANGE_MAX as int)
    } else {
        found
    }
}

/// How many named apps a layout takes.
pub open spec fn seats(layout: Seq<char>) -> nat {
    if layout == "focus"@ {
        1
    } else {
        ARRANGE_MAX as nat
    }
}

/// The desktop and the apps that take part, when the names from `i` on are still to
/// be read: each known app that is new and not latched is opened, until the seats
/// are taken.
pub open spec fn staged_v(
    d: DesktopV,
    apps: Seq<Seq<char>>,
    i: int,
    kinds: Seq<AppKind>,
    cap: nat,
) -> (DesktopV, Seq<AppKind>)
    decreases apps.len() - i,
{
    if i < 0 || i >= apps.len() || kinds.len() >= cap {
        (d, kinds)
    } else {
        match app_named(apps[i]) {
            Some(k) => if kinds.contains(k) || has_bit(d.latched, k) {
                staged_v(d, apps, i + 1, kinds, cap)
            } else {
                staged_v(agent_open_v(d, k), apps, i + 1, kinds.push(k), cap)
            },
            None => staged_v(d, apps, i + 1, kinds, cap),
        }
    }
}

/// The desktop and the apps that take part in a layout.
pub open spec fn cast_v(d: DesktopV, layout: Seq<char>, apps: Seq<Seq<char>>) -> (
    DesktopV,
    Seq<AppKind>,
) {
    if apps.len() == 0 {
        (d, visible_v(d.windows))
    } else {
        staged_v(d, apps, 0, Seq::empty(), seats(layout))
    }
}

// ── Placing them ────────────────────────────────────────────────────────────

/// Puts the window of an app on its tile, unless it is under the pointer.
pub open spec fn place_v(d: DesktopV, k: AppKind, t: Tile) -> DesktopV {
    let row = kind_place(d.windows, k, 0);
    if row < d.windows.len() && d.windows[row].id != d.dragging {
        let id = d.windows[row].id;
        note_shape_v(
            update_v(
                d,
                id,
                WindowDesc {
                    minimized: false,
                    maximized: false,
                    placement: Placement::Tiled(t),
                    ..window_v(d, id)
                },
            ),
            k,
            false,
        )
    } else {
        d
    }
}

/// Puts the apps from `i` on on their tiles, as far as there are tiles.
pub open spec fn placed_v(d: DesktopV, kinds: Seq<AppKind>, tiles: Seq<Tile>, i: int) -> DesktopV
    decreases kinds.len() - i,
{
    if i < 0 || i >= kinds.len() {
        d
    } else if i < tiles.len() {
        placed_v(place_v(d, kinds[i], tiles[i]), kinds, tiles, i + 1)
    } else {
        placed_v(d, kinds, tiles, i + 1)
    }
}

/// Minimizes the windows from `i` on that are not the main app's and not under the
/// pointer.
pub open spec fn cleared_v(d: DesktopV, main: AppKind, i: int) -> DesktopV
    decreases d.windows.len() - i,
    via cleared_v_decreases
{
    if i < 0 || i >= d.windows.len() {
        d
    } else {
        let w = d.windows[i];
        if w.kind != main && !w.minimized && w.id != d.dragging {
            cleared_v(set_minimized_v(d, w.id, true), main, i + 1)
        } else {
            cleared_v(d, main, i + 1)
        }
    }
}

#[via_fn]
proof fn cleared_v_decreases(d: DesktopV, main: AppKind, i: int) {
    if 0 <= i < d.windows.len() {
        id_place_bounds(d.windows, d.windows[i].id, 0);
    }
}

/// The desktop once a layout is applied. Outside desktop mode, and for a name that is
/// no layout, nothing happens; nor is anything placed where nobody takes part.
pub open spec fn arrange_v(d: DesktopV, layout: Seq<char>, apps: Seq<Seq<char>>) -> DesktopV {
    if !is_layout(layout) || d.mode != ShellMode::Desktop {
        d
    } else {
        let (e, kinds) = cast_v(d, layout, apps);
        if kinds.len() == 0 {
            e
        } else {
            let f = placed_v(e, kinds, tiles_v(layout, kinds.len()), 0);
            let g = if layout == "focus"@ {
                cleared_v(f, kinds[0], 0)
            } else {
                f
            };
            let row = kind_place(g.windows, kinds[0], 0);
            if row < g.windows.len() {
                focus_v(g, g.windows[row].id)
            } else {
                g
            }
        }
    }
}

/// Whether applying a layout places anything.
pub open spec fn arranges(d: DesktopV, layout: Seq<char>, apps: Seq<Seq<char>>) -> bool {
    is_layout(layout) && d.mode == ShellMode::Desktop && cast_v(d, layout, apps).1.len() > 0
}

/// The apps that applying a layout opens, in order.
pub open spec fn opened_by(d: DesktopV, layout: Seq<char>, apps: Seq<Seq<char>>) -> Seq<AppKind> {
    if !is_layout(layout) || d.mode != ShellMode::Desktop || apps.len() == 0 {
        Seq::empty()
    } else {
        cast_v(d, layout, apps).1
    }
}

/// What applying a layout did.
#[derive(Debug)]
pub struct Arranged {
    /// Whether windows were placed.
    pub done: bool,
    /// The apps that were opened for it.
    pub opened: Vec<AppKind>,
}

fn holds(kinds: &Vec<AppKind>, k: AppKind) -> (r: bool)
    ensures
        r == kinds@.contains(k),
{
    for i in 0..kinds.len()
        invariant
            forall|j: int| 0 <= j < i ==> kinds@[j] != k,
    {
        if kinds[i] == k {
            assert(kinds@[i as int] == k);
            return true;
        }
    }
    false
}

impl Desktop {
    fn visible_kinds(&self) -> (r: Vec<AppKind>)
        ensures
            r@ == visible_v(self@.windows),
    {
        let mut found: Vec<AppKind> = Vec::new();
        let mut n: usize = self.windows.len();
        while n > 0
            invariant
                n <= self.windows@.len(),
                showing_v(self.windows@, n as int, found@) == showing_v(
                    self.windows@,
                    self.windows@.len() as int,
                    Seq::empty(),
                ),
            decreases n,
        {
            let w = self.windows[n - 1];
            if !w.minimized && !holds(&found, w.kind) {
                found.push(w.kind);
            }
            n = n - 1;
        }
        if found.len() > ARRANGE_MAX {
            found.truncate(ARRANGE_MAX);
        }
        found
    }

    fn stage(&mut self, layout: &str, apps: &Vec<String>) -> (r: Vec<AppKind>)
        ensures
            (final(self)@, r@) == staged_v(
                old(self)@,
                views(apps@),
                0,
                Seq::empty(),
                seats(layout@),
            ),
    {
        let cap: usize = if same(layout, "focus") {
            1
        } else {
            ARRANGE_MAX
        };
        let mut kinds: Vec<AppKind> = Vec::new();
        let mut i: usize = 0;
        while i < apps.len() && kinds.len() < cap
            invariant
                i <= apps@.len(),
                cap == seats(layout@),
                staged_v(self@, views(apps@), i as int, kinds@, cap as nat) == staged_v(
                    old(self)@,
                    views(apps@),
                    0,
                    Seq::empty(),
                    cap as nat,
                ),
            decreases apps@.len() - i,
        {
            assert(views(apps@)[i as int] == apps@[i as int]@);
            match kind_from_slug(apps[i].as_str()) {
                Some(k) => {
                    if !holds(&kinds, k) {
                        if self.agent_open_window(k) {
                            kinds.push(k);
                        }
                    }
                },
                None => {},
            }
            i = i + 1;
        }
        kinds
    }

    fn place(&mut self, kind: AppKind, tile: Tile)
        ensures
            final(self)@ == place_v(old(self)@, kind, tile),
    {
        match self.index_by_kind(kind) {
            Some(row) => {
                let id: i32 = self.windows[row].id;
                if id != self.dragging {
                    match self.index_by_id(id) {
                        Some(i) => {
                            let mut w = self.windows[i];
                            w.minimized = false;
                            w.maximized = false;
                            w.placement = Placement::Tiled(tile);
                            self.windows.set(i, w);
                        },
                        None => {},
                    }
                    self.remember(kind, false);
                }
            },
            None => {},
        }
    }

    fn place_all(&mut self, kinds: &Vec<AppKind>, tiles: &Vec<Tile>)
        ensures
            final(self)@ == placed_v(old(self)@, kinds@, tiles@, 0),
    {
        for i in 0..kinds.len()
            invariant
                placed_v(self@, kinds@, tiles@, i as int) == placed_v(
                    old(self)@,
                    kinds@,
                    tiles@,
                    0,
                ),
        {
            if i < tiles.len() {
                self.place(kinds[i], tiles[i]);
            }
        }
    }

    fn clear_stage(&mut self, main: AppKind)
        ensures
            final(self)@ == cleared_v(old(self)@, main, 0),
    {
        let mut i: usize = 0;
        while i < self.windows.len()
            invariant
                i <= self@.windows.len(),
                cleared_v(self@, main, i as int) == cleared_v(old(self)@, main, 0),
            decreases self.windows@.len() - i,
        {
            let w = self.windows[i];
            proof {
                id_place_bounds(self@.windows, w.id, 0);
            }
            if w.kind != main && !w.minimized && w.id != self.dragging {
                self.set_window_minimized(w.id, true);
            }
            i = i + 1;
        }
    }

    /// Applies a layout to the named apps, or to the windows that show where none are
    /// named.
    pub fn arrange(&mut self, layout: &str, apps: &Vec<String>) -> (r: Arranged)
        ensures
            final(self)@ == arrange_v(old(self)@, layout@, views(apps@)),
            r.done == arranges(old(self)@, layout@, views(apps@)),
            r.opened@ == opened_by(old(self)@, layout@, views(apps@)),
    {
        assert(views(apps@).len() == apps@.len());
        if !known_layout(layout) || self.mode != ShellMode::Desktop {
            return Arranged { done: false, opened: Vec::new() };
        }
        let named = !apps.is_empty();
        let kinds = if named {
            self.stage(layout, apps)
        } else {
            self.visible_kinds()
        };
        if kinds.is_empty() {
            return Arranged { done: false, opened: Vec::new() };
        }
        let main = kinds[0];
        let tiles = arrange_tiles(layout, kinds.len());
        self.place_all(&kinds, &tiles);
        if same(layout, "focus") {
            self.clear_stage(main);
        }
        match self.index_by_kind(main) {
            Some(row) => {
                let id: i32 = self.windows[row].id;
                self.focus(id);
            },
            None => {},
        }
        let opened = if named {
            kinds
        } else {
            Vec::new()
        };
        Arranged { done: true, opened }
    }
}

} // verus!
