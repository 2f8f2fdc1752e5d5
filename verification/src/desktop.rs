//! The window manager: which windows are open, in what order, and whose they are.
//!
//! The order of the windows is the order in which they are painted: the last one is
//! on top. Pixels are not kept here. A window carries how it was placed, and the
//! program turns that into a rectangle of the screen it has.
//!
//! The agent may stage windows, but the human wins: closing a window that the agent
//! opened latches its app, and the agent cannot open it again until the human does.
use vstd::prelude::*;
use crate::apps::{app_bit, default_geom, opening_rect, ui_latch_bit, AppKind};

verus! {

/// A place in a preset layout.
#[derive(Clone, Copy, Debug, PartialEq, Eq, Structural)]
pub enum Tile {
    /// The whole desktop.
    Whole,
    /// One of several equal columns.
    Column { at: usize, of: usize },
    /// The large pane on the left.
    Main,
    /// One of several equal panes below each other on the right.
    Side { at: usize, of: usize },
    /// A cell of a grid.
    Cell { col: usize, row: usize, cols: usize, rows: usize },
}

/// How a window came by its rectangle.
#[derive(Clone, Copy, Debug, PartialEq, Eq, Structural)]
pub enum Placement {
    /// Its app opened for the first time: left, top, width, height.
    Cascade { x: i32, y: i32, w: i32, h: i32 },
    /// It wears the shape that its app last had.
    Remembered,
    /// A preset layout placed it.
    Tiled(Tile),
    /// A hand placed it.
    Free,
}

/// A window.
#[derive(Clone, Copy, Debug, PartialEq, Eq, Structural)]
pub struct WindowDesc {
    pub id: i32,
    pub kind: AppKind,
    pub minimized: bool,
    pub maximized: bool,
    pub placement: Placement,
}

/// Whether windows are shown as a desktop or one at a time.
#[derive(Clone, Copy, Debug, PartialEq, Eq, Structural)]
pub enum ShellMode {
    Desktop,
    Focus,
}

/// The desktop. Each mask holds one bit for each app.
#[derive(Debug)]
pub struct Desktop {
    pub windows: Vec<WindowDesc>,
    /// The window with the focus; zero where none has it.
    pub focused: i32,
    /// The number that the next window gets.
    pub next_id: i32,
    /// The apps whose window the agent opened.
    pub opened: u32,
    /// The apps that the agent may not open.
    pub latched: u32,
    /// The apps whose shape is remembered.
    pub shaped: u32,
    /// Those of them that were maximized.
    pub shaped_max: u32,
    /// The window under the pointer's drag; zero where none is.
    pub dragging: i32,
    pub mode: ShellMode,
}

/// The model of a [`Desktop`].
pub struct DesktopV {
    pub windows: Seq<WindowDesc>,
    pub focused: i32,
    pub next_id: i32,
    pub opened: u32,
    pub latched: u32,
    pub shaped: u32,
    pub shaped_max: u32,
    pub dragging: i32,
    pub mode: ShellMode,
}

impl View for Desktop {
    type V = DesktopV;

    open spec fn view(&self) -> DesktopV {
        DesktopV {
            windows: self.windows@,
            focused: self.focused,
            next_id: self.next_id,
            opened: self.opened,
            latched: self.latched,
            shaped: self.shaped,
            shaped_max: self.shaped_max,
            dragging: self.dragging,
            mode: self.mode,
        }
    }
}

// ── Finding windows ─────────────────────────────────────────────────────────

/// The place of the first window numbered `id` from `i` on; the end where there is
/// none.
pub open spec fn id_place(ws: Seq<WindowDesc>, id: i32, i: int) -> int
    decreases ws.len() - i,
{
    if 0 <= i < ws.len() && ws[i].id != id {
        id_place(ws, id, i + 1)
    } else {
        i
    }
}

/// The place of the first window of an app from `i` on; the end where there is none.
pub open spec fn kind_place(ws: Seq<WindowDesc>, k: AppKind, i: int) -> int
    decreases ws.len() - i,
{
    if 0 <= i < ws.len() && ws[i].kind != k {
        kind_place(ws, k, i + 1)
    } else {
        i
    }
}

/// Whether a window numbered `id` is there.
pub open spec fn has_id(ws: Seq<WindowDesc>, id: i32) -> bool {
    id_place(ws, id, 0) < ws.len()
}

/// Whether an app has a window.
pub open spec fn has_kind(ws: Seq<WindowDesc>, k: AppKind) -> bool {
    kind_place(ws, k, 0) < ws.len()
}

pub proof fn id_place_bounds(ws: Seq<WindowDesc>, id: i32, i: int)
    requires
        0 <= i <= ws.len(),
    ensures
        i <= id_place(ws, id, i) <= ws.len(),
        id_place(ws, id, i) < ws.len() ==> ws[id_place(ws, id, i)].id == id,
        forall|j: int| i <= j < id_place(ws, id, i) ==> ws[j].id != id,
    decreases ws.len() - i,
{
    if i < ws.len() && ws[i].id != id {
        id_place_bounds(ws, id, i + 1);
    }
}

pub proof fn kind_place_bounds(ws: Seq<WindowDesc>, k: AppKind, i: int)
    requires
        0 <= i <= ws.len(),
    ensures
        i <= kind_place(ws, k, i) <= ws.len(),
        kind_place(ws, k, i) < ws.len() ==> ws[kind_place(ws, k, i)].kind == k,
        forall|j: int| i <= j < kind_place(ws, k, i) ==> ws[j].kind != k,
    decreases ws.len() - i,
{
    if i < ws.len() && ws[i].kind != k {
        kind_place_bounds(ws, k, i + 1);
    }
}

/// The number of the topmost of the first `n` windows that is not minimized; zero
/// where there is none.
pub open spec fn top_visible(ws: Seq<WindowDesc>, n: int) -> i32
    decreases n,
{
    if n <= 0 {
        0
    } else if !ws[n - 1].minimized {
        ws[n - 1].id
    } else {
        top_visible(ws, n - 1)
    }
}

// ── What the operations do ──────────────────────────────────────────────────

/// The number after `n`.
pub open spec fn next_number(n: i32) -> i32 {
    if n == i32::MAX {
        i32::MIN
    } else {
        (n + 1) as i32
    }
}

/// Whether an app's bit is set.
pub open spec fn has_bit(mask: u32, k: AppKind) -> bool {
    mask & app_bit(k) != 0
}

pub open spec fn with_bit(mask: u32, k: AppKind) -> u32 {
    mask | app_bit(k)
}

pub open spec fn without_bit(mask: u32, k: AppKind) -> u32 {
    mask & !app_bit(k)
}

/// Raises a window to the top and gives it the focus.
pub open spec fn focus_v(d: DesktopV, id: i32) -> DesktopV {
    let i = id_place(d.windows, id, 0);
    if i < d.windows.len() {
        DesktopV {
            windows: d.windows.remove(i).push(d.windows[i]),
            focused: id,
            ..d
        }
    } else {
        d
    }
}

/// Gives the focus to the topmost window that is not minimized.
pub open spec fn refocus_v(d: DesktopV) -> DesktopV {
    DesktopV { focused: top_visible(d.windows, d.windows.len() as int), ..d }
}

/// Changes the first window numbered `id`.
pub open spec fn update_v(d: DesktopV, id: i32, w: WindowDesc) -> DesktopV {
    let i = id_place(d.windows, id, 0);
    if i < d.windows.len() {
        DesktopV { windows: d.windows.update(i, w), ..d }
    } else {
        d
    }
}

/// The first window numbered `id`.
pub open spec fn window_v(d: DesktopV, id: i32) -> WindowDesc {
    d.windows[id_place(d.windows, id, 0)]
}

pub open spec fn set_minimized_v(d: DesktopV, id: i32, minimized: bool) -> DesktopV {
    update_v(d, id, WindowDesc { minimized, ..window_v(d, id) })
}

/// Remembers the shape of an app's window.
pub open spec fn note_shape_v(d: DesktopV, k: AppKind, maximized: bool) -> DesktopV {
    DesktopV {
        shaped: with_bit(d.shaped, k),
        shaped_max: if maximized {
            with_bit(d.shaped_max, k)
        } else {
            without_bit(d.shaped_max, k)
        },
        ..d
    }
}

/// Remembers the shape of the first window numbered `id`.
pub open spec fn note_id_v(d: DesktopV, id: i32) -> DesktopV {
    if has_id(d.windows, id) {
        note_shape_v(d, window_v(d, id).kind, window_v(d, id).maximized)
    } else {
        d
    }
}

/// A new window of an app.
pub open spec fn fresh_v(d: DesktopV, k: AppKind) -> WindowDesc {
    let known = has_bit(d.shaped, k);
    let (x, y, w, h) = opening_rect(k, d.windows.len());
    WindowDesc {
        id: d.next_id,
        kind: k,
        minimized: false,
        maximized: known && has_bit(d.shaped_max, k),
        placement: if known {
            Placement::Remembered
        } else {
            Placement::Cascade { x, y, w, h }
        },
    }
}

/// Opens or reveals the window of an app.
pub open spec fn launch_v(d: DesktopV, k: AppKind) -> DesktopV {
    let i = kind_place(d.windows, k, 0);
    if i < d.windows.len() {
        let id = d.windows[i].id;
        focus_v(set_minimized_v(d, id, false), id)
    } else {
        focus_v(
            DesktopV {
                windows: d.windows.push(fresh_v(d, k)),
                next_id: next_number(d.next_id),
                ..d
            },
            d.next_id,
        )
    }
}

/// The human opens an app: it is theirs, and any latch on it falls.
pub open spec fn menu_launch_v(d: DesktopV, k: AppKind) -> DesktopV {
    launch_v(
        DesktopV {
            latched: without_bit(d.latched, k),
            opened: without_bit(d.opened, k),
            ..d
        },
        k,
    )
}

/// The agent opens an app, unless it is latched. A window that the agent opened, now
/// or before, stays marked as its own.
pub open spec fn agent_open_v(d: DesktopV, k: AppKind) -> DesktopV {
    if has_bit(d.latched, k) {
        d
    } else {
        let e = menu_launch_v(d, k);
        if !has_kind(d.windows, k) || has_bit(d.opened, k) {
            DesktopV { opened: with_bit(e.opened, k), ..e }
        } else {
            e
        }
    }
}

/// The human closes a window. Closing one that the agent opened latches its app; the
/// reader, which opens by itself, is latched by any closing.
pub open spec fn user_close_v(d: DesktopV, id: i32) -> DesktopV {
    let i = id_place(d.windows, id, 0);
    if i < d.windows.len() {
        let w = d.windows[i];
        let e = if w.kind == AppKind::Occipital || has_bit(d.opened, w.kind) {
            DesktopV {
                opened: without_bit(d.opened, w.kind),
                latched: with_bit(d.latched, w.kind),
                ..d
            }
        } else {
            d
        };
        let f = note_shape_v(e, w.kind, w.maximized);
        refocus_v(DesktopV { windows: d.windows.remove(i), ..f })
    } else {
        refocus_v(d)
    }
}

/// The agent closes an app's window; one under the pointer stays as it is.
pub open spec fn agent_close_v(d: DesktopV, k: AppKind) -> DesktopV {
    let i = kind_place(d.windows, k, 0);
    if i < d.windows.len() {
        let w = d.windows[i];
        if w.id == d.dragging {
            d
        } else {
            let e = note_shape_v(d, w.kind, w.maximized);
            refocus_v(
                DesktopV {
                    windows: d.windows.remove(i),
                    opened: without_bit(e.opened, k),
                    ..e
                },
            )
        }
    } else {
        DesktopV { opened: without_bit(d.opened, k), ..d }
    }
}

/// The agent raises an app's window, where it has one.
pub open spec fn agent_focus_v(d: DesktopV, k: AppKind) -> DesktopV {
    let i = kind_place(d.windows, k, 0);
    if i < d.windows.len() {
        focus_v(set_minimized_v(d, d.windows[i].id, false), d.windows[i].id)
    } else {
        d
    }
}

pub open spec fn minimize_v(d: DesktopV, id: i32) -> DesktopV {
    refocus_v(set_minimized_v(d, id, true))
}

/// Turns a window's maximization on or off.
pub open spec fn maximize_v(d: DesktopV, id: i32) -> DesktopV {
    let w = window_v(d, id);
    focus_v(note_id_v(update_v(d, id, WindowDesc { maximized: !w.maximized, ..w }), id), id)
}

/// A click in the task bar: a minimized window comes back, the focused one goes, any
/// other is raised.
pub open spec fn task_activate_v(d: DesktopV, id: i32) -> DesktopV {
    if has_id(d.windows, id) && window_v(d, id).minimized {
        focus_v(set_minimized_v(d, id, false), id)
    } else if d.focused == id {
        minimize_v(d, id)
    } else {
        focus_v(d, id)
    }
}

/// A hand moves or resizes a window.
pub open spec fn reshape_v(d: DesktopV, id: i32) -> DesktopV {
    note_id_v(
        update_v(d, id, WindowDesc { placement: Placement::Free, ..window_v(d, id) }),
        id,
    )
}

// ── The operations ──────────────────────────────────────────────────────────

fn bit_set(mask: u32, k: AppKind) -> (r: bool)
    ensures
        r == has_bit(mask, k),
{
    mask & ui_latch_bit(k) != 0
}

impl Desktop {
    /// An empty desktop.
    pub fn new(mode: ShellMode) -> (r: Desktop)
        ensures
            r@ == (DesktopV {
                windows: Seq::empty(),
                focused: 0,
                next_id: 1,
                opened: 0,
                latched: 0,
                shaped: 0,
                shaped_max: 0,
                dragging: 0,
                mode,
            }),
    {
        Desktop {
            windows: Vec::new(),
            focused: 0,
            next_id: 1,
            opened: 0,
            latched: 0,
            shaped: 0,
            shaped_max: 0,
            dragging: 0,
            mode,
        }
    }

    /// The place of the window numbered `id`.
    pub fn index_by_id(&self, id: i32) -> (r: Option<usize>)
        ensures
            match r {
                Some(i) => i < self@.windows.len() && i == id_place(self@.windows, id, 0),
                None => !has_id(self@.windows, id),
            },
    {
        let mut i: usize = 0;
        while i < self.windows.len() && self.windows[i].id != id
            invariant
                i <= self.windows@.len(),
                id_place(self@.windows, id, 0) == id_place(self@.windows, id, i as int),
            decreases self.windows@.len() - i,
        {
            i = i + 1;
        }
        if i < self.windows.len() {
            Some(i)
        } else {
            None
        }
    }

    /// The place of an app's window.
    pub fn index_by_kind(&self, kind: AppKind) -> (r: Option<usize>)
        ensures
            match r {
                Some(i) => i < self@.windows.len() && i == kind_place(self@.windows, kind, 0),
                None => !has_kind(self@.windows, kind),
            },
    {
        let mut i: usize = 0;
        while i < self.windows.len() && self.windows[i].kind != kind
            invariant
                i <= self.windows@.len(),
                kind_place(self@.windows, kind, 0) == kind_place(self@.windows, kind, i as int),
            decreases self.windows@.len() - i,
        {
            i = i + 1;
        }
        if i < self.windows.len() {
            Some(i)
        } else {
            None
        }
    }

    /// Whether the face has a window that shows.
    pub fn face_visible(&self) -> (r: bool)
        ensures
            r == (has_kind(self@.windows, AppKind::Face) && !self@.windows[kind_place(
                self@.windows,
                AppKind::Face,
                0,
            )].minimized),
    {
        match self.index_by_kind(AppKind::Face) {
            Some(i) => !self.windows[i].minimized,
            None => false,
        }
    }

    /// Raises a window to the top and gives it the focus.
    pub fn focus(&mut self, id: i32)
        ensures
            final(self)@ == focus_v(old(self)@, id),
    {
        match self.index_by_id(id) {
            Some(i) => {
                let w = self.windows.remove(i);
                self.windows.push(w);
                self.focused = id;
            },
            None => {},
        }
    }

    /// Gives the focus to the topmost window that is not minimized.
    pub fn refocus_top(&mut self)
        ensures
            final(self)@ == refocus_v(old(self)@),
    {
        let mut n: usize = self.windows.len();
        while n > 0 && self.windows[n - 1].minimized
            invariant
                n <= self.windows@.len(),
                self@ == old(self)@,
                top_visible(self@.windows, self@.windows.len() as int) == top_visible(
                    self@.windows,
                    n as int,
                ),
            decreases n,
        {
            n = n - 1;
        }
        self.focused = if n > 0 {
            self.windows[n - 1].id
        } else {
            0
        };
    }

    pub(crate) fn set_window_minimized(&mut self, id: i32, minimized: bool)
        ensures
            final(self)@ == set_minimized_v(old(self)@, id, minimized),
    {
        match self.index_by_id(id) {
            Some(i) => {
                let mut w = self.windows[i];
                w.minimized = minimized;
                self.windows.set(i, w);
            },
            None => {},
        }
    }

    pub(crate) fn remember(&mut self, kind: AppKind, maximized: bool)
        ensures
            final(self)@ == note_shape_v(old(self)@, kind, maximized),
    {
        let bit: u32 = ui_latch_bit(kind);
        self.shaped = self.shaped | bit;
        self.shaped_max = if maximized {
            self.shaped_max | bit
        } else {
            self.shaped_max & !bit
        };
    }

    fn note_id(&mut self, id: i32)
        ensures
            final(self)@ == note_id_v(old(self)@, id),
    {
        match self.index_by_id(id) {
            Some(i) => {
                let w = self.windows[i];
                self.remember(w.kind, w.maximized);
            },
            None => {},
        }
    }

    /// Opens or reveals the window of an app.
    pub fn launch(&mut self, kind: AppKind)
        ensures
            final(self)@ == launch_v(old(self)@, kind),
    {
        match self.index_by_kind(kind) {
            Some(i) => {
                let id: i32 = self.windows[i].id;
                self.set_window_minimized(id, false);
                self.focus(id);
            },
            None => {
                let id: i32 = self.next_id;
                self.next_id = if id == i32::MAX {
                    i32::MIN
                } else {
                    id + 1
                };
                let known = bit_set(self.shaped, kind);
                let (x, y, w, h) = default_geom(kind, self.windows.len());
                let placement = if known {
                    Placement::Remembered
                } else {
                    Placement::Cascade { x, y, w, h }
                };
                let maximized = known && bit_set(self.shaped_max, kind);
                self.windows.push(
                    WindowDesc { id, kind, minimized: false, maximized, placement },
                );
                self.focus(id);
            },
        }
    }

    /// The human opens an app.
    pub fn menu_launch(&mut self, kind: AppKind)
        ensures
            final(self)@ == menu_launch_v(old(self)@, kind),
    {
        let bit: u32 = ui_latch_bit(kind);
        self.latched = self.latched & !bit;
        self.opened = self.opened & !bit;
        self.launch(kind);
    }

    /// The agent opens an app; says whether the latch let it.
    pub fn agent_open_window(&mut self, kind: AppKind) -> (done: bool)
        ensures
            final(self)@ == agent_open_v(old(self)@, kind),
            done == !has_bit(old(self)@.latched, kind),
    {
        if bit_set(self.latched, kind) {
            return false;
        }
        let existed = self.index_by_kind(kind).is_some();
        let was_agent = bit_set(self.opened, kind);
        self.menu_launch(kind);
        if !existed || was_agent {
            self.opened = self.opened | ui_latch_bit(kind);
        }
        true
    }

    /// The human closes a window.
    pub fn user_close(&mut self, id: i32)
        ensures
            final(self)@ == user_close_v(old(self)@, id),
    {
        match self.index_by_id(id) {
            Some(i) => {
                let w = self.windows[i];
                let bit: u32 = ui_latch_bit(w.kind);
                if w.kind == AppKind::Occipital || bit_set(self.opened, w.kind) {
                    self.opened = self.opened & !bit;
                    self.latched = self.latched | bit;
                }
                self.remember(w.kind, w.maximized);
                self.windows.remove(i);
            },
            None => {},
        }
        self.refocus_top();
    }

    /// The agent closes an app's window.
    pub fn agent_close(&mut self, kind: AppKind)
        ensures
            final(self)@ == agent_close_v(old(self)@, kind),
    {
        let bit: u32 = ui_latch_bit(kind);
        match self.index_by_kind(kind) {
            Some(i) => {
                let w = self.windows[i];
                if w.id == self.dragging {
                    return;
                }
                self.remember(w.kind, w.maximized);
                self.opened = self.opened & !bit;
                self.windows.remove(i);
                self.refocus_top();
            },
            None => {
                self.opened = self.opened & !bit;
            },
        }
    }

    /// The agent raises an app's window.
    pub fn agent_focus(&mut self, kind: AppKind)
        ensures
            final(self)@ == agent_focus_v(old(self)@, kind),
    {
        match self.index_by_kind(kind) {
            Some(i) => {
                let id: i32 = self.windows[i].id;
                self.set_window_minimized(id, false);
                self.focus(id);
            },
            None => {},
        }
    }

    /// Minimizes a window.
    pub fn minimize(&mut self, id: i32)
        ensures
            final(self)@ == minimize_v(old(self)@, id),
    {
        self.set_window_minimized(id, true);
        self.refocus_top();
    }

    /// Turns a window's maximization on or off.
    pub fn maximize(&mut self, id: i32)
        ensures
            final(self)@ == maximize_v(old(self)@, id),
    {
        match self.index_by_id(id) {
            Some(i) => {
                let mut w = self.windows[i];
                w.maximized = !w.maximized;
                self.windows.set(i, w);
            },
            None => {},
        }
        self.note_id(id);
        self.focus(id);
    }

    /// A click on a window in the task bar.
    pub fn task_activate(&mut self, id: i32)
        ensures
            final(self)@ == task_activate_v(old(self)@, id),
    {
        let minimized = match self.index_by_id(id) {
            Some(i) => self.windows[i].minimized,
            None => false,
        };
        if minimized {
            self.set_window_minimized(id, false);
            self.focus(id);
        } else if self.focused == id {
            self.minimize(id);
        } else {
            self.focus(id);
        }
    }

    /// A hand moves or resizes a window.
    pub fn reshape(&mut self, id: i32)
        ensures
            final(self)@ == reshape_v(old(self)@, id),
    {
        match self.index_by_id(id) {
            Some(i) => {
                let mut w = self.windows[i];
                w.placement = Placement::Free;
                self.windows.set(i, w);
            },
            None => {},
        }
        self.note_id(id);
    }
}

} // verus!
