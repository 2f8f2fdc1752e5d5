//! What holds whatever the agent tells the shell.
use vstd::prelude::*;
use crate::apps::{app_named, AppKind};
use crate::arrange::{
    arrange_v, cast_v, cleared_v, is_layout, place_v, placed_v, seats, staged_v, tiles_v,
};
use crate::desktop::{
    agent_close_v, agent_focus_v, agent_open_v, focus_v, fresh_v, has_bit, id_place,
    id_place_bounds, kind_place, kind_place_bounds, launch_v, set_minimized_v, update_v,
    user_close_v, window_v, without_bit, DesktopV, Placement, ShellMode, Tile, WindowDesc,
};
use crate::desktop_laws::{agent_open_respects_latches, closing_latches, shown};
use crate::dispatch::{
    dispatched, followed, greeted, reflexed, revealed, staged, surveyed, tool_requested,
    tool_result, UI_TURN_MUTATION_CAP,
};
use crate::effects::EffectV;
use crate::events::{ToolCallV, ToolOutputV};
use crate::json::JsonV;
use crate::reflex::{acted_all, acted_v, acts, counted_v, due_v, stamped_v, ReflexV};
use crate::shell::{ShellEventV, ShellV};

verus! {

// ── One app at a time ───────────────────────────────────────────────────────

/// Whether an app is kept closed: the human closed it, and it has no window.
pub open spec fn kept_closed(d: DesktopV, k: AppKind) -> bool {
    has_bit(d.latched, k) && !shown(d.windows, k)
}

proof fn focus_keeps_closed(d: DesktopV, id: i32, k: AppKind)
    requires
        !shown(d.windows, k),
    ensures
        !shown(focus_v(d, id).windows, k),
{
    id_place_bounds(d.windows, id, 0);
    let i = id_place(d.windows, id, 0);
    let e = focus_v(d, id);
    if i < d.windows.len() && shown(e.windows, k) {
        let n = d.windows.len();
        let a = choose|a: int| 0 <= a < e.windows.len() && (#[trigger] e.windows[a]).kind == k;
        let b = if a < i {
            a
        } else if a < n - 1 {
            a + 1
        } else {
            i
        };
        assert(e.windows[a] == d.windows[b]);
    }
}

proof fn update_keeps_closed(d: DesktopV, id: i32, w: WindowDesc, k: AppKind)
    requires
        !shown(d.windows, k),
        w.kind == window_v(d, id).kind,
    ensures
        !shown(update_v(d, id, w).windows, k),
        update_v(d, id, w).latched == d.latched,
{
    id_place_bounds(d.windows, id, 0);
    let i = id_place(d.windows, id, 0);
    let e = update_v(d, id, w);
    if i < d.windows.len() && shown(e.windows, k) {
        let a = choose|a: int| 0 <= a < e.windows.len() && (#[trigger] e.windows[a]).kind == k;
        assert(d.windows[a].kind == k);
    }
}

proof fn launch_keeps_closed(d: DesktopV, o: AppKind, k: AppKind)
    requires
        !shown(d.windows, k),
        o != k,
    ensures
        !shown(launch_v(d, o).windows, k),
        launch_v(d, o).latched == d.latched,
{
    kind_place_bounds(d.windows, o, 0);
    let i = kind_place(d.windows, o, 0);
    if i < d.windows.len() {
        let id = d.windows[i].id;
        update_keeps_closed(d, id, WindowDesc { minimized: false, ..window_v(d, id) }, k);
        focus_keeps_closed(set_minimized_v(d, id, false), id, k);
    } else {
        let e = DesktopV {
            windows: d.windows.push(fresh_v(d, o)),
            next_id: crate::desktop::next_number(d.next_id),
            ..d
        };
        if shown(e.windows, k) {
            let a = choose|a: int| 0 <= a < e.windows.len() && (#[trigger] e.windows[a]).kind == k;
            if a < d.windows.len() {
                assert(d.windows[a].kind == k);
            }
        }
        focus_keeps_closed(e, d.next_id, k);
    }
}

/// The agent cannot open an app that is kept closed, by any other opening either.
pub proof fn agent_open_keeps_closed(d: DesktopV, o: AppKind, k: AppKind)
    requires
        kept_closed(d, k),
    ensures
        kept_closed(agent_open_v(d, o), k),
{
    agent_open_respects_latches(d, o, k);
    if !has_bit(d.latched, o) {
        launch_keeps_closed(
            DesktopV {
                latched: without_bit(d.latched, o),
                opened: without_bit(d.opened, o),
                ..d
            },
            o,
            k,
        );
    }
}

proof fn agent_close_keeps_closed(d: DesktopV, o: AppKind, k: AppKind)
    requires
        kept_closed(d, k),
    ensures
        kept_closed(agent_close_v(d, o), k),
{
    kind_place_bounds(d.windows, o, 0);
    let i = kind_place(d.windows, o, 0);
    let e = agent_close_v(d, o);
    if i < d.windows.len() && d.windows[i].id != d.dragging && shown(e.windows, k) {
        let a = choose|a: int| 0 <= a < e.windows.len() && (#[trigger] e.windows[a]).kind == k;
        let b = if a < i {
            a
        } else {
            a + 1
        };
        assert(e.windows[a] == d.windows[b]);
    }
}

proof fn agent_focus_keeps_closed(d: DesktopV, o: AppKind, k: AppKind)
    requires
        kept_closed(d, k),
    ensures
        kept_closed(agent_focus_v(d, o), k),
{
    kind_place_bounds(d.windows, o, 0);
    let i = kind_place(d.windows, o, 0);
    if i < d.windows.len() {
        let id = d.windows[i].id;
        update_keeps_closed(d, id, WindowDesc { minimized: false, ..window_v(d, id) }, k);
        focus_keeps_closed(set_minimized_v(d, id, false), id, k);
    }
}

// ── Layouts ─────────────────────────────────────────────────────────────────

proof fn staged_keeps_closed(
    d: DesktopV,
    apps: Seq<Seq<char>>,
    i: int,
    kinds: Seq<AppKind>,
    cap: nat,
    k: AppKind,
)
    requires
        kept_closed(d, k),
    ensures
        kept_closed(staged_v(d, apps, i, kinds, cap).0, k),
    decreases apps.len() - i,
{
    if !(i < 0 || i >= apps.len() || kinds.len() >= cap) {
        match app_named(apps[i]) {
            Some(o) => {
                if kinds.contains(o) || has_bit(d.latched, o) {
                    staged_keeps_closed(d, apps, i + 1, kinds, cap, k);
                } else {
                    agent_open_keeps_closed(d, o, k);
                    staged_keeps_closed(agent_open_v(d, o), apps, i + 1, kinds.push(o), cap, k);
                }
            },
            None => {
                staged_keeps_closed(d, apps, i + 1, kinds, cap, k);
            },
        }
    }
}

proof fn placed_keeps_closed(
    d: DesktopV,
    kinds: Seq<AppKind>,
    tiles: Seq<Tile>,
    i: int,
    k: AppKind,
)
    requires
        kept_closed(d, k),
    ensures
        kept_closed(placed_v(d, kinds, tiles, i), k),
    decreases kinds.len() - i,
{
    if 0 <= i < kinds.len() {
        if i < tiles.len() {
            let row = kind_place(d.windows, kinds[i], 0);
            if row < d.windows.len() && d.windows[row].id != d.dragging {
                let id = d.windows[row].id;
                update_keeps_closed(
                    d,
                    id,
                    WindowDesc {
                        minimized: false,
                        maximized: false,
                        placement: Placement::Tiled(tiles[i]),
                        ..window_v(d, id)
                    },
                    k,
                );
            }
            placed_keeps_closed(place_v(d, kinds[i], tiles[i]), kinds, tiles, i + 1, k);
        } else {
            placed_keeps_closed(d, kinds, tiles, i + 1, k);
        }
    }
}

proof fn cleared_keeps_closed(d: DesktopV, main: AppKind, i: int, k: AppKind)
    requires
        kept_closed(d, k),
    ensures
        kept_closed(cleared_v(d, main, i), k),
    decreases d.windows.len() - i,
{
    if 0 <= i < d.windows.len() {
        let w = d.windows[i];
        id_place_bounds(d.windows, w.id, 0);
        if w.kind != main && !w.minimized && w.id != d.dragging {
            update_keeps_closed(
                d,
                w.id,
                WindowDesc { minimized: true, ..window_v(d, w.id) },
                k,
            );
            cleared_keeps_closed(set_minimized_v(d, w.id, true), main, i + 1, k);
        } else {
            cleared_keeps_closed(d, main, i + 1, k);
        }
    }
}

/// No layout opens an app that is kept closed.
pub proof fn arrange_keeps_closed(
    d: DesktopV,
    layout: Seq<char>,
    apps: Seq<Seq<char>>,
    k: AppKind,
)
    requires
        kept_closed(d, k),
    ensures
        kept_closed(arrange_v(d, layout, apps), k),
{
    if is_layout(layout) && d.mode == ShellMode::Desktop {
        let (e, kinds) = cast_v(d, layout, apps);
        if apps.len() > 0 {
            staged_keeps_closed(d, apps, 0, Seq::empty(), seats(layout), k);
        }
        if kinds.len() > 0 {
            let tiles = tiles_v(layout, kinds.len());
            placed_keeps_closed(e, kinds, tiles, 0, k);
            let f = placed_v(e, kinds, tiles, 0);
            cleared_keeps_closed(f, kinds[0], 0, k);
            let g = if layout == "focus"@ {
                cleared_v(f, kinds[0], 0)
            } else {
                f
            };
            let row = kind_place(g.windows, kinds[0], 0);
            if row < g.windows.len() {
                focus_keeps_closed(g, g.windows[row].id, k);
            }
        }
    }
}

// ── Reflexes ────────────────────────────────────────────────────────────────

proof fn acted_all_keeps_closed(
    d: DesktopV,
    t: Seq<ReflexV>,
    dues: Seq<(Seq<char>, Seq<char>)>,
    trigger: Seq<char>,
    i: int,
    k: AppKind,
)
    requires
        kept_closed(d, k),
    ensures
        kept_closed(acted_all(d, t, dues, trigger, i).0, k),
    decreases dues.len() - i,
{
    if 0 <= i < dues.len() {
        let (action, app) = dues[i];
        match app_named(app) {
            Some(o) => {
                agent_open_keeps_closed(d, o, k);
                agent_focus_keeps_closed(d, o, k);
                agent_close_keeps_closed(d, o, k);
                let e = acted_v(d, action, o);
                if acts(d, action, o) {
                    acted_all_keeps_closed(
                        e,
                        counted_v(t, trigger, action, app, 0),
                        dues,
                        trigger,
                        i + 1,
                        k,
                    );
                } else {
                    acted_all_keeps_closed(e, t, dues, trigger, i + 1, k);
                }
            },
            None => {
                acted_all_keeps_closed(d, t, dues, trigger, i + 1, k);
            },
        }
    }
}

proof fn reflexes_keep_closed(s: ShellV, t: Seq<char>, now_ms: u64, k: AppKind)
    requires
        kept_closed(s.desk, k),
    ensures
        kept_closed(reflexed(s, t, now_ms).0.desk, k),
{
    let n = s.reflexes.len() as int;
    acted_all_keeps_closed(
        s.desk,
        stamped_v(s.reflexes, t, now_ms, n),
        due_v(s.reflexes, t, now_ms, n),
        t,
        0,
        k,
    );
}

// ── Every event ─────────────────────────────────────────────────────────────

proof fn staged_call_keeps_closed(s: ShellV, tool: Seq<char>, args: JsonV, k: AppKind)
    requires
        kept_closed(s.desk, k),
    ensures
        kept_closed(staged(s, tool, args).0.desk, k),
{
    let layout = crate::reader::str_v(args, "layout"@);
    let apps = crate::reader::strings_at(args, "apps"@);
    arrange_keeps_closed(s.desk, layout, apps, k);
    match app_named(crate::reader::str_v(args, "app"@)) {
        Some(o) => {
            agent_open_keeps_closed(s.desk, o, k);
            agent_close_keeps_closed(s.desk, o, k);
            agent_focus_keeps_closed(s.desk, o, k);
        },
        None => {},
    }
}

proof fn tool_request_keeps_closed(s: ShellV, call: ToolCallV, k: AppKind)
    requires
        kept_closed(s.desk, k),
    ensures
        kept_closed(tool_requested(s, call).0.desk, k),
{
    staged_call_keeps_closed(s, call.tool, call.args, k);
    let t = ShellV {
        board: crate::board::active_v(s.board, "running "@ + call.tool),
        ..s
    };
    staged_call_keeps_closed(t, call.tool, call.args, k);
}

proof fn revealing_keeps_closed(s: ShellV, o: AppKind, k: AppKind)
    requires
        kept_closed(s.desk, k),
    ensures
        kept_closed(revealed(s, o).0.desk, k),
{
    agent_open_keeps_closed(s.desk, o, k);
}

proof fn following_keeps_closed(s: ShellV, output: ToolOutputV, k: AppKind)
    requires
        kept_closed(s.desk, k),
    ensures
        kept_closed(followed(s, output).0.desk, k),
{
    match crate::reader::payload_of(crate::reader::Wanted::Reader, output.content) {
        Some(p) => {
            revealing_keeps_closed(
                ShellV {
                    reader: crate::reader::turned(s.reader, crate::reader::render_v(p)),
                    ..s
                },
                AppKind::Occipital,
                k,
            );
        },
        None => {},
    }
}

proof fn surveying_keeps_closed(s: ShellV, output: ToolOutputV, k: AppKind)
    requires
        kept_closed(s.desk, k),
    ensures
        kept_closed(surveyed(s, output).0.desk, k),
{
    match crate::reader::payload_of(crate::reader::Wanted::Mandalas, output.content) {
        Some(p) => {
            revealing_keeps_closed(
                ShellV { mandala: crate::mandala::charted(s.mandala, p), ..s },
                AppKind::Mandala,
                k,
            );
        },
        None => {},
    }
}

proof fn tool_result_keeps_closed(s: ShellV, call: u64, output: ToolOutputV, k: AppKind)
    requires
        kept_closed(s.desk, k),
    ensures
        kept_closed(tool_result(s, call, output).0.desk, k),
{
    let id = crate::text::dec(call as nat);
    let t = ShellV {
        board: crate::board::active_v(crate::board::clear_blocked_v(s.board, id), "working…"@),
        chat: crate::chat::answered(
            s.chat,
            id,
            crate::dispatch::content_text(output.content),
            if output.ok {
                "done"@
            } else {
                "error"@
            },
        ),
        ..s
    };
    following_keeps_closed(t, output, k);
    surveying_keeps_closed(followed(t, output).0, output, k);
}

/// The human always wins: an app that the human closed, and that the agent may not open,
/// stays closed whatever the agent tells the shell.
pub proof fn closed_apps_stay_closed(
    s: ShellV,
    ev: JsonV,
    event: Option<ShellEventV>,
    now_ms: u64,
    now_secs: i64,
    k: AppKind,
)
    requires
        kept_closed(s.desk, k),
    ensures
        kept_closed(dispatched(s, ev, event, now_ms, now_secs).0.desk, k),
{
    let t = crate::reader::str_v(ev, "type"@);
    reflexes_keep_closed(s, t, now_ms, k);
    let u = reflexed(s, t, now_ms).0;
    match event {
        Some(ShellEventV::ToolRequested { call }) => {
            tool_request_keeps_closed(u, call, k);
        },
        Some(ShellEventV::ToolResult { call, output }) => {
            tool_result_keeps_closed(u, call.0, output, k);
        },
        _ => {},
    }
}

/// Closing a window that the agent opened keeps its app closed, whatever the agent then
/// tells the shell.
pub proof fn an_overruled_agent_stays_overruled(
    s: ShellV,
    id: i32,
    ev: JsonV,
    event: Option<ShellEventV>,
    now_ms: u64,
    now_secs: i64,
)
    requires
        crate::desktop_laws::wf(s.desk),
        crate::desktop::has_id(s.desk.windows, id),
        has_bit(s.desk.opened, window_v(s.desk, id).kind),
    ensures
        ({
            let t = ShellV { desk: user_close_v(s.desk, id), ..s };
            kept_closed(
                dispatched(t, ev, event, now_ms, now_secs).0.desk,
                window_v(s.desk, id).kind,
            )
        }),
{
    let k = window_v(s.desk, id).kind;
    let t = ShellV { desk: user_close_v(s.desk, id), ..s };
    closing_latches(s.desk, id);
    crate::desktop_laws::user_close_keeps(s.desk, id);
    closed_apps_stay_closed(t, ev, event, now_ms, now_secs, k);
}

/// In one turn the agent changes the windows a bounded number of times; once the bound
/// is reached, a further call does nothing. The end of a turn and a new session start
/// the count anew.
pub proof fn staging_is_rationed(s: ShellV, tool: Seq<char>, args: JsonV)
    requires
        s.mutations <= UI_TURN_MUTATION_CAP,
    ensures
        staged(s, tool, args).0.mutations <= UI_TURN_MUTATION_CAP,
        s.mutations < UI_TURN_MUTATION_CAP ==> staged(s, tool, args).0.mutations == s.mutations + 1,
        s.mutations == UI_TURN_MUTATION_CAP ==> staged(s, tool, args) == (
            s,
            Seq::<EffectV>::empty(),
        ),
{
}

/// The end of a turn and a new session start the count of changes anew.
pub proof fn turns_refill_the_ration(s: ShellV, session: u64, ev: JsonV)
    ensures
        crate::dispatch::turn_complete(s, session).mutations == 0,
        greeted(s, ev).mutations == 0,
{
}

/// The end of a turn leaves the agent at rest: it is not at work, its line is closed,
/// and its face shows what it chose, or calm.
pub proof fn turns_end_at_rest(s: ShellV, session: u64)
    ensures
        !crate::dispatch::turn_complete(s, session).busy,
        !s.recording ==> crate::dispatch::turn_complete(s, session).face.shown == (
        match s.face.held {
            Some(e) => e,
            None => crate::shell::calm(),
        }),
        !crate::dispatch::turn_complete(s, session).subagents.contains(session),
{
    sifted_lacks(s.subagents, session, s.subagents.len() as int);
}

proof fn sifted_lacks(a: Seq<u64>, x: u64, n: int)
    requires
        0 <= n <= a.len(),
    ensures
        !crate::dispatch::sifted(a, x, n).contains(x),
    decreases n,
{
    if n > 0 {
        sifted_lacks(a, x, n - 1);
        let before = crate::dispatch::sifted(a, x, n - 1);
        let all = crate::dispatch::sifted(a, x, n);
        if all.contains(x) {
            let j = choose|j: int| 0 <= j < all.len() && all[j] == x;
            if j < before.len() {
                assert(before[j] == x);
            }
        }
    }
}

} // verus!
