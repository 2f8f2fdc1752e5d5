//! Reflexes: rules that the agent leaves with the shell, from an event to a window.
//!
//! A reflex fires without the agent thinking. After an attempt it rests for a while,
//! so that a burst of events does not make the windows flicker.
use vstd::prelude::*;
use crate::apps::{app_named, kind_from_slug, kind_title, title, AppKind};
use crate::desktop::{
    agent_close_v, agent_focus_v, agent_open_v, has_bit, has_kind, kind_place, Desktop, DesktopV,
};
use crate::effects::{notice, notice_v, Effect, EffectV, ToastKind};
use crate::json::{
    agrees, arr_view, compact, entries, entry, field, flagged, items_v, names_differ, obj_view,
    parsed, plain, read, record_v, render, text_at, uint_json, uint_v, Json, JsonV, DEEP,
};
use crate::reader::{json_flag, json_str, str_v};
use crate::repeats::{
    clear, clear_of, different_names_are_used_once, names_once, repeats_nothing, spell, spelled, uses,
};
use crate::text::{copy, same, views};

verus! {

broadcast use {crate::text::views_push, crate::text::views_empty};

/// The events that a reflex can wait for.
pub const REFLEX_TRIGGERS: [&'static str; 8] = [
    "sensor_alert",
    "wake_triggered",
    "mesh_message",
    "mesh_node_status",
    "goal_state_changed",
    "council_started",
    "evolution_proposed",
    "error",
];

/// What a reflex can do.
pub const REFLEX_ACTIONS: [&'static str; 3] = ["open", "focus", "close"];

/// The most reflexes at a time.
pub const REFLEX_MAX: usize = 8;

/// How long a reflex rests after an attempt, in milliseconds.
pub const REFLEX_COOLDOWN_MS: u64 = 30_000;

/// A reflex.
#[derive(Debug)]
pub struct ReflexRec {
    /// The event that it waits for.
    pub on: String,
    /// What it does.
    pub action: String,
    /// The app that it does it to.
    pub app: String,
    /// How often it has done it.
    pub fires: u32,
    /// When it was last attempted, in milliseconds of the shell's clock.
    pub last_fired: Option<u64>,
}

/// The model of a [`ReflexRec`].
pub struct ReflexV {
    pub on: Seq<char>,
    pub action: Seq<char>,
    pub app: Seq<char>,
    pub fires: u32,
    pub last_fired: Option<u64>,
}

impl View for ReflexRec {
    type V = ReflexV;

    open spec fn view(&self) -> ReflexV {
        ReflexV {
            on: self.on@,
            action: self.action@,
            app: self.app@,
            fires: self.fires,
            last_fired: self.last_fired,
        }
    }
}

pub open spec fn is_trigger(s: Seq<char>) -> bool {
    s == "sensor_alert"@ || s == "wake_triggered"@ || s == "mesh_message"@ || s
        == "mesh_node_status"@ || s == "goal_state_changed"@ || s == "council_started"@ || s
        == "evolution_proposed"@ || s == "error"@
}

/// Whether a reflex can wait for an event.
pub fn known_trigger(s: &str) -> (r: bool)
    ensures
        r == is_trigger(s@),
{
    same(s, "sensor_alert") || same(s, "wake_triggered") || same(s, "mesh_message") || same(
        s,
        "mesh_node_status",
    ) || same(s, "goal_state_changed") || same(s, "council_started") || same(
        s,
        "evolution_proposed",
    ) || same(s, "error")
}

pub open spec fn is_action(s: Seq<char>) -> bool {
    s == "open"@ || s == "focus"@ || s == "close"@
}

/// Whether a reflex can do something.
pub fn known_action(s: &str) -> (r: bool)
    ensures
        r == is_action(s@),
{
    same(s, "open") || same(s, "focus") || same(s, "close")
}

// ── The table ───────────────────────────────────────────────────────────────

/// Whether a reflex waits for `on` and concerns `app`.
pub open spec fn keyed(r: ReflexV, on: Seq<char>, app: Seq<char>) -> bool {
    r.on == on && r.app == app
}

/// The place of the first reflex with a key from `i` on; the end where there is none.
pub open spec fn key_place(t: Seq<ReflexV>, on: Seq<char>, app: Seq<char>, i: int) -> int
    decreases t.len() - i,
{
    if 0 <= i < t.len() && !keyed(t[i], on, app) {
        key_place(t, on, app, i + 1)
    } else {
        i
    }
}

/// Whether a reflex with a key is there.
pub open spec fn has_key(t: Seq<ReflexV>, on: Seq<char>, app: Seq<char>) -> bool {
    key_place(t, on, app, 0) < t.len()
}

/// Whether a rule can be taken in: its key is there already, or there is room.
pub open spec fn installs(t: Seq<ReflexV>, on: Seq<char>, app: Seq<char>, max: nat) -> bool {
    has_key(t, on, app) || t.len() < max
}

/// The table with a rule taken in. A rule with the same key is replaced, and starts
/// counting anew; a new one goes to the end, while there is room.
pub open spec fn install_v(
    t: Seq<ReflexV>,
    on: Seq<char>,
    action: Seq<char>,
    app: Seq<char>,
    max: nat,
) -> Seq<ReflexV> {
    let i = key_place(t, on, app, 0);
    if i < t.len() {
        t.update(i, ReflexV { action, fires: 0, last_fired: None, ..t[i] })
    } else if t.len() < max {
        t.push(ReflexV { on, action, app, fires: 0, last_fired: None })
    } else {
        t
    }
}

/// The first `n` reflexes without those of a key.
pub open spec fn remove_v(t: Seq<ReflexV>, on: Seq<char>, app: Seq<char>, n: int) -> Seq<ReflexV>
    decreases n,
{
    if n <= 0 {
        Seq::empty()
    } else if keyed(t[n - 1], on, app) {
        remove_v(t, on, app, n - 1)
    } else {
        remove_v(t, on, app, n - 1).push(t[n - 1])
    }
}

/// The table without the reflexes of a key.
pub open spec fn removed(t: Seq<ReflexV>, on: Seq<char>, app: Seq<char>) -> Seq<ReflexV> {
    remove_v(t, on, app, t.len() as int)
}

fn is_keyed(r: &ReflexRec, on: &str, app: &str) -> (b: bool)
    ensures
        b == keyed(r@, on@, app@),
{
    same(r.on.as_str(), on) && same(r.app.as_str(), app)
}

fn find_key(table: &Vec<ReflexRec>, on: &str, app: &str) -> (r: Option<usize>)
    ensures
        match r {
            Some(i) => i < table@.len() && i == key_place(views(table@), on@, app@, 0),
            None => !has_key(views(table@), on@, app@),
        },
{
    let mut i: usize = 0;
    while i < table.len() && !is_keyed(&table[i], on, app)
        invariant
            i <= table@.len(),
            key_place(views(table@), on@, app@, 0) == key_place(
                views(table@),
                on@,
                app@,
                i as int,
            ),
        decreases table@.len() - i,
    {
        i = i + 1;
    }
    if i < table.len() {
        Some(i)
    } else {
        None
    }
}

/// Takes in a rule, and says whether it could.
pub fn reflex_table_install(
    table: &mut Vec<ReflexRec>,
    on: &str,
    action: &str,
    app: &str,
    max: usize,
) -> (r: bool)
    ensures
        r == installs(views(old(table)@), on@, app@, max as nat),
        views(final(table)@) == install_v(views(old(table)@), on@, action@, app@, max as nat),
{
    let ghost t = views(table@);
    match find_key(table, on, app) {
        Some(i) => {
            let rec = ReflexRec {
                on: table[i].on.clone(),
                action: copy(action),
                app: table[i].app.clone(),
                fires: 0,
                last_fired: None,
            };
            table.set(i, rec);
            assert(views(table@) =~= t.update(i as int, rec@));
            true
        },
        None => {
            if table.len() >= max {
                return false;
            }
            table.push(
                ReflexRec {
                    on: copy(on),
                    action: copy(action),
                    app: copy(app),
                    fires: 0,
                    last_fired: None,
                },
            );
            true
        },
    }
}

proof fn remove_v_len(t: Seq<ReflexV>, on: Seq<char>, app: Seq<char>, n: int)
    requires
        0 <= n <= t.len(),
    ensures
        remove_v(t, on, app, n).len() <= n,
    decreases n,
{
    if n > 0 {
        remove_v_len(t, on, app, n - 1);
    }
}

proof fn key_place_bounds(t: Seq<ReflexV>, on: Seq<char>, app: Seq<char>, i: int)
    requires
        0 <= i <= t.len(),
    ensures
        i <= key_place(t, on, app, i) <= t.len(),
        key_place(t, on, app, i) < t.len() ==> keyed(t[key_place(t, on, app, i)], on, app),
        forall|j: int| i <= j < key_place(t, on, app, i) ==> !keyed(#[trigger] t[j], on, app),
    decreases t.len() - i,
{
    if i < t.len() && !keyed(t[i], on, app) {
        key_place_bounds(t, on, app, i + 1);
    }
}

proof fn remove_v_shrinks(t: Seq<ReflexV>, on: Seq<char>, app: Seq<char>, n: int)
    requires
        0 <= n <= t.len(),
    ensures
        remove_v(t, on, app, n).len() < n <==> exists|j: int|
            0 <= j < n && keyed(#[trigger] t[j], on, app),
        remove_v(t, on, app, n).len() <= n,
    decreases n,
{
    if n > 0 {
        remove_v_shrinks(t, on, app, n - 1);
        if keyed(t[n - 1], on, app) {
            remove_v_len(t, on, app, n - 1);
        }
    }
}

/// Drops the rules with a key, and says whether there was one.
pub fn reflex_table_remove(table: &mut Vec<ReflexRec>, on: &str, app: &str) -> (r: bool)
    ensures
        r == has_key(views(old(table)@), on@, app@),
        views(final(table)@) == removed(views(old(table)@), on@, app@),
{
    let ghost t = views(table@);
    let before: usize = table.len();
    let mut kept: Vec<ReflexRec> = Vec::new();
    for i in 0..table.len()
        invariant
            t == views(table@),
            views(kept@) == remove_v(t, on@, app@, i as int),
    {
        if !is_keyed(&table[i], on, app) {
            let rec = ReflexRec {
                on: table[i].on.clone(),
                action: table[i].action.clone(),
                app: table[i].app.clone(),
                fires: table[i].fires,
                last_fired: table[i].last_fired,
            };
            assert(rec@ == t[i as int]);
            kept.push(rec);
        }
    }
    proof {
        remove_v_shrinks(t, on@, app@, t.len() as int);
        key_place_bounds(t, on@, app@, 0);
        assert(views(kept@).len() == kept@.len());
    }
    *table = kept;
    table.len() != before
}

// ── Taking the agent's word ─────────────────────────────────────────────────

/// The table after a call that installs or removes a reflex. A word that the shell
/// does not know is passed over.
pub open spec fn applied_v(t: Seq<ReflexV>, args: JsonV) -> Seq<ReflexV> {
    let on = str_v(args, "on"@);
    let app = str_v(args, "app"@);
    let action = str_v(args, "do"@);
    if !is_trigger(on) || app_named(app) is None {
        t
    } else if flagged(args, "remove"@) {
        removed(t, on, app)
    } else if is_action(action) {
        install_v(t, on, action, app, REFLEX_MAX as nat)
    } else {
        t
    }
}

/// What is shown and saved after such a call.
pub open spec fn applied_effects(t: Seq<ReflexV>, args: JsonV) -> Seq<EffectV> {
    let on = str_v(args, "on"@);
    let app = str_v(args, "app"@);
    let action = str_v(args, "do"@);
    if !is_trigger(on) || app_named(app) is None {
        Seq::empty()
    } else if flagged(args, "remove"@) {
        if has_key(t, on, app) {
            seq![
                EffectV::SaveReflexes,
                notice_v(ToastKind::Info, "⚡ APEX removed a reflex: "@ + on + " → "@ + app),
            ]
        } else {
            Seq::empty()
        }
    } else if is_action(action) && installs(t, on, app, REFLEX_MAX as nat) {
        seq![
            EffectV::SaveReflexes,
            notice_v(
                ToastKind::Success,
                "⚡ APEX installed a reflex: "@ + on + " → "@ + action + " "@ + app,
            ),
        ]
    } else {
        Seq::empty()
    }
}

/// Carries out a call that installs or removes a reflex.
pub fn apply_ui_reflex(table: &mut Vec<ReflexRec>, args: &Json) -> (r: Vec<Effect>)
    ensures
        views(final(table)@) == applied_v(views(old(table)@), args@),
        views(r@) == applied_effects(views(old(table)@), args@),
{
    let on = json_str(args, "on");
    let app = json_str(args, "app");
    let mut out: Vec<Effect> = Vec::new();
    if !known_trigger(on.as_str()) || kind_from_slug(app.as_str()).is_none() {
        return out;
    }
    if json_flag(args, "remove") {
        if reflex_table_remove(table, on.as_str(), app.as_str()) {
            let mut line = copy("⚡ APEX removed a reflex: ");
            line.append(on.as_str());
            line.append(" → ");
            line.append(app.as_str());
            out.push(Effect::SaveReflexes);
            out.push(notice(ToastKind::Info, line));
            assert(views(out@) =~= applied_effects(views(old(table)@), args@));
        }
        return out;
    }
    let action = json_str(args, "do");
    if !known_action(action.as_str()) {
        return out;
    }
    if reflex_table_install(table, on.as_str(), action.as_str(), app.as_str(), REFLEX_MAX) {
        let mut line = copy("⚡ APEX installed a reflex: ");
        line.append(on.as_str());
        line.append(" → ");
        line.append(action.as_str());
        line.append(" ");
        line.append(app.as_str());
        out.push(Effect::SaveReflexes);
        out.push(notice(ToastKind::Success, line));
        assert(views(out@) =~= applied_effects(views(old(table)@), args@));
    }
    out
}

// ── Firing ──────────────────────────────────────────────────────────────────

/// Whether a reflex has rested long enough.
pub open spec fn cooled(r: ReflexV, now: u64) -> bool {
    match r.last_fired {
        Some(t) => now - t >= REFLEX_COOLDOWN_MS,
        None => true,
    }
}

/// Whether a reflex is to be attempted.
pub open spec fn due(r: ReflexV, trigger: Seq<char>, now: u64) -> bool {
    r.on == trigger && cooled(r, now)
}

/// The first `n` reflexes once those that are due have been attempted.
pub open spec fn stamped_v(t: Seq<ReflexV>, trigger: Seq<char>, now: u64, n: int) -> Seq<ReflexV>
    decreases n,
{
    if n <= 0 {
        Seq::empty()
    } else {
        stamped_v(t, trigger, now, n - 1).push(
            if due(t[n - 1], trigger, now) {
                ReflexV { last_fired: Some(now), ..t[n - 1] }
            } else {
                t[n - 1]
            },
        )
    }
}

/// What the first `n` reflexes are due to do, and to which app.
pub open spec fn due_v(t: Seq<ReflexV>, trigger: Seq<char>, now: u64, n: int) -> Seq<
    (Seq<char>, Seq<char>),
>
    decreases n,
{
    if n <= 0 {
        Seq::empty()
    } else if due(t[n - 1], trigger, now) {
        due_v(t, trigger, now, n - 1).push((t[n - 1].action, t[n - 1].app))
    } else {
        due_v(t, trigger, now, n - 1)
    }
}

/// The desktop after an app is opened, raised or closed by a reflex.
pub open spec fn acted_v(d: DesktopV, action: Seq<char>, k: AppKind) -> DesktopV {
    if action == "open"@ {
        agent_open_v(d, k)
    } else if action == "focus"@ {
        agent_focus_v(d, k)
    } else if action == "close"@ {
        agent_close_v(d, k)
    } else {
        d
    }
}

/// Whether an app has a window that is not under the pointer.
pub open spec fn closable(d: DesktopV, k: AppKind) -> bool {
    let i = kind_place(d.windows, k, 0);
    i < d.windows.len() && d.windows[i].id != d.dragging
}

/// Whether that was really done: an opening that no latch forbade, a window that was
/// there to raise, or one that was there to close and not under the pointer.
pub open spec fn acts(d: DesktopV, action: Seq<char>, k: AppKind) -> bool {
    if action == "open"@ {
        !has_bit(d.latched, k)
    } else if action == "focus"@ {
        has_kind(d.windows, k)
    } else {
        action == "close"@ && closable(d, k)
    }
}

pub open spec fn done_word(action: Seq<char>) -> Seq<char> {
    if action == "open"@ {
        "opened"@
    } else if action == "focus"@ {
        "focused"@
    } else {
        "closed"@
    }
}

/// What is shown when a reflex has done something.
pub open spec fn act_effects(action: Seq<char>, k: AppKind, trigger: Seq<char>) -> Seq<EffectV> {
    let told = notice_v(
        ToastKind::Info,
        "⚡ reflex "@ + done_word(action) + " "@ + title(k) + " (on "@ + trigger + ")"@,
    );
    if action == "open"@ {
        seq![EffectV::Refresh(k), told]
    } else {
        seq![told]
    }
}

/// The table with one more counted for the first reflex that fits.
pub open spec fn counted_v(
    t: Seq<ReflexV>,
    trigger: Seq<char>,
    action: Seq<char>,
    app: Seq<char>,
    i: int,
) -> Seq<ReflexV>
    decreases t.len() - i,
{
    if i < 0 || i >= t.len() {
        t
    } else if keyed(t[i], trigger, app) && t[i].action == action {
        t.update(
            i,
            ReflexV {
                fires: if t[i].fires == u32::MAX {
                    0
                } else {
                    (t[i].fires + 1) as u32
                },
                ..t[i]
            },
        )
    } else {
        counted_v(t, trigger, action, app, i + 1)
    }
}

/// The desktop, the table and the effects when what is due has been done from `i` on.
pub open spec fn acted_all(
    d: DesktopV,
    t: Seq<ReflexV>,
    dues: Seq<(Seq<char>, Seq<char>)>,
    trigger: Seq<char>,
    i: int,
) -> (DesktopV, Seq<ReflexV>, Seq<EffectV>)
    decreases dues.len() - i,
{
    if i < 0 || i >= dues.len() {
        (d, t, Seq::empty())
    } else {
        let (action, app) = dues[i];
        match app_named(app) {
            Some(k) => {
                let e = acted_v(d, action, k);
                if acts(d, action, k) {
                    let (d2, t2, fx) = acted_all(
                        e,
                        counted_v(t, trigger, action, app, 0),
                        dues,
                        trigger,
                        i + 1,
                    );
                    (d2, t2, act_effects(action, k, trigger) + fx)
                } else {
                    acted_all(e, t, dues, trigger, i + 1)
                }
            },
            None => acted_all(d, t, dues, trigger, i + 1),
        }
    }
}

/// The desktop, the table and the effects once an event has fired its reflexes.
pub open spec fn fired(d: DesktopV, t: Seq<ReflexV>, trigger: Seq<char>, now: u64) -> (
    DesktopV,
    Seq<ReflexV>,
    Seq<EffectV>,
) {
    let n = t.len() as int;
    let (d2, t2, fx) = acted_all(
        d,
        stamped_v(t, trigger, now, n),
        due_v(t, trigger, now, n),
        trigger,
        0,
    );
    (d2, t2, if fx.len() > 0 {
        fx.push(EffectV::SaveReflexes)
    } else {
        fx
    })
}

/// A pair of texts as the table's rules are copied out.
#[derive(Debug)]
pub struct Due {
    pub action: String,
    pub app: String,
}

impl View for Due {
    type V = (Seq<char>, Seq<char>);

    open spec fn view(&self) -> (Seq<char>, Seq<char>) {
        (self.action@, self.app@)
    }
}

fn take_due(table: &mut Vec<ReflexRec>, trigger: &str, now: u64) -> (r: Vec<Due>)
    ensures
        views(r@) == due_v(
            views(old(table)@),
            trigger@,
            now,
            views(old(table)@).len() as int,
        ),
        views(final(table)@) == stamped_v(
            views(old(table)@),
            trigger@,
            now,
            views(old(table)@).len() as int,
        ),
{
    let ghost t = views(table@);
    let mut out: Vec<Due> = Vec::new();
    let mut after: Vec<ReflexRec> = Vec::new();
    for i in 0..table.len()
        invariant
            t == views(table@),
            views(out@) == due_v(t, trigger@, now, i as int),
            views(after@) == stamped_v(t, trigger@, now, i as int),
    {
        assert(t[i as int] == table@[i as int]@);
        let rested = match table[i].last_fired {
            Some(at) => now >= at && now - at >= REFLEX_COOLDOWN_MS,
            None => true,
        };
        let is_due = same(table[i].on.as_str(), trigger) && rested;
        if is_due {
            out.push(Due { action: table[i].action.clone(), app: table[i].app.clone() });
        }
        after.push(
            ReflexRec {
                on: table[i].on.clone(),
                action: table[i].action.clone(),
                app: table[i].app.clone(),
                fires: table[i].fires,
                last_fired: if is_due {
                    Some(now)
                } else {
                    table[i].last_fired
                },
            },
        );
    }
    *table = after;
    out
}

fn count_fire(table: &mut Vec<ReflexRec>, trigger: &str, action: &str, app: &str)
    ensures
        views(final(table)@) == counted_v(views(old(table)@), trigger@, action@, app@, 0),
{
    let ghost t = views(table@);
    let mut i: usize = 0;
    while i < table.len() && !(is_keyed(&table[i], trigger, app) && same(
        table[i].action.as_str(),
        action,
    ))
        invariant
            i <= table@.len(),
            t == views(table@),
            table@ == old(table)@,
            counted_v(t, trigger@, action@, app@, 0) == counted_v(
                t,
                trigger@,
                action@,
                app@,
                i as int,
            ),
        decreases table@.len() - i,
    {
        i = i + 1;
    }
    if i < table.len() {
        let fires: u32 = table[i].fires;
        let rec = ReflexRec {
            on: table[i].on.clone(),
            action: table[i].action.clone(),
            app: table[i].app.clone(),
            fires: if fires == u32::MAX {
                0
            } else {
                fires + 1
            },
            last_fired: table[i].last_fired,
        };
        table.set(i, rec);
        assert(views(table@) =~= t.update(i as int, rec@));
    }
}

fn act(desk: &mut Desktop, action: &str, kind: AppKind) -> (did: bool)
    ensures
        final(desk)@ == acted_v(old(desk)@, action@, kind),
        did == acts(old(desk)@, action@, kind),
{
    if same(action, "open") {
        desk.agent_open_window(kind)
    } else if same(action, "focus") {
        let existed = desk.index_by_kind(kind).is_some();
        desk.agent_focus(kind);
        existed
    } else if same(action, "close") {
        let held = match desk.index_by_kind(kind) {
            Some(i) => desk.windows[i].id == desk.dragging,
            None => true,
        };
        desk.agent_close(kind);
        !held
    } else {
        false
    }
}

fn push_act_effects(out: &mut Vec<Effect>, action: &str, kind: AppKind, trigger: &str)
    ensures
        views(final(out)@) == views(old(out)@) + act_effects(action@, kind, trigger@),
{
    let word = if same(action, "open") {
        "opened"
    } else if same(action, "focus") {
        "focused"
    } else {
        "closed"
    };
    let mut line = copy("⚡ reflex ");
    line.append(word);
    line.append(" ");
    line.append(kind_title(kind));
    line.append(" (on ");
    line.append(trigger);
    line.append(")");
    let ghost before = views(out@);
    if same(action, "open") {
        out.push(Effect::Refresh(kind));
    }
    out.push(notice(ToastKind::Info, line));
    assert(views(out@) =~= before + act_effects(action@, kind, trigger@));
}

/// Fires the reflexes that wait for an event.
pub fn reflex_fire(
    desk: &mut Desktop,
    table: &mut Vec<ReflexRec>,
    trigger: &str,
    now: u64,
) -> (r: Vec<Effect>)
    ensures
        (final(desk)@, views(final(table)@), views(r@)) == fired(
            old(desk)@,
            views(old(table)@),
            trigger@,
            now,
        ),
{
    let dues = take_due(table, trigger, now);
    let ghost list = views(dues@);
    let ghost d0 = desk@;
    let ghost t0 = views(table@);
    let ghost all = acted_all(d0, t0, list, trigger@, 0);
    let mut out: Vec<Effect> = Vec::new();
    assert(views(out@) + all.2 =~= all.2);
    for i in 0..dues.len()
        invariant
            list == views(dues@),
            all == ({
                let rest = acted_all(desk@, views(table@), list, trigger@, i as int);
                (rest.0, rest.1, views(out@) + rest.2)
            }),
    {
        assert(list[i as int] == dues@[i as int]@);
        let action = dues[i].action.as_str();
        let app = dues[i].app.as_str();
        match kind_from_slug(app) {
            Some(kind) => {
                let ghost before = views(out@);
                let did = act(desk, action, kind);
                if did {
                    push_act_effects(&mut out, action, kind, trigger);
                    count_fire(table, trigger, action, app);
                    proof {
                        let rest = acted_all(desk@, views(table@), list, trigger@, i as int + 1);
                        assert(before + (act_effects(action@, kind, trigger@) + rest.2)
                            =~= before + act_effects(action@, kind, trigger@) + rest.2);
                    }
                }
            },
            None => {},
        }
    }
    assert(views(out@) + Seq::<EffectV>::empty() =~= views(out@));
    assert(out@.len() == views(out@).len());
    if !out.is_empty() {
        out.push(Effect::SaveReflexes);
    }
    out
}

// ── On disk ─────────────────────────────────────────────────────────────────

/// A reflex as it is written to disk. When it was last attempted is not written.
pub open spec fn reflex_json(r: ReflexV) -> JsonV {
    JsonV::Obj(
        seq![
            ("on"@, JsonV::Str(r.on)),
            ("do"@, JsonV::Str(r.action)),
            ("app"@, JsonV::Str(r.app)),
            ("fires"@, uint_json(r.fires as u64)),
        ],
    )
}

/// The names of a reflex's fields.
pub open spec fn reflex_names() -> Seq<Seq<char>> {
    seq!["on"@, "do"@, "app"@, "fires"@]
}

/// The reflex with these fields. One that does not say how often it fired has not fired.
pub open spec fn reflex_of(j: JsonV) -> Option<ReflexV> {
    let fires = match field(j, "fires"@) {
        Some(n) => uint_v(n),
        None => Some(0),
    };
    match (text_at(j, "on"@), text_at(j, "do"@), text_at(j, "app"@), fires) {
        (Some(on), Some(action), Some(app), Some(n)) => if n <= u32::MAX {
            Some(ReflexV { on, action, app, fires: n as u32, last_fired: None })
        } else {
            None
        },
        _ => None,
    }
}

/// The reflex that a record describes.
pub open spec fn json_reflex(j: JsonV) -> Option<ReflexV> {
    match record_v(j, reflex_names(), 3) {
        Some(o) => reflex_of(o),
        None => None,
    }
}

/// The reflexes of the first `n` records, where all of them describe one.
pub open spec fn json_reflexes(a: Seq<JsonV>, n: int) -> Option<Seq<ReflexV>>
    decreases n,
{
    if n <= 0 {
        Some(Seq::empty())
    } else {
        match (json_reflexes(a, n - 1), json_reflex(a[n - 1])) {
            (Some(t), Some(r)) => Some(t.push(r)),
            _ => None,
        }
    }
}

/// The table that a file's value describes: empty where any part of it cannot be read.
pub open spec fn loaded(j: JsonV) -> Seq<ReflexV> {
    match items_v(j) {
        Some(a) => match json_reflexes(a, a.len() as int) {
            Some(t) => t,
            None => Seq::empty(),
        },
        None => Seq::empty(),
    }
}

fn encode_reflex(r: &ReflexRec) -> (j: Json)
    ensures
        j@ == reflex_json(r@),
{
    let mut e: Vec<(String, Json)> = Vec::new();
    e.push((copy("on"), Json::Str(r.on.clone())));
    e.push((copy("do"), Json::Str(r.action.clone())));
    e.push((copy("app"), Json::Str(r.app.clone())));
    e.push((copy("fires"), Json::uint(r.fires as u64)));
    proof {
        obj_view(e);
        assert(entries(e@) =~= reflex_json(r@)->Obj_0);
    }
    Json::Obj(e)
}

/// The table as it is written to disk.
pub fn encode_reflexes(table: &Vec<ReflexRec>) -> (j: Json)
    ensures
        j@ == JsonV::Arr(views(table@).map_values(|r: ReflexV| reflex_json(r))),
{
    let ghost want = views(table@).map_values(|r: ReflexV| reflex_json(r));
    let mut out: Vec<Json> = Vec::new();
    for i in 0..table.len()
        invariant
            want == views(table@).map_values(|r: ReflexV| reflex_json(r)),
            views(out@) == want.take(i as int),
    {
        assert(want[i as int] == reflex_json(table@[i as int]@));
        out.push(encode_reflex(&table[i]));
        assert(want.take(i as int).push(want[i as int]) =~= want.take(i as int + 1));
    }
    proof {
        assert(want.take(want.len() as int) =~= want);
        arr_view(out);
    }
    Json::Arr(out)
}

fn reflex_fields(j: &Json) -> (r: Option<ReflexRec>)
    ensures
        r is Some <==> reflex_of(j@) is Some,
        r is Some ==> reflex_of(j@) == Some(r->0@),
{
    let fires = match j.get("fires") {
        Some(n) => n.as_u64(),
        None => Some(0),
    };
    match (j.str_at("on"), j.str_at("do"), j.str_at("app"), fires) {
        (Some(on), Some(action), Some(app), Some(n)) => if n <= u32::MAX as u64 {
            Some(
                ReflexRec {
                    on: copy(on),
                    action: copy(action),
                    app: copy(app),
                    fires: n as u32,
                    last_fired: None,
                },
            )
        } else {
            None
        },
        _ => None,
    }
}

fn decode_reflex(j: &Json) -> (r: Option<ReflexRec>)
    ensures
        r is Some <==> json_reflex(j@) is Some,
        r is Some ==> json_reflex(j@) == Some(r->0@),
{
    let names = vec!["on", "do", "app", "fires"];
    assert(views(names@) =~= reflex_names());
    match j.record(&names, 3) {
        Some(o) => reflex_fields(&o),
        None => None,
    }
}

/// Reads the table from a file's value.
pub fn reflex_load(j: &Json) -> (r: Vec<ReflexRec>)
    ensures
        views(r@) == loaded(j@),
{
    let mut out: Vec<ReflexRec> = Vec::new();
    match j.as_array() {
        Some(arr) => {
            let ghost a = views(arr@);
            for i in 0..arr.len()
                invariant
                    a == views(arr@),
                    items_v(j@) == Some(a),
                    json_reflexes(a, i as int) == Some(views(out@)),
            {
                assert(a[i as int] == arr@[i as int]@);
                match decode_reflex(&arr[i]) {
                    Some(r) => {
                        out.push(r);
                    },
                    None => {
                        proof {
                            json_reflexes_fails(a, i as int + 1, a.len() as int);
                        }
                        return Vec::new();
                    },
                }
            }
        },
        None => {},
    }
    out
}

proof fn json_reflexes_fails(a: Seq<JsonV>, n: int, m: int)
    requires
        0 <= n <= m <= a.len(),
        json_reflexes(a, n) is None,
    ensures
        json_reflexes(a, m) is None,
    decreases m - n,
{
    if n < m {
        json_reflexes_fails(a, n + 1, m);
    }
}

// ── Laws ────────────────────────────────────────────────────────────────────

/// No two reflexes share a key.
pub open spec fn keys_differ(t: Seq<ReflexV>) -> bool {
    forall|i: int, j: int|
        0 <= i < j < t.len() ==> !keyed(#[trigger] t[j], (#[trigger] t[i]).on, t[i].app)
}

/// Taking in a rule keeps keys distinct and the table within its bound; where it was
/// taken in, its key now has its action, with nothing counted.
pub proof fn install_keeps(
    t: Seq<ReflexV>,
    on: Seq<char>,
    action: Seq<char>,
    app: Seq<char>,
    max: nat,
)
    requires
        keys_differ(t),
        t.len() <= max,
    ensures
        keys_differ(install_v(t, on, action, app, max)),
        install_v(t, on, action, app, max).len() <= max,
        installs(t, on, app, max) ==> ({
            let u = install_v(t, on, action, app, max);
            let i = key_place(u, on, app, 0);
            i < u.len() && u[i] == (ReflexV { on, action, app, fires: 0, last_fired: None })
        }),
        !installs(t, on, app, max) ==> install_v(t, on, action, app, max) == t,
{
    key_place_bounds(t, on, app, 0);
    let u = install_v(t, on, action, app, max);
    key_place_bounds(u, on, app, 0);
    let i = key_place(t, on, app, 0);
    if i < t.len() {
        assert forall|j: int| 0 <= j < u.len() implies (#[trigger] u[j]).on == t[j].on && u[j].app
            == t[j].app by {}
        assert(keyed(u[i], on, app));
        assert(key_place(u, on, app, 0) == i);
    } else if t.len() < max {
        assert forall|j: int| 0 <= j < t.len() implies #[trigger] u[j] == t[j] by {}
        assert(keyed(u[t.len() as int], on, app));
        assert(key_place(u, on, app, 0) == t.len());
    }
}

proof fn remove_v_members(t: Seq<ReflexV>, on: Seq<char>, app: Seq<char>, n: int)
    requires
        0 <= n <= t.len(),
    ensures
        forall|i: int|
            0 <= i < remove_v(t, on, app, n).len() ==> !keyed(
                #[trigger] remove_v(t, on, app, n)[i],
                on,
                app,
            ),
        keys_differ(t) ==> keys_differ(remove_v(t, on, app, n)),
        forall|i: int|
            0 <= i < remove_v(t, on, app, n).len() ==> exists|j: int|
                0 <= j < n && #[trigger] t[j] == #[trigger] remove_v(t, on, app, n)[i],
    decreases n,
{
    if n > 0 {
        remove_v_members(t, on, app, n - 1);
        let before = remove_v(t, on, app, n - 1);
        let u = remove_v(t, on, app, n);
        if !keyed(t[n - 1], on, app) {
            assert forall|i: int| 0 <= i < u.len() implies exists|j: int|
                0 <= j < n && #[trigger] t[j] == #[trigger] u[i] by {
                if i < before.len() {
                    assert(u[i] == before[i]);
                    let j = choose|j: int| 0 <= j < n - 1 && #[trigger] t[j] == before[i];
                    assert(t[j] == u[i]);
                } else {
                    assert(t[n - 1] == u[i]);
                }
            }
            assert forall|i: int| 0 <= i < u.len() implies !keyed(#[trigger] u[i], on, app) by {
                if i < before.len() {
                    assert(u[i] == before[i]);
                }
            }
            if keys_differ(t) {
                assert forall|i: int, j: int| 0 <= i < j < u.len() implies !keyed(
                    #[trigger] u[j],
                    (#[trigger] u[i]).on,
                    u[i].app,
                ) by {
                    assert(u[i] == before[i]);
                    if j < before.len() {
                        assert(u[j] == before[j]);
                    } else {
                        let a = choose|a: int| 0 <= a < n - 1 && #[trigger] t[a] == before[i];
                        assert(t[a] == u[i]);
                    }
                }
            }
        } else {
            assert forall|i: int| 0 <= i < u.len() implies exists|j: int|
                0 <= j < n && #[trigger] t[j] == #[trigger] u[i] by {
                let j = choose|j: int| 0 <= j < n - 1 && #[trigger] t[j] == before[i];
                assert(t[j] == u[i]);
            }
        }
    }
}

/// A removed key is gone, keys stay distinct, and removing it again changes nothing.
pub proof fn remove_removes(t: Seq<ReflexV>, on: Seq<char>, app: Seq<char>)
    ensures
        !has_key(removed(t, on, app), on, app),
        keys_differ(t) ==> keys_differ(removed(t, on, app)),
        removed(t, on, app).len() <= t.len(),
        !has_key(t, on, app) ==> removed(t, on, app) == t,
{
    remove_v_members(t, on, app, t.len() as int);
    remove_v_len(t, on, app, t.len() as int);
    key_place_bounds(removed(t, on, app), on, app, 0);
    key_place_bounds(t, on, app, 0);
    if !has_key(t, on, app) {
        remove_v_nothing(t, on, app, t.len() as int);
        assert(t.take(t.len() as int) =~= t);
    }
}

proof fn remove_v_nothing(t: Seq<ReflexV>, on: Seq<char>, app: Seq<char>, n: int)
    requires
        0 <= n <= t.len(),
        forall|j: int| 0 <= j < t.len() ==> !keyed(#[trigger] t[j], on, app),
    ensures
        remove_v(t, on, app, n) == t.take(n),
    decreases n,
{
    if n > 0 {
        remove_v_nothing(t, on, app, n - 1);
        assert(t.take(n - 1).push(t[n - 1]) =~= t.take(n));
    } else {
        assert(t.take(0) =~= Seq::<ReflexV>::empty());
    }
}

/// A reflex that has just been attempted is not attempted again before it has rested.
pub proof fn a_reflex_rests(r: ReflexV, trigger: Seq<char>, now: u64, later: u64)
    requires
        due(r, trigger, now),
        later < now + REFLEX_COOLDOWN_MS,
    ensures
        !due(ReflexV { last_fired: Some(now), ..r }, trigger, later),
{
}

/// Firing reflexes never lifts a latch, and never opens a latched app.
pub proof fn reflexes_respect_latches(
    d: DesktopV,
    t: Seq<ReflexV>,
    trigger: Seq<char>,
    now: u64,
    o: AppKind,
)
    ensures
        has_bit(fired(d, t, trigger, now).0.latched, o) == has_bit(d.latched, o),
        has_bit(d.latched, o) ==> acted_v(d, "open"@, o) == d && !acts(d, "open"@, o),
{
    let n = t.len() as int;
    acted_all_respects_latches(
        d,
        stamped_v(t, trigger, now, n),
        due_v(t, trigger, now, n),
        trigger,
        0,
        o,
    );
}

proof fn acted_all_respects_latches(
    d: DesktopV,
    t: Seq<ReflexV>,
    dues: Seq<(Seq<char>, Seq<char>)>,
    trigger: Seq<char>,
    i: int,
    o: AppKind,
)
    ensures
        has_bit(acted_all(d, t, dues, trigger, i).0.latched, o) == has_bit(d.latched, o),
    decreases dues.len() - i,
{
    if 0 <= i < dues.len() {
        let (action, app) = dues[i];
        match app_named(app) {
            Some(k) => {
                let e = acted_v(d, action, k);
                crate::desktop_laws::agent_open_respects_latches(d, k, o);
                if acts(d, action, k) {
                    acted_all_respects_latches(
                        e,
                        counted_v(t, trigger, action, app, 0),
                        dues,
                        trigger,
                        i + 1,
                        o,
                    );
                } else {
                    acted_all_respects_latches(e, t, dues, trigger, i + 1, o);
                }
            },
            None => {
                acted_all_respects_latches(d, t, dues, trigger, i + 1, o);
            },
        }
    }
}

/// A closing counts only where a window went: one under the pointer stays, and neither it
/// nor a window that is not there counts as closed.
pub proof fn only_real_closings_count(d: DesktopV, k: AppKind)
    ensures
        acts(d, "close"@, k) ==> acted_v(d, "close"@, k).windows.len() == d.windows.len() - 1,
        !acts(d, "close"@, k) ==> acted_v(d, "close"@, k).windows == d.windows,
{
    reveal_strlit("open");
    reveal_strlit("focus");
    reveal_strlit("close");
    assert("open"@.len() == 4 && "close"@.len() == 5);
    assert("focus"@[0] == 'f' && "close"@[0] == 'c');
    crate::desktop::kind_place_bounds(d.windows, k, 0);
}

/// What is written to disk is read back, without the time of the last attempt.
pub proof fn saved_reflexes_load(t: Seq<ReflexV>)
    ensures
        loaded(JsonV::Arr(t.map_values(|r: ReflexV| reflex_json(r)))) == t.map_values(
            |r: ReflexV| ReflexV { last_fired: None, ..r },
        ),
{
    let a = t.map_values(|r: ReflexV| reflex_json(r));
    saved_reflexes_load_upto(t, a, t.len() as int);
    let want = t.map_values(|r: ReflexV| ReflexV { last_fired: None, ..r });
    assert(want.take(t.len() as int) =~= want);
}

proof fn saved_reflexes_load_upto(t: Seq<ReflexV>, a: Seq<JsonV>, n: int)
    requires
        0 <= n <= t.len(),
        a == t.map_values(|r: ReflexV| reflex_json(r)),
    ensures
        json_reflexes(a, n) == Some(
            t.map_values(|r: ReflexV| ReflexV { last_fired: None, ..r }).take(n),
        ),
    decreases n,
{
    let want = t.map_values(|r: ReflexV| ReflexV { last_fired: None, ..r });
    if n > 0 {
        saved_reflexes_load_upto(t, a, n - 1);
        saved_reflex_loads(t[n - 1]);
        assert(a[n - 1] == reflex_json(t[n - 1]));
        assert(want.take(n - 1).push(want[n - 1]) =~= want.take(n));
    } else {
        assert(want.take(0) =~= Seq::<ReflexV>::empty());
    }
}

proof fn saved_reflex_loads(r: ReflexV)
    ensures
        json_reflex(reflex_json(r)) == Some(ReflexV { last_fired: None, ..r }),
{
    reveal_strlit("on");
    reveal_strlit("do");
    reveal_strlit("app");
    reveal_strlit("fires");
    assert("on"@[0] == 'o' && "do"@[0] == 'd');
    let e = reflex_json(r)->Obj_0;
    reveal_with_fuel(entry, 5);
    assert(e[0].0 == "on"@ && e[1].0 == "do"@ && e[2].0 == "app"@ && e[3].0 == "fires"@);
}

// ── Through a file ──────────────────────────────────────────────────────────

/// A table without the times of its last attempts.
pub open spec fn rested(t: Seq<ReflexV>) -> Seq<ReflexV> {
    t.map_values(|r: ReflexV| ReflexV { last_fired: None, ..r })
}

/// The value of a table.
pub open spec fn table_json(t: Seq<ReflexV>) -> JsonV {
    JsonV::Arr(t.map_values(|r: ReflexV| reflex_json(r)))
}

proof fn reflex_is_plain(r: ReflexV)
    ensures
        plain(reflex_json(r), (DEEP - 1) as nat),
{
    reveal_strlit("on");
    reveal_strlit("do");
    reveal_strlit("app");
    reveal_strlit("fires");
    assert("on"@[0] == 'o' && "do"@[0] == 'd');
    let e = reflex_json(r)->Obj_0;
    assert(e[0].0 == "on"@ && e[1].0 == "do"@ && e[2].0 == "app"@ && e[3].0 == "fires"@);
    assert("on"@.len() == 2 && "do"@.len() == 2 && "app"@.len() == 3 && "fires"@.len() == 5);
    assert forall|i: int| 0 <= i < e.len() implies plain((#[trigger] e[i]).1, (DEEP - 2) as nat) by {
        assert(e.len() == 4);
    }
    assert(names_differ(e));
}

proof fn table_is_plain(t: Seq<ReflexV>)
    ensures
        plain(table_json(t), DEEP as nat),
{
    let a = table_json(t)->Arr_0;
    assert forall|i: int| 0 <= i < a.len() implies plain(#[trigger] a[i], (DEEP - 1) as nat) by {
        reflex_is_plain(t[i]);
    }
}

proof fn agreeing_reflex(r: ReflexV, k: JsonV)
    requires
        agrees(reflex_json(r), k, (DEEP - 1) as nat),
    ensures
        json_reflex(k) == Some(ReflexV { last_fired: None, ..r }),
{
    let e = reflex_json(r)->Obj_0;
    assert(k is Obj);
    let b = k->Obj_0;
    assert(e[0] == ("on"@, JsonV::Str(r.on)));
    assert(e[1] == ("do"@, JsonV::Str(r.action)));
    assert(e[2] == ("app"@, JsonV::Str(r.app)));
    assert(e[3] == ("fires"@, uint_json(r.fires as u64)));
    assert(agrees(e[0].1, entry(b, e[0].0, 0)->0, (DEEP - 2) as nat));
    assert(agrees(e[1].1, entry(b, e[1].0, 0)->0, (DEEP - 2) as nat));
    assert(agrees(e[2].1, entry(b, e[2].0, 0)->0, (DEEP - 2) as nat));
    assert(agrees(e[3].1, entry(b, e[3].0, 0)->0, (DEEP - 2) as nat));
}

proof fn agreeing_reflexes(t: Seq<ReflexV>, b: Seq<JsonV>, n: int)
    requires
        0 <= n <= t.len(),
        agrees(table_json(t), JsonV::Arr(b), DEEP as nat),
    ensures
        json_reflexes(b, n) == Some(rested(t).take(n)),
    decreases n,
{
    if n > 0 {
        agreeing_reflexes(t, b, n - 1);
        let a = table_json(t)->Arr_0;
        assert(agrees(a[n - 1], b[n - 1], (DEEP - 1) as nat));
        agreeing_reflex(t[n - 1], b[n - 1]);
        assert(rested(t).take(n - 1).push(rested(t)[n - 1]) =~= rested(t).take(n));
    } else {
        assert(rested(t).take(0) =~= Seq::<ReflexV>::empty());
    }
}

/// The reflexes survive a restart: whatever agrees with what was written, the order of
/// fields aside, is read back as the same table, without the times of the last attempts.
pub proof fn reflexes_survive(t: Seq<ReflexV>, k: JsonV)
    requires
        agrees(table_json(t), k, DEEP as nat),
    ensures
        loaded(k) == rested(t),
{
    let b = k->Arr_0;
    agreeing_reflexes(t, b, t.len() as int);
    assert(rested(t).take(t.len() as int) =~= rested(t));
}

/// Whether no reflex of a table repeats a name.
pub open spec fn table_clear(d: JsonV) -> bool {
    match items_v(d) {
        Some(a) => forall|i: int| 0 <= i < a.len() ==> clear_of(#[trigger] a[i], reflex_names()),
        None => true,
    }
}

fn is_table_clear(d: &Json) -> (r: bool)
    ensures
        r == table_clear(d@),
{
    let names = vec!["on", "do", "app", "fires"];
    assert(views(names@) =~= reflex_names());
    let arr = match d.as_array() {
        Some(arr) => arr,
        None => {
            return true;
        },
    };
    let ghost a = views(arr@);
    for i in 0..arr.len()
        invariant
            a == views(arr@),
            items_v(d@) == Some(a),
            views(names@) == reflex_names(),
            forall|j: int| 0 <= j < i ==> clear_of(#[trigger] a[j], reflex_names()),
    {
        assert(a[i as int] == arr@[i as int]@);
        if !clear(&arr[i], &names) {
            assert(!clear_of(items_v(d@)->0[i as int], reflex_names()));
            return false;
        }
    }
    assert(a.len() == arr@.len());
    true
}

/// The table that a file's text describes: empty where it is no JSON, and where a reflex
/// repeats a name.
pub open spec fn loaded_text(text: Seq<char>) -> Seq<ReflexV> {
    match (parsed(text), spelled(text)) {
        (Some(j), Some(d)) => if table_clear(d) {
            loaded(j)
        } else {
            Seq::empty()
        },
        _ => Seq::empty(),
    }
}

/// A text that repeats no name repeats none in a reflex.
proof fn tables_that_repeat_nothing_are_clear(text: Seq<char>)
    requires
        repeats_nothing(text),
    ensures
        spelled(text) is Some,
        table_clear(spelled(text)->0),
{
    let d = spelled(text)->0;
    if let Some(a) = items_v(d) {
        assert forall|i: int| 0 <= i < a.len() implies clear_of(#[trigger] a[i], reflex_names()) by {
            assert(names_once(a[i], (DEEP - 1) as nat));
            if let JsonV::Obj(e) = a[i] {
                let names = reflex_names();
                assert forall|k: int| 0 <= k < names.len() implies uses(
                    e,
                    #[trigger] names[k],
                    e.len() as int,
                ) <= 1 by {
                    different_names_are_used_once(e, names[k], e.len() as int);
                }
            }
        }
    }
}

/// The text of a table's file. It is read back as the same table, without the times of
/// the last attempts.
pub fn reflex_text(table: &Vec<ReflexRec>) -> (r: String)
    ensures
        r@ == compact(table_json(views(table@))),
        loaded_text(r@) == rested(views(table@)),
{
    let j = encode_reflexes(table);
    proof {
        table_is_plain(views(table@));
    }
    let text = render(&j);
    proof {
        reflexes_survive(views(table@), parsed(text@)->0);
        tables_that_repeat_nothing_are_clear(text@);
    }
    text
}

/// The table that a file's text describes.
pub fn reflex_read(text: &str) -> (r: Vec<ReflexRec>)
    ensures
        views(r@) == loaded_text(text@),
{
    match (read(text), spell(text)) {
        (Some(j), Some(d)) => if is_table_clear(&d) {
            reflex_load(&j)
        } else {
            Vec::new()
        },
        _ => Vec::new(),
    }
}

} // verus!
