//! The shell: apps, windows, layouts, reflexes, the chat, the board and the events.
use apexos_ui::apps::{
    default_geom, kind_from_ordinal, kind_from_slug, kind_ordinal, kind_slug, kind_title,
    ui_latch_bit, AppKind, APP_TABLE,
};
use apexos_ui::arrange::{arrange_tiles, ARRANGE_MAX};
use apexos_ui::board::{BatchRow, Board, GoalState, WorkerState};
use apexos_ui::chat::{replay_history, said, Transcript};
use apexos_ui::council::ending_text;
use apexos_ui::desktop::{Desktop, ShellMode, Tile};
use apexos_ui::dispatch::iaq_label;
use apexos_ui::effects::{Effect, ToastKind};
use apexos_ui::events::{CouncilAgentDef, ToolCall, ToolOutput};
use apexos_ui::floats::Single;
use apexos_ui::geometry::{
    arrange_rects, is_placeable, restore_geom, Rect, ARRANGE_GAP, GEOM_MIN_H, GEOM_MIN_W,
};
use apexos_ui::ids::ActionId;
use apexos_ui::inbox::ago_label;
use apexos_ui::json::{read, render, Json};
use apexos_ui::notices::Notices;
use apexos_ui::personas::{
    build_persona_defs, persona_from_ordinal, persona_from_slug, persona_mode, persona_slug, Persona,
};
use apexos_ui::reflex::{
    reflex_load, reflex_read, reflex_table_install, reflex_table_remove, reflex_text, ReflexRec,
    REFLEX_ACTIONS, REFLEX_MAX, REFLEX_TRIGGERS,
};
use apexos_ui::shell::{Shell, ShellEvent};

fn json(text: &str) -> Json {
    read(text).expect("a value")
}

fn shell() -> Shell {
    let mut s = Shell::new(Persona::Apex, false);
    s.desk.mode = ShellMode::Desktop;
    s
}

fn call(id: u64, tool: &str, args: &str) -> ToolCall {
    ToolCall { id: ActionId(id), tool: tool.to_string(), args: json(args), needs_approval: false }
}

fn toasts(effects: &[Effect]) -> Vec<String> {
    effects
        .iter()
        .filter_map(|e| match e {
            Effect::Toast { text, .. } => Some(text.clone()),
            _ => None,
        })
        .collect()
}

fn sent(effects: &[Effect]) -> Vec<serde_json::Value> {
    effects
        .iter()
        .filter_map(|e| match e {
            Effect::Send(j) => Some(serde_json::from_str(&render(j)).expect("a value")),
            _ => None,
        })
        .collect()
}

/// A number in the library's hands.
fn px(v: f32) -> Single {
    Single { bits: v.to_bits() }
}

fn num(v: Single) -> f32 {
    f32::from_bits(v.bits)
}

fn corners(r: Rect) -> (f32, f32, f32, f32) {
    (num(r.x), num(r.y), num(r.w), num(r.h))
}

fn restored(rec: (f32, f32, f32, f32), area_w: f32, area_h: f32) -> (f32, f32, f32, f32) {
    let rec = Rect { x: px(rec.0), y: px(rec.1), w: px(rec.2), h: px(rec.3) };
    assert!(is_placeable(rec, px(area_w), px(area_h)));
    corners(restore_geom(rec, px(area_w), px(area_h)))
}

fn arranged(layout: &str, n: usize, area_w: f32, area_h: f32) -> Vec<(f32, f32, f32, f32)> {
    arrange_rects(layout, n, px(area_w), px(area_h)).into_iter().map(corners).collect()
}

#[test]
fn restore_geom_clamps_into_live_area() {
    let (x, y, w, h) = restored((1700.0, 950.0, 900.0, 700.0), 1024.0, 600.0);
    assert_eq!((w, h), (900.0_f32.min(1024.0), 600.0));
    assert_eq!(x, 1024.0 - w);
    assert_eq!(y, 0.0);
    assert_eq!(restored((-400.0, -50.0, 300.0, 200.0), 1024.0, 600.0), (0.0, 0.0, 300.0, 200.0));
    assert_eq!(restored((40.0, 30.0, 500.0, 400.0), 1024.0, 600.0), (40.0, 30.0, 500.0, 400.0));
}

#[test]
fn restore_geom_floors_sizes_and_never_invents_an_edge_when_area_dead() {
    let (x, y, w, h) = restored((-10.0, 5000.0, 10.0, 10.0), 0.0, 0.0);
    assert_eq!((x, y), (0.0, 5000.0));
    assert_eq!((w, h), (GEOM_MIN_W as f32, GEOM_MIN_H as f32));
}

#[test]
fn shapes_without_a_place_are_known() {
    let rec = Rect { x: px(0.0), y: px(0.0), w: px(f32::INFINITY), h: px(300.0) };
    assert!(!is_placeable(rec, px(f32::INFINITY), px(600.0)));
    assert!(!is_placeable(rec, px(f32::NAN), px(600.0)));
    assert!(is_placeable(rec, px(1024.0), px(600.0)));
    assert!(is_placeable(rec, px(0.0), px(f32::NAN)), "a desktop that is not believed");
    assert_eq!(restored((0.3, 0.7, 333.3, 222.2), 400.7, 300.1), (0.3, 0.7, 333.3, 222.2));
    assert_eq!(restored((99.9, 88.8, 333.3, 222.2), 400.7, 300.1).0, 400.7 - 333.3);
}

#[test]
fn arrange_rects_presets() {
    let (aw, ah) = (1200.0, 700.0);
    let g = ARRANGE_GAP as f32;

    let f = arranged("focus", 4, aw, ah);
    assert_eq!(f.len(), 1);
    assert_eq!(f[0], (g, g, aw - 2.0 * g, ah - 2.0 * g));

    assert_eq!(arranged("split", 1, aw, ah), f);
    assert_eq!(arranged("grid", 1, aw, ah), f);

    let s = arranged("split", 2, aw, ah);
    assert_eq!(s.len(), 2);
    assert_eq!(s[0].2, s[1].2);
    assert!(s[0].0 < s[1].0);
    let right_edge = s[1].0 + s[1].2;
    assert!((right_edge - (aw - g)).abs() < 0.5, "columns must fill the width");

    let m = arranged("main-side", 3, aw, ah);
    assert_eq!(m.len(), 3);
    assert!(m[0].2 > m[1].2, "main pane must be wider than the side panes");
    assert_eq!(m[1].0, m[2].0, "side panes share the same column");
    assert!(m[1].1 < m[2].1, "side panes stack top→down");
    assert_eq!(m[0].3, ah - 2.0 * g, "main pane spans the full height");

    let gr = arranged("grid", 4, aw, ah);
    assert_eq!(gr.len(), 4);
    assert_eq!(gr[0].1, gr[1].1, "first row shares y");
    assert!(gr[2].1 > gr[0].1, "second row below the first");
    assert_eq!(gr[0].0, gr[2].0, "columns align");
    assert_eq!(gr[0].2, gr[3].2, "uniform cell width");

    for layout in ["split", "main-side", "grid"] {
        let r = arranged(layout, 3, aw, ah);
        assert_eq!(r.len(), 3, "{layout} must place every participant");
        assert_eq!((r[0].0, r[0].1), (g, g), "{layout}: main slot sits top-left");
    }

    assert!(arranged("split", 0, aw, ah).is_empty());
    assert!(arranged("cascade", 3, aw, ah).is_empty());
    assert!(arranged("cascade", 1, aw, ah).is_empty());
    let tiny = arranged("grid", 4, 50.0, 40.0);
    assert!(tiny.iter().all(|r| r.2 > 0.0 && r.3 > 0.0));
}

#[test]
fn tiles_have_exact_places() {
    let (aw, ah): (f32, f32) = (1201.3 - 24.0, 717.9 - 24.0);
    let (g, n) = (12.0_f32, 3.0_f32);
    let main_w = (aw - g) * 0.62;
    let m = arranged("main-side", 4, 1201.3, 717.9);
    let side_h = (ah - g * (n - 1.0)) / n;
    assert_eq!(m[0], (g, g, main_w, ah));
    for i in 0..3 {
        let y = g + i as f32 * (side_h + g);
        assert_eq!(m[i + 1], (g + main_w + g, y, aw - g - main_w, side_h));
    }
    let w = (aw - g * (7.0 - 1.0)) / 7.0;
    for (i, r) in arranged("split", 7, 1201.3, 717.9).into_iter().enumerate() {
        assert_eq!(r, (g + i as f32 * (w + g), g, w, ah));
    }
    let many = arranged("split", 1000, 300.0, 300.0);
    assert!(many.windows(2).all(|p| p[0].0 <= p[1].0));
    assert_eq!(arranged("grid", 5, f32::MIN, f32::INFINITY).len(), 5);
    assert_eq!(
        arrange_tiles("grid", 3),
        vec![
            Tile::Cell { col: 0, row: 0, cols: 2, rows: 2 },
            Tile::Cell { col: 1, row: 0, cols: 2, rows: 2 },
            Tile::Cell { col: 0, row: 1, cols: 2, rows: 2 },
        ]
    );
}

#[test]
fn reflex_table_install_updates_caps_and_removes() {
    let mut t: Vec<ReflexRec> = Vec::new();
    assert!(reflex_table_install(&mut t, "error", "open", "event-log", REFLEX_MAX));
    assert!(reflex_table_install(&mut t, "mesh_message", "open", "mesh", REFLEX_MAX));
    assert_eq!(t.len(), 2);
    t[0].fires = 5;
    assert!(reflex_table_install(&mut t, "error", "focus", "event-log", REFLEX_MAX));
    assert_eq!(t.len(), 2);
    assert_eq!(t[0].action, "focus");
    assert_eq!(t[0].fires, 0);
    for i in 0..REFLEX_MAX {
        reflex_table_install(&mut t, "wake_triggered", "open", &format!("app{i}"), REFLEX_MAX);
    }
    assert_eq!(t.len(), REFLEX_MAX);
    assert!(!reflex_table_install(&mut t, "wake_triggered", "open", "one-more", REFLEX_MAX));
    assert!(reflex_table_install(&mut t, "error", "close", "event-log", REFLEX_MAX));
    assert!(reflex_table_remove(&mut t, "mesh_message", "mesh"));
    assert!(!reflex_table_remove(&mut t, "mesh_message", "mesh"));
    assert_eq!(t.len(), REFLEX_MAX - 1);
}

#[test]
fn reflex_rec_serde_uses_do_and_skips_runtime_state() {
    let rec = ReflexRec {
        on: "mesh_message".into(),
        action: "open".into(),
        app: "mesh".into(),
        fires: 3,
        last_fired: Some(77),
    };
    let text = reflex_text(&vec![rec]);
    assert!(text.contains("\"do\":\"open\""));
    assert!(!text.contains("last_fired"));
    let back = reflex_read(&text);
    assert_eq!(back[0].action, "open");
    assert_eq!(back[0].fires, 3);
    assert!(back[0].last_fired.is_none());
    let old = reflex_read(r#"[{"on":"error","do":"open","app":"event-log"}]"#);
    assert_eq!(old[0].fires, 0);
}

#[test]
fn broken_reflex_files_load_as_nothing() {
    assert!(reflex_load(&json(r#"[{"on":"error"}]"#)).is_empty());
    assert!(reflex_load(&json(r#"{"on":"error"}"#)).is_empty());
    assert!(reflex_read("{").is_empty());
    assert!(reflex_read(r#"[["error","open"]]"#).is_empty());
    assert!(reflex_read(r#"[["error","open","event-log",1,2]]"#).is_empty());
}

#[test]
fn reflexes_may_be_lists() {
    let table = reflex_read(r#"[["error","open","event-log"],["idle","close","chat",4]]"#);
    assert_eq!(table.len(), 2);
    assert_eq!((&*table[0].on, &*table[0].action, &*table[0].app), ("error", "open", "event-log"));
    assert_eq!((table[0].fires, table[1].fires), (0, 4));
    let twice = r#"[{"on":"error","do":"open","app":"chat","on":"error"}]"#;
    assert!(reflex_read(twice).is_empty());
    let other = r#"[{"on":"error","do":"open","app":"chat","x":1,"x":2}]"#;
    assert_eq!(reflex_read(other).len(), 1);
}

#[test]
fn reflex_triggers_are_the_locked_global_set() {
    assert_eq!(
        REFLEX_TRIGGERS,
        [
            "sensor_alert",
            "wake_triggered",
            "mesh_message",
            "mesh_node_status",
            "goal_state_changed",
            "council_started",
            "evolution_proposed",
            "error",
        ]
    );
    assert_eq!(REFLEX_ACTIONS, ["open", "focus", "close"]);
}

#[test]
fn app_table_is_the_ordinal_order() {
    for (i, (kind, slug)) in APP_TABLE.iter().enumerate() {
        assert_eq!(kind_from_ordinal(i as i32), *kind, "ordinal {i} ({slug}) drifted");
        assert_eq!(kind_ordinal(*kind), i as i32);
        assert_eq!(kind_from_slug(slug), Some(*kind));
        assert_eq!(kind_slug(*kind), *slug);
    }
    assert_eq!(APP_TABLE.len(), 22);
    assert!(APP_TABLE.len() <= 32);
    let mut slugs: Vec<_> = APP_TABLE.iter().map(|(_, s)| *s).collect();
    slugs.sort_unstable();
    slugs.dedup();
    assert_eq!(slugs.len(), APP_TABLE.len(), "duplicate slug in APP_TABLE");
    assert_eq!(kind_from_slug("xterm"), None);
    assert_eq!(kind_from_slug(""), None);
}

#[test]
fn apps_have_titles_bits_and_opening_places() {
    assert_eq!(kind_title(AppKind::Chat), "Chat");
    assert_eq!(ui_latch_bit(AppKind::Chat), 1);
    assert_eq!(ui_latch_bit(AppKind::Mandala), 1 << 21);
    let (x0, y0, _, _) = default_geom(AppKind::Chat, 0);
    let (x1, y1, _, _) = default_geom(AppKind::Chat, 1);
    assert_eq!((x1 - x0, y1 - y0), (30, 30));
    assert_eq!(kind_from_ordinal(99), kind_from_ordinal(-1));
}

#[test]
fn personas_have_names_and_modes() {
    for i in 0..6 {
        let p = persona_from_ordinal(i);
        assert_eq!(persona_from_slug(persona_slug(p)), Some(p));
    }
    assert_eq!(persona_from_slug("nobody"), None);
    assert_eq!(build_persona_defs().len(), 6);
    assert_eq!(persona_mode(Persona::Apex, true), ShellMode::Focus);
}

#[test]
fn windows_open_once_and_come_to_the_front() {
    let mut d = Desktop::new(ShellMode::Desktop);
    d.launch(AppKind::Chat);
    d.launch(AppKind::Notes);
    d.launch(AppKind::Chat);
    assert_eq!(d.windows.len(), 2);
    assert_eq!(d.windows[1].kind, AppKind::Chat);
    assert_eq!(d.focused, d.windows[1].id);
    let id = d.windows[1].id;
    d.minimize(id);
    assert_eq!(d.focused, d.windows[0].id);
    d.task_activate(id);
    assert_eq!(d.focused, id);
    d.maximize(id);
    assert!(d.windows.iter().any(|w| w.id == id && w.maximized));
    d.user_close(id);
    assert_eq!(d.windows.len(), 1);
}

#[test]
fn what_the_human_closes_stays_closed() {
    let mut d = Desktop::new(ShellMode::Desktop);
    assert!(d.agent_open_window(AppKind::Board));
    let id = d.windows[0].id;
    d.user_close(id);
    assert!(!d.agent_open_window(AppKind::Board), "the agent may not open it again");
    d.menu_launch(AppKind::Board);
    assert_eq!(d.windows.len(), 1);
    let id = d.windows[0].id;
    d.user_close(id);
    assert!(d.agent_open_window(AppKind::Board), "the human's own window bears no grudge");
}

#[test]
fn layouts_stage_the_named_apps() {
    let mut d = Desktop::new(ShellMode::Desktop);
    d.launch(AppKind::Chat);
    d.launch(AppKind::Notes);
    d.arrange("split", &vec!["mesh".to_string(), "xterm".to_string(), "chat".to_string()]);
    assert_eq!(d.windows.len(), 3);
    assert_eq!(d.windows.last().unwrap().kind, AppKind::Mesh);
    d.arrange("focus", &vec!["chat".to_string()]);
    assert_eq!(d.windows.iter().filter(|w| !w.minimized).count(), 1);
    let before = d.windows.len();
    d.arrange("cascade", &vec!["sonus".to_string()]);
    assert_eq!(d.windows.len(), before);
    assert_eq!(ARRANGE_MAX, 6);
}

#[test]
fn chat_streams_into_one_bubble() {
    let mut t = Transcript::new();
    t.push_message(said("user", "hi".to_string(), false));
    t.push_message(said("agent", String::new(), true));
    t.update_last_agent_message("hel");
    t.update_last_agent_message("lo");
    t.finish_last_agent_message();
    assert_eq!(t.messages.len(), 2);
    assert_eq!(t.messages[1].text, "hello");
    assert!(!t.messages[1].streaming);
    assert_eq!(t.last_agent_text(), "hello");
    t.ask("7", "shell", "{}".to_string());
    assert_eq!(t.find_tool_row("7"), Some(2));
    t.decide("7", true);
    t.answer("7", "out".to_string(), "done");
    assert_eq!(t.messages[2].tool_output, "out");
    t.clear_messages();
    assert!(t.messages.is_empty());
}

#[test]
fn time_marks_stand_far_apart() {
    let mut t = Transcript::new();
    t.maybe_push_time_divider(1_000_000, "1 Jan 2026, 12:00");
    t.maybe_push_time_divider(1_000_010, "1 Jan 2026, 12:00");
    assert_eq!(t.messages.len(), 1);
    assert_eq!(t.messages[0].role, "time");
}

#[test]
fn history_is_replayed_with_its_tools() {
    let history = json(
        r#"[
            {"role": "user", "content": [{"type": "text", "text": "list"}]},
            {"role": "assistant", "content": [
                {"type": "text", "text": "on "}, {"type": "text", "text": "it"},
                {"type": "tool_use", "id": "t1", "name": "shell", "input": {"cmd": "ls"}}]},
            {"role": "user", "content": [
                {"type": "tool_result", "tool_use_id": "t1",
                 "content": [{"type": "text", "text": "a"}, {"type": "text", "text": "b"}]}]}
        ]"#,
    );
    let items = match history {
        Json::Arr(a) => replay_history(&a),
        _ => panic!("a list"),
    };
    let roles: Vec<&str> = items.iter().map(|m| m.role.as_str()).collect();
    assert_eq!(roles, ["user", "agent", "tool"]);
    assert_eq!(items[1].text, "on it");
    assert_eq!(items[2].tool_output, "a\nb");
    assert_eq!(items[2].tool_args, "{\n  \"cmd\": \"ls\"\n}");
}

#[test]
fn prompts_carry_the_staged_image_once() {
    let mut s = shell();
    assert!(s.send_message("", 0, "").is_empty());
    assert!(!toasts(&s.attach_image("a/b.png", "b.png")).is_empty());
    let out = sent(&s.send_message("look", 10_000, "now"));
    assert_eq!(out[0]["type"], "user_prompt");
    assert_eq!(out[0]["text"], "look");
    assert!(render_of(&out[0]).contains("a/b.png"));
    let out = sent(&s.send_message("again", 10_001, "now"));
    assert!(!render_of(&out[0]).contains("a/b.png"));
    assert!(s.chat.messages.iter().any(|m| m.text == "🖼 b.png\nlook"));
}

fn render_of(v: &serde_json::Value) -> String {
    v.to_string()
}

#[test]
fn sketches_are_announced() {
    let mut s = shell();
    let out = s.sketch_sent(true, 1_000_000, "now");
    assert_eq!(toasts(&out), ["Sent to APEX 👁"]);
    assert!(sent(&out)[0]["text"].as_str().unwrap().contains("sketch_snapshot"));
    assert_eq!(
        s.chat.messages.last().unwrap().text,
        "🎨 I drew something on the Sketchpad — take a look."
    );
    let out = s.sketch_sent(false, 1_000_000, "now");
    assert_eq!(toasts(&out), ["Failed to send sketch"]);
}

#[test]
fn a_turn_streams_and_ends() {
    let mut s = shell();
    s.dispatch_event(&json(r#"{"type": "turn_started"}"#), None, 0, 0);
    assert!(s.busy);
    s.handle(ShellEvent::AgentText { delta: "he".to_string() });
    s.handle(ShellEvent::AgentText { delta: "y".to_string() });
    assert_eq!(s.chat.last_agent_text(), "hey");
    s.session_id = Some(1);
    s.handle(ShellEvent::TurnComplete { session: 1 });
    assert!(!s.busy);
    assert!(!s.chat.messages.last().unwrap().streaming);
}

#[test]
fn tools_ask_and_answer() {
    let mut s = shell();
    s.handle(ShellEvent::ToolRequested { call: call(5, "shell", r#"{"cmd": "ls"}"#) });
    assert_eq!(s.chat.find_tool_row("5"), Some(0));
    s.handle(ShellEvent::ApprovalPending { call: call(6, "rm", "{}") });
    assert!(s.chat.messages.iter().any(|m| m.awaiting_approval));
    let out = sent(&s.decide_tool("6", false));
    assert_eq!(out[0]["action"], 6);
    assert_eq!(out[0]["granted"], false);
    s.handle(ShellEvent::ToolResult {
        call: ActionId(5),
        output: ToolOutput { ok: true, content: Json::Str("done".to_string()) },
    });
    assert_eq!(s.chat.messages[0].tool_output, "done");
}

#[test]
fn the_agent_changes_few_windows_a_turn() {
    let mut s = shell();
    for (i, app) in ["mesh", "notes", "board", "sonus", "web", "face"].iter().enumerate() {
        let args = format!("{{\"app\": \"{app}\"}}");
        s.handle(ShellEvent::ToolRequested { call: call(i as u64, "ui_open", &args) });
    }
    assert_eq!(s.desk.windows.len(), 4);
    assert_eq!(s.mutations, 4);
}

#[test]
fn reflexes_fire_and_rest() {
    let mut s = shell();
    reflex_table_install(&mut s.reflexes, "wake_triggered", "open", "notes", REFLEX_MAX);
    let wake = json(r#"{"type": "wake_triggered"}"#);
    let out = s.dispatch_event(&wake, Some(ShellEvent::WakeTriggered), 1_000, 0);
    assert!(toasts(&out).iter().any(|t| t == "⚡ reflex opened Notes (on wake_triggered)"));
    assert_eq!(s.reflexes[0].fires, 1);
    let id = s.desk.windows[0].id;
    s.desk.agent_close(AppKind::Notes);
    assert!(s.desk.index_by_id(id).is_none());
    s.dispatch_event(&wake, Some(ShellEvent::WakeTriggered), 2_000, 0);
    assert_eq!(s.reflexes[0].fires, 1, "a reflex rests after it fired");
}

#[test]
fn a_closing_under_the_pointer_does_not_count() {
    let mut s = shell();
    s.desk.agent_open_window(AppKind::Notes);
    reflex_table_install(&mut s.reflexes, "wake_triggered", "close", "notes", REFLEX_MAX);
    let wake = json(r#"{"type": "wake_triggered"}"#);
    s.desk.dragging = s.desk.windows[0].id;
    let out = s.dispatch_event(&wake, Some(ShellEvent::WakeTriggered), 1_000, 0);
    assert!(!toasts(&out).iter().any(|t| t.contains("reflex closed")));
    assert_eq!((s.reflexes[0].fires, s.desk.windows.len()), (0, 1));
    s.desk.dragging = -1;
    let out = s.dispatch_event(&wake, Some(ShellEvent::WakeTriggered), 40_000, 0);
    assert!(toasts(&out).iter().any(|t| t == "⚡ reflex closed Notes (on wake_triggered)"));
    assert_eq!((s.reflexes[0].fires, s.desk.windows.len()), (1, 0));
}

#[test]
fn sessions_greet_and_replay() {
    let mut s = shell();
    let hello = json(
        r#"{"type": "session_init", "session_id": 9,
            "history": [{"role": "user", "content": [{"type": "text", "text": "old"}]}]}"#,
    );
    s.dispatch_event(&hello, None, 0, 0);
    assert_eq!(s.session_id, Some(9));
    assert_eq!(s.chat.messages[0].text, "old");
    let out = sent(&s.restore_session(4));
    assert_eq!(out[0]["type"], "hello");
    assert_eq!(out[0]["resume_session"], 4);
    assert_eq!(s.status, "Restoring…");
    assert_eq!(s.desk.windows[0].kind, AppKind::Chat);
}

#[test]
fn peers_write_into_the_inbox() {
    let mut s = shell();
    let ev = json(
        r#"{"type": "mesh_message", "from_node": "pi", "session": 3, "preview": "hi"}"#,
    );
    let out = s.dispatch_event(&ev, None, 0, 1_000);
    assert_eq!(toasts(&out).len(), 1);
    s.dispatch_event(&ev, None, 0, 1_060);
    assert_eq!(s.inbox.threads.len(), 1);
    assert_eq!(s.inbox.threads[0].unread, 2);
    assert_eq!(s.inbox.unread(), 2);
    s.inbox.clear_session(3);
    assert_eq!(s.inbox.unread(), 0);
    s.inbox.restamp(1_060 + 7_200);
    assert_eq!(s.inbox.threads[0].last_seen, "2h ago");
    assert_eq!(ago_label(44), "just now");
    assert_eq!(ago_label(60), "1m ago");
    assert_eq!(ago_label(200_000), "2d ago");
}

#[test]
fn councils_convene_and_adjourn() {
    let mut s = shell();
    let def = |id: &str| CouncilAgentDef {
        id: id.to_string(),
        persona: "sage".to_string(),
        backend: None,
        model: None,
        color: None,
    };
    s.handle(ShellEvent::CouncilStarted {
        topic: "tea".to_string(),
        agents: vec![def("a"), def("b")],
    });
    s.handle(ShellEvent::CouncilRoundStart { round: 1 });
    s.handle(ShellEvent::CouncilAgentDelta { agent_id: "a".to_string(), delta: "x".to_string() });
    assert_eq!(s.council.agents[0].text, "x");
    s.handle(ShellEvent::CouncilAgentDone {
        agent_id: "a".to_string(),
        full_text: "xy".to_string(),
    });
    assert!(s.council.agents[0].done);
    s.handle(ShellEvent::CouncilComplete {
        reason: "converged".to_string(),
        synthesis: "green".to_string(),
        rounds: 1,
    });
    assert!(!s.council.active);
    assert_eq!(s.council.synthesis, "green");
    assert!(!ending_text("converged").is_empty());
}

#[test]
fn boards_follow_goals_and_workers() {
    let mut b = Board::new();
    b.board_goal(1, "build", GoalState::Acting, 1, 5, "", false);
    assert_eq!(b.goals.len(), 1);
    b.board_goal(1, "build", GoalState::Done, 5, 5, "", false);
    assert_eq!(b.goals.len(), 1, "a goal's card changes in place");
    assert_eq!(b.goals[0].id, "goal1");
    b.board_worker(2, 1, WorkerState::Running, "task", "", false, &None);
    assert_eq!(b.workers.len(), 1);
    b.board_batch_done(1, &vec![BatchRow { state: WorkerState::Done, timed_out: false }]);
    for i in 0..30 {
        b.board_push_recent(format!("{i}"), String::new(), "x", 0);
    }
    assert_eq!(b.recent.len(), 16);
    b.board_add_blocked("7", "rm", "rm -rf");
    assert_eq!(b.blocked.len(), 1);
    b.board_clear_blocked("7");
    assert!(b.blocked.is_empty());
    b.board_worker_approval(3, 1, true);
    b.board_worker_approval(3, 2, true);
    assert_eq!(b.blocked[0].subtitle, "2 approvals pending");
    b.board_add_blocked("8", "rm", "");
    b.board_turn_done();
    assert_eq!(b.blocked.len(), 1, "workers still wait when a turn ends");
    b.board_worker_approval(3, 1, false);
    b.board_worker_approval(3, 2, false);
    assert!(b.blocked.is_empty());
}

#[test]
fn notices_come_and_go() {
    let mut n = Notices::new();
    n.toast(ToastKind::Info, "one");
    n.toast_action(ToastKind::Warn, "two", 7);
    assert_eq!(n.toasts.len(), 2);
    assert_eq!(n.unread, 2);
    let id = n.toasts[0].id;
    n.dismiss_toast(id);
    assert_eq!(n.toasts.len(), 1);
    n.clear_log();
    assert!(n.log.is_empty());
}

#[test]
fn air_is_rated() {
    assert_ne!(iaq_label(10), iaq_label(400));
    let mut s = shell();
    s.handle(ShellEvent::AirQuality { iaq: 10 });
    assert_eq!(s.iaq_label, iaq_label(10));
}

#[test]
fn personas_are_worn() {
    let mut s = shell();
    let out = s.pick_persona(Persona::Aurum);
    assert_eq!(s.persona, Persona::Aurum);
    assert_eq!(sent(&out)[0]["persona"], "aurum");
    assert!(matches!(out[1], Effect::Wear(Persona::Aurum)));
    let out = sent(&s.connected());
    assert_eq!(out[0]["type"], "session_init");
    assert_eq!(out[1]["persona"], "aurum");
    assert_eq!(s.status, "Connected");
}

#[test]
fn turns_can_be_stopped() {
    let mut s = shell();
    s.dispatch_event(&json(r#"{"type": "turn_started"}"#), None, 0, 0);
    s.handle(ShellEvent::ToolRequested { call: call(5, "shell", "{}") });
    let out = sent(&s.stop_turn());
    assert_eq!(out[0]["type"], "user_cancel");
    assert!(!s.busy);
    let card = s.chat.messages.last().unwrap();
    assert_eq!((&*card.tool_status, &*card.tool_output), ("error", "cancelled"));
}

#[test]
fn the_human_steers_and_asks() {
    let mut s = shell();
    assert!(s.occipital_steer("  ", 0, "").is_empty());
    let out = sent(&s.occipital_steer(" https://x ", 10_000, "now"));
    assert!(out[0]["text"].as_str().unwrap().starts_with("(navigation) Go here next: https://x"));
    let out = sent(&s.ask_for("shown", "told", 10_001, "now"));
    assert_eq!(out[0]["text"], "told");
    assert_eq!(s.chat.messages.last().unwrap().text, "shown");
    let out = sent(&s.new_chat());
    assert_eq!(out[0]["new"], true);
    let out = s.launch_app(8);
    assert!(matches!(out[0], Effect::Refresh(AppKind::Mesh)));
}

#[test]
fn the_microphone_goes_on_and_off() {
    let mut s = shell();
    assert_eq!(toasts(&s.start_recording(false)), ["Microphone unavailable"]);
    assert!(!s.recording);
    assert!(s.start_recording(true).is_empty());
    assert!(s.recording);
    assert_eq!(s.face.shown.state, "listening");
    assert!(s.finish_recording("", 0, "").is_empty());
    assert!(!s.recording);
    let out = sent(&s.finish_recording("hello", 10_000, "now"));
    assert_eq!(out[0]["text"], "hello");
    s.toggle_tts();
    assert!(s.tts);
}

#[test]
fn drawings_of_the_agent_show() {
    let mut s = shell();
    let (store, out) = s.agent_drew(false, 3);
    assert!(!store && out.is_empty() && s.desk.windows.is_empty());
    let (store, out) = s.agent_drew(true, 0);
    assert!(!store);
    assert_eq!(toasts(&out), ["🎨 APEX drew on the Sketchpad"]);
    assert_eq!(s.desk.windows[0].kind, AppKind::Sketchpad);
    assert!(s.agent_drew(true, 2).0);
}

#[test]
fn a_window_under_the_pointer_is_left_alone() {
    let mut d = Desktop::new(ShellMode::Desktop);
    d.launch(AppKind::Chat);
    d.launch(AppKind::Notes);
    d.dragging = d.windows[1].id;
    let held = d.windows[1];
    d.arrange("focus", &vec!["chat".to_string()]);
    assert!(d.windows.contains(&held));
    d.agent_close(AppKind::Notes);
    assert!(d.windows.contains(&held));
    assert!(!d.face_visible());
    d.launch(AppKind::Face);
    assert!(d.face_visible());
    let id = d.windows[0].id;
    d.reshape(id);
    assert!(d.shaped != 0);
}

#[test]
fn inboxes_are_seeded() {
    let mut s = shell();
    let body = json(
        r#"{"threads": [{"node_id": "pi", "last_ts": 940, "unread": 3, "session": 5, "preview": "x"},
            {"node_id": ""}]}"#,
    );
    s.inbox.seed(&body, 1_000);
    assert_eq!(s.inbox.threads.len(), 1);
    assert_eq!(s.inbox.threads[0].last_seen, "1m ago");
    assert_eq!(s.inbox.unread(), 3);
}
