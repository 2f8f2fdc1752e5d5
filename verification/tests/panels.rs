//! Settings, sessions, files, identity, the mesh, the log, and what the shell tells.
use apexos_ui::actions::{
    audio_processed, auto_login_report, browse_failed, browse_notice, note_opened, note_saved,
    playback_report, power_notice, relaunch_failed, sketch_notice,
};
use apexos_ui::boot::{fill_of, seed_waits, Fill, Link};
use apexos_ui::apps::AppKind;
use apexos_ui::desktop::ShellMode;
use apexos_ui::effects::{Effect, ToastKind};
use apexos_ui::files::{
    audio_files, audio_op_chain, audio_stats, drive_candidates, drive_prepared, eject_status,
    explorer_entries, explorer_glyph, explorer_read, file_info, image_info, is_image_ext, note_content, note_created, notes,
    prompt_files, sonus_files, workspace_images, workspace_op, Explorer, Preview, WorkspaceOp,
};
use apexos_ui::identity::{id_glyph, open_default, Ask, Identity, LoginOutcome, PinRequest};
use apexos_ui::journal::{event_accent, event_rows, event_summary, events_url};
use apexos_ui::json::{read, render, Json};
use apexos_ui::mirror::{is_state, reply_head};
use apexos_ui::numbers::{human_size, humanize_tokens};
use apexos_ui::personas::{persona_theme, Persona, Theme};
use apexos_ui::roster::{
    add_peer_body, fed_stats_line, mesh_notice, mesh_rows, pairing, redeem_body, MeshOp,
};
use apexos_ui::sessions::{
    export_all, export_picked, export_sessions, format_time_ago, session_rows, step_path, Sessions,
    Sweep, SweepKind, SweepStep,
};
use apexos_ui::settings::{
    build_usage, default_login, endpoint_rows, history_budget_label, history_label_tokens,
    history_usage_line, inference_of, login_of, model_matches, model_rows, scan_notice, settings_of,
    Change, Models, Replies,
};
use apexos_ui::shell::Shell;
use serde_json::Value;

fn json(text: &str) -> Json {
    read(text).expect("a value")
}

fn value(j: &Json) -> Value {
    serde_json::from_str(&render(j)).expect("a value")
}

fn toast(e: &Effect) -> (ToastKind, String) {
    match e {
        Effect::Toast { kind, text, .. } => (*kind, text.clone()),
        other => panic!("{other:?}"),
    }
}

#[test]
fn history_budget_labels_round_trip() {
    for label in ["60k", "120k", "200k", "400k", "off"] {
        let tokens = history_label_tokens(label).expect("preset label maps");
        assert_eq!(history_budget_label(tokens), label, "round trip for {label}");
    }
    assert_eq!(history_label_tokens("weird"), None, "unknown labels are ignored");
    assert_eq!(history_budget_label(150_000), "150k", "custom env budget still displays");
}

#[test]
fn history_usage_line_renders_and_hides() {
    let h = json(
        r#"{"budget": 120000, "trim_trigger": 144000,
            "sessions": [{ "session_id": 0, "est_tokens": 87000 }]}"#,
    );
    assert_eq!(
        history_usage_line(&h),
        "Largest window: session 0 ≈ 87k of 120k (trims at 144k)"
    );
    let off = json(r#"{"budget": 0, "sessions": [{ "session_id": 3, "est_tokens": 12000 }]}"#);
    assert_eq!(
        history_usage_line(&off),
        "Largest window: session 3 ≈ 12k tokens (trimming off)"
    );
    assert_eq!(history_usage_line(&json(r#"{"budget": 120000, "sessions": []}"#)), "");
    assert_eq!(history_usage_line(&Json::Null), "");
    let usual = json(r#"{"budget": 100000, "sessions": [{}]}"#);
    assert_eq!(
        history_usage_line(&usual),
        "Largest window: session 0 ≈ 0k of 100k (trims at 120k)"
    );
}

fn no_replies() -> Replies {
    Replies {
        status: Json::Null,
        soul: Json::Null,
        models: Json::Null,
        cache: Json::Null,
        history: Json::Null,
        sensors: Json::Null,
        voice: Json::Null,
        backend: Json::Null,
    }
}

#[test]
fn settings_have_values_without_replies() {
    let d = settings_of(&no_replies());
    assert_eq!(d.policy_mode, "suggest");
    assert!(d.cache_enabled && d.cache_conversation);
    assert_eq!(d.cache_ttl, "5m");
    assert_eq!(d.history_budget_label, "120k");
    assert_eq!(d.sensor_profile, "standard");
    assert_eq!(d.voice_backend, "auto");
    assert_eq!(d.backend, "anthropic");
    let mut r = no_replies();
    r.status = json(r#"{"policy_mode": "auto", "model": "m", "api_key_set": true}"#);
    r.cache = json(r#"{"enabled": false}"#);
    r.voice = json(r#"{"has_openai": true}"#);
    r.history = json(r#"{"budget": 60000}"#);
    r.models = json(r#"{"models": [{"id": "a", "name": "A"}]}"#);
    let d = settings_of(&r);
    assert_eq!((&*d.policy_mode, &*d.current_model, d.api_key_set), ("auto", "m", true));
    assert!(!d.cache_enabled && d.voice_api_available);
    assert_eq!(d.history_budget_label, "60k");
    assert_eq!(d.models[0].model_name, "A");
}

#[test]
fn changes_are_sent_shown_and_reported() {
    let mut d = settings_of(&no_replies());
    let c = Change::Cache { enabled: false, conversation: true, ttl: "1h".to_string() };
    assert_eq!(c.path(), "/api/cache");
    let body = value(&c.body().unwrap());
    assert_eq!(body["enabled"], false);
    assert_eq!(body["cache_conversation"], true);
    assert_eq!(body["ttl"], "1h");
    d.show(&c);
    assert_eq!(d.cache_ttl, "1h");
    assert_eq!(toast(&c.report(true)), (ToastKind::Info, "Cache settings updated".to_string()));
    assert_eq!(
        toast(&c.report(false)),
        (ToastKind::Error, "Failed to update cache settings".to_string())
    );
    let c = Change::History("200k".to_string());
    assert_eq!(value(&c.body().unwrap())["budget"], 200_000);
    assert!(Change::History("7k".to_string()).body().is_none());
    let key = Change::Key("abc".to_string());
    assert!(!d.oai_key_set);
    d.sent(&key, false);
    assert!(!d.oai_key_set);
    d.sent(&key, true);
    assert!(d.oai_key_set);
    let v = value(&Change::Voice("local".to_string()).body().unwrap());
    assert_eq!((&v["voice_backend"], &v["stt_backend"]), (&v["stt_backend"], &v["voice_backend"]));
    let e = Change::Endpoint { url: "http://x".to_string(), kind: "ollama".to_string() };
    assert_eq!(value(&e.body().unwrap())["oai_base_url"], "http://x");
    assert_eq!(e.path(), "/api/backend");
}

#[test]
fn models_are_filtered_without_regard_to_case() {
    let many: Vec<String> =
        (0..100).map(|i| format!("{{\"id\": \"id-{i}\", \"name\": \"Modèle ÉTÉ {i}\"}}")).collect();
    let body = json(&format!("{{\"models\": [{}]}}", many.join(",")));
    let mut m = Models::new();
    m.set_models_full(model_rows(&body));
    assert_eq!(m.full.len(), 100);
    assert_eq!(m.shown.len(), 60);
    m.apply_model_filter(" été 77 ");
    assert_eq!(m.shown.len(), 1);
    assert_eq!(m.shown[0].model_id, "id-77");
    m.apply_model_filter("ID-9");
    assert_eq!(m.shown.len(), 11);
    m.apply_model_filter("   ");
    assert_eq!(m.shown.len(), 60);
    m.apply_model_filter("nothing like it");
    assert!(m.shown.is_empty());
    assert!(model_matches("abc", "x", "bc") && model_matches("x", "abc", "bc"));
    assert!(model_matches("x", "y", "") && !model_matches("abc", "ABC", "BCD"));
}

#[test]
fn logins_know_the_default() {
    let l = login_of(&json(r#"{"user_id": "u1", "name": "Ann"}"#), &json(r#"{"default_user": "u1"}"#));
    assert!(l.is_default);
    assert_eq!(value(&default_login(&l, true).unwrap())["user_id"], "u1");
    assert_eq!(value(&default_login(&l, false).unwrap())["user_id"], "");
    let nobody = login_of(&Json::Null, &json(r#"{"default_user": ""}"#));
    assert!(!nobody.is_default);
    assert!(default_login(&nobody, true).is_none());
}

#[test]
fn usage_is_empty_before_the_first_turn() {
    let r = json(r#"{"turns": 0}"#);
    assert_eq!(build_usage(&r, "1.0%", "$1.00", "$2.00").turns, "");
    let r = json(
        r#"{"turns": 3, "banked_tokens": 2770000, "model": "m",
            "tokens": {"cache_read": 31200, "input": 412, "output": 1500}}"#,
    );
    let u = build_usage(&r, "12.5%", "$1.00", "$2.00");
    assert_eq!(u.turns, "3");
    assert_eq!(u.hit_rate, "12.5%");
    assert_eq!(u.banked, "2.8M");
    assert_eq!(u.detail, "31K cached · 412 fresh · 2K out");
    assert_eq!((&*u.saved, &*u.spent, &*u.model), ("$1.00", "$2.00", "m"));
    let (backend, base, models) = inference_of(&Json::Null, &Json::Null);
    assert_eq!((&*backend, &*base, models.len()), ("—", "", 0));
}

#[test]
fn numbers_read_as_formatted_doubles_do() {
    for n in [
        0i64, 5, 412, 999, 1000, 1499, 1500, 2500, 31_200, 999_499, 999_500, 999_999, 1_000_000, 1_050_000, 1_150_000,
        2_770_000, 123_456_789, i64::MAX, i64::MIN, -1500, -7,
    ] {
        let a = n.unsigned_abs() as f64;
        let s = if a >= 1e6 {
            format!("{:.1}M", a / 1e6)
        } else if a >= 1e3 {
            format!("{:.0}K", a / 1e3)
        } else {
            format!("{}", a as u64)
        };
        let want = if n < 0 { format!("-{s}") } else { s };
        assert_eq!(humanize_tokens(n), want, "{n}");
    }
    for b in [
        0u64, 1023, 1024, 1536, 2560, 1_048_575, 1_048_576, 1_153_434, 5_000_000, 9_007_199_254_740_993, u64::MAX,
    ] {
        let want = if b >= 1 << 20 {
            format!("{:.1} MB", b as f64 / (1u64 << 20) as f64)
        } else if b >= 1 << 10 {
            format!("{:.0} KB", b as f64 / (1u64 << 10) as f64)
        } else {
            format!("{b} B")
        };
        assert_eq!(human_size(b), want, "{b}");
    }
    let mut x: u64 = 0x9e37_79b9_7f4a_7c15;
    for _ in 0..2000 {
        x ^= x << 13;
        x ^= x >> 7;
        x ^= x << 17;
        let b = x >> (x % 60);
        let want = if b >= 1 << 20 {
            format!("{:.1} MB", b as f64 / (1u64 << 20) as f64)
        } else if b >= 1 << 10 {
            format!("{:.0} KB", b as f64 / (1u64 << 10) as f64)
        } else {
            format!("{b} B")
        };
        assert_eq!(human_size(b), want, "{b}");
        let n = (b >> 1) as i64;
        let a = n as f64;
        let want = if a >= 1e6 {
            format!("{:.1}M", a / 1e6)
        } else if a >= 1e3 {
            format!("{:.0}K", a / 1e3)
        } else {
            format!("{}", a as u64)
        };
        assert_eq!(humanize_tokens(n), want, "{n}");
    }
}

#[test]
fn compute_is_counted() {
    let rows = endpoint_rows(&json(
        r#"{"endpoints": [{"url": "http://x", "kind": "ollama", "host": "h", "models": [1, 2]}, {}]}"#,
    ));
    assert_eq!((rows.len(), rows[0].model_count, rows[1].model_count), (2, 2, 0));
    assert_eq!(toast(&scan_notice(0)).1, "No LAN compute found");
    assert_eq!(toast(&scan_notice(1)).1, "1 endpoint found");
    assert_eq!(toast(&scan_notice(2)).1, "2 endpoints found");
}

#[test]
fn sessions_are_listed_and_picked() {
    let body = json(
        r#"[{"session_id": 1, "last_active": 940, "message_count": 3, "preview": "hi"},
            {"session_id": 2, "last_active": 0}]"#,
    );
    let mut s = Sessions::new();
    s.replace_sessions(session_rows(&body, 1000));
    assert_eq!(s.items[0].time_ago, "1 min ago");
    assert_eq!(s.toggle(2), 1);
    assert_eq!(s.toggle(1), 2);
    assert_eq!(s.toggle(2), 1);
    assert_eq!(s.toggle(99), 1);
    assert_eq!(s.selected_session_ids(), [1]);
    s.clear_session_selection();
    assert!(s.selected_session_ids().is_empty());
    assert_eq!(format_time_ago(59, 0), "just now");
    assert_eq!(format_time_ago(3600, 0), "1 hr ago");
    assert_eq!(format_time_ago(172_800, 0), "2 days ago");
    assert_eq!(format_time_ago(0, 50), "just now");
    assert!(session_rows(&json("{}"), 0).is_empty());
}

#[test]
fn exports_say_what_became_of_them() {
    assert!(export_picked(&vec![]).is_none());
    let body = value(&export_picked(&vec![3, 5]).unwrap());
    assert_eq!(body["ids"][1], 5);
    assert_eq!(body["format"], "md");
    assert_eq!(value(&export_all())["all"], true);
    let ok = export_sessions(Ok(json(r#"{"ok": true, "count": 2}"#)));
    assert_eq!(toast(&ok), (ToastKind::Success, "Exported 2 session(s) → workspace/exports/".to_string()));
    let no = export_sessions(Ok(json(r#"{"ok": false}"#)));
    assert_eq!(toast(&no), (ToastKind::Warn, "Export failed: nothing exported".to_string()));
    let err = export_sessions(Err("down".to_string()));
    assert_eq!(toast(&err), (ToastKind::Error, "Export error: down".to_string()));
}

#[test]
fn nothing_is_deleted_that_was_not_distilled() {
    assert!(Sweep::begin(SweepKind::Delete, vec![]).is_none());
    let mut s = Sweep::begin(SweepKind::ConsolidateDelete, vec![1, 2]).unwrap();
    assert_eq!(toast(&s.begins().unwrap()).1, "Consolidating 2 session(s) before delete…");
    assert_eq!(s.due(), Some(SweepStep::Consolidate(1)));
    s.answer(true, &json(r#"{"ok": false}"#));
    assert_eq!(s.due(), Some(SweepStep::Consolidate(2)));
    s.answer(false, &json(r#"{"ok": true}"#));
    assert_eq!(s.due(), Some(SweepStep::Delete(2)));
    s.answer(true, &json(r#"{"ok": true}"#));
    assert_eq!(s.due(), None);
    assert_eq!(
        toast(&s.ends()),
        (ToastKind::Warn, "Saved + deleted 1; kept 1 (not consolidated)".to_string())
    );
    let mut s = Sweep::begin(SweepKind::Archive, vec![7, 8]).unwrap();
    assert!(s.begins().is_none());
    assert_eq!(step_path(s.due().unwrap()), "/api/sessions/7/archive");
    s.answer(true, &Json::Null);
    s.answer(false, &Json::Null);
    assert_eq!(toast(&s.ends()).1, "Archived 1 session(s)");
    let mut s = Sweep::begin(SweepKind::Consolidate, vec![7]).unwrap();
    s.answer(true, &json(r#"{"ok": true}"#));
    assert_eq!(toast(&s.ends()).1, "Consolidated 1/1 into cerebro");
    let mut s = Sweep::begin(SweepKind::Delete, vec![7]).unwrap();
    assert_eq!(step_path(s.due().unwrap()), "/api/sessions/7");
    s.answer(true, &Json::Null);
    assert_eq!(toast(&s.ends()), (ToastKind::Warn, "Deleted 1 session(s)".to_string()));
}

#[test]
fn files_are_listed() {
    let files = json(r#"{"files": [{"path": "p", "name": "n", "size": 2048}, {}]}"#);
    assert_eq!(audio_files(&files)[0].size_label, "2 KB");
    assert_eq!(notes(&files)[1].size_label, "0 B");
    assert_eq!(sonus_files(&json(r#"[{"name": "t", "size": 3145728}]"#))[0].size_label, "3.0 MB");
    assert_eq!(workspace_images(&json(r#"{"images": [{"path": "p", "name": "n"}]}"#))[0].path, "p");
    let texts = prompt_files(&json(r#"{"texts": [{"path": "p"}, {"path": "q", "name": "n"}]}"#));
    assert_eq!((texts.len(), &*texts[0].path), (1, "q"));
    let e = explorer_entries(&json(
        r#"{"entries": [{"name": "d", "kind": "dir", "size": 9}, {"name": "a.png", "ext": "png", "size": 9}]}"#,
    ));
    assert_eq!((&*e[0].glyph, &*e[0].size_label), ("📁", ""));
    assert_eq!((&*e[1].glyph, &*e[1].size_label, &*e[1].kind), ("🖼", "9 B", "file"));
    assert_eq!(explorer_glyph(false, "rs"), "⚙");
    assert_eq!(explorer_glyph(false, "xyz"), "📄");
    assert!(is_image_ext("webp") && !is_image_ext("PNG"));
}

#[test]
fn drives_are_described() {
    let d = drive_candidates(&json(
        r#"{"candidates": [
            {"dev": "sda", "model": " SanDisk Ultra ", "size": "57.3 GB", "label": "MYSTICK", "fstype": "exfat"},
            {"dev": "sdb", "blank": true, "label": "x"},
            {"dev": "sdc", "fstype": "ext4"}]}"#,
    ));
    assert_eq!(d[0].display, "SanDisk Ultra · 57.3 GB · MYSTICK (exfat)");
    assert_eq!(d[1].display, "blank");
    assert_eq!(d[2].display, "unlabeled (ext4)");
    let mut x = Explorer::new();
    assert_eq!(
        drive_prepared(&json(r#"{"ok": true, "label": "A"}"#), &mut x),
        Ok("Drive ready: A (in media/)".to_string())
    );
    assert_eq!(x.current_path, "media");
    assert_eq!(
        drive_prepared(&Json::Null, &mut x),
        Err("Couldn't set up the drive: prep failed".to_string())
    );
    assert_eq!(eject_status(true, "A"), "Ejected A — safe to remove");
    assert_eq!(eject_status(false, "A"), "Eject failed: A");
}

#[test]
fn explorer_walks_and_shows() {
    let mut x = Explorer::new();
    assert!(!x.up());
    x.navigate("a/b");
    x.select_image("a/b/c.png", "png", Some((4, 3)));
    assert_eq!((&*x.selected_name, &*x.selected_info), ("c.png", "PNG · 4×3"));
    assert!(x.can_attach && x.preview == Preview::Image);
    x.select_image("a/b/c.png", "png", None);
    assert_eq!(x.selected_info, "PNG image (no preview)");
    x.select_file("a/b/d.txt", "txt");
    assert_eq!(x.selected_info, "TXT file");
    assert!(!x.can_attach);
    x.show(&json(r#"{"content": "hi", "truncated": true}"#));
    assert_eq!(x.preview_text, "hi\n\n… (truncated)");
    x.show(&json(r#"{"binary": true}"#));
    assert!(x.preview == Preview::Binary && x.preview_text.is_empty());
    let op = WorkspaceOp::Delete { path: "a/b/d.txt".to_string() };
    let failed = workspace_op(Ok(json(r#"{"ok": false, "error": "no"}"#)));
    x.done(&op, &failed);
    assert_eq!(x.selected_path, "a/b/d.txt");
    assert_eq!(op.status(&failed), "Delete failed: no");
    let fine = workspace_op(Ok(json(r#"{"ok": true}"#)));
    x.done(&op, &fine);
    assert_eq!(x.selected_path, "");
    assert_eq!(op.status(&fine), "Deleted d.txt");
    assert_eq!(
        workspace_op(Err("down".to_string())),
        Err("request failed: down".to_string())
    );
    assert!(x.up());
    assert_eq!(x.current_path, "a");
    assert!(x.up());
    assert_eq!(x.current_path, "");
    x.select_file("e", "");
    assert_eq!(x.selected_info, "file");
    assert_eq!(image_info("GIF", Some((10, 2))), "GIF · 10×2");
    assert_eq!(file_info("RS"), "RS file");
}

#[test]
fn workspace_operations_are_written_out() {
    let new = WorkspaceOp::NewFolder { name: "n".to_string() };
    assert_eq!(value(&new.body("a"))["path"], "a/n");
    assert_eq!(value(&new.body(""))["path"], "n");
    assert_eq!(new.endpoint(), "mkdir");
    assert_eq!(new.status(&Ok(())), "Created folder n");
    let cut = WorkspaceOp::Paste { src: "x/y".to_string(), cut: true };
    assert_eq!((cut.endpoint(), &*cut.status(&Ok(()))), ("move", "Moved y"));
    assert_eq!(value(&cut.body("d"))["dest"], "d");
    let copy = WorkspaceOp::Paste { src: "x/y".to_string(), cut: false };
    assert_eq!((copy.endpoint(), &*copy.status(&Ok(()))), ("copy", "Copied y"));
    assert_eq!(copy.status(&Err("full".to_string())), "Paste failed: full");
    let ren = WorkspaceOp::Rename { path: "p".to_string(), name: "q".to_string() };
    assert_eq!((ren.endpoint(), &*ren.status(&Ok(()))), ("rename", "Renamed to q"));
    assert_eq!(explorer_read(&json(r#"{"content": "x"}"#)), ("x".to_string(), false));
    assert_eq!(
        explorer_read(&json(r#"{"content": "x", "binary": true, "truncated": true}"#)),
        (String::new(), true)
    );
    assert_eq!(explorer_read(&Json::Null), (String::new(), false));
    assert_eq!(note_content(true, &json(r#"{"content": "x"}"#)), "x");
    assert_eq!(note_content(false, &json(r#"{"content": "x"}"#)), "");
    assert_eq!(note_created(true, &json(r#"{"name": "x"}"#)), Some("x".to_string()));
    assert_eq!(note_created(false, &json(r#"{"name": "x"}"#)), None);
}

#[test]
fn sound_is_measured_and_processed() {
    let j = json(
        r#"{"format": "wav", "sample_rate": 44100, "channels": 2, "lufs_integrated": -14.25,
            "peak_db": -1, "has_clipping": true}"#,
    );
    assert_eq!(
        audio_stats(&j),
        "wav · 44 kHz · 2ch    LUFS -14.2 · peak -1.0 dB · RMS -99.0 dB · ⚠ clipping"
    );
    assert_eq!(audio_stats(&json(r#"{"error": "gone"}"#)), "analyze failed: gone");
    assert_eq!(audio_stats(&json(r#"{"error": 5}"#)), "analyze failed: ?");
    let steps: Vec<Value> = audio_op_chain("clean").iter().map(value).collect();
    let names: Vec<&str> = steps.iter().map(|s| s["type"].as_str().unwrap()).collect();
    assert_eq!(names, ["trim_silence", "normalize", "peak_limit"]);
    assert_eq!(audio_op_chain("normalize").len(), 1);
    assert!(audio_op_chain("reverse").is_empty());
}

#[test]
fn identity_asks_only_where_there_is_a_choice() {
    let mut id = Identity::new();
    id.boot(&json(r#"{"users": [{"id": "u", "name": "ann"}], "agents": [{"id": "g"}]}"#));
    assert!(!id.open);
    id.boot(&json(
        r#"{"users": [{"id": "u", "name": "élan", "has_pin": true}, {"id": "v", "name": ""}],
            "agents": [{"id": "g", "name": "apex", "owner": "u"}, {"id": "h", "name": "x", "owner": "v"}]}"#,
    ));
    assert!(id.open && id.step == Ask::Profile);
    assert_eq!(id.user_tiles[0].glyph, "É");
    assert_eq!(id.user_tiles[1].glyph, "?");
    assert!(id.pick_user("u").is_none());
    assert_eq!(id.step, Ask::Pin);
    for k in ["1", "2", "DEL", "3"] {
        assert!(id.key(k).is_none());
    }
    assert_eq!((id.pin.as_str(), id.pin_filled()), ("13", 2));
    let q = id.key("OK").unwrap();
    assert_eq!(
        q,
        PinRequest::Verify { user_id: "u".to_string(), pin: "13".to_string() }
    );
    assert_eq!(q.path(), "/api/identities/verify");
    assert_eq!(value(&q.body())["pin"], "13");
    id.verified(Some(&json(r#"{"ok": false}"#)));
    assert_eq!((id.pin_error, &*id.pin_message, id.pin_filled()), (true, "Wrong PIN — try again", 0));
    id.verified(Some(&json(r#"{"locked": true, "retry_after_secs": 9}"#)));
    assert_eq!(id.pin_message, "Too many tries — locked 9s");
    id.verified(Some(&json(r#"{"locked": true}"#)));
    assert_eq!(id.pin_message, "Too many tries — locked");
    id.verified(None);
    assert_eq!(id.pin_message, "Can't reach agentd — try again");
    id.verified(Some(&json(r#"{"ok": true}"#)));
    assert_eq!(id.step, Ask::Agent);
    assert_eq!((id.agent_tiles.len(), &*id.agent_tiles[0].glyph), (1, "A"));
    id.back();
    assert_eq!(id.step, Ask::Profile);
    assert!(id.pick_user("v").is_none());
    assert_eq!(id.agent_tiles[0].id, "h");
    match id.pick_agent("h") {
        Effect::Send(j) => assert_eq!(value(&j)["agent_id"], "h"),
        other => panic!("{other:?}"),
    }
    assert!(!id.open);
    assert_eq!(id_glyph("ßeta"), "SS");
}

#[test]
fn login_takes_a_token() {
    let body = json(
        r#"{"users": [{"id": "u", "name": "ann", "has_pin": true}, {"id": "v", "name": "bo"}],
            "default_user": "u"}"#,
    );
    let mut id = Identity::new();
    assert!(open_default(&body).is_none());
    id.boot_login(&body);
    assert!(id.open && id.login && id.step == Ask::Pin);
    assert_eq!(id.selected_name, "ann");
    for _ in 0..9 {
        id.key("1");
    }
    assert_eq!(id.pin_filled(), 6);
    assert_eq!(id.key("OK").unwrap().path(), "/api/auth/login");
    match id.logged_in(None) {
        LoginOutcome::Refused(e) => assert_eq!(toast(&e).1, "Login failed — can't reach agentd"),
        other => panic!("{other:?}"),
    }
    assert_eq!(id.pin_filled(), 6);
    match id.logged_in(Some(&json(r#"{"ok": true}"#))) {
        LoginOutcome::Refused(e) => assert_eq!(toast(&e).1, "Wrong PIN — try again"),
        other => panic!("{other:?}"),
    }
    assert_eq!(id.pin_filled(), 0);
    match id.logged_in(Some(&json(r#"{"ok": true, "token": "t"}"#))) {
        LoginOutcome::Relaunch(t) => assert_eq!(t, "t"),
        other => panic!("{other:?}"),
    }
    let q = id.pick_user("v").unwrap();
    assert_eq!(q, PinRequest::Login { user_id: "v".to_string(), pin: String::new() });
    let open = json(r#"{"users": [{"id": "v", "name": "bo"}], "default_user": "v"}"#);
    assert!(open_default(&open).is_some());
    assert!(open_default(&json(r#"{"users": [], "default_user": "v"}"#)).is_none());
}

#[test]
fn mesh_lists_peers_before_finds() {
    let rows = mesh_rows(
        &json(
            r#"{"peers": [{"node_id": "a", "ws_url": "ws://a", "status": "online", "live": "dark",
                "has_token": true, "federation": {"memories_received": 2, "recall_hits": 1}}]}"#,
        ),
        &json(r#"{"nodes": [{"node_id": "a", "known": true}, {"node_id": "b", "ip": "10.0.0.2"}]}"#),
    );
    assert_eq!(rows.len(), 2);
    assert_eq!((&*rows[0].status, rows[0].is_peer, rows[0].has_token), ("dark", true, true));
    assert_eq!(rows[0].fed_line, "fed ↓2 mem · 0 dup · 0 recall (1 hits)");
    assert_eq!((&*rows[1].detail, &*rows[1].role), ("10.0.0.2:8787", "—"));
    assert_eq!(fed_stats_line(&json(r#"{"recall_hits": 4}"#)), "");
    assert!(value(&add_peer_body("a", "ws://a", "  ")).get("token").is_none());
    assert_eq!(value(&add_peer_body("a", "ws://a", " t "))["token"], "t");
    assert_eq!(value(&redeem_body("ws://a", " 12 "))["code"], "12");
    let ok = json(r#"{"ok": true}"#);
    assert_eq!(toast(&mesh_notice(MeshOp::Add, Some(&ok))).1, "Peer added");
    assert_eq!(toast(&mesh_notice(MeshOp::Add, None)).1, "Failed to add peer");
    assert_eq!(toast(&mesh_notice(MeshOp::Remove, Some(&ok))).1, "Peer removed");
    assert_eq!(
        toast(&mesh_notice(MeshOp::Redeem, Some(&Json::Null))).1,
        "Pairing failed (bad or expired code?)"
    );
    assert_eq!(pairing(Some(&json(r#"{"code": "12"}"#))).unwrap(), ("12".to_string(), 300));
    assert!(pairing(Some(&Json::Null)).is_err());
    assert!(pairing(None).is_err());
}

#[test]
fn events_are_summed_up() {
    let rows = event_rows(&json(
        r#"[{"type": "tool_requested", "call": {"tool": "shell"}},
            {"type": "net_error", "b": true, "a": 1.5, "c": [], "d": "x", "e": 1, "f": 2}]"#,
    ));
    assert_eq!(rows[0].ev_type, "net_error");
    assert_eq!(rows[0].summary, "a=1.5  b=true  d=x  e=1");
    assert_eq!(rows[0].accent, event_accent("access_denied"));
    assert_eq!(rows[1].summary, "shell");
    assert_eq!(event_summary(&json(r#"{"reading": {"kind": "air"}, "text": "x"}"#)), "air");
    let long = json(&format!("{{\"text\": \"{}\"}}", "y".repeat(121)));
    assert_eq!(event_summary(&long), format!("{}…", "y".repeat(120)));
    assert_eq!(event_summary(&json("[]")), "");
    assert_ne!(event_accent("tool_result"), event_accent("other"));
    assert_eq!(
        events_url("http://h", " a,b ", 24),
        "http://h/api/events/recent?max=200&hours=24&types=a,b"
    );
    assert_eq!(events_url("http://h", " ", -1), "http://h/api/events/recent?max=200&hours=-1");
}

#[test]
fn shell_tells_its_structure() {
    let mut s = Shell::new(Persona::Apex, false);
    s.desk.mode = ShellMode::Desktop;
    s.desk.launch(AppKind::Chat);
    s.desk.agent_open_window(AppKind::Mesh);
    let v = value(&s.shell_state_json());
    assert_eq!(v["shell_mode"], "desktop");
    assert_eq!(v["persona"], "apex");
    assert_eq!(v["windows"][0]["app"], "chat");
    assert_eq!(v["windows"][1]["focused"], true);
    assert_eq!(v["windows"][0]["focused"], false);
    assert_eq!(v["agent_opened"][0], "mesh");
    assert!(v["latched"].as_array().unwrap().is_empty());
    assert_eq!(v["mutation_cap"], 4);
    assert_eq!(v["apps"].as_array().unwrap().len(), 22);
}

#[test]
fn requests_for_the_structure_are_told_apart() {
    assert!(is_state(b"GET /state HTTP/1.1\r\nHost: x\r\n\r\n"));
    assert!(is_state(b"GET\t /state?x=1"));
    assert!(!is_state(b"GET /snapshot HTTP/1.1"));
    assert!(!is_state(b"GET /statement HTTP/1.1"));
    assert!(!is_state(b"\r\nGET /state"));
    assert!(!is_state(b""));
    assert!(!is_state(b"GET /state \xff"));
    assert_eq!(
        reply_head(true, true, 12),
        "HTTP/1.1 200 OK\r\nContent-Type: application/json\r\nContent-Length: 12\r\nConnection: close\r\n\r\n"
    );
    assert!(reply_head(false, true, 1).contains("image/png"));
    assert!(reply_head(true, false, 1).contains("500 Internal Server Error\r\nContent-Type: text/plain"));
}

#[test]
fn links_wait_longer_each_time() {
    let mut l = Link::new();
    let waits: Vec<u64> = (0..6).map(|_| l.down(false).0).collect();
    assert_eq!(waits, [2, 4, 8, 16, 30, 30]);
    l.up();
    assert_eq!(l.down(true), (2, "Disconnected — reconnecting in 2s".to_string()));
    assert_eq!(l.down(false).1, "Connection failed — retrying in 4s");
    assert!(seed_waits(false, 39) && !seed_waits(false, 40) && !seed_waits(true, 0));
}

#[test]
fn first_windows_open() {
    let mut s = Shell::new(Persona::Apex, false);
    s.desk.mode = ShellMode::Desktop;
    s.seed_windows(true, false, Some("results"));
    let kinds: Vec<AppKind> = s.desk.windows.iter().map(|w| w.kind).collect();
    assert_eq!(kinds, [AppKind::Chat, AppKind::Face, AppKind::Occipital]);
    assert_eq!(s.reader.page.mode, "results");
    assert_eq!(fill_of(AppKind::EventLog), Some(Fill::Events { hours: 24 }));
    assert_eq!(fill_of(AppKind::Calculator), None);
    assert_eq!(persona_theme(Persona::Mom), Theme::MacOS);
}

fn told(e: Effect) -> (ToastKind, String) {
    match e {
        Effect::Toast { kind, text, .. } => (kind, text),
        other => panic!("{other:?}"),
    }
}

#[test]
fn requests_are_reported() {
    let say = |kind, text: &str| (kind, text.to_string());
    assert_eq!(told(auto_login_report(true, true)), say(ToastKind::Success, "Auto-login set for this device"));
    assert_eq!(told(auto_login_report(true, false)), say(ToastKind::Success, "Auto-login cleared"));
    assert_eq!(told(auto_login_report(false, true)), say(ToastKind::Error, "Couldn't update auto-login"));
    assert_eq!(told(power_notice("reboot")), say(ToastKind::Warn, "Rebooting…"));
    assert_eq!(told(power_notice("off")), say(ToastKind::Warn, "Shutting down…"));
    assert_eq!(told(relaunch_failed("e")), say(ToastKind::Error, "Re-launch after login failed: e"));
    assert_eq!(told(note_saved(true)), say(ToastKind::Success, "Note saved"));
    assert_eq!(told(note_saved(false)), say(ToastKind::Error, "Failed to save note"));
    assert_eq!(note_opened(true, &json(r#"{"name": "x"}"#)).ok(), Some("x".to_string()));
    let refused = note_opened(false, &json(r#"{"name": "x"}"#)).err().map(told);
    assert_eq!(refused, Some(say(ToastKind::Error, "Failed to create note")));
    let done = json(r#"{"output_path": "a_edit.wav"}"#);
    assert_eq!(told(audio_processed(&done)), say(ToastKind::Success, "Audio processed → _edit file"));
    assert_eq!(told(audio_processed(&Json::Null)), say(ToastKind::Error, "Audio processing failed"));
    assert!(playback_report(true).is_none());
    assert_eq!(
        playback_report(false).map(told),
        Some(say(ToastKind::Error, "Playback failed (ffplay/track missing?)"))
    );
    assert!(browse_notice("").is_none());
    assert_eq!(browse_notice("u").map(told), Some(say(ToastKind::Info, "Opening u…")));
    assert_eq!(told(browse_failed("u")), say(ToastKind::Warn, "No browser here — open u on another device"));
    assert!(sketch_notice(1).is_none());
    assert_eq!(sketch_notice(0).map(told), Some(say(ToastKind::Warn, "Nothing drawn yet")));
}
