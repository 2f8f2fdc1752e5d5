//! The studio: jobs, requests, the cutting room and the player.
use apexos_ui::floats::Single;
use apexos_ui::cut::{
    cut_apply, cut_build_timeline, cut_detail, cut_total_label, render_submitted, CutRoom, CutSeg,
};
use apexos_ui::json::{read, render, Json};
use apexos_ui::player::{
    clip_length, clock_text, fit_dims, frame_bytes, imagine_clock, parse_ffprobe_video, poster_filter,
    progress_text, tick,
    video_filter, Decoded, Frames,
};
use apexos_ui::score::{cut_compose_prompt, import_body, imported_id, sonus_mime_for_name, track_stem};
use apexos_ui::studio::{
    generated, handed_off, imagine_cinematic_body, imagine_done_note, imagine_edit_body,
    imagine_image_body, imagine_job_rows, imagine_still_body, imagine_video_body, jobs_outcome,
    load_prompt, made, making_note, no_token, post_outcome, source_stem, stage, still_crafted,
    still_outcome, submitted, submitting_note, wanted, EditSources, Fetched, Generated, Jobs,
    JobsError, Showing, ThumbState, Thumbs, Wanted, Watches,
};
use serde_json::Value;

fn json(text: &str) -> Json {
    read(text).expect("a value")
}

fn value(j: &Json) -> Value {
    serde_json::from_str(&render(j)).expect("a value")
}

/// A word of the editor, with its value as the editor writes it.
fn apply(seg: &mut CutSeg, field: &str, text: &str) {
    let num = text.parse::<f32>().unwrap_or(0.0);
    cut_apply(seg, field, text, secs(num));
}

/// A time in the library's hands.
fn secs(v: f32) -> Single {
    Single { bits: v.to_bits() }
}

#[test]
fn imagine_job_rows_parses_the_jobs_list() {
    let v = json(
        r#"[
            { "job_id": "01ABC", "status": "done", "mode": "image_generate",
              "model": "grok-imagine-image-quality",
              "created_at": "2026-07-28T18:03:11.123Z", "error": null,
              "prompt": "marble amphitheater" },
            { "job_id": "01DEF", "status": "failed", "mode": "video_generate",
              "model": "grok-imagine-video",
              "created_at": "2026-07-28 18:05:02", "error": "upstream 500" }
        ]"#,
    );
    let rows = imagine_job_rows(&v);
    assert_eq!(rows.len(), 2);
    let r = &rows[0];
    assert_eq!(
        (&*r.id, &*r.mode, &*r.status, &*r.model, &*r.when, &*r.err, &*r.prompt),
        (
            "01ABC",
            "image_generate",
            "done",
            "image-quality",
            "2026-07-28 18:03",
            "",
            "marble amphitheater"
        )
    );
    assert_eq!(rows[1].model, "video");
    assert_eq!(rows[1].when, "2026-07-28 18:05");
    assert_eq!(rows[1].err, "upstream 500");
    assert_eq!(rows[1].prompt, "");
    let partial = json(r#"[{ "status": "done" }, { "job_id": "01X" }]"#);
    let rows = imagine_job_rows(&partial);
    assert_eq!(rows.len(), 1);
    assert_eq!(rows[0].id, "01X");
    assert_eq!(rows[0].status, "?");
    assert!(imagine_job_rows(&json(r#"{"not":"an array"}"#)).is_empty());
    assert!(imagine_job_rows(&Json::Null).is_empty());
}

#[test]
fn fit_dims_preserves_aspect_and_evens() {
    assert_eq!(fit_dims(1280, 720, 960, 720), (960, 540));
    assert_eq!(fit_dims(720, 1280, 960, 720), (404, 720));
    assert_eq!(fit_dims(320, 240, 960, 720), (320, 240));
    let (w, h) = fit_dims(1279, 719, 640, 480);
    assert_eq!((w % 2, h % 2), (0, 0));
    assert_eq!(fit_dims(0, 0, 960, 720), (2, 2));
    assert_eq!(fit_dims(1280, 720, 0, 0), (2, 2));
}

#[test]
fn parse_ffprobe_video_reads_dims_and_duration() {
    let probe = |out: &str| -> Option<(u32, u32, f32)> {
        let p = parse_ffprobe_video(out);
        let words = p.rest.iter().map(|t| t.parse::<f32>().ok().map(secs)).collect();
        Some((p.width?, p.height?, f32::from_bits(clip_length(&words).bits)))
    };
    assert_eq!(probe("1280,720\n8.342000\n"), Some((1280, 720, 8.342)));
    assert_eq!(probe("640,480\nN/A\n"), Some((640, 480, 0.0)));
    assert_eq!(probe(""), None);
    assert_eq!(probe("not,numbers\n"), None);
}

#[test]
fn imagine_clock_formats_mm_ss() {
    let clock = |t: f32| imagine_clock(secs(t));
    assert_eq!(clock(0.0), "0:00");
    assert_eq!(clock(8.4), "0:08");
    assert_eq!(clock(75.0), "1:15");
    assert_eq!(clock(-3.0), "0:00");
}

#[test]
fn imagine_video_body_routes_by_source_kind() {
    let (path, body) = imagine_video_body("orbit shot", "auto", 8, "default", "default", "", "");
    let body = value(&body);
    assert_eq!(path, "/v1/videos/generations");
    assert_eq!(body["prompt"], "orbit shot");
    assert_eq!(body["duration"], 8);
    assert_eq!(body["no_wait"], true);
    assert!(body.get("model").is_none());
    assert!(body.get("image").is_none());
    assert!(body.get("resolution").is_none());
    let (path, body) = imagine_video_body("", "1.5", 20, "1080p", "16:9", "01JOB", "image");
    let body = value(&body);
    assert_eq!(path, "/v1/videos/generations");
    assert_eq!(body["image"], "library:01JOB");
    assert_eq!(body["duration"], 15);
    assert_eq!(body["model"], "1.5");
    assert_eq!(body["resolution"], "1080p");
    assert_eq!(body["aspect_ratio"], "16:9");
    let (path, body) =
        imagine_video_body("keep panning", "auto", 15, "720p", "16:9", "01VID", "video");
    let body = value(&body);
    assert_eq!(path, "/v1/videos/extensions");
    assert_eq!(body["video"], "library:01VID");
    assert_eq!(body["duration"], 10);
    assert!(body.get("resolution").is_none());
    assert!(body.get("aspect_ratio").is_none());
}

#[test]
fn imagine_done_note_reports_cost_and_batch() {
    let job = json(r#"{ "usage": { "estimated_usd": 0.04 } }"#);
    assert_eq!(imagine_done_note(&job, 1), "done · ~$0.04");
    assert_eq!(
        imagine_done_note(&job, 4),
        "done · ~$0.04 · 4 images in the node library (first shown)"
    );
    assert_eq!(imagine_done_note(&json("{}"), 1), "done");
}

#[test]
fn cut_timeline_builds_the_v1_contract() {
    let mut clip = CutSeg::clip("01VID", "hammer strike");
    clip.in_s = secs(1.0);
    clip.out_s = secs(5.0);
    clip.gain_ix = 1;
    clip.speed_ix = 3;
    clip.caption = "the forge wakes".into();
    let mut still = CutSeg::still("01IMG", "poster");
    still.dur_ix = 2;
    still.zoom_ix = 2;
    let mut card = CutSeg::card();
    card.color_ix = 2;
    card.caption = "FIN".into();

    let body = value(&cut_build_timeline(&vec![clip, still, card], Some("01WAV"), 2, true, 1));
    assert_eq!(body["version"], 1);
    let clips = body["clips"].as_array().unwrap();
    assert_eq!(clips.len(), 3);
    assert_eq!(clips[0]["job_id"], "01VID");
    assert_eq!(clips[0]["in_s"], 1.0);
    assert_eq!(clips[0]["out_s"], 5.0);
    assert_eq!(clips[0]["gain_db"], -6.0);
    assert_eq!(clips[0]["speed"], 2.0);
    assert_eq!(clips[0]["captions"][0]["text"], "the forge wakes");
    assert_eq!(clips[0]["captions"][0]["fontsize"], 0);
    assert_eq!(clips[1]["kind"], "still");
    assert_eq!(clips[1]["dur_s"], 4.0);
    assert_eq!(clips[1]["zoom_to"], 1.25);
    assert_eq!(clips[2]["kind"], "card");
    assert_eq!(clips[2]["card_color"], "#B7410E");
    assert_eq!(clips[2]["captions"][0]["fontsize"], 44);
    assert!(clips[2].get("job_id").is_none());
    assert_eq!(body["style"]["letterbox_frac"], 0.12);
    assert_eq!(body["style"]["letterbox_reveal_s"], 1.5);
    assert_eq!(body["style"]["loudnorm"], true);
    assert_eq!(body["video_fade_in_s"], 0.3);
    assert_eq!(body["audio_fade_out_s"], 0.5);
    assert_eq!(body["music"]["job_id"], "01WAV");
    assert_eq!(body["music"]["gain_db"], -8.0);

    let bare = value(&cut_build_timeline(&vec![CutSeg::clip("01A", "x")], None, 0, false, 0));
    assert!(bare.get("style").is_none());
    assert!(bare.get("music").is_none());
    assert!(bare.get("video_fade_in_s").is_none());
    assert!(bare["clips"][0].get("speed").is_none());
    assert!(bare["clips"][0].get("captions").is_none());
}

#[test]
fn cut_details_and_totals_read_honestly() {
    let mut c = CutSeg::clip("01A", "x");
    assert_eq!(cut_detail(&c), "full");
    c.in_s = secs(1.0);
    assert_eq!(cut_detail(&c), "1.0s→end");
    c.out_s = secs(5.0);
    c.speed_ix = 2;
    c.gain_ix = 0;
    assert_eq!(cut_detail(&c), "1.0–5.0s · 1.5× · -12dB");
    let mut s = CutSeg::still("01B", "y");
    s.dur_ix = 1;
    s.zoom_ix = 1;
    assert_eq!(cut_detail(&s), "3s · push");

    let open = CutSeg::clip("01C", "z");
    assert_eq!(cut_total_label(&vec![c, s], true), "2 segments · ~6s · 🎵");
    assert!(cut_total_label(&vec![open], false).ends_with("~0s+?"));
    assert_eq!(cut_total_label(&vec![], false), "");
}

#[test]
fn times_round_as_the_machine_rounds_them() {
    let mut c = CutSeg::clip("01A", "x");
    apply(&mut c, "in", "0.35");
    assert_eq!(cut_detail(&c), "0.3s→end");
    apply(&mut c, "in", "0.1");
    apply(&mut c, "in", "0.2");
    let at = 0.35_f32 + 0.1 + 0.2;
    assert_eq!(c.in_s, secs(at));
    assert_eq!(cut_detail(&c), format!("{at:.1}s→end"));
    c.out_s = secs(7.7);
    let span = (7.7_f32 - at) as f64;
    for (ix, speed) in [(0, 0.5), (1, 1.0), (2, 1.5), (3, 2.0)] {
        c.speed_ix = ix;
        let mut again = CutSeg::still("01B", "y");
        again.dur_ix = 3;
        let mut known = 0.0_f64;
        known += span / speed;
        known += 6.0;
        let segs = vec![CutSeg { job_id: "01A".into(), label: "x".into(), caption: "".into(), ..c }, again];
        assert_eq!(cut_total_label(&segs, false), format!("2 segments · ~{known:.0}s"));
        c = segs.into_iter().next().unwrap();
    }
    let body = value(&cut_build_timeline(&vec![c], None, 0, false, 0));
    assert_eq!(body["clips"][0]["in_s"], serde_json::Value::from(at));
    assert_eq!(body["clips"][0]["out_s"], serde_json::Value::from(7.7_f32));
}

#[test]
fn cinematic_videos_take_two_steps() {
    let (path, body) = imagine_cinematic_body("p", 8, "16:9", "42");
    assert_eq!(path, "/v1/videos/generations");
    let body = value(&body);
    assert_eq!(body["model"], "1.5");
    assert_eq!(body["resolution"], "1080p");
    assert_eq!(body["aspect_ratio"], "16:9");
    assert_eq!(body["image"], "library:42");
    assert_eq!(
        still_crafted(&Err("HTTP 500".to_string())),
        Err("cinematic step 1 failed: HTTP 500".to_string())
    );
    assert_eq!(
        still_crafted(&Ok(json(r#"{"status": "done", "job_id": "4"}"#))),
        Ok("4".to_string())
    );
    assert_eq!(
        still_crafted(&Ok(json("{}"))),
        Err("cinematic step 1 failed: still generation did not complete".to_string())
    );
    let sent = handed_off(&Ok(json(r#"{"job_id": "7"}"#)));
    assert_eq!((sent.watch.as_str(), sent.used_up), ("7", true));
    assert!(sent.note.starts_with("🎞 rendering upstream"));
    let failed = handed_off(&Ok(json(r#"{"status": "failed"}"#)));
    assert_eq!((failed.note.as_str(), failed.used_up), ("failed: submit failed", false));
    assert_eq!(handed_off(&Err(no_token(false).to_string())).note, "no token — see docs/imaginarium.md");
    assert_eq!(no_token(true), "no imaginarium token — see docs/imaginarium.md");
    assert_eq!((making_note(true), making_note(false)), ("✎ editing…", "generating…"));
    assert_eq!(submitting_note(false), "submitting…");
    assert!(submitting_note(true).starts_with("✨ 1/2"));
}

#[test]
fn edits_use_their_sources_up_once_they_are_seen() {
    let mut sources = EditSources::new();
    sources.arm("1", "one");
    let done = Ok(json(r#"{"status": "done", "job_id": "9"}"#));
    let unseen = made(&done, 1, Some("HTTP 404"), true);
    assert_eq!(unseen.note, "generated, preview failed: HTTP 404");
    assert_eq!((unseen.picked.as_str(), unseen.shows, unseen.disarms), ("9", Showing::AsBefore, false));
    sources.spend(&unseen);
    assert_eq!(sources.list.len(), 1);
    let failed = made(&Ok(json(r#"{"status": "failed", "error": "no"}"#)), 1, None, true);
    assert_eq!((failed.note.as_str(), failed.shows), ("failed: no", Showing::Failure));
    sources.spend(&failed);
    let refused = made(&Err("HTTP 500".to_string()), 1, None, true);
    assert_eq!((refused.note.as_str(), refused.picked.as_str()), ("HTTP 500", ""));
    sources.spend(&refused);
    assert_eq!(sources.list.len(), 1);
    let seen = made(&done, 2, None, true);
    assert_eq!(seen.note, "done · 2 images in the node library (first shown)");
    assert_eq!((seen.shows, seen.disarms), (Showing::Picture, true));
    sources.spend(&seen);
    assert!(sources.list.is_empty());
    assert!(!made(&done, 1, None, false).disarms);
}

#[test]
fn times_have_no_end() {
    let mut c = CutSeg::clip("01A", "x");
    c.out_s = secs(f32::MAX);
    assert_eq!(cut_detail(&c), format!("0.0–{:.1}s", f32::MAX));
    let mut d = CutSeg::clip("01B", "y");
    d.out_s = secs(f32::MAX);
    d.speed_ix = 0;
    let known = f32::MAX as f64 + f32::MAX as f64 / 0.5;
    let segs = vec![c, d];
    assert_eq!(cut_total_label(&segs, false), format!("2 segments · ~{known:.0}s"));
    let mut e = CutSeg::clip("01C", "z");
    apply(&mut e, "out", "inf");
    assert_eq!(cut_detail(&e), "0.0–infs");
    assert_eq!(cut_total_label(&vec![e], false), "1 segment · ~infs");
    let mut e = CutSeg::clip("01C", "z");
    apply(&mut e, "out", "inf");
    let body = value(&cut_build_timeline(&vec![e], None, 0, false, 0));
    assert!(body["clips"][0]["out_s"].is_null());
    let mut e = CutSeg::clip("01C", "z");
    apply(&mut e, "in", "inf");
    apply(&mut e, "in", "-inf");
    assert_eq!(e.in_s, secs(0.0), "what is no number counts as nothing");
    apply(&mut e, "gain", "1e20");
    apply(&mut e, "speed", "-2.9");
    apply(&mut e, "zoom", "nan");
    assert_eq!((e.gain_ix, e.speed_ix, e.zoom_ix), (i32::MAX, -2, 0));
}

#[test]
fn edit_body_carries_library_refs() {
    let sources =
        vec![("01AAA".to_string(), "a".to_string()), ("01BBB".to_string(), "b".to_string())];
    let body = value(&imagine_edit_body("make it night", 2, &sources));
    assert_eq!(body["prompt"], "make it night");
    assert_eq!(body["n"], 2);
    assert_eq!(body["images"][0], "library:01AAA");
    assert_eq!(body["images"][1], "library:01BBB");
    assert!(body.get("model").is_none());
    assert!(body.get("aspect_ratio").is_none());
    let four: Vec<(String, String)> = (0..4).map(|i| (format!("0{i}"), "x".into())).collect();
    assert_eq!(value(&imagine_edit_body("p", 1, &four))["images"].as_array().unwrap().len(), 3);
}

#[test]
fn sonus_scoring_maps_mimes_and_briefs() {
    assert_eq!(sonus_mime_for_name("dream.wav"), "audio/wav");
    assert_eq!(sonus_mime_for_name("BED.MP3"), "audio/mpeg");
    assert_eq!(sonus_mime_for_name("weird.flac"), "audio/flac");
    assert_eq!(sonus_mime_for_name("noext"), "audio/wav");
    let brief = cut_compose_prompt("3 segments · ~12s · 🎵");
    assert!(brief.starts_with("(cutting room)"));
    assert!(brief.contains("3 segments · ~12s"));
    assert!(cut_compose_prompt("").contains("empty timeline"));
}

#[test]
fn cut_apply_steps_and_reopens_the_out_point() {
    let mut seg = CutSeg::clip("01A", "x");
    apply(&mut seg, "in", "0.5");
    apply(&mut seg, "in", "0.5");
    assert_eq!(seg.in_s, secs(1.0));
    apply(&mut seg, "in", "-2.0");
    assert_eq!(seg.in_s, secs(0.0));
    seg.in_s = secs(1.0);
    apply(&mut seg, "out", "2.0");
    assert_eq!(seg.out_s, secs(3.0));
    apply(&mut seg, "out", "-2.0");
    assert_eq!(seg.out_s, secs(0.0));
    apply(&mut seg, "caption", "  hello  ");
    assert_eq!(seg.caption, "hello");
    apply(&mut seg, "caption-clear", "");
    assert_eq!(seg.caption, "");
    let mut same = CutSeg::clip("01A", "x");
    same.in_s = secs(1.0);
    assert_eq!(seg, same);
    apply(&mut seg, "warp", "9");
    assert_eq!(seg, same);
}

#[test]
fn every_field_of_a_segment_can_be_set() {
    let mut seg = CutSeg::still("01A", "x");
    for (field, text) in [("gain", "0"), ("speed", "3"), ("dur", "2"), ("zoom", "0"), ("color", "4")] {
        apply(&mut seg, field, text);
    }
    assert_eq!(
        (seg.gain_ix, seg.speed_ix, seg.dur_ix, seg.zoom_ix, seg.color_ix),
        (0, 3, 2, 0, 4)
    );
    apply(&mut seg, "caption", &"é".repeat(200));
    assert_eq!(seg.caption.chars().count(), 120);
}

#[test]
fn jobs_come_with_their_reasons() {
    let body = json(r#"[{"job_id": "1"}]"#);
    assert_eq!(jobs_outcome(Some(200), &body).unwrap().len(), 1);
    assert_eq!(jobs_outcome(Some(401), &body), Err(JobsError::Auth));
    assert_eq!(jobs_outcome(Some(403), &body), Err(JobsError::Auth));
    assert_eq!(jobs_outcome(Some(500), &body), Err(JobsError::Offline));
    assert_eq!(jobs_outcome(None, &body), Err(JobsError::Offline));
}

#[test]
fn jobs_and_their_status_move_together() {
    let body = json(r#"[{"job_id": "1"}]"#);
    let mut jobs = Jobs::new();
    assert!(jobs.status.is_empty() && jobs.rows.is_empty());
    jobs.land(jobs_outcome(Some(200), &body));
    assert_eq!((jobs.status.as_str(), jobs.rows.len()), ("ok", 1));
    jobs.land(jobs_outcome(Some(401), &body));
    assert_eq!((jobs.status.as_str(), jobs.rows.len()), ("auth", 0));
    jobs.land(jobs_outcome(Some(200), &body));
    jobs.land(jobs_outcome(None, &body));
    assert_eq!((jobs.status.as_str(), jobs.rows.len()), ("offline", 0));
    jobs.land(Err(JobsError::Unconfigured));
    assert_eq!((jobs.status.as_str(), jobs.rows.len()), ("unconfigured", 0));
    let mut thumbs = Thumbs::new();
    assert!(!thumbs.has_poster("1"));
    thumbs.set("1", ThumbState::Ready);
    assert!(thumbs.has_poster("1"));
    thumbs.set("1", ThumbState::Failed);
    assert!(!thumbs.has_poster("1"));
}

#[test]
fn posts_come_with_their_reasons() {
    let ok = post_outcome(200, json(r#"{"job_id": "7"}"#)).unwrap();
    assert_eq!(value(&ok)["job_id"], "7");
    assert_eq!(
        post_outcome(401, Json::Null),
        Err("token rejected — check IMAGINARIUM_TOKEN".to_string())
    );
    assert_eq!(
        post_outcome(500, json(r#"{"error": "boom"}"#)),
        Err("HTTP 500: boom".to_string())
    );
    assert_eq!(post_outcome(422, Json::Null), Err("HTTP 422: generation failed".to_string()));
    assert_eq!(submitted(&json(r#"{"job_id": "7"}"#)), Ok("7".to_string()));
    assert_eq!(
        submitted(&json(r#"{"status": "failed", "error": "no"}"#)),
        Err("failed: no".to_string())
    );
}

#[test]
fn image_requests_leave_the_model_to_the_node() {
    let body = value(&imagine_image_body("a cat", "auto", "1:1", 2));
    assert_eq!(body["n"], 2);
    assert_eq!(body["aspect_ratio"], "1:1");
    assert!(body.get("model").is_none());
    assert_eq!(value(&imagine_image_body("a cat", "fast", "1:1", 2))["model"], "fast");
}

#[test]
fn renders_are_submitted_or_say_why_not() {
    let room = CutRoom::new();
    assert_eq!(
        room.render(0, false, 0),
        Err("the timeline is empty — add segments first".to_string())
    );
    assert_eq!(
        render_submitted(Ok(json("{}"))),
        Err("render submit gave no job id".to_string())
    );
    assert_eq!(render_submitted(Ok(json(r#"{"job_id": "9"}"#))), Ok("9".to_string()));
    assert_eq!(
        render_submitted(Err("no token".to_string())),
        Err("render failed: no token".to_string())
    );
}

#[test]
fn room_takes_moves_and_drops_segments() {
    let mut room = CutRoom::new();
    let video = json(
        r#"{"status": "done", "prompt": "a long walk", "assets": [{"kind": "video"}]}"#,
    );
    let image = json(r#"{"status": "done", "prompt": "", "assets": [{"kind": "image"}]}"#);
    let early = json(r#"{"status": "running", "assets": [{"kind": "video"}]}"#);
    assert_eq!(room.add("v0", &early), "only finished jobs can join the cut");
    room.add("v1", &video);
    room.add("i1", &image);
    room.add_card();
    assert_eq!(room.segs.len(), 3);
    assert_eq!(room.segs[0].label, "a long walk");
    assert_eq!(room.segs[1].label, "untitled");
    let odd = json(r#"{"status": "done", "assets": [{"kind": "te\"xt"}]}"#);
    assert_eq!(room.add("x", &odd), "can't cut this job (asset kind \"te\\\"xt\")");
    assert_eq!(room.segs.len(), 3);
    let sound = json(r#"{"status": "done", "prompt": "hum", "assets": [{"kind": "audio"}]}"#);
    assert_eq!(room.add("a1", &sound), "🎵 music bed set: hum");
    assert_eq!(room.music, Some(("a1".to_string(), "hum".to_string())));
    assert!(room.shift(2, -1));
    assert_eq!(room.segs[1].job_id, "");
    assert!(!room.shift(0, -1));
    room.remove(0);
    assert_eq!(room.segs.len(), 2);
    let mut thumbs = Thumbs::new();
    thumbs.set("i1", ThumbState::Ready);
    let rows = room.rows(&thumbs);
    assert_eq!(rows.len(), 2);
    assert!(!rows[0].has_thumb);
    assert!(rows[1].has_thumb);
    assert!(room.render(0, false, 0).is_ok());
}

#[test]
fn tracks_are_brought_in_once_each() {
    let mut room = CutRoom::new();
    assert!(room.score("dream.wav").is_none());
    room.bring_in("dream.wav", "01WAV");
    assert_eq!(room.music.as_ref().unwrap().0, "01WAV");
    room.clear_music();
    assert!(room.score("dream.wav").is_some(), "a track that is there is not brought in again");
    assert_eq!(track_stem("dream.wav"), "dream");
    assert_eq!(imported_id(&json(r#"{"job_id": "5"}"#)), Ok("5".to_string()));
    assert!(imported_id(&json("{}")).is_err());
    assert!(value(&import_body("a.wav", "data:x")).is_object());
}

#[test]
fn watches_end_with_their_jobs() {
    let mut w = Watches::new();
    assert!(w.begin("7"));
    assert!(!w.begin("7"), "a job is watched once");
    let look = w.look("7", "7", &json(r#"{"status": "running"}"#), 5);
    assert!(look.again && !look.show);
    let look = w.look("7", "7", &json(r#"{"status": "done"}"#), 6);
    assert!(look.show && !look.again);
    assert!(w.begin("7"), "it can be watched anew");
    let look = w.look("7", "8", &json(r#"{"status": "running"}"#), 1300);
    assert!(!look.again, "no watch lasts for ever");
}

#[test]
fn posters_are_fetched_once() {
    let rows = imagine_job_rows(&json(
        r#"[{"job_id": "1", "status": "done"}, {"job_id": "2", "status": "failed"},
            {"job_id": "3", "status": "done"}]"#,
    ));
    let mut t = Thumbs::new();
    assert_eq!(t.backfill(&rows), ["1", "3"]);
    assert!(t.backfill(&rows).is_empty());
    assert_eq!(t.state("1"), Some(ThumbState::Loading));
    assert_eq!(t.state("2"), None);
}

#[test]
fn edit_sources_are_three_at_most() {
    let mut s = EditSources::new();
    for id in ["1", "2", "3", "4", "1"] {
        s.arm(id, "stem");
    }
    assert_eq!(s.list.len(), 3);
    s.disarm("2");
    assert_eq!(s.list.len(), 2);
    let rows = imagine_job_rows(&json(r#"[{"job_id": "1", "prompt": "a cat on a mat"}]"#));
    assert!(!source_stem(&rows, "1").is_empty());
}

#[test]
fn stage_shows_what_was_fetched() {
    let done = json(r#"{"status": "done", "mode": "image_generate", "prompt": "a cat"}"#);
    assert_eq!(wanted(&done), Wanted::Picture);
    assert_eq!(stage(&done, &Fetched::Picture).kind, "image");
    assert_eq!(stage(&done, &Fetched::Picture).note, "done · a cat");
    let video = json(r#"{"status": "done", "mode": "video_generate"}"#);
    assert_eq!(wanted(&video), Wanted::Clip);
    assert_eq!(stage(&video, &Fetched::Clip).note, "video_generate · done");
    let gone = Fetched::Nothing { clip_error: "HTTP 404".to_string() };
    assert_eq!(stage(&video, &gone).note, "video_generate · done · HTTP 404");
    assert_eq!(wanted(&json("{}")), Wanted::Nothing);
    assert_eq!(wanted(&json(r#"{"status": "running", "mode": "video_generate"}"#)), Wanted::Watch);
}

#[test]
fn prompts_are_loaded_within_bounds() {
    let (text, note) = load_prompt("p.txt", "  a prompt  ");
    assert_eq!(text, Some("a prompt".to_string()));
    assert_eq!(note, "📄 prompt loaded from p.txt");
    let (text, note) = load_prompt("p.txt", &"z".repeat(5000));
    assert_eq!(text.unwrap().len(), 4000);
    assert!(note.ends_with(" (truncated to 4k chars)"));
    assert_eq!(load_prompt("p.txt", " \n "), (None, "couldn't read p.txt".to_string()));
}

#[test]
fn player_drops_late_frames() {
    let mut f = Frames { shown: 0, due: 2, ended: false };
    assert!(f.take(Decoded::Frame));
    assert!(f.take(Decoded::Frame));
    assert!(f.take(Decoded::Frame));
    assert!(!f.wants());
    let mut f = Frames { shown: 0, due: 2, ended: false };
    f.take(Decoded::End);
    assert!(f.ended && !f.wants());
    assert_eq!(progress_text(secs(8.9), secs(75.0)), "0:08 / 1:15");
    let now = tick(secs(2.5), secs(8.342));
    assert_eq!((now.due, now.at), (60, secs(2.5)));
    assert_eq!(now.progress, Some(secs(2.5 / 8.342)));
    let late = tick(secs(9.7), secs(8.342));
    assert_eq!((late.due, late.at, late.progress), ((9.7_f32 * 24.0) as u64, secs(8.342), Some(secs(1.0))));
    let unknown = tick(secs(3.0), secs(0.0));
    assert_eq!((unknown.at, unknown.progress), (secs(0.01), None));
    assert_eq!(clip_length(&vec![None, Some(secs(-1.0)), Some(secs(4.5)), Some(secs(9.0))]), secs(4.5));
    assert_eq!(clip_length(&vec![]), secs(0.0));
    assert_eq!(clock_text(3600), "60:00");
    assert_eq!(frame_bytes(4, 2), 32);
    assert!(video_filter(4, 2).contains("scale=4:2"));
}

#[test]
fn pictures_and_stills_are_made_or_not() {
    match generated(&json(r#"{"status": "done", "job_id": "4"}"#)) {
        Generated::Done { id } => assert_eq!(id, "4"),
        other => panic!("{other:?}"),
    }
    match generated(&json(r#"{"status": "failed"}"#)) {
        Generated::Failed { note, .. } => assert_eq!(note, "failed: job did not complete"),
        other => panic!("{other:?}"),
    }
    assert_eq!(still_outcome(&json(r#"{"status": "done", "job_id": "4"}"#)), Ok("4".to_string()));
    assert_eq!(
        still_outcome(&json(r#"{"status": "failed", "error": "no"}"#)),
        Err("cinematic step 1 failed: no".to_string())
    );
    assert_eq!(value(&imagine_still_body("a cat", "16:9"))["prompt"], "a cat");
    assert_eq!(poster_filter(4, 2), "scale=4:2");
}

#[test]
fn sizes_are_scaled_as_doubles_are() {
    let want = |sw: u32, sh: u32, mw: u32, mh: u32| -> (u32, u32) {
        if sw == 0 || sh == 0 || mw < 2 || mh < 2 {
            return (2, 2);
        }
        let scale = (mw as f64 / sw as f64).min(mh as f64 / sh as f64).min(1.0);
        let w = ((sw as f64 * scale) as u32).max(2) & !1;
        let h = ((sh as f64 * scale) as u32).max(2) & !1;
        (w, h)
    };
    assert_eq!(fit_dims(2782, 1221, 250, 1608), (248, 108));
    let mut x: u64 = 0x2545_f491_4f6c_dd1d;
    let mut next = || {
        x ^= x << 13;
        x ^= x >> 7;
        x ^= x << 17;
        x
    };
    for _ in 0..20_000 {
        let shift = next() % 31;
        let d: Vec<u32> = (0..4).map(|_| (next() as u32) >> shift).collect();
        assert_eq!(
            fit_dims(d[0], d[1], d[2], d[3]),
            want(d[0], d[1], d[2], d[3]),
            "{d:?}"
        );
    }
    assert_eq!(fit_dims(u32::MAX, u32::MAX, u32::MAX - 1, 2), want(u32::MAX, u32::MAX, u32::MAX - 1, 2));
    assert_eq!(fit_dims(u32::MAX, 1, 3, 3), want(u32::MAX, 1, 3, 3));
}
