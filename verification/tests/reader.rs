//! The reader, its markdown, and the mandala window.
use apexos_ui::demo::occipital_demo_render;
use apexos_ui::json::{read, render, Json};
use apexos_ui::mandala::{build_mandala_rows, MandalaPane};
use apexos_ui::markdown::{bullet_rest, parse_reader_markdown, strip_inline_md, ReaderBlock};
use apexos_ui::reader::{
    build_occipital_render, cap_crumb, carried, mandala_payload, occipital_payload, push_crumb,
    ReaderLink, ReaderPane,
};

fn json(text: &str) -> Json {
    read(text).expect("a value")
}

fn has(blocks: &[ReaderBlock], kind: &str, part: &str) -> bool {
    blocks.iter().any(|b| b.kind == kind && b.text.contains(part))
}

#[test]
fn occipital_payload_recovers_from_every_transport_shape() {
    let obj = json(r##"{"kind": "page", "url": "https://x", "markdown": "# hi"}"##);
    assert!(occipital_payload(&obj).is_some());
    let text = Json::Str(render(&obj));
    assert!(occipital_payload(&text).is_some());
    let mcp = Json::Arr(vec![Json::Obj(vec![
        ("type".to_string(), Json::Str("text".to_string())),
        ("text".to_string(), Json::Str(render(&obj))),
    ])]);
    assert!(occipital_payload(&mcp).is_some());
    assert_eq!(carried(&obj), (text, mcp));
    assert!(occipital_payload(&json(r#"{"ok": true, "content": "hello"}"#)).is_none());
    assert!(occipital_payload(&json(r#"[{ "type": "text", "text": "{\"foo\":1}" }]"#)).is_none());
}

#[test]
fn every_shape_gives_back_the_payload() {
    let obj = json(
        r#"{"count": 18446744073709551615, "drift": -7, "hits": [{"url": "u", "n": 3}], "kind": "results"}"#,
    );
    let (text, items) = carried(&obj);
    assert_eq!(occipital_payload(&obj).as_ref(), Some(&obj));
    assert_eq!(occipital_payload(&text).as_ref(), Some(&obj));
    assert_eq!(occipital_payload(&items).as_ref(), Some(&obj));
    assert!(mandala_payload(&text).is_none() && mandala_payload(&items).is_none());
}

#[test]
fn mandala_payload_recovers_from_every_transport_shape() {
    let obj = json(r#"{"mandalas": [], "count": 0}"#);
    assert!(mandala_payload(&obj).is_some());
    assert!(mandala_payload(&Json::Str(render(&obj))).is_some());
    let mcp = Json::Arr(vec![Json::Obj(vec![
        ("type".to_string(), Json::Str("text".to_string())),
        ("text".to_string(), Json::Str(render(&obj))),
    ])]);
    assert!(mandala_payload(&mcp).is_some());
    assert!(mandala_payload(&json(r#"{"ok": true, "content": "hello"}"#)).is_none());
    assert!(mandala_payload(&json(r#"{"mandalas": "not-an-array"}"#)).is_none());
}

#[test]
fn mandala_rows_flatten_the_tree_with_depth_and_body_tags() {
    let p = json(
        r#"{"mandalas": [{
            "mandala": 5, "lattice": "quad", "state": "open",
            "open_cells": 2, "cells_budget": 64, "epoch": 3, "fingerprint": "abc123def456",
            "orbits": 1, "orbit_synthesis": "steer 0.0.1, cancel nothing",
            "objective": "first light",
            "census": {"L:111111": 2},
            "cells": [
                {"addr": "0", "form": "spine", "state": "open"},
                {"addr": "0.0", "form": "diamond", "state": "open", "worker": 36, "barrier_timeout_s": 900},
                {"addr": "0.0.1", "form": "spine", "state": "done", "worker": 38,
                 "node": "andre-laptop", "body": "done", "measure_history": [8, 5, 2]}
            ]
        }], "count": 1}"#,
    );
    let (meta, rows) = build_mandala_rows(&p);
    assert_eq!(meta, "1 mandala(s) · 2 open cell(s)");
    assert!(rows[0].text.contains("mandala 5"));
    assert!(rows[0].text.contains("epoch 3"));
    assert!(rows[0].text.contains("⚠ 1 orbit(s)"));
    assert_eq!(rows[0].kind, "mandala");
    assert!(rows[1].text.contains("first light"));
    assert!(rows[2].text.contains("L:111111×2"));
    assert!(rows[3].text.contains("council: steer 0.0.1"));
    assert_eq!(rows[3].state, "orbit");
    assert_eq!(rows[4].depth, 1);
    assert_eq!(rows[5].depth, 2);
    assert_eq!(rows[5].kind, "gate");
    assert!(rows[5].text.contains("holding"));
    assert_eq!(rows[6].depth, 3);
    assert!(rows[6].text.contains("@ andre-laptop (done)"));
    assert!(rows[6].text.contains("m 8→5→2"));
    assert_eq!(rows[6].state, "done");
    let (m2, r2) = build_mandala_rows(&json(r#"{"mandalas": [], "count": 0}"#));
    assert!(m2.is_empty() && r2.is_empty());
}

#[test]
fn build_occipital_render_distill_cards_and_rows() {
    let r = build_occipital_render(&json(
        r#"{
            "kind": "distill", "count": 2,
            "distilled": [
                {"url": "https://a", "title": "A", "summary": "What A says.",
                 "key_points": ["fact one", "fact two"],
                 "entities": ["Alpha"], "tags": ["alpha", "docs"],
                 "model": "llama3.2", "backend": "ollama", "from_cache": false},
                {"url": "https://b", "title": "B", "summary": "What B says.",
                 "key_points": [], "entities": [], "tags": [],
                 "model": "llama3.2", "backend": "ollama", "from_cache": true}
            ],
            "failed": [{"url": "https://c", "error": "needs JavaScript"}],
            "remaining": 4
        }"#,
    ));
    assert_eq!(r.mode, "distill");
    assert_eq!(r.title, "Distilled 2 pages");
    assert_eq!(r.badge, "", "a mixed sweep has no single freshness");
    assert!(r.meta.contains("2 pages distilled"), "meta: {}", r.meta);
    assert!(r.meta.contains("1 failed"), "meta: {}", r.meta);
    assert!(r.meta.contains("4 still undistilled"), "meta: {}", r.meta);
    assert!(r.blocks.iter().any(|b| b.kind == "h2" && b.text == "A"));
    assert!(r.blocks.iter().any(|b| b.kind == "p" && b.text == "What A says."));
    assert!(r.blocks.iter().any(|b| b.kind == "bullet" && b.text == "fact one"));
    assert!(
        r.blocks
            .iter()
            .any(|b| b.kind == "quote" && b.text.contains("🏷 alpha, docs") && b.text.contains("Alpha")),
        "tag/entity line: {:?}",
        r.blocks
    );
    assert!(r.blocks.iter().any(|b| b.kind == "rule"), "pages are separated");
    assert!(
        r.blocks
            .iter()
            .any(|b| b.kind == "quote" && b.text.contains("⚠") && b.text.contains("needs JavaScript")),
        "failures are visible: {:?}",
        r.blocks
    );
    assert_eq!(r.links.len(), 2, "each distilled page is a steerable row");
    assert_eq!(r.links[0].url, "https://a");
    assert_eq!(r.links[0].badge, "ollama", "fresh distill chips its backend");
    assert_eq!(r.links[1].badge, "cache", "hash-gated re-ask chips cache");

    let r = build_occipital_render(&json(
        r#"{
            "kind": "distill", "count": 1,
            "distilled": [{"url": "https://a", "title": "A", "summary": "S.",
                           "key_points": [], "entities": [], "tags": ["t"],
                           "model": "llama3.2", "backend": "cache", "from_cache": true}],
            "failed": [], "remaining": 0
        }"#,
    ));
    assert_eq!(r.title, "A");
    assert_eq!(r.url, "https://a");
    assert_eq!(r.badge, "cache");
    assert!(r.meta.contains("no LLM spend"), "meta: {}", r.meta);
    assert_eq!(r.crumb_label, "distill: A");

    let r = build_occipital_render(&json(
        r#"{"kind": "distill", "count": 0, "distilled": [], "failed": [], "remaining": 0}"#,
    ));
    assert!(
        r.blocks.iter().any(|b| b.kind == "quote" && b.text.contains("already curated")),
        "empty sweep says so: {:?}",
        r.blocks
    );

    assert!(occipital_payload(&json(r#"{"kind": "distill", "distilled": []}"#)).is_some());
}

#[test]
fn build_occipital_render_related_rows() {
    let r = build_occipital_render(&json(
        r#"{
            "kind": "related", "url": "https://a", "title": "A",
            "count": 1, "distilled_total": 7,
            "related": [
                {"url": "https://b", "title": "B", "summary_head": "What B says.",
                 "score": 3.0, "shared_entities": ["Alpha"], "shared_tags": ["docs"]}
            ]
        }"#,
    ));
    assert_eq!(r.mode, "related");
    assert_eq!(r.title, "A");
    assert_eq!(r.links.len(), 1);
    assert_eq!(r.links[0].label, "B");
    assert!(
        r.links[0].detail.starts_with("🏷 Alpha, docs — What B says."),
        "shared terms lead the detail: {}",
        r.links[0].detail
    );
    assert_eq!(r.links[0].badge, "3.0", "overlap score is the chip");
    assert!(r.meta.contains("1 connected page"), "meta: {}", r.meta);
    assert!(r.meta.contains("7 distilled in store"), "meta: {}", r.meta);
    assert_eq!(r.crumb_label, "related: A");

    let r = build_occipital_render(&json(
        r#"{"kind": "related", "url": "https://a", "title": "A",
            "count": 0, "distilled_total": 1, "related": []}"#,
    ));
    assert!(r.links.is_empty());
    assert!(r.meta.contains("0 connected pages · 1 distilled in store"), "meta: {}", r.meta);
    assert!(occipital_payload(&json(r#"{"kind": "related", "related": []}"#)).is_some());
}

#[test]
fn strip_inline_md_cleans_links_and_emphasis() {
    assert_eq!(strip_inline_md("see [the docs](https://x/y) now"), "see the docs now");
    assert_eq!(strip_inline_md("**bold** and *italic* and `code`"), "bold and italic and code");
    assert_eq!(strip_inline_md("![a cat](https://x/c.png)"), "🖼 a cat");
    assert_eq!(strip_inline_md("call foo_bar_baz()"), "call foo_bar_baz()");
    assert_eq!(strip_inline_md("array[0] value"), "array[0] value");
}

#[test]
fn parse_reader_markdown_classifies_blocks() {
    let md = "# Title\n\nA para with **bold**.\n\n## Section\n\n- one\n- two\n\n> a quote\n\n```\ncode line\n```\n\n---\n";
    let blocks = parse_reader_markdown(md);
    let kinds: Vec<&str> = blocks.iter().map(|b| b.kind.as_str()).collect();
    assert_eq!(kinds, ["h1", "p", "h2", "bullet", "bullet", "quote", "code", "rule"]);
    assert_eq!(blocks[0].text, "Title");
    assert_eq!(blocks[1].text, "A para with bold.");
    assert_eq!(blocks[6].text, "code line");
}

#[test]
fn build_occipital_render_per_mode() {
    let r = build_occipital_render(&json(
        r#"{"kind": "results", "query": "q", "provider": "duckduckgo", "from_cache": false,
            "results": [{"title": "T", "url": "https://a", "snippet": "s", "rank": 0}]}"#,
    ));
    assert_eq!(r.mode, "results");
    assert_eq!(r.badge, "live");
    assert_eq!(r.links[0].badge, "#1");

    let r = build_occipital_render(&json(
        r#"{"kind": "recall", "query": "q",
            "hits": [
                {"url": "https://a", "title": "A", "snippet": "s", "score": 0.83},
                {"url": "https://b", "title": "B", "snippet": "s", "score": null}
            ]}"#,
    ));
    assert_eq!(r.mode, "recall");
    assert_eq!(r.badge, "");
    assert_eq!(r.links[0].badge, "0.83");
    assert_eq!(r.links[1].badge, "kw");

    let r = build_occipital_render(&json(
        r##"{"kind": "page", "url": "https://x", "title": "X", "from_cache": true,
            "markdown": "# X\n\nbody", "links": [{"text": "next", "url": "https://n"}]}"##,
    ));
    assert_eq!(r.mode, "page");
    assert_eq!(r.badge, "cache");
    assert_eq!(r.title, "X");
    assert!(r.blocks.iter().any(|b| b.kind == "h1" && b.text == "X"));
    assert_eq!(r.links[0].label, "next");

    let r = build_occipital_render(&json(
        r##"{"kind": "page", "url": "https://x", "title": "X", "from_cache": false,
            "salvaged": true,
            "markdown": "intro\n\n[form#1 → GET /search — search \"q\" · submit \"Go\"]"}"##,
    ));
    assert!(
        r.blocks.iter().any(|b| b.kind == "form" && b.text.starts_with("form#1")),
        "form annotation should re-kind: {:?}",
        r.blocks
    );
    assert!(r.meta.contains("salvaged"), "meta: {}", r.meta);

    let r = build_occipital_render(&json(
        r#"{"kind": "page", "url": "https://spa", "title": "SPA",
            "from_cache": false, "js_required": true, "markdown": ""}"#,
    ));
    assert!(
        r.blocks.iter().any(|b| b.kind == "quote" && b.text.contains("JavaScript")),
        "js_required should render an honest block: {:?}",
        r.blocks
    );

    let r = build_occipital_render(&json(
        r##"{"kind": "click", "element": "link:3",
            "source_url": "https://a", "target_url": "https://b",
            "url": "https://b", "title": "B", "from_cache": false, "status": null,
            "markdown": "# B\n\nlanded"}"##,
    ));
    assert_eq!(r.mode, "click");
    assert_eq!(r.badge, "live");
    assert!(r.meta.contains("clicked link:3 → https://b"), "meta: {}", r.meta);
    assert!(r.blocks.iter().any(|b| b.kind == "h1"));

    let r = build_occipital_render(&json(
        r###"{"kind": "submit", "source_url": "https://a",
            "form": 1, "action": "https://a/search", "method": "get",
            "sent": [{"name": "q", "value": "rust"}], "status": 200, "cached": true,
            "url": "https://a/search?q=rust", "title": "results", "markdown": "## r"}"###,
    ));
    assert_eq!(r.mode, "submit");
    assert_eq!(r.badge, "cache");
    assert!(r.meta.contains("form#1 GET https://a/search"), "meta: {}", r.meta);
    assert!(r.meta.contains("q=rust"), "meta: {}", r.meta);
    assert!(r.meta.contains("HTTP 200"), "meta: {}", r.meta);

    let r = build_occipital_render(&json(
        r#"{"kind": "dom", "url": "https://x", "title": "X", "from_cache": true,
            "snapshot": true, "links": [{"idx": 1, "text": "a", "url": "https://a"}],
            "forms": [{"idx": 1, "action": "https://x/s", "method": "post",
                       "fields": [{"name": "q", "kind": "text"},
                                  {"name": "csrf", "kind": "hidden"}],
                       "submit": "Send"}]}"#,
    ));
    assert_eq!(r.mode, "dom");
    assert_eq!(r.badge, "", "dom is a registry — no freshness badge");
    assert_eq!(r.links[0].badge, "#1");
    let form_row = &r.links[1];
    assert_eq!(form_row.label, "form#1 → POST https://x/s");
    assert_eq!(form_row.url, "", "form rows must not be steerable");
    assert!(form_row.detail.contains("text \"q\""), "detail: {}", form_row.detail);
    assert!(!form_row.detail.contains("csrf"), "hidden fields stay out: {}", form_row.detail);
    assert!(form_row.detail.contains("submit \"Send\""), "detail: {}", form_row.detail);
    assert!(r.meta.contains("1 link · 1 form"), "meta: {}", r.meta);
    assert!(r.meta.contains("snapshot held"), "meta: {}", r.meta);

    let r = build_occipital_render(&json(r#"{"kind": "hologram", "url": "https://x"}"#));
    assert!(r.title.contains("hologram"), "title: {}", r.title);
    assert_ne!(r.mode, "recall", "an unknown kind is never shown as recall");
}

#[test]
fn every_sample_shows_its_own_mode() {
    for (mode, shown) in [
        ("results", "results"),
        ("recall", "recall"),
        ("dom", "dom"),
        ("click", "click"),
        ("submit", "submit"),
        ("distill", "distill"),
        ("related", "related"),
        ("1", "page"),
        (" results ", "results"),
    ] {
        let r = occipital_demo_render(mode);
        assert_eq!(r.mode, shown, "sample {mode}");
        assert!(!r.title.is_empty(), "sample {mode}");
    }
}

#[test]
fn trail_keeps_the_last_stops_and_no_repeat() {
    let mut trail: Vec<ReaderLink> = Vec::new();
    for i in 0..12 {
        push_crumb(&mut trail, format!("stop {i}"), format!("https://{i}"));
    }
    assert_eq!(trail.len(), 8);
    assert_eq!(trail[0].label, "stop 4");
    push_crumb(&mut trail, "stop 11".to_string(), "https://11".to_string());
    assert_eq!(trail.len(), 8);
    assert_eq!(trail[7].label, "stop 11");
}

#[test]
fn panes_count_what_they_show() {
    let mut pane = ReaderPane::new();
    pane.apply_occipital_render(occipital_demo_render("results"));
    assert_eq!(pane.scroll_tick, 1);
    assert_eq!(pane.page.mode, "results");
    assert_eq!(pane.trail.len(), 1);
    let mut m = MandalaPane::new();
    m.apply_mandala_render(&json(r#"{"mandalas": [{"mandala": 1, "cells": []}]}"#));
    assert_eq!(m.scroll_tick, 1);
    assert!(!m.rows.is_empty());
}

#[test]
fn bullets_and_crumbs() {
    assert_eq!(bullet_rest("- one"), Some("one"));
    assert_eq!(bullet_rest("* two"), Some("two"));
    assert_eq!(bullet_rest("-three"), None);
    assert_eq!(cap_crumb("short"), "short");
    let long = "x".repeat(100);
    assert!(cap_crumb(&long).chars().count() < 100);
    assert!(has(&parse_reader_markdown("  + first"), "bullet", "first"));
    assert_eq!(parse_reader_markdown("    - deep")[0].depth, 2);
    assert!(has(&parse_reader_markdown("1. first"), "p", "1. first"));
}

#[test]
fn long_code_is_cut() {
    let md = format!("```\n{}\n```", "y".repeat(5000));
    let blocks = parse_reader_markdown(&md);
    assert_eq!(blocks[0].kind, "code");
    assert!(blocks[0].text.len() < 5000);
    let many = "a\n\n".repeat(900);
    let blocks = parse_reader_markdown(&many);
    assert_eq!(blocks.len(), 402);
    assert_eq!(blocks[401].text, "… (page truncated for display)");
}
