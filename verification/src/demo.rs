//! Sample payloads for the reader window, one of each kind, so that it can be looked
//! at without an agent or a network.
use vstd::prelude::*;
use crate::json::{entries, milli_json, put, text_at, uint_json, Json, JsonV};
use crate::reader::{build_occipital_render, render_v, OccipitalRender};
use crate::text::{same, trim, trimmed, views};

verus! {

broadcast use {
    crate::text::views_push,
    crate::text::views_empty,
    crate::json::entries_empty,
};

// ── Dom ─────────────────────────────────────────────────────────────────────

pub open spec fn dom_links_1_v() -> JsonV {
    JsonV::Obj(
        seq![
            ("idx"@, uint_json(1)),
            ("text"@, JsonV::Str("official 27W PD supply"@)),
            ("url"@, JsonV::Str("https://www.raspberrypi.com/products/27w-power-supply/"@)),
        ],
    )
}

fn dom_links_1() -> (r: Json)
    ensures
        r@ == dom_links_1_v(),
{
    let mut e: Vec<(String, Json)> = Vec::new();
    put(&mut e, "idx", Json::uint(1));
    put(&mut e, "text", Json::str("official 27W PD supply"));
    put(&mut e, "url", Json::str("https://www.raspberrypi.com/products/27w-power-supply/"));
    assert(entries(e@) =~= dom_links_1_v()->Obj_0);
    Json::object(e)
}

pub open spec fn dom_links_2_v() -> JsonV {
    JsonV::Obj(
        seq![
            ("idx"@, uint_json(2)),
            ("text"@, JsonV::Str("product page"@)),
            ("url"@, JsonV::Str("https://www.raspberrypi.com/products/raspberry-pi-5/"@)),
        ],
    )
}

fn dom_links_2() -> (r: Json)
    ensures
        r@ == dom_links_2_v(),
{
    let mut e: Vec<(String, Json)> = Vec::new();
    put(&mut e, "idx", Json::uint(2));
    put(&mut e, "text", Json::str("product page"));
    put(&mut e, "url", Json::str("https://www.raspberrypi.com/products/raspberry-pi-5/"));
    assert(entries(e@) =~= dom_links_2_v()->Obj_0);
    Json::object(e)
}

pub open spec fn dom_links_v() -> JsonV {
    JsonV::Arr(
        seq![
            dom_links_1_v(),
            dom_links_2_v(),
        ],
    )
}

fn dom_links() -> (r: Json)
    ensures
        r@ == dom_links_v(),
{
    let mut v: Vec<Json> = Vec::new();
    v.push(dom_links_1());
    v.push(dom_links_2());
    assert(views(v@) =~= dom_links_v()->Arr_0);
    Json::list(v)
}

pub open spec fn dom_forms_1_fields_1_v() -> JsonV {
    JsonV::Obj(
        seq![
            ("name"@, JsonV::Str("q"@)),
            ("kind"@, JsonV::Str("search"@)),
            ("label"@, JsonV::Str("Search"@)),
        ],
    )
}

fn dom_forms_1_fields_1() -> (r: Json)
    ensures
        r@ == dom_forms_1_fields_1_v(),
{
    let mut e: Vec<(String, Json)> = Vec::new();
    put(&mut e, "name", Json::str("q"));
    put(&mut e, "kind", Json::str("search"));
    put(&mut e, "label", Json::str("Search"));
    assert(entries(e@) =~= dom_forms_1_fields_1_v()->Obj_0);
    Json::object(e)
}

pub open spec fn dom_forms_1_fields_v() -> JsonV {
    JsonV::Arr(
        seq![
            dom_forms_1_fields_1_v(),
        ],
    )
}

fn dom_forms_1_fields() -> (r: Json)
    ensures
        r@ == dom_forms_1_fields_v(),
{
    let mut v: Vec<Json> = Vec::new();
    v.push(dom_forms_1_fields_1());
    assert(views(v@) =~= dom_forms_1_fields_v()->Arr_0);
    Json::list(v)
}

pub open spec fn dom_forms_1_v() -> JsonV {
    JsonV::Obj(
        seq![
            ("idx"@, uint_json(1)),
            ("action"@, JsonV::Str("https://www.raspberrypi.com/search"@)),
            ("method"@, JsonV::Str("get"@)),
            ("fields"@, dom_forms_1_fields_v()),
            ("submit"@, JsonV::Str("Go"@)),
        ],
    )
}

fn dom_forms_1() -> (r: Json)
    ensures
        r@ == dom_forms_1_v(),
{
    let mut e: Vec<(String, Json)> = Vec::new();
    put(&mut e, "idx", Json::uint(1));
    put(&mut e, "action", Json::str("https://www.raspberrypi.com/search"));
    put(&mut e, "method", Json::str("get"));
    put(&mut e, "fields", dom_forms_1_fields());
    put(&mut e, "submit", Json::str("Go"));
    assert(entries(e@) =~= dom_forms_1_v()->Obj_0);
    Json::object(e)
}

pub open spec fn dom_forms_v() -> JsonV {
    JsonV::Arr(
        seq![
            dom_forms_1_v(),
        ],
    )
}

fn dom_forms() -> (r: Json)
    ensures
        r@ == dom_forms_v(),
{
    let mut v: Vec<Json> = Vec::new();
    v.push(dom_forms_1());
    assert(views(v@) =~= dom_forms_v()->Arr_0);
    Json::list(v)
}

/// The sample of the kind `dom`.
pub open spec fn dom_v() -> JsonV {
    JsonV::Obj(
        seq![
            ("kind"@, JsonV::Str("dom"@)),
            ("url"@, JsonV::Str("https://www.raspberrypi.com/products/raspberry-pi-5/"@)),
            ("title"@, JsonV::Str("Raspberry Pi 5"@)),
            ("from_cache"@, JsonV::Bool(true)),
            ("snapshot"@, JsonV::Bool(true)),
            ("salvaged"@, JsonV::Bool(false)),
            ("js_required"@, JsonV::Bool(false)),
            ("content_hash"@, JsonV::Str("abc123"@)),
            ("links"@, dom_links_v()),
            ("forms"@, dom_forms_v()),
        ],
    )
}

fn dom() -> (r: Json)
    ensures
        r@ == dom_v(),
{
    let mut e: Vec<(String, Json)> = Vec::new();
    put(&mut e, "kind", Json::str("dom"));
    put(&mut e, "url", Json::str("https://www.raspberrypi.com/products/raspberry-pi-5/"));
    put(&mut e, "title", Json::str("Raspberry Pi 5"));
    put(&mut e, "from_cache", Json::Bool(true));
    put(&mut e, "snapshot", Json::Bool(true));
    put(&mut e, "salvaged", Json::Bool(false));
    put(&mut e, "js_required", Json::Bool(false));
    put(&mut e, "content_hash", Json::str("abc123"));
    put(&mut e, "links", dom_links());
    put(&mut e, "forms", dom_forms());
    assert(entries(e@) =~= dom_v()->Obj_0);
    Json::object(e)
}

// ── Click ───────────────────────────────────────────────────────────────────

pub open spec fn click_links_1_v() -> JsonV {
    JsonV::Obj(
        seq![
            ("text"@, JsonV::Str("Raspberry Pi 5"@)),
            ("url"@, JsonV::Str("https://www.raspberrypi.com/products/raspberry-pi-5/"@)),
        ],
    )
}

fn click_links_1() -> (r: Json)
    ensures
        r@ == click_links_1_v(),
{
    let mut e: Vec<(String, Json)> = Vec::new();
    put(&mut e, "text", Json::str("Raspberry Pi 5"));
    put(&mut e, "url", Json::str("https://www.raspberrypi.com/products/raspberry-pi-5/"));
    assert(entries(e@) =~= click_links_1_v()->Obj_0);
    Json::object(e)
}

pub open spec fn click_links_v() -> JsonV {
    JsonV::Arr(
        seq![
            click_links_1_v(),
        ],
    )
}

fn click_links() -> (r: Json)
    ensures
        r@ == click_links_v(),
{
    let mut v: Vec<Json> = Vec::new();
    v.push(click_links_1());
    assert(views(v@) =~= click_links_v()->Arr_0);
    Json::list(v)
}

pub open spec fn click_forms_1_fields_1_v() -> JsonV {
    JsonV::Obj(
        seq![
            ("name"@, JsonV::Str("q"@)),
            ("kind"@, JsonV::Str("search"@)),
        ],
    )
}

fn click_forms_1_fields_1() -> (r: Json)
    ensures
        r@ == click_forms_1_fields_1_v(),
{
    let mut e: Vec<(String, Json)> = Vec::new();
    put(&mut e, "name", Json::str("q"));
    put(&mut e, "kind", Json::str("search"));
    assert(entries(e@) =~= click_forms_1_fields_1_v()->Obj_0);
    Json::object(e)
}

pub open spec fn click_forms_1_fields_v() -> JsonV {
    JsonV::Arr(
        seq![
            click_forms_1_fields_1_v(),
        ],
    )
}

fn click_forms_1_fields() -> (r: Json)
    ensures
        r@ == click_forms_1_fields_v(),
{
    let mut v: Vec<Json> = Vec::new();
    v.push(click_forms_1_fields_1());
    assert(views(v@) =~= click_forms_1_fields_v()->Arr_0);
    Json::list(v)
}

pub open spec fn click_forms_1_v() -> JsonV {
    JsonV::Obj(
        seq![
            ("idx"@, uint_json(1)),
            ("action"@, JsonV::Str("https://www.raspberrypi.com/search"@)),
            ("method"@, JsonV::Str("get"@)),
            ("fields"@, click_forms_1_fields_v()),
            ("submit"@, JsonV::Str("Go"@)),
        ],
    )
}

fn click_forms_1() -> (r: Json)
    ensures
        r@ == click_forms_1_v(),
{
    let mut e: Vec<(String, Json)> = Vec::new();
    put(&mut e, "idx", Json::uint(1));
    put(&mut e, "action", Json::str("https://www.raspberrypi.com/search"));
    put(&mut e, "method", Json::str("get"));
    put(&mut e, "fields", click_forms_1_fields());
    put(&mut e, "submit", Json::str("Go"));
    assert(entries(e@) =~= click_forms_1_v()->Obj_0);
    Json::object(e)
}

pub open spec fn click_forms_v() -> JsonV {
    JsonV::Arr(
        seq![
            click_forms_1_v(),
        ],
    )
}

fn click_forms() -> (r: Json)
    ensures
        r@ == click_forms_v(),
{
    let mut v: Vec<Json> = Vec::new();
    v.push(click_forms_1());
    assert(views(v@) =~= click_forms_v()->Arr_0);
    Json::list(v)
}

/// The sample of the kind `click`.
pub open spec fn click_v() -> JsonV {
    JsonV::Obj(
        seq![
            ("kind"@, JsonV::Str("click"@)),
            ("element"@, JsonV::Str("link:1"@)),
            ("source_url"@, JsonV::Str("https://www.raspberrypi.com/products/raspberry-pi-5/"@)),
            ("target_url"@, JsonV::Str("https://www.raspberrypi.com/products/27w-power-supply/"@)),
            ("url"@, JsonV::Str("https://www.raspberrypi.com/products/27w-power-supply/"@)),
            ("title"@, JsonV::Str("27W USB-C Power Supply"@)),
            ("from_cache"@, JsonV::Bool(false)),
            ("status"@, JsonV::Null),
            ("markdown"@, JsonV::Str("# 27W USB-C Power Supply\n\nThe official Raspberry Pi 27W USB-C PD supply delivers **5V/5A** for full Pi 5 performance and peripheral power.\n\n[form#1 → GET https://www.raspberrypi.com/search — search \"q\" · submit \"Go\"]"@)),
            ("links"@, click_links_v()),
            ("forms"@, click_forms_v()),
            ("salvaged"@, JsonV::Bool(false)),
            ("js_required"@, JsonV::Bool(false)),
            ("content_hash"@, JsonV::Str("def456"@)),
        ],
    )
}

fn click() -> (r: Json)
    ensures
        r@ == click_v(),
{
    let mut e: Vec<(String, Json)> = Vec::new();
    put(&mut e, "kind", Json::str("click"));
    put(&mut e, "element", Json::str("link:1"));
    put(&mut e, "source_url", Json::str("https://www.raspberrypi.com/products/raspberry-pi-5/"));
    put(&mut e, "target_url", Json::str("https://www.raspberrypi.com/products/27w-power-supply/"));
    put(&mut e, "url", Json::str("https://www.raspberrypi.com/products/27w-power-supply/"));
    put(&mut e, "title", Json::str("27W USB-C Power Supply"));
    put(&mut e, "from_cache", Json::Bool(false));
    put(&mut e, "status", Json::Null);
    put(&mut e, "markdown", Json::str("# 27W USB-C Power Supply\n\nThe official Raspberry Pi 27W USB-C PD supply delivers **5V/5A** for full Pi 5 performance and peripheral power.\n\n[form#1 → GET https://www.raspberrypi.com/search — search \"q\" · submit \"Go\"]"));
    put(&mut e, "links", click_links());
    put(&mut e, "forms", click_forms());
    put(&mut e, "salvaged", Json::Bool(false));
    put(&mut e, "js_required", Json::Bool(false));
    put(&mut e, "content_hash", Json::str("def456"));
    assert(entries(e@) =~= click_v()->Obj_0);
    Json::object(e)
}

// ── Submit ──────────────────────────────────────────────────────────────────

pub open spec fn submit_sent_1_v() -> JsonV {
    JsonV::Obj(
        seq![
            ("name"@, JsonV::Str("q"@)),
            ("value"@, JsonV::Str("pi 5 power delivery"@)),
        ],
    )
}

fn submit_sent_1() -> (r: Json)
    ensures
        r@ == submit_sent_1_v(),
{
    let mut e: Vec<(String, Json)> = Vec::new();
    put(&mut e, "name", Json::str("q"));
    put(&mut e, "value", Json::str("pi 5 power delivery"));
    assert(entries(e@) =~= submit_sent_1_v()->Obj_0);
    Json::object(e)
}

pub open spec fn submit_sent_v() -> JsonV {
    JsonV::Arr(
        seq![
            submit_sent_1_v(),
        ],
    )
}

fn submit_sent() -> (r: Json)
    ensures
        r@ == submit_sent_v(),
{
    let mut v: Vec<Json> = Vec::new();
    v.push(submit_sent_1());
    assert(views(v@) =~= submit_sent_v()->Arr_0);
    Json::list(v)
}

pub open spec fn submit_links_1_v() -> JsonV {
    JsonV::Obj(
        seq![
            ("text"@, JsonV::Str("Raspberry Pi 5"@)),
            ("url"@, JsonV::Str("https://www.raspberrypi.com/products/raspberry-pi-5/"@)),
        ],
    )
}

fn submit_links_1() -> (r: Json)
    ensures
        r@ == submit_links_1_v(),
{
    let mut e: Vec<(String, Json)> = Vec::new();
    put(&mut e, "text", Json::str("Raspberry Pi 5"));
    put(&mut e, "url", Json::str("https://www.raspberrypi.com/products/raspberry-pi-5/"));
    assert(entries(e@) =~= submit_links_1_v()->Obj_0);
    Json::object(e)
}

pub open spec fn submit_links_2_v() -> JsonV {
    JsonV::Obj(
        seq![
            ("text"@, JsonV::Str("27W Power Supply"@)),
            ("url"@, JsonV::Str("https://www.raspberrypi.com/products/27w-power-supply/"@)),
        ],
    )
}

fn submit_links_2() -> (r: Json)
    ensures
        r@ == submit_links_2_v(),
{
    let mut e: Vec<(String, Json)> = Vec::new();
    put(&mut e, "text", Json::str("27W Power Supply"));
    put(&mut e, "url", Json::str("https://www.raspberrypi.com/products/27w-power-supply/"));
    assert(entries(e@) =~= submit_links_2_v()->Obj_0);
    Json::object(e)
}

pub open spec fn submit_links_v() -> JsonV {
    JsonV::Arr(
        seq![
            submit_links_1_v(),
            submit_links_2_v(),
        ],
    )
}

fn submit_links() -> (r: Json)
    ensures
        r@ == submit_links_v(),
{
    let mut v: Vec<Json> = Vec::new();
    v.push(submit_links_1());
    v.push(submit_links_2());
    assert(views(v@) =~= submit_links_v()->Arr_0);
    Json::list(v)
}

pub open spec fn submit_forms_v() -> JsonV {
    JsonV::Arr(Seq::empty())
}

fn submit_forms() -> (r: Json)
    ensures
        r@ == submit_forms_v(),
{
    Json::list(Vec::new())
}

/// The sample of the kind `submit`.
pub open spec fn submit_v() -> JsonV {
    JsonV::Obj(
        seq![
            ("kind"@, JsonV::Str("submit"@)),
            ("source_url"@, JsonV::Str("https://www.raspberrypi.com/"@)),
            ("form"@, uint_json(1)),
            ("action"@, JsonV::Str("https://www.raspberrypi.com/search"@)),
            ("method"@, JsonV::Str("get"@)),
            ("sent"@, submit_sent_v()),
            ("status"@, JsonV::Null),
            ("cached"@, JsonV::Bool(false)),
            ("url"@, JsonV::Str("https://www.raspberrypi.com/search?q=pi+5+power+delivery"@)),
            ("title"@, JsonV::Str("Search — pi 5 power delivery"@)),
            ("markdown"@, JsonV::Str("## Results\n\n- [Raspberry Pi 5](https://www.raspberrypi.com/products/raspberry-pi-5/) — the board itself\n- [27W Power Supply](https://www.raspberrypi.com/products/27w-power-supply/) — the official 5V/5A PD supply"@)),
            ("links"@, submit_links_v()),
            ("forms"@, submit_forms_v()),
            ("salvaged"@, JsonV::Bool(false)),
            ("js_required"@, JsonV::Bool(false)),
            ("content_hash"@, JsonV::Str("ghi789"@)),
        ],
    )
}

fn submit() -> (r: Json)
    ensures
        r@ == submit_v(),
{
    let mut e: Vec<(String, Json)> = Vec::new();
    put(&mut e, "kind", Json::str("submit"));
    put(&mut e, "source_url", Json::str("https://www.raspberrypi.com/"));
    put(&mut e, "form", Json::uint(1));
    put(&mut e, "action", Json::str("https://www.raspberrypi.com/search"));
    put(&mut e, "method", Json::str("get"));
    put(&mut e, "sent", submit_sent());
    put(&mut e, "status", Json::Null);
    put(&mut e, "cached", Json::Bool(false));
    put(&mut e, "url", Json::str("https://www.raspberrypi.com/search?q=pi+5+power+delivery"));
    put(&mut e, "title", Json::str("Search — pi 5 power delivery"));
    put(&mut e, "markdown", Json::str("## Results\n\n- [Raspberry Pi 5](https://www.raspberrypi.com/products/raspberry-pi-5/) — the board itself\n- [27W Power Supply](https://www.raspberrypi.com/products/27w-power-supply/) — the official 5V/5A PD supply"));
    put(&mut e, "links", submit_links());
    put(&mut e, "forms", submit_forms());
    put(&mut e, "salvaged", Json::Bool(false));
    put(&mut e, "js_required", Json::Bool(false));
    put(&mut e, "content_hash", Json::str("ghi789"));
    assert(entries(e@) =~= submit_v()->Obj_0);
    Json::object(e)
}

// ── Results ─────────────────────────────────────────────────────────────────

pub open spec fn results_results_1_v() -> JsonV {
    JsonV::Obj(
        seq![
            ("title"@, JsonV::Str("Raspberry Pi 5 — 27W Power Supply"@)),
            ("url"@, JsonV::Str("https://www.raspberrypi.com/products/27w-power-supply/"@)),
            ("snippet"@, JsonV::Str("The official 27W USB-C PD supply delivers 5V/5A for full Pi 5 performance and peripheral power."@)),
            ("rank"@, uint_json(0)),
        ],
    )
}

fn results_results_1() -> (r: Json)
    ensures
        r@ == results_results_1_v(),
{
    let mut e: Vec<(String, Json)> = Vec::new();
    put(&mut e, "title", Json::str("Raspberry Pi 5 — 27W Power Supply"));
    put(&mut e, "url", Json::str("https://www.raspberrypi.com/products/27w-power-supply/"));
    put(&mut e, "snippet", Json::str("The official 27W USB-C PD supply delivers 5V/5A for full Pi 5 performance and peripheral power."));
    put(&mut e, "rank", Json::uint(0));
    assert(entries(e@) =~= results_results_1_v()->Obj_0);
    Json::object(e)
}

pub open spec fn results_results_2_v() -> JsonV {
    JsonV::Obj(
        seq![
            ("title"@, JsonV::Str("Pi 5 USB-C PD requirements"@)),
            ("url"@, JsonV::Str("https://forums.raspberrypi.com/viewtopic.php?t=357789"@)),
            ("snippet"@, JsonV::Str("Without a 5V/5A PD source the firmware caps downstream USB to 600mA."@)),
            ("rank"@, uint_json(1)),
        ],
    )
}

fn results_results_2() -> (r: Json)
    ensures
        r@ == results_results_2_v(),
{
    let mut e: Vec<(String, Json)> = Vec::new();
    put(&mut e, "title", Json::str("Pi 5 USB-C PD requirements"));
    put(&mut e, "url", Json::str("https://forums.raspberrypi.com/viewtopic.php?t=357789"));
    put(&mut e, "snippet", Json::str("Without a 5V/5A PD source the firmware caps downstream USB to 600mA."));
    put(&mut e, "rank", Json::uint(1));
    assert(entries(e@) =~= results_results_2_v()->Obj_0);
    Json::object(e)
}

pub open spec fn results_results_3_v() -> JsonV {
    JsonV::Obj(
        seq![
            ("title"@, JsonV::Str("USB-C PD trigger boards explained"@)),
            ("url"@, JsonV::Str("https://example.com/pd-trigger"@)),
            ("snippet"@, JsonV::Str("A PD trigger negotiates a fixed 5V/5A profile from any compliant USB-C PD brick."@)),
            ("rank"@, uint_json(2)),
        ],
    )
}

fn results_results_3() -> (r: Json)
    ensures
        r@ == results_results_3_v(),
{
    let mut e: Vec<(String, Json)> = Vec::new();
    put(&mut e, "title", Json::str("USB-C PD trigger boards explained"));
    put(&mut e, "url", Json::str("https://example.com/pd-trigger"));
    put(&mut e, "snippet", Json::str("A PD trigger negotiates a fixed 5V/5A profile from any compliant USB-C PD brick."));
    put(&mut e, "rank", Json::uint(2));
    assert(entries(e@) =~= results_results_3_v()->Obj_0);
    Json::object(e)
}

pub open spec fn results_results_v() -> JsonV {
    JsonV::Arr(
        seq![
            results_results_1_v(),
            results_results_2_v(),
            results_results_3_v(),
        ],
    )
}

fn results_results() -> (r: Json)
    ensures
        r@ == results_results_v(),
{
    let mut v: Vec<Json> = Vec::new();
    v.push(results_results_1());
    v.push(results_results_2());
    v.push(results_results_3());
    assert(views(v@) =~= results_results_v()->Arr_0);
    Json::list(v)
}

/// The sample of the kind `results`.
pub open spec fn results_v() -> JsonV {
    JsonV::Obj(
        seq![
            ("kind"@, JsonV::Str("results"@)),
            ("query"@, JsonV::Str("raspberry pi 5 power delivery"@)),
            ("provider"@, JsonV::Str("duckduckgo"@)),
            ("count"@, uint_json(3)),
            ("from_cache"@, JsonV::Bool(false)),
            ("results"@, results_results_v()),
        ],
    )
}

fn results() -> (r: Json)
    ensures
        r@ == results_v(),
{
    let mut e: Vec<(String, Json)> = Vec::new();
    put(&mut e, "kind", Json::str("results"));
    put(&mut e, "query", Json::str("raspberry pi 5 power delivery"));
    put(&mut e, "provider", Json::str("duckduckgo"));
    put(&mut e, "count", Json::uint(3));
    put(&mut e, "from_cache", Json::Bool(false));
    put(&mut e, "results", results_results());
    assert(entries(e@) =~= results_v()->Obj_0);
    Json::object(e)
}

// ── Recall ──────────────────────────────────────────────────────────────────

pub open spec fn recall_hits_1_v() -> JsonV {
    JsonV::Obj(
        seq![
            ("url"@, JsonV::Str("https://www.raspberrypi.com/products/27w-power-supply/"@)),
            ("title"@, JsonV::Str("Pi 5 27W PSU"@)),
            ("snippet"@, JsonV::Str("5V/5A USB-C PD — the official supply."@)),
            ("score"@, milli_json(830)),
        ],
    )
}

fn recall_hits_1() -> (r: Json)
    ensures
        r@ == recall_hits_1_v(),
{
    let mut e: Vec<(String, Json)> = Vec::new();
    put(&mut e, "url", Json::str("https://www.raspberrypi.com/products/27w-power-supply/"));
    put(&mut e, "title", Json::str("Pi 5 27W PSU"));
    put(&mut e, "snippet", Json::str("5V/5A USB-C PD — the official supply."));
    put(&mut e, "score", Json::milli(830));
    assert(entries(e@) =~= recall_hits_1_v()->Obj_0);
    Json::object(e)
}

pub open spec fn recall_hits_2_v() -> JsonV {
    JsonV::Obj(
        seq![
            ("url"@, JsonV::Str("https://forums.raspberrypi.com/viewtopic.php?t=357789"@)),
            ("title"@, JsonV::Str("PD requirements thread"@)),
            ("snippet"@, JsonV::Str("Caps peripherals without 5A."@)),
            ("score"@, JsonV::Null),
        ],
    )
}

fn recall_hits_2() -> (r: Json)
    ensures
        r@ == recall_hits_2_v(),
{
    let mut e: Vec<(String, Json)> = Vec::new();
    put(&mut e, "url", Json::str("https://forums.raspberrypi.com/viewtopic.php?t=357789"));
    put(&mut e, "title", Json::str("PD requirements thread"));
    put(&mut e, "snippet", Json::str("Caps peripherals without 5A."));
    put(&mut e, "score", Json::Null);
    assert(entries(e@) =~= recall_hits_2_v()->Obj_0);
    Json::object(e)
}

pub open spec fn recall_hits_v() -> JsonV {
    JsonV::Arr(
        seq![
            recall_hits_1_v(),
            recall_hits_2_v(),
        ],
    )
}

fn recall_hits() -> (r: Json)
    ensures
        r@ == recall_hits_v(),
{
    let mut v: Vec<Json> = Vec::new();
    v.push(recall_hits_1());
    v.push(recall_hits_2());
    assert(views(v@) =~= recall_hits_v()->Arr_0);
    Json::list(v)
}

/// The sample of the kind `recall`.
pub open spec fn recall_v() -> JsonV {
    JsonV::Obj(
        seq![
            ("kind"@, JsonV::Str("recall"@)),
            ("query"@, JsonV::Str("pi power delivery"@)),
            ("count"@, uint_json(2)),
            ("hits"@, recall_hits_v()),
        ],
    )
}

fn recall() -> (r: Json)
    ensures
        r@ == recall_v(),
{
    let mut e: Vec<(String, Json)> = Vec::new();
    put(&mut e, "kind", Json::str("recall"));
    put(&mut e, "query", Json::str("pi power delivery"));
    put(&mut e, "count", Json::uint(2));
    put(&mut e, "hits", recall_hits());
    assert(entries(e@) =~= recall_v()->Obj_0);
    Json::object(e)
}

// ── Related ─────────────────────────────────────────────────────────────────

pub open spec fn related_related_1_shared_entities_v() -> JsonV {
    JsonV::Arr(
        seq![
            JsonV::Str("Raspberry Pi 5"@),
            JsonV::Str("USB-C PD"@),
        ],
    )
}

fn related_related_1_shared_entities() -> (r: Json)
    ensures
        r@ == related_related_1_shared_entities_v(),
{
    let mut v: Vec<Json> = Vec::new();
    v.push(Json::str("Raspberry Pi 5"));
    v.push(Json::str("USB-C PD"));
    assert(views(v@) =~= related_related_1_shared_entities_v()->Arr_0);
    Json::list(v)
}

pub open spec fn related_related_1_shared_tags_v() -> JsonV {
    JsonV::Arr(
        seq![
            JsonV::Str("raspberry-pi"@),
        ],
    )
}

fn related_related_1_shared_tags() -> (r: Json)
    ensures
        r@ == related_related_1_shared_tags_v(),
{
    let mut v: Vec<Json> = Vec::new();
    v.push(Json::str("raspberry-pi"));
    assert(views(v@) =~= related_related_1_shared_tags_v()->Arr_0);
    Json::list(v)
}

pub open spec fn related_related_1_v() -> JsonV {
    JsonV::Obj(
        seq![
            ("url"@, JsonV::Str("https://www.raspberrypi.com/products/27w-power-supply/"@)),
            ("title"@, JsonV::Str("27W Power Supply"@)),
            ("summary_head"@, JsonV::Str("The official 27W USB-C PD supply delivers the 5V/5A profile the Pi 5 needs."@)),
            ("score"@, milli_json(5000)),
            ("shared_entities"@, related_related_1_shared_entities_v()),
            ("shared_tags"@, related_related_1_shared_tags_v()),
        ],
    )
}

fn related_related_1() -> (r: Json)
    ensures
        r@ == related_related_1_v(),
{
    let mut e: Vec<(String, Json)> = Vec::new();
    put(&mut e, "url", Json::str("https://www.raspberrypi.com/products/27w-power-supply/"));
    put(&mut e, "title", Json::str("27W Power Supply"));
    put(&mut e, "summary_head", Json::str("The official 27W USB-C PD supply delivers the 5V/5A profile the Pi 5 needs."));
    put(&mut e, "score", Json::milli(5000));
    put(&mut e, "shared_entities", related_related_1_shared_entities());
    put(&mut e, "shared_tags", related_related_1_shared_tags());
    assert(entries(e@) =~= related_related_1_v()->Obj_0);
    Json::object(e)
}

pub open spec fn related_related_2_shared_entities_v() -> JsonV {
    JsonV::Arr(Seq::empty())
}

fn related_related_2_shared_entities() -> (r: Json)
    ensures
        r@ == related_related_2_shared_entities_v(),
{
    Json::list(Vec::new())
}

pub open spec fn related_related_2_shared_tags_v() -> JsonV {
    JsonV::Arr(
        seq![
            JsonV::Str("power"@),
        ],
    )
}

fn related_related_2_shared_tags() -> (r: Json)
    ensures
        r@ == related_related_2_shared_tags_v(),
{
    let mut v: Vec<Json> = Vec::new();
    v.push(Json::str("power"));
    assert(views(v@) =~= related_related_2_shared_tags_v()->Arr_0);
    Json::list(v)
}

pub open spec fn related_related_2_v() -> JsonV {
    JsonV::Obj(
        seq![
            ("url"@, JsonV::Str("https://forums.raspberrypi.com/viewtopic.php?t=357789"@)),
            ("title"@, JsonV::Str("PD requirements thread"@)),
            ("summary_head"@, JsonV::Str("Without a 5V/5A PD source the firmware caps downstream USB current."@)),
            ("score"@, milli_json(1000)),
            ("shared_entities"@, related_related_2_shared_entities_v()),
            ("shared_tags"@, related_related_2_shared_tags_v()),
        ],
    )
}

fn related_related_2() -> (r: Json)
    ensures
        r@ == related_related_2_v(),
{
    let mut e: Vec<(String, Json)> = Vec::new();
    put(&mut e, "url", Json::str("https://forums.raspberrypi.com/viewtopic.php?t=357789"));
    put(&mut e, "title", Json::str("PD requirements thread"));
    put(&mut e, "summary_head", Json::str("Without a 5V/5A PD source the firmware caps downstream USB current."));
    put(&mut e, "score", Json::milli(1000));
    put(&mut e, "shared_entities", related_related_2_shared_entities());
    put(&mut e, "shared_tags", related_related_2_shared_tags());
    assert(entries(e@) =~= related_related_2_v()->Obj_0);
    Json::object(e)
}

pub open spec fn related_related_v() -> JsonV {
    JsonV::Arr(
        seq![
            related_related_1_v(),
            related_related_2_v(),
        ],
    )
}

fn related_related() -> (r: Json)
    ensures
        r@ == related_related_v(),
{
    let mut v: Vec<Json> = Vec::new();
    v.push(related_related_1());
    v.push(related_related_2());
    assert(views(v@) =~= related_related_v()->Arr_0);
    Json::list(v)
}

/// The sample of the kind `related`.
pub open spec fn related_v() -> JsonV {
    JsonV::Obj(
        seq![
            ("kind"@, JsonV::Str("related"@)),
            ("url"@, JsonV::Str("https://www.raspberrypi.com/products/raspberry-pi-5/"@)),
            ("title"@, JsonV::Str("Raspberry Pi 5"@)),
            ("count"@, uint_json(2)),
            ("distilled_total"@, uint_json(7)),
            ("related"@, related_related_v()),
        ],
    )
}

fn related() -> (r: Json)
    ensures
        r@ == related_v(),
{
    let mut e: Vec<(String, Json)> = Vec::new();
    put(&mut e, "kind", Json::str("related"));
    put(&mut e, "url", Json::str("https://www.raspberrypi.com/products/raspberry-pi-5/"));
    put(&mut e, "title", Json::str("Raspberry Pi 5"));
    put(&mut e, "count", Json::uint(2));
    put(&mut e, "distilled_total", Json::uint(7));
    put(&mut e, "related", related_related());
    assert(entries(e@) =~= related_v()->Obj_0);
    Json::object(e)
}

// ── Distill ─────────────────────────────────────────────────────────────────

pub open spec fn distill_distilled_1_key_points_v() -> JsonV {
    JsonV::Arr(
        seq![
            JsonV::Str("BCM2712 quad-core Cortex-A76 @ 2.4GHz"@),
            JsonV::Str("Up to 16GB LPDDR4X RAM"@),
            JsonV::Str("Needs 27W (5V/5A) USB-C PD for full peripheral power"@),
        ],
    )
}

fn distill_distilled_1_key_points() -> (r: Json)
    ensures
        r@ == distill_distilled_1_key_points_v(),
{
    let mut v: Vec<Json> = Vec::new();
    v.push(Json::str("BCM2712 quad-core Cortex-A76 @ 2.4GHz"));
    v.push(Json::str("Up to 16GB LPDDR4X RAM"));
    v.push(Json::str("Needs 27W (5V/5A) USB-C PD for full peripheral power"));
    assert(views(v@) =~= distill_distilled_1_key_points_v()->Arr_0);
    Json::list(v)
}

pub open spec fn distill_distilled_1_entities_v() -> JsonV {
    JsonV::Arr(
        seq![
            JsonV::Str("Raspberry Pi 5"@),
            JsonV::Str("BCM2712"@),
            JsonV::Str("VideoCore VII"@),
        ],
    )
}

fn distill_distilled_1_entities() -> (r: Json)
    ensures
        r@ == distill_distilled_1_entities_v(),
{
    let mut v: Vec<Json> = Vec::new();
    v.push(Json::str("Raspberry Pi 5"));
    v.push(Json::str("BCM2712"));
    v.push(Json::str("VideoCore VII"));
    assert(views(v@) =~= distill_distilled_1_entities_v()->Arr_0);
    Json::list(v)
}

pub open spec fn distill_distilled_1_tags_v() -> JsonV {
    JsonV::Arr(
        seq![
            JsonV::Str("raspberry-pi"@),
            JsonV::Str("sbc"@),
            JsonV::Str("hardware"@),
        ],
    )
}

fn distill_distilled_1_tags() -> (r: Json)
    ensures
        r@ == distill_distilled_1_tags_v(),
{
    let mut v: Vec<Json> = Vec::new();
    v.push(Json::str("raspberry-pi"));
    v.push(Json::str("sbc"));
    v.push(Json::str("hardware"));
    assert(views(v@) =~= distill_distilled_1_tags_v()->Arr_0);
    Json::list(v)
}

pub open spec fn distill_distilled_1_v() -> JsonV {
    JsonV::Obj(
        seq![
            ("url"@, JsonV::Str("https://www.raspberrypi.com/products/raspberry-pi-5/"@)),
            ("title"@, JsonV::Str("Raspberry Pi 5"@)),
            ("summary"@, JsonV::Str("The Raspberry Pi 5 is a quad-core Cortex-A76 single-board computer at 2.4GHz with up to 16GB RAM. It requires a 5V/5A USB-C PD supply for full performance."@)),
            ("key_points"@, distill_distilled_1_key_points_v()),
            ("entities"@, distill_distilled_1_entities_v()),
            ("tags"@, distill_distilled_1_tags_v()),
            ("model"@, JsonV::Str("llama3.2"@)),
            ("backend"@, JsonV::Str("ollama"@)),
            ("from_cache"@, JsonV::Bool(false)),
        ],
    )
}

fn distill_distilled_1() -> (r: Json)
    ensures
        r@ == distill_distilled_1_v(),
{
    let mut e: Vec<(String, Json)> = Vec::new();
    put(&mut e, "url", Json::str("https://www.raspberrypi.com/products/raspberry-pi-5/"));
    put(&mut e, "title", Json::str("Raspberry Pi 5"));
    put(&mut e, "summary", Json::str("The Raspberry Pi 5 is a quad-core Cortex-A76 single-board computer at 2.4GHz with up to 16GB RAM. It requires a 5V/5A USB-C PD supply for full performance."));
    put(&mut e, "key_points", distill_distilled_1_key_points());
    put(&mut e, "entities", distill_distilled_1_entities());
    put(&mut e, "tags", distill_distilled_1_tags());
    put(&mut e, "model", Json::str("llama3.2"));
    put(&mut e, "backend", Json::str("ollama"));
    put(&mut e, "from_cache", Json::Bool(false));
    assert(entries(e@) =~= distill_distilled_1_v()->Obj_0);
    Json::object(e)
}

pub open spec fn distill_distilled_2_key_points_v() -> JsonV {
    JsonV::Arr(
        seq![
            JsonV::Str("5V/5A fixed PD profile"@),
            JsonV::Str("Firmware caps USB to 600mA on weaker supplies"@),
        ],
    )
}

fn distill_distilled_2_key_points() -> (r: Json)
    ensures
        r@ == distill_distilled_2_key_points_v(),
{
    let mut v: Vec<Json> = Vec::new();
    v.push(Json::str("5V/5A fixed PD profile"));
    v.push(Json::str("Firmware caps USB to 600mA on weaker supplies"));
    assert(views(v@) =~= distill_distilled_2_key_points_v()->Arr_0);
    Json::list(v)
}

pub open spec fn distill_distilled_2_entities_v() -> JsonV {
    JsonV::Arr(
        seq![
            JsonV::Str("USB-C PD"@),
        ],
    )
}

fn distill_distilled_2_entities() -> (r: Json)
    ensures
        r@ == distill_distilled_2_entities_v(),
{
    let mut v: Vec<Json> = Vec::new();
    v.push(Json::str("USB-C PD"));
    assert(views(v@) =~= distill_distilled_2_entities_v()->Arr_0);
    Json::list(v)
}

pub open spec fn distill_distilled_2_tags_v() -> JsonV {
    JsonV::Arr(
        seq![
            JsonV::Str("power"@),
            JsonV::Str("raspberry-pi"@),
        ],
    )
}

fn distill_distilled_2_tags() -> (r: Json)
    ensures
        r@ == distill_distilled_2_tags_v(),
{
    let mut v: Vec<Json> = Vec::new();
    v.push(Json::str("power"));
    v.push(Json::str("raspberry-pi"));
    assert(views(v@) =~= distill_distilled_2_tags_v()->Arr_0);
    Json::list(v)
}

pub open spec fn distill_distilled_2_v() -> JsonV {
    JsonV::Obj(
        seq![
            ("url"@, JsonV::Str("https://www.raspberrypi.com/products/27w-power-supply/"@)),
            ("title"@, JsonV::Str("27W Power Supply"@)),
            ("summary"@, JsonV::Str("The official 27W USB-C PD supply delivers the 5V/5A profile the Pi 5 needs; without it downstream USB current is capped."@)),
            ("key_points"@, distill_distilled_2_key_points_v()),
            ("entities"@, distill_distilled_2_entities_v()),
            ("tags"@, distill_distilled_2_tags_v()),
            ("model"@, JsonV::Str("llama3.2"@)),
            ("backend"@, JsonV::Str("cache"@)),
            ("from_cache"@, JsonV::Bool(true)),
        ],
    )
}

fn distill_distilled_2() -> (r: Json)
    ensures
        r@ == distill_distilled_2_v(),
{
    let mut e: Vec<(String, Json)> = Vec::new();
    put(&mut e, "url", Json::str("https://www.raspberrypi.com/products/27w-power-supply/"));
    put(&mut e, "title", Json::str("27W Power Supply"));
    put(&mut e, "summary", Json::str("The official 27W USB-C PD supply delivers the 5V/5A profile the Pi 5 needs; without it downstream USB current is capped."));
    put(&mut e, "key_points", distill_distilled_2_key_points());
    put(&mut e, "entities", distill_distilled_2_entities());
    put(&mut e, "tags", distill_distilled_2_tags());
    put(&mut e, "model", Json::str("llama3.2"));
    put(&mut e, "backend", Json::str("cache"));
    put(&mut e, "from_cache", Json::Bool(true));
    assert(entries(e@) =~= distill_distilled_2_v()->Obj_0);
    Json::object(e)
}

pub open spec fn distill_distilled_v() -> JsonV {
    JsonV::Arr(
        seq![
            distill_distilled_1_v(),
            distill_distilled_2_v(),
        ],
    )
}

fn distill_distilled() -> (r: Json)
    ensures
        r@ == distill_distilled_v(),
{
    let mut v: Vec<Json> = Vec::new();
    v.push(distill_distilled_1());
    v.push(distill_distilled_2());
    assert(views(v@) =~= distill_distilled_v()->Arr_0);
    Json::list(v)
}

pub open spec fn distill_failed_1_v() -> JsonV {
    JsonV::Obj(
        seq![
            ("url"@, JsonV::Str("https://example.com/spa"@)),
            ("error"@, JsonV::Str("page needs JavaScript — nothing to distill"@)),
        ],
    )
}

fn distill_failed_1() -> (r: Json)
    ensures
        r@ == distill_failed_1_v(),
{
    let mut e: Vec<(String, Json)> = Vec::new();
    put(&mut e, "url", Json::str("https://example.com/spa"));
    put(&mut e, "error", Json::str("page needs JavaScript — nothing to distill"));
    assert(entries(e@) =~= distill_failed_1_v()->Obj_0);
    Json::object(e)
}

pub open spec fn distill_failed_v() -> JsonV {
    JsonV::Arr(
        seq![
            distill_failed_1_v(),
        ],
    )
}

fn distill_failed() -> (r: Json)
    ensures
        r@ == distill_failed_v(),
{
    let mut v: Vec<Json> = Vec::new();
    v.push(distill_failed_1());
    assert(views(v@) =~= distill_failed_v()->Arr_0);
    Json::list(v)
}

/// The sample of the kind `distill`.
pub open spec fn distill_v() -> JsonV {
    JsonV::Obj(
        seq![
            ("kind"@, JsonV::Str("distill"@)),
            ("count"@, uint_json(2)),
            ("distilled"@, distill_distilled_v()),
            ("failed"@, distill_failed_v()),
            ("remaining"@, uint_json(3)),
        ],
    )
}

fn distill() -> (r: Json)
    ensures
        r@ == distill_v(),
{
    let mut e: Vec<(String, Json)> = Vec::new();
    put(&mut e, "kind", Json::str("distill"));
    put(&mut e, "count", Json::uint(2));
    put(&mut e, "distilled", distill_distilled());
    put(&mut e, "failed", distill_failed());
    put(&mut e, "remaining", Json::uint(3));
    assert(entries(e@) =~= distill_v()->Obj_0);
    Json::object(e)
}

// ── Page ────────────────────────────────────────────────────────────────────

pub open spec fn page_links_1_v() -> JsonV {
    JsonV::Obj(
        seq![
            ("text"@, JsonV::Str("official 27W PD supply"@)),
            ("url"@, JsonV::Str("https://www.raspberrypi.com/products/27w-power-supply/"@)),
        ],
    )
}

fn page_links_1() -> (r: Json)
    ensures
        r@ == page_links_1_v(),
{
    let mut e: Vec<(String, Json)> = Vec::new();
    put(&mut e, "text", Json::str("official 27W PD supply"));
    put(&mut e, "url", Json::str("https://www.raspberrypi.com/products/27w-power-supply/"));
    assert(entries(e@) =~= page_links_1_v()->Obj_0);
    Json::object(e)
}

pub open spec fn page_links_2_v() -> JsonV {
    JsonV::Obj(
        seq![
            ("text"@, JsonV::Str("product page"@)),
            ("url"@, JsonV::Str("https://www.raspberrypi.com/products/raspberry-pi-5/"@)),
        ],
    )
}

fn page_links_2() -> (r: Json)
    ensures
        r@ == page_links_2_v(),
{
    let mut e: Vec<(String, Json)> = Vec::new();
    put(&mut e, "text", Json::str("product page"));
    put(&mut e, "url", Json::str("https://www.raspberrypi.com/products/raspberry-pi-5/"));
    assert(entries(e@) =~= page_links_2_v()->Obj_0);
    Json::object(e)
}

pub open spec fn page_links_v() -> JsonV {
    JsonV::Arr(
        seq![
            page_links_1_v(),
            page_links_2_v(),
        ],
    )
}

fn page_links() -> (r: Json)
    ensures
        r@ == page_links_v(),
{
    let mut v: Vec<Json> = Vec::new();
    v.push(page_links_1());
    v.push(page_links_2());
    assert(views(v@) =~= page_links_v()->Arr_0);
    Json::list(v)
}

/// The sample of the kind `page`.
pub open spec fn page_v() -> JsonV {
    JsonV::Obj(
        seq![
            ("kind"@, JsonV::Str("page"@)),
            ("url"@, JsonV::Str("https://www.raspberrypi.com/products/raspberry-pi-5/"@)),
            ("from_cache"@, JsonV::Bool(true)),
            ("title"@, JsonV::Str("Raspberry Pi 5"@)),
            ("markdown"@, JsonV::Str("# Raspberry Pi 5\n\nThe **Raspberry Pi 5** is the latest single-board computer, delivering a *significant* performance uplift over the Pi 4.\n\n## Specifications\n\n- Broadcom BCM2712 quad-core Cortex-A76 @ 2.4GHz\n- VideoCore VII GPU\n- Up to 16GB LPDDR4X RAM\n\n## Power\n\nUse the [official 27W PD supply](https://www.raspberrypi.com/products/27w-power-supply/) for full performance.\n\n> A 5V/5A USB-C PD source is required to power peripherals at full current.\n\n```\nvcgencmd measure_temp\n```\n\n---\n\nMore on the [product page](https://www.raspberrypi.com/products/raspberry-pi-5/)."@)),
            ("links"@, page_links_v()),
            ("content_hash"@, JsonV::Str("abc123"@)),
        ],
    )
}

fn page() -> (r: Json)
    ensures
        r@ == page_v(),
{
    let mut e: Vec<(String, Json)> = Vec::new();
    put(&mut e, "kind", Json::str("page"));
    put(&mut e, "url", Json::str("https://www.raspberrypi.com/products/raspberry-pi-5/"));
    put(&mut e, "from_cache", Json::Bool(true));
    put(&mut e, "title", Json::str("Raspberry Pi 5"));
    put(&mut e, "markdown", Json::str("# Raspberry Pi 5\n\nThe **Raspberry Pi 5** is the latest single-board computer, delivering a *significant* performance uplift over the Pi 4.\n\n## Specifications\n\n- Broadcom BCM2712 quad-core Cortex-A76 @ 2.4GHz\n- VideoCore VII GPU\n- Up to 16GB LPDDR4X RAM\n\n## Power\n\nUse the [official 27W PD supply](https://www.raspberrypi.com/products/27w-power-supply/) for full performance.\n\n> A 5V/5A USB-C PD source is required to power peripherals at full current.\n\n```\nvcgencmd measure_temp\n```\n\n---\n\nMore on the [product page](https://www.raspberrypi.com/products/raspberry-pi-5/)."));
    put(&mut e, "links", page_links());
    put(&mut e, "content_hash", Json::str("abc123"));
    assert(entries(e@) =~= page_v()->Obj_0);
    Json::object(e)
}

// ── The samples ─────────────────────────────────────────────────────────────

/// The kind of the sample that is asked for: a page where it is none of the others.
pub open spec fn demo_kind(mode: Seq<char>) -> Seq<char> {
    if mode == "dom"@ || mode == "click"@ || mode == "submit"@ || mode == "results"@
        || mode == "recall"@ || mode == "related"@ || mode == "distill"@ {
        mode
    } else {
        "page"@
    }
}

/// The payload of a sample.
pub open spec fn demo_payload(mode: Seq<char>) -> JsonV {
    if mode == "dom"@ {
        dom_v()
    } else if mode == "click"@ {
        click_v()
    } else if mode == "submit"@ {
        submit_v()
    } else if mode == "results"@ {
        results_v()
    } else if mode == "recall"@ {
        recall_v()
    } else if mode == "related"@ {
        related_v()
    } else if mode == "distill"@ {
        distill_v()
    } else {
        page_v()
    }
}

fn sample(mode: &str) -> (r: Json)
    ensures
        r@ == demo_payload(mode@),
{
    if same(mode, "dom") {
        dom()
    } else if same(mode, "click") {
        click()
    } else if same(mode, "submit") {
        submit()
    } else if same(mode, "results") {
        results()
    } else if same(mode, "recall") {
        recall()
    } else if same(mode, "related") {
        related()
    } else if same(mode, "distill") {
        distill()
    } else {
        page()
    }
}

/// A sample says of which kind it is.
pub proof fn samples_name_their_kind(mode: Seq<char>)
    ensures
        text_at(demo_payload(mode), "kind"@) == Some(demo_kind(mode)),
{
    let e = demo_payload(mode)->Obj_0;
    assert(e[0] == ("kind"@, JsonV::Str(demo_kind(mode))));
}

/// Plans what the reader shows of a sample.
pub fn occipital_demo_render(mode: &str) -> (r: OccipitalRender)
    ensures
        r@ == render_v(demo_payload(trimmed(mode@))),
        r@.mode == demo_kind(trimmed(mode@)),
{
    let kind = trim(mode);
    proof {
        samples_name_their_kind(kind@);
    }
    build_occipital_render(&sample(kind))
}

} // verus!
