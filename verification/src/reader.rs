//! The reader window: what the agent's web reads look like.
//!
//! A web tool answers with an object whose `kind` says what it is. The payload is
//! recovered from whatever shape the transport gave it, and turned into a plan of
//! blocks and link rows that the window shows as it stands.
use vstd::prelude::*;
use crate::json::{
    agreeing_fields, agrees, compact, entries, entry, field, flag_at, flagged, items_at,
    items_or_none, num_at, parse_json, parsed, plain, put, reads_as, render, text_at, text_or,
    text_v, uint_at, uint_or, Json, JsonV, DEEP,
};
use crate::notices::{next_after, wrapping_next};
use crate::markdown::{block, block_v, blocks_of, parse_reader_markdown, ReaderBlock, ReaderBlockV};
use crate::text::{
    append_given, begins, cat, cat3, copy, dec, dec_len, dec_u64, decimal, ends, ends_with, given,
    head, join, joined, same, starts_with, take_chars, to_upper, trim, trimmed, upper_case, views,
};

verus! {

broadcast use {crate::text::views_push, crate::text::views_empty};

/// A row of the reader that leads somewhere, or a crumb of its trail.
#[derive(Debug)]
pub struct ReaderLink {
    pub label: String,
    pub url: String,
    pub detail: String,
    pub badge: String,
}

/// The model of a [`ReaderLink`].
pub struct ReaderLinkV {
    pub label: Seq<char>,
    pub url: Seq<char>,
    pub detail: Seq<char>,
    pub badge: Seq<char>,
}

impl View for ReaderLink {
    type V = ReaderLinkV;

    open spec fn view(&self) -> ReaderLinkV {
        ReaderLinkV {
            label: self.label@,
            url: self.url@,
            detail: self.detail@,
            badge: self.badge@,
        }
    }
}

/// What the reader window shows of one payload.
#[derive(Debug)]
pub struct OccipitalRender {
    /// The layout: page, results, recall, dom, click, submit, distill or related.
    pub mode: String,
    pub title: String,
    pub url: String,
    pub meta: String,
    /// Whether the payload came from the cache or the network: "cache", "live" or "".
    pub badge: String,
    pub blocks: Vec<ReaderBlock>,
    pub links: Vec<ReaderLink>,
    pub crumb_label: String,
    pub crumb_url: String,
}

/// The model of an [`OccipitalRender`].
pub struct RenderV {
    pub mode: Seq<char>,
    pub title: Seq<char>,
    pub url: Seq<char>,
    pub meta: Seq<char>,
    pub badge: Seq<char>,
    pub blocks: Seq<ReaderBlockV>,
    pub links: Seq<ReaderLinkV>,
    pub crumb_label: Seq<char>,
    pub crumb_url: Seq<char>,
}

impl View for OccipitalRender {
    type V = RenderV;

    open spec fn view(&self) -> RenderV {
        RenderV {
            mode: self.mode@,
            title: self.title@,
            url: self.url@,
            meta: self.meta@,
            badge: self.badge@,
            blocks: views(self.blocks@),
            links: views(self.links@),
            crumb_label: self.crumb_label@,
            crumb_url: self.crumb_url@,
        }
    }
}

// ── Recovering the payload ──────────────────────────────────────────────────

/// The kinds of payload that the reader knows.
pub open spec fn reader_kind(k: Seq<char>) -> bool {
    k == "page"@ || k == "results"@ || k == "recall"@ || k == "dom"@ || k == "click"@ || k
        == "submit"@ || k == "distill"@ || k == "related"@
}

/// Whether a value is a reader payload.
pub open spec fn is_reader(j: JsonV) -> bool {
    match text_at(j, "kind"@) {
        Some(k) => reader_kind(k),
        None => false,
    }
}

/// Which payloads are looked for in a tool's answer.
pub enum Wanted {
    /// A reader payload.
    Reader,
    /// A reading of the mandalas.
    Mandalas,
}

/// Whether a value is the wanted payload.
pub open spec fn wanted(w: Wanted, j: JsonV) -> bool {
    match w {
        Wanted::Reader => is_reader(j),
        Wanted::Mandalas => items_at(j, "mandalas"@) is Some,
    }
}

/// The payload that a text holds as JSON.
pub open spec fn payload_in_text(w: Wanted, s: Seq<char>) -> Option<JsonV> {
    match parsed(s) {
        Some(v) => if wanted(w, v) {
            Some(v)
        } else {
            None
        },
        None => None,
    }
}

/// The payload that one item of a content array holds: its text, where the item is
/// a text.
pub open spec fn payload_in_item(w: Wanted, item: JsonV) -> Option<JsonV> {
    if text_at(item, "type"@) == Some("text"@) {
        match text_at(item, "text"@) {
            Some(s) => payload_in_text(w, s),
            None => None,
        }
    } else {
        None
    }
}

/// The first payload among the items from `i` on.
pub open spec fn payload_in_items(w: Wanted, a: Seq<JsonV>, i: int) -> Option<JsonV>
    decreases a.len() - i,
{
    if 0 <= i < a.len() {
        match payload_in_item(w, a[i]) {
            Some(v) => Some(v),
            None => payload_in_items(w, a, i + 1),
        }
    } else {
        None
    }
}

/// The payload of a tool's answer: the answer itself, the JSON in a bare string, or
/// the JSON in the first text item of a content array that holds one.
pub open spec fn payload_of(w: Wanted, content: JsonV) -> Option<JsonV> {
    if wanted(w, content) {
        Some(content)
    } else {
        match content {
            JsonV::Str(s) => payload_in_text(w, s),
            JsonV::Arr(a) => payload_in_items(w, a, 0),
            _ => None,
        }
    }
}

fn is_occipital(v: &Json) -> (r: bool)
    ensures
        r == is_reader(v@),
{
    match v.str_at("kind") {
        Some(k) => same(k, "page") || same(k, "results") || same(k, "recall") || same(k, "dom")
            || same(k, "click") || same(k, "submit") || same(k, "distill") || same(k, "related"),
        None => false,
    }
}

fn is_wanted(w: &Wanted, v: &Json) -> (r: bool)
    ensures
        r == wanted(*w, v@),
{
    match w {
        Wanted::Reader => is_occipital(v),
        Wanted::Mandalas => v.arr_at("mandalas").is_some(),
    }
}

fn text_payload(w: &Wanted, s: &str) -> (r: Option<Json>)
    ensures
        r is Some <==> payload_in_text(*w, s@) is Some,
        r is Some ==> payload_in_text(*w, s@) == Some(r->0@),
{
    match parse_json(s) {
        Some(v) => if is_wanted(w, &v) {
            Some(v)
        } else {
            None
        },
        None => None,
    }
}

fn item_payload(w: &Wanted, item: &Json) -> (r: Option<Json>)
    ensures
        r is Some <==> payload_in_item(*w, item@) is Some,
        r is Some ==> payload_in_item(*w, item@) == Some(r->0@),
{
    match item.str_at("type") {
        Some(t) => if same(t, "text") {
            match item.str_at("text") {
                Some(s) => text_payload(w, s),
                None => None,
            }
        } else {
            None
        },
        None => None,
    }
}

/// Recovers the wanted payload from a tool's answer, whatever its shape.
pub fn recover_payload(w: &Wanted, content: &Json) -> (r: Option<Json>)
    ensures
        r is Some <==> payload_of(*w, content@) is Some,
        r is Some ==> payload_of(*w, content@) == Some(r->0@),
{
    if is_wanted(w, content) {
        return Some(content.copy());
    }
    match content.as_str() {
        Some(s) => {
            return text_payload(w, s);
        },
        None => {},
    }
    match content.as_array() {
        Some(arr) => {
            for i in 0..arr.len()
                invariant
                    content@ is Arr,
                    content@->Arr_0 == views(arr@),
                    payload_of(*w, content@) == payload_in_items(*w, views(arr@), i as int),
            {
                assert(views(arr@)[i as int] == arr@[i as int]@);
                match item_payload(w, &arr[i]) {
                    Some(v) => {
                        return Some(v);
                    },
                    None => {},
                }
            }
            None
        },
        None => None,
    }
}

/// A content array of one text.
pub open spec fn one_text(text: Seq<char>) -> JsonV {
    JsonV::Arr(
        seq![
            JsonV::Obj(seq![("type"@, JsonV::Str("text"@)), ("text"@, JsonV::Str(text))]),
        ],
    )
}

/// Whether the payload `j` is recovered from each shape in which it travels: as it is, as a
/// bare string that holds `text`, and as a content array of that text.
pub open spec fn shapes_agree(w: Wanted, j: JsonV, text: Seq<char>) -> bool {
    &&& payload_of(w, j) == Some(j)
    &&& payload_of(w, JsonV::Str(text)) matches Some(v) && agrees(j, v, DEEP as nat)
    &&& payload_of(w, one_text(text)) == payload_of(w, JsonV::Str(text))
}

/// A payload is recovered alike from every shape in which it travels, whatever text it is
/// read back from.
pub proof fn shapes_of_a_payload_agree(w: Wanted, j: JsonV, text: Seq<char>)
    requires
        wanted(w, j),
        reads_as(text, j),
    ensures
        shapes_agree(w, j, text),
{
    let v = parsed(text)->0;
    agreeing_fields(j, v, "kind"@, DEEP as nat);
    agreeing_fields(j, v, "mandalas"@, DEEP as nat);
    assert(wanted(w, v));
    let item = JsonV::Obj(seq![("type"@, JsonV::Str("text"@)), ("text"@, JsonV::Str(text))]);
    assert("type"@ != "text"@) by {
        reveal_strlit("type");
        reveal_strlit("text");
        assert("type"@[1] == 'y' && "text"@[1] == 'e');
    }
    reveal_with_fuel(entry, 3);
    assert(field(item, "type"@) == Some(JsonV::Str("text"@)));
    assert(field(item, "text"@) == Some(JsonV::Str(text)));
    assert(payload_in_item(w, item) == Some(v));
    assert(one_text(text)->Arr_0[0] == item);
}

/// The two shapes in which a payload travels as text: a bare string, and a content array.
/// Each carries what is printed, and a payload that reads back is recovered from both.
/// Plain ones do; a fraction may be read as the number next to it.
pub fn carried(p: &Json) -> (r: (Json, Json))
    ensures
        r.0@ == JsonV::Str(compact(p@)),
        r.1@ == one_text(compact(p@)),
        plain(p@, DEEP as nat) || reads_as(compact(p@), p@) ==> forall|w: Wanted| #[trigger]
            wanted(w, p@) ==> shapes_agree(w, p@, compact(p@)),
{
    let text = render(p);
    proof {
        if reads_as(compact(p@), p@) {
            assert forall|w: Wanted| #[trigger] wanted(w, p@) implies shapes_agree(
                w,
                p@,
                compact(p@),
            ) by {
                shapes_of_a_payload_agree(w, p@, text@);
            }
        }
    }
    let mut e: Vec<(String, Json)> = Vec::new();
    put(&mut e, "type", Json::str("text"));
    put(&mut e, "text", Json::str(text.as_str()));
    assert(entries(e@) =~= one_text(text@)->Arr_0[0]->Obj_0);
    let mut items: Vec<Json> = Vec::new();
    items.push(Json::object(e));
    assert(views(items@) =~= one_text(text@)->Arr_0);
    (Json::Str(text), Json::list(items))
}

/// Recovers a reader payload from a tool's answer.
pub fn occipital_payload(content: &Json) -> (r: Option<Json>)
    ensures
        r is Some <==> payload_of(Wanted::Reader, content@) is Some,
        r is Some ==> payload_of(Wanted::Reader, content@) == Some(r->0@),
{
    recover_payload(&Wanted::Reader, content)
}

/// Recovers a reading of the mandalas from a tool's answer.
pub fn mandala_payload(content: &Json) -> (r: Option<Json>)
    ensures
        r is Some <==> payload_of(Wanted::Mandalas, content@) is Some,
        r is Some ==> payload_of(Wanted::Mandalas, content@) == Some(r->0@),
{
    recover_payload(&Wanted::Mandalas, content)
}

// ── Small parts ─────────────────────────────────────────────────────────────

/// The field `key` as a text; empty where it is none.
pub open spec fn str_v(p: JsonV, key: Seq<char>) -> Seq<char> {
    text_or(p, key, ""@)
}

/// The field `key` as a text; empty where it is none.
pub fn json_str(v: &Json, key: &str) -> (r: String)
    ensures
        r@ == str_v(v@, key@),
{
    v.str_or(key, "")
}

/// Whether the field `key` is `true`.
pub fn json_flag(p: &Json, key: &str) -> (r: bool)
    ensures
        r == flagged(p@, key@),
{
    match p.bool_at(key) {
        Some(b) => b,
        None => false,
    }
}

/// A label cut to the length of a chip.
pub open spec fn crumb_v(s: Seq<char>) -> Seq<char> {
    if s.len() > 24 {
        s.take(24) + "…"@
    } else {
        s
    }
}

/// Cuts a label to the length of a chip.
pub fn cap_crumb(s: &str) -> (r: String)
    ensures
        r@ == crumb_v(s@),
{
    let mut out = copy(take_chars(s, 24));
    if s.unicode_len() > 24 {
        out.append("…");
    }
    out
}

/// The ending of a counted noun.
pub open spec fn plural_v(n: nat) -> Seq<char> {
    if n == 1 {
        ""@
    } else {
        "s"@
    }
}

pub fn plural(n: usize) -> (r: &'static str)
    ensures
        r@ == plural_v(n as nat),
{
    if n == 1 {
        ""
    } else {
        "s"
    }
}

/// The title of a page; its address where it has none.
pub open spec fn title_v(p: JsonV) -> Seq<char> {
    if str_v(p, "title"@).len() == 0 {
        str_v(p, "url"@)
    } else {
        str_v(p, "title"@)
    }
}

fn page_title(p: &Json) -> (r: String)
    ensures
        r@ == title_v(p@),
{
    let t = json_str(p, "title");
    if t.as_str().is_empty() {
        json_str(p, "url")
    } else {
        t
    }
}

/// A row's label: its text, or its address where the text is blank.
pub open spec fn label_v(row: JsonV, key: Seq<char>) -> Seq<char> {
    if trimmed(str_v(row, key)).len() == 0 {
        str_v(row, "url"@)
    } else {
        str_v(row, key)
    }
}

fn row_label(row: &Json, key: &str) -> (r: String)
    ensures
        r@ == label_v(row@, key@),
{
    let t = json_str(row, key);
    if trim(t.as_str()).is_empty() {
        json_str(row, "url")
    } else {
        t
    }
}

/// The texts among the first `n` items.
pub open spec fn strings_v(a: Seq<JsonV>, n: int) -> Seq<Seq<char>>
    decreases n,
{
    if n <= 0 {
        Seq::empty()
    } else {
        match text_v(a[n - 1]) {
            Some(s) => strings_v(a, n - 1).push(s),
            None => strings_v(a, n - 1),
        }
    }
}

/// The texts of the array `key`.
pub open spec fn strings_at(p: JsonV, key: Seq<char>) -> Seq<Seq<char>> {
    strings_v(items_or_none(p, key), items_or_none(p, key).len() as int)
}

pub(crate) fn push_strings(p: &Json, key: &str, out: &mut Vec<String>)
    ensures
        views(final(out)@) == views(old(out)@) + strings_at(p@, key@),
{
    let arr = p.items_at(key);
    let ghost a = items_or_none(p@, key@);
    assert(views(out@) + strings_v(a, 0) =~= views(out@));
    for i in 0..arr.len()
        invariant
            views(arr@) == a,
            views(out@) == views(old(out)@) + strings_v(a, i as int),
    {
        assert(a[i as int] == arr@[i as int]@);
        match arr[i].as_str() {
            Some(s) => {
                assert((views(old(out)@) + strings_v(a, i as int)).push(s@) =~= views(old(out)@)
                    + strings_v(a, i as int + 1));
                out.push(copy(s));
            },
            None => {},
        }
    }
}

/// The texts of the array `key`, with a comma between neighbours.
fn join_strings(p: &Json, key: &str) -> (r: String)
    ensures
        r@ == joined(strings_at(p@, key@), ", "@),
{
    let mut out: Vec<String> = Vec::new();
    push_strings(p, key, &mut out);
    assert(Seq::empty() + strings_at(p@, key@) =~= strings_at(p@, key@));
    join(&out, ", ")
}

/// How many rows of a list are shown.
pub const MAX_ROWS: usize = 60;

/// How many of `n` rows are shown.
pub open spec fn shown_rows(n: nat) -> nat {
    if n > MAX_ROWS {
        MAX_ROWS as nat
    } else {
        n
    }
}

fn rows_to_show(n: usize) -> (r: usize)
    ensures
        r == shown_rows(n as nat),
        r <= n,
{
    if n > MAX_ROWS {
        MAX_ROWS
    } else {
        n
    }
}

// ── Pages ───────────────────────────────────────────────────────────────────

/// A form that stands in the text as a bracketed note becomes a block of its own.
pub open spec fn formed(b: ReaderBlockV) -> ReaderBlockV {
    if b.kind == "p"@ && begins(b.text, "[form#"@) && ends(b.text, "]"@) {
        ReaderBlockV { kind: "form"@, text: b.text.subrange(1, b.text.len() - 1), ..b }
    } else {
        b
    }
}

/// The blocks of a page's body. A page that gave nothing because it needs scripts
/// says so.
pub open spec fn page_blocks_v(p: JsonV) -> Seq<ReaderBlockV> {
    let md = str_v(p, "markdown"@);
    let blocks = if md.len() == 0 {
        Seq::empty()
    } else {
        blocks_of(md).map_values(|b: ReaderBlockV| formed(b))
    };
    if blocks.len() == 0 && flagged(p, "js_required"@) {
        seq![
            block_v(
                "quote"@,
                "This page needs JavaScript — nothing was recoverable from static HTML."@,
            ),
        ]
    } else {
        blocks
    }
}

/// The row of one link of a page.
pub open spec fn page_link_v(l: JsonV) -> ReaderLinkV {
    ReaderLinkV {
        label: label_v(l, "text"@),
        url: str_v(l, "url"@),
        detail: Seq::empty(),
        badge: Seq::empty(),
    }
}

/// The rows of the first `n` links; a link without an address has none.
pub open spec fn page_links_v(a: Seq<JsonV>, n: int) -> Seq<ReaderLinkV>
    decreases n,
{
    if n <= 0 {
        Seq::empty()
    } else if str_v(a[n - 1], "url"@).len() == 0 {
        page_links_v(a, n - 1)
    } else {
        page_links_v(a, n - 1).push(page_link_v(a[n - 1]))
    }
}

/// The link rows of a page.
pub open spec fn page_rows_v(p: JsonV) -> Seq<ReaderLinkV> {
    let a = items_or_none(p, "links"@);
    page_links_v(a, shown_rows(a.len()) as int)
}

fn form_block(b: ReaderBlock) -> (r: ReaderBlock)
    ensures
        r@ == formed(b@),
{
    if same(b.kind.as_str(), "p") && starts_with(b.text.as_str(), "[form#") && ends_with(
        b.text.as_str(),
        "]",
    ) {
        proof {
            reveal_strlit("[form#");
            reveal_strlit("]");
        }
        let n: usize = b.text.as_str().unicode_len();
        let text = copy(b.text.as_str().substring_char(1, n - 1));
        ReaderBlock { kind: copy("form"), text, depth: b.depth }
    } else {
        b
    }
}

fn page_blocks(p: &Json) -> (r: Vec<ReaderBlock>)
    ensures
        views(r@) == page_blocks_v(p@),
{
    let markdown = json_str(p, "markdown");
    let mut out: Vec<ReaderBlock> = Vec::new();
    if !markdown.as_str().is_empty() {
        let ghost want = blocks_of(markdown@).map_values(|b: ReaderBlockV| formed(b));
        let parsed_blocks = parse_reader_markdown(markdown.as_str());
        for b in it: parsed_blocks
            invariant
                views(it.seq()) == blocks_of(markdown@),
                want == blocks_of(markdown@).map_values(|b: ReaderBlockV| formed(b)),
                views(out@) == want.take(it.index()),
        {
            let ghost i = it.index();
            assert(b@ == views(it.seq())[i]);
            out.push(form_block(b));
            assert(want.take(i).push(want[i]) =~= want.take(i + 1));
        }
        assert(want.take(want.len() as int) =~= want);
    }
    if out.is_empty() && json_flag(p, "js_required") {
        out.push(
            block(
                "quote",
                copy("This page needs JavaScript — nothing was recoverable from static HTML."),
            ),
        );
        assert(views(out@) =~= page_blocks_v(p@));
    }
    out
}

fn page_rows(p: &Json) -> (r: Vec<ReaderLink>)
    ensures
        views(r@) == page_rows_v(p@),
{
    let arr = p.items_at("links");
    let n: usize = rows_to_show(arr.len());
    let mut out: Vec<ReaderLink> = Vec::new();
    for i in 0..n
        invariant
            n <= arr@.len(),
            views(out@) == page_links_v(views(arr@), i as int),
    {
        assert(views(arr@)[i as int] == arr@[i as int]@);
        let url = json_str(&arr[i], "url");
        if !url.as_str().is_empty() {
            out.push(
                ReaderLink {
                    label: row_label(&arr[i], "text"),
                    url,
                    detail: String::new(),
                    badge: String::new(),
                },
            );
        }
    }
    out
}

/// The blocks and the link rows of a payload that carries a page's body.
pub fn page_blocks_links(p: &Json) -> (r: (Vec<ReaderBlock>, Vec<ReaderLink>))
    ensures
        views(r.0@) == page_blocks_v(p@),
        views(r.1@) == page_rows_v(p@),
{
    (page_blocks(p), page_rows(p))
}

// ── Rendering a payload ─────────────────────────────────────────────────────

/// Whether a payload came from the cache; a submitted form names it otherwise.
pub open spec fn cached_v(p: JsonV) -> Option<bool> {
    if str_v(p, "kind"@) == "submit"@ {
        flag_at(p, "cached"@)
    } else {
        flag_at(p, "from_cache"@)
    }
}

/// The freshness badge of a payload. What comes from memory and a page's element
/// list have none.
pub open spec fn badge_v(p: JsonV) -> Seq<char> {
    let kind = str_v(p, "kind"@);
    if kind == "recall"@ || kind == "dom"@ {
        Seq::empty()
    } else {
        match cached_v(p) {
            Some(true) => "cache"@,
            Some(false) => "live"@,
            None => Seq::empty(),
        }
    }
}

fn badge_of(p: &Json, kind: &str) -> (r: String)
    requires
        kind@ == str_v(p@, "kind"@),
    ensures
        r@ == badge_v(p@),
{
    let from_cache = if same(kind, "submit") {
        p.bool_at("cached")
    } else {
        p.bool_at("from_cache")
    };
    if same(kind, "recall") || same(kind, "dom") {
        String::new()
    } else {
        match from_cache {
            Some(true) => copy("cache"),
            Some(false) => copy("live"),
            None => String::new(),
        }
    }
}

/// The status of a request, where one was made.
pub open spec fn http_note(p: JsonV) -> Seq<char> {
    match uint_at(p, "status"@) {
        Some(n) => " · HTTP "@ + dec(n as nat),
        None => Seq::empty(),
    }
}

fn append_http(out: &mut String, p: &Json)
    ensures
        final(out)@ == old(out)@ + http_note(p@),
{
    match p.u64_at("status") {
        Some(n) => {
            out.append(cat(" · HTTP ", dec_u64(n).as_str()).as_str());
        },
        None => {
            assert(old(out)@ + http_note(p@) =~= old(out)@);
        },
    }
}

/// A page that was read.
pub open spec fn render_page_v(p: JsonV) -> RenderV {
    let links = page_rows_v(p);
    let meta = if str_v(p, "status"@) == "saved"@ {
        "📌 saved to memory"@
    } else {
        dec(links.len()) + " link"@ + plural_v(links.len()) + " on page"@
    };
    RenderV {
        mode: "page"@,
        title: title_v(p),
        url: str_v(p, "url"@),
        meta: meta + given(flagged(p, "salvaged"@), " · salvaged from embedded data"@),
        badge: badge_v(p),
        blocks: page_blocks_v(p),
        links,
        crumb_label: crumb_v(title_v(p)),
        crumb_url: str_v(p, "url"@),
    }
}

fn render_page(p: &Json, badge: String) -> (r: OccipitalRender)
    requires
        badge@ == badge_v(p@),
    ensures
        r@ == render_page_v(p@),
{
    let title = page_title(p);
    let (blocks, links) = page_blocks_links(p);
    let mut meta = if same(json_str(p, "status").as_str(), "saved") {
        copy("📌 saved to memory")
    } else {
        let mut m = dec_len(links.len());
        m.append(" link");
        m.append(plural(links.len()));
        m.append(" on page");
        m
    };
    append_given(&mut meta, json_flag(p, "salvaged"), " · salvaged from embedded data");
    let crumb_label = cap_crumb(title.as_str());
    OccipitalRender {
        mode: copy("page"),
        title,
        url: json_str(p, "url"),
        meta,
        badge,
        blocks,
        links,
        crumb_label,
        crumb_url: json_str(p, "url"),
    }
}

/// The page behind a link that the agent followed, and what it followed.
pub open spec fn render_click_v(p: JsonV) -> RenderV {
    RenderV {
        mode: "click"@,
        title: title_v(p),
        url: str_v(p, "url"@),
        meta: "clicked "@ + str_v(p, "element"@) + " → "@ + str_v(p, "target_url"@) + http_note(p)
            + given(flagged(p, "salvaged"@), " · salvaged"@),
        badge: badge_v(p),
        blocks: page_blocks_v(p),
        links: page_rows_v(p),
        crumb_label: crumb_v("click: "@ + title_v(p)),
        crumb_url: str_v(p, "url"@),
    }
}

fn render_click(p: &Json, badge: String) -> (r: OccipitalRender)
    requires
        badge@ == badge_v(p@),
    ensures
        r@ == render_click_v(p@),
{
    let title = page_title(p);
    let (blocks, links) = page_blocks_links(p);
    let mut meta = copy("clicked ");
    meta.append(json_str(p, "element").as_str());
    meta.append(" → ");
    meta.append(json_str(p, "target_url").as_str());
    append_http(&mut meta, p);
    append_given(&mut meta, json_flag(p, "salvaged"), " · salvaged");
    let crumb_label = cap_crumb(cat("click: ", title.as_str()).as_str());
    OccipitalRender {
        mode: copy("click"),
        title,
        url: json_str(p, "url"),
        meta,
        badge,
        blocks,
        links,
        crumb_label,
        crumb_url: json_str(p, "url"),
    }
}

/// A field that was sent with a form.
pub open spec fn sent_v(f: JsonV) -> Seq<char> {
    str_v(f, "name"@) + "="@ + str_v(f, "value"@)
}

/// The first `n` fields that were sent.
pub open spec fn sents_v(a: Seq<JsonV>, n: int) -> Seq<Seq<char>>
    decreases n,
{
    if n <= 0 {
        Seq::empty()
    } else {
        sents_v(a, n - 1).push(sent_v(a[n - 1]))
    }
}

/// What a form was sent with: three fields at most.
pub open spec fn sent_note(p: JsonV) -> Seq<char> {
    let a = items_or_none(p, "sent"@);
    let n = if a.len() > 3 {
        3
    } else {
        a.len() as int
    };
    if n == 0 {
        Seq::empty()
    } else {
        " — "@ + joined(sents_v(a, n), " · "@)
    }
}

fn append_sent(out: &mut String, p: &Json)
    ensures
        final(out)@ == old(out)@ + sent_note(p@),
{
    let arr = p.items_at("sent");
    let ghost a = items_or_none(p@, "sent"@);
    let n: usize = if arr.len() > 3 {
        3
    } else {
        arr.len()
    };
    let mut sent: Vec<String> = Vec::new();
    for i in 0..n
        invariant
            n <= arr@.len(),
            views(arr@) == a,
            views(sent@) == sents_v(a, i as int),
    {
        assert(a[i as int] == arr@[i as int]@);
        let field_text = cat3(
            json_str(&arr[i], "name").as_str(),
            "=",
            json_str(&arr[i], "value").as_str(),
        );
        sent.push(field_text);
    }
    if n > 0 {
        let joined_text = join(&sent, " · ");
        out.append(cat(" — ", joined_text.as_str()).as_str());
    } else {
        assert(old(out)@ + sent_note(p@) =~= old(out)@);
    }
}

/// The page that answered a form, and what was sent.
pub open spec fn render_submit_v(p: JsonV) -> RenderV {
    RenderV {
        mode: "submit"@,
        title: title_v(p),
        url: str_v(p, "url"@),
        meta: "form#"@ + dec(uint_or(p, "form"@, 0) as nat) + " "@ + upper_case(
            str_v(p, "method"@),
        ) + " "@ + str_v(p, "action"@) + sent_note(p) + http_note(p) + given(
            flagged(p, "salvaged"@),
            " · salvaged"@,
        ),
        badge: badge_v(p),
        blocks: page_blocks_v(p),
        links: page_rows_v(p),
        crumb_label: crumb_v("form: "@ + title_v(p)),
        crumb_url: str_v(p, "url"@),
    }
}

fn render_submit(p: &Json, badge: String) -> (r: OccipitalRender)
    requires
        badge@ == badge_v(p@),
    ensures
        r@ == render_submit_v(p@),
{
    let title = page_title(p);
    let (blocks, links) = page_blocks_links(p);
    let mut meta = copy("form#");
    meta.append(dec_u64(p.u64_or("form", 0)).as_str());
    meta.append(" ");
    meta.append(to_upper(json_str(p, "method").as_str()).as_str());
    meta.append(" ");
    meta.append(json_str(p, "action").as_str());
    append_sent(&mut meta, p);
    append_http(&mut meta, p);
    append_given(&mut meta, json_flag(p, "salvaged"), " · salvaged");
    let crumb_label = cap_crumb(cat("form: ", title.as_str()).as_str());
    OccipitalRender {
        mode: copy("submit"),
        title,
        url: json_str(p, "url"),
        meta,
        badge,
        blocks,
        links,
        crumb_label,
        crumb_url: json_str(p, "url"),
    }
}

/// The row of a link in a page's element list, with its ordinal.
pub open spec fn dom_link_v(l: JsonV) -> ReaderLinkV {
    ReaderLinkV {
        label: label_v(l, "text"@),
        url: str_v(l, "url"@),
        detail: Seq::empty(),
        badge: "#"@ + dec(uint_or(l, "idx"@, 0) as nat),
    }
}

/// The rows of the first `n` links of an element list; a link without an address
/// has none.
pub open spec fn dom_links_v(a: Seq<JsonV>, n: int) -> Seq<ReaderLinkV>
    decreases n,
{
    if n <= 0 {
        Seq::empty()
    } else if str_v(a[n - 1], "url"@).len() == 0 {
        dom_links_v(a, n - 1)
    } else {
        dom_links_v(a, n - 1).push(dom_link_v(a[n - 1]))
    }
}

/// The link rows of an element list.
pub open spec fn dom_rows_v(p: JsonV) -> Seq<ReaderLinkV> {
    let a = items_or_none(p, "links"@);
    dom_links_v(a, shown_rows(a.len()) as int)
}

/// The visible ones among the first `n` fields of a form, four at most.
pub open spec fn fields_v(a: Seq<JsonV>, n: int) -> Seq<Seq<char>>
    decreases n,
{
    if n <= 0 {
        Seq::empty()
    } else {
        let before = fields_v(a, n - 1);
        let f = a[n - 1];
        if str_v(f, "kind"@) == "hidden"@ || before.len() >= 4 {
            before
        } else {
            before.push(str_v(f, "kind"@) + " \""@ + str_v(f, "name"@) + "\""@)
        }
    }
}

/// What a form takes and what sends it.
pub open spec fn form_detail_v(f: JsonV) -> Seq<char> {
    let a = items_or_none(f, "fields"@);
    let shown = joined(fields_v(a, a.len() as int), " · "@);
    match text_at(f, "submit"@) {
        Some(s) => shown + given(shown.len() > 0, " · "@) + ("submit \""@ + s + "\""@),
        None => shown,
    }
}

/// The row of a form: something to read, not to follow.
pub open spec fn form_row_v(f: JsonV) -> ReaderLinkV {
    ReaderLinkV {
        label: "form#"@ + dec(uint_or(f, "idx"@, 0) as nat) + " → "@ + upper_case(
            str_v(f, "method"@),
        ) + " "@ + str_v(f, "action"@),
        url: Seq::empty(),
        detail: form_detail_v(f),
        badge: "form"@,
    }
}

/// The rows of the first `n` forms.
pub open spec fn form_rows_v(a: Seq<JsonV>, n: int) -> Seq<ReaderLinkV>
    decreases n,
{
    if n <= 0 {
        Seq::empty()
    } else {
        form_rows_v(a, n - 1).push(form_row_v(a[n - 1]))
    }
}

/// How many forms of an element list are shown.
pub open spec fn shown_forms(n: nat) -> nat {
    if n > 20 {
        20
    } else {
        n
    }
}

/// A page's element list: its links and its forms.
pub open spec fn render_dom_v(p: JsonV) -> RenderV {
    let links = dom_rows_v(p);
    let forms = items_or_none(p, "forms"@);
    let tail = if flagged(p, "js_required"@) {
        " · needs JS"@
    } else {
        given(flagged(p, "salvaged"@), " · salvaged"@)
    };
    RenderV {
        mode: "dom"@,
        title: title_v(p),
        url: str_v(p, "url"@),
        meta: dec(links.len()) + " link"@ + plural_v(links.len()) + " · "@ + dec(forms.len())
            + " form"@ + plural_v(forms.len()) + given(flagged(p, "snapshot"@), " · snapshot held"@)
            + tail,
        badge: badge_v(p),
        blocks: Seq::empty(),
        links: links + form_rows_v(forms, shown_forms(forms.len()) as int),
        crumb_label: crumb_v("dom: "@ + title_v(p)),
        crumb_url: str_v(p, "url"@),
    }
}

fn dom_rows(p: &Json) -> (r: Vec<ReaderLink>)
    ensures
        views(r@) == dom_rows_v(p@),
{
    let arr = p.items_at("links");
    let n: usize = rows_to_show(arr.len());
    let mut out: Vec<ReaderLink> = Vec::new();
    for i in 0..n
        invariant
            n <= arr@.len(),
            views(out@) == dom_links_v(views(arr@), i as int),
    {
        assert(views(arr@)[i as int] == arr@[i as int]@);
        let url = json_str(&arr[i], "url");
        if !url.as_str().is_empty() {
            out.push(
                ReaderLink {
                    label: row_label(&arr[i], "text"),
                    url,
                    detail: String::new(),
                    badge: cat("#", dec_u64(arr[i].u64_or("idx", 0)).as_str()),
                },
            );
        }
    }
    out
}

fn form_fields(f: &Json) -> (r: Vec<String>)
    ensures
        views(r@) == fields_v(
            items_or_none(f@, "fields"@),
            items_or_none(f@, "fields"@).len() as int,
        ),
{
    let arr = f.items_at("fields");
    let mut out: Vec<String> = Vec::new();
    for i in 0..arr.len()
        invariant
            views(out@) == fields_v(views(arr@), i as int),
    {
        assert(views(arr@)[i as int] == arr@[i as int]@);
        let kind = json_str(&arr[i], "kind");
        assert(out@.len() == views(out@).len());
        if !same(kind.as_str(), "hidden") && out.len() < 4 {
            let mut line = kind;
            line.append(" \"");
            line.append(json_str(&arr[i], "name").as_str());
            line.append("\"");
            out.push(line);
        }
    }
    out
}

fn form_row(f: &Json) -> (r: ReaderLink)
    ensures
        r@ == form_row_v(f@),
{
    let fields = form_fields(f);
    let mut detail = join(&fields, " · ");
    match f.str_at("submit") {
        Some(s) => {
            let some = !detail.as_str().is_empty();
            append_given(&mut detail, some, " · ");
            detail.append(cat3("submit \"", s, "\"").as_str());
        },
        None => {},
    }
    let mut label = copy("form#");
    label.append(dec_u64(f.u64_or("idx", 0)).as_str());
    label.append(" → ");
    label.append(to_upper(json_str(f, "method").as_str()).as_str());
    label.append(" ");
    label.append(json_str(f, "action").as_str());
    ReaderLink { label, url: String::new(), detail, badge: copy("form") }
}

fn render_dom(p: &Json, badge: String) -> (r: OccipitalRender)
    requires
        badge@ == badge_v(p@),
    ensures
        r@ == render_dom_v(p@),
{
    let title = page_title(p);
    let mut links = dom_rows(p);
    let ghost link_rows = views(links@);
    let n_links: usize = links.len();
    let forms = p.items_at("forms");
    let ghost a = items_or_none(p@, "forms"@);
    let n: usize = if forms.len() > 20 {
        20
    } else {
        forms.len()
    };
    assert(link_rows + form_rows_v(a, 0) =~= link_rows);
    for i in 0..n
        invariant
            n <= forms@.len(),
            views(forms@) == a,
            views(links@) == link_rows + form_rows_v(a, i as int),
    {
        assert(a[i as int] == forms@[i as int]@);
        let row = form_row(&forms[i]);
        assert((link_rows + form_rows_v(a, i as int)).push(row@) =~= link_rows + form_rows_v(
            a,
            i as int + 1,
        ));
        links.push(row);
    }
    let mut meta = dec_len(n_links);
    meta.append(" link");
    meta.append(plural(n_links));
    meta.append(" · ");
    meta.append(dec_len(forms.len()).as_str());
    meta.append(" form");
    meta.append(plural(forms.len()));
    append_given(&mut meta, json_flag(p, "snapshot"), " · snapshot held");
    if json_flag(p, "js_required") {
        meta.append(" · needs JS");
    } else {
        append_given(&mut meta, json_flag(p, "salvaged"), " · salvaged");
    }
    let crumb_label = cap_crumb(cat("dom: ", title.as_str()).as_str());
    OccipitalRender {
        mode: copy("dom"),
        title,
        url: json_str(p, "url"),
        meta,
        badge,
        blocks: Vec::new(),
        links,
        crumb_label,
        crumb_url: json_str(p, "url"),
    }
}

/// The row of a search result, with its rank counted from one.
pub open spec fn result_row_v(r: JsonV) -> ReaderLinkV {
    ReaderLinkV {
        label: label_v(r, "title"@),
        url: str_v(r, "url"@),
        detail: str_v(r, "snippet"@),
        badge: "#"@ + dec(uint_or(r, "rank"@, 0) as nat + 1),
    }
}

/// The rows of the first `n` search results.
pub open spec fn result_rows_v(a: Seq<JsonV>, n: int) -> Seq<ReaderLinkV>
    decreases n,
{
    if n <= 0 {
        Seq::empty()
    } else {
        result_rows_v(a, n - 1).push(result_row_v(a[n - 1]))
    }
}

/// What a web search found.
pub open spec fn render_results_v(p: JsonV) -> RenderV {
    let a = items_or_none(p, "results"@);
    let links = result_rows_v(a, shown_rows(a.len()) as int);
    let provider = str_v(p, "provider"@);
    RenderV {
        mode: "results"@,
        title: str_v(p, "query"@),
        url: Seq::empty(),
        meta: given(provider.len() > 0, provider + " · "@) + dec(links.len()) + " result"@
            + plural_v(links.len()),
        badge: badge_v(p),
        blocks: Seq::empty(),
        links,
        crumb_label: crumb_v("find: "@ + str_v(p, "query"@)),
        crumb_url: Seq::empty(),
    }
}

fn result_rows(p: &Json) -> (r: Vec<ReaderLink>)
    ensures
        ({
            let a = items_or_none(p@, "results"@);
            views(r@) == result_rows_v(a, shown_rows(a.len()) as int)
        }),
{
    let arr = p.items_at("results");
    let n: usize = rows_to_show(arr.len());
    let mut out: Vec<ReaderLink> = Vec::new();
    for i in 0..n
        invariant
            n <= arr@.len(),
            views(out@) == result_rows_v(views(arr@), i as int),
    {
        assert(views(arr@)[i as int] == arr@[i as int]@);
        let rank: u128 = arr[i].u64_or("rank", 0) as u128 + 1;
        out.push(
            ReaderLink {
                label: row_label(&arr[i], "title"),
                url: json_str(&arr[i], "url"),
                detail: json_str(&arr[i], "snippet"),
                badge: cat("#", decimal(rank).as_str()),
            },
        );
    }
    out
}

fn render_results(p: &Json, badge: String) -> (r: OccipitalRender)
    requires
        badge@ == badge_v(p@),
    ensures
        r@ == render_results_v(p@),
{
    let provider = json_str(p, "provider");
    let links = result_rows(p);
    let mut meta = String::new();
    let named = !provider.as_str().is_empty();
    append_given(&mut meta, named, cat(provider.as_str(), " · ").as_str());
    assert(meta@ =~= given(provider@.len() > 0, provider@ + " · "@));
    assert(links@.len() == views(links@).len());
    meta.append(dec_len(links.len()).as_str());
    meta.append(" result");
    meta.append(plural(links.len()));
    let query = json_str(p, "query");
    let crumb_label = cap_crumb(cat("find: ", query.as_str()).as_str());
    OccipitalRender {
        mode: copy("results"),
        title: query,
        url: String::new(),
        meta,
        badge,
        blocks: Vec::new(),
        links,
        crumb_label,
        crumb_url: String::new(),
    }
}

/// The row of a memory hit, with its score, or a sign that a keyword found it.
pub open spec fn hit_row_v(h: JsonV) -> ReaderLinkV {
    ReaderLinkV {
        label: label_v(h, "title"@),
        url: str_v(h, "url"@),
        detail: str_v(h, "snippet"@),
        badge: match num_at(h, "score"@) {
            Some(n) => n.hundredths,
            None => "kw"@,
        },
    }
}

/// The rows of the first `n` memory hits.
pub open spec fn hit_rows_v(a: Seq<JsonV>, n: int) -> Seq<ReaderLinkV>
    decreases n,
{
    if n <= 0 {
        Seq::empty()
    } else {
        hit_rows_v(a, n - 1).push(hit_row_v(a[n - 1]))
    }
}

/// What memory held on a question.
pub open spec fn render_recall_v(p: JsonV) -> RenderV {
    let a = items_or_none(p, "hits"@);
    let links = hit_rows_v(a, shown_rows(a.len()) as int);
    RenderV {
        mode: "recall"@,
        title: str_v(p, "query"@),
        url: Seq::empty(),
        meta: dec(links.len()) + " memory hit"@ + plural_v(links.len()),
        badge: Seq::empty(),
        blocks: Seq::empty(),
        links,
        crumb_label: crumb_v("mem: "@ + str_v(p, "query"@)),
        crumb_url: Seq::empty(),
    }
}

fn hit_rows(p: &Json) -> (r: Vec<ReaderLink>)
    ensures
        ({
            let a = items_or_none(p@, "hits"@);
            views(r@) == hit_rows_v(a, shown_rows(a.len()) as int)
        }),
{
    let arr = p.items_at("hits");
    let n: usize = rows_to_show(arr.len());
    let mut out: Vec<ReaderLink> = Vec::new();
    for i in 0..n
        invariant
            n <= arr@.len(),
            views(out@) == hit_rows_v(views(arr@), i as int),
    {
        assert(views(arr@)[i as int] == arr@[i as int]@);
        let badge = match arr[i].num_at("score") {
            Some(s) => s.hundredths.clone(),
            None => copy("kw"),
        };
        out.push(
            ReaderLink {
                label: row_label(&arr[i], "title"),
                url: json_str(&arr[i], "url"),
                detail: json_str(&arr[i], "snippet"),
                badge,
            },
        );
    }
    out
}

fn render_recall(p: &Json) -> (r: OccipitalRender)
    ensures
        r@ == render_recall_v(p@),
{
    let links = hit_rows(p);
    assert(links@.len() == views(links@).len());
    let mut meta = dec_len(links.len());
    meta.append(" memory hit");
    meta.append(plural(links.len()));
    let query = json_str(p, "query");
    let crumb_label = cap_crumb(cat("mem: ", query.as_str()).as_str());
    OccipitalRender {
        mode: copy("recall"),
        title: query,
        url: String::new(),
        meta,
        badge: String::new(),
        blocks: Vec::new(),
        links,
        crumb_label,
        crumb_url: String::new(),
    }
}

/// The texts that a neighbour shares with a page: its entities, then its tags.
pub open spec fn shared_v(r: JsonV) -> Seq<Seq<char>> {
    strings_at(r, "shared_entities"@) + strings_at(r, "shared_tags"@)
}

/// The row of a connected page: what it shares leads its detail line.
pub open spec fn related_row_v(r: JsonV) -> ReaderLinkV {
    let about = str_v(r, "summary_head"@);
    ReaderLinkV {
        label: label_v(r, "title"@),
        url: str_v(r, "url"@),
        detail: if shared_v(r).len() == 0 {
            about
        } else {
            "🏷 "@ + joined(shared_v(r), ", "@) + " — "@ + about
        },
        badge: match num_at(r, "score"@) {
            Some(n) => n.tenths,
            None => Seq::empty(),
        },
    }
}

/// The rows of the first `n` connected pages.
pub open spec fn related_rows_v(a: Seq<JsonV>, n: int) -> Seq<ReaderLinkV>
    decreases n,
{
    if n <= 0 {
        Seq::empty()
    } else {
        related_rows_v(a, n - 1).push(related_row_v(a[n - 1]))
    }
}

/// The pages that a curated page is connected with.
pub open spec fn render_related_v(p: JsonV) -> RenderV {
    let a = items_or_none(p, "related"@);
    let links = related_rows_v(a, shown_rows(a.len()) as int);
    RenderV {
        mode: "related"@,
        title: title_v(p),
        url: str_v(p, "url"@),
        meta: dec(links.len()) + " connected page"@ + plural_v(links.len()) + " · "@ + dec(
            uint_or(p, "distilled_total"@, 0) as nat,
        ) + " distilled in store"@,
        badge: Seq::empty(),
        blocks: Seq::empty(),
        links,
        crumb_label: crumb_v("related: "@ + title_v(p)),
        crumb_url: str_v(p, "url"@),
    }
}

fn related_row(r: &Json) -> (row: ReaderLink)
    ensures
        row@ == related_row_v(r@),
{
    let mut shared: Vec<String> = Vec::new();
    push_strings(r, "shared_entities", &mut shared);
    push_strings(r, "shared_tags", &mut shared);
    assert(views(shared@) =~= shared_v(r@));
    assert(shared@.len() == views(shared@).len());
    let mut detail = json_str(r, "summary_head");
    if !shared.is_empty() {
        let mut line = copy("🏷 ");
        line.append(join(&shared, ", ").as_str());
        line.append(" — ");
        line.append(detail.as_str());
        detail = line;
    }
    let badge = match r.num_at("score") {
        Some(n) => n.tenths.clone(),
        None => String::new(),
    };
    ReaderLink { label: row_label(r, "title"), url: json_str(r, "url"), detail, badge }
}

fn render_related(p: &Json) -> (r: OccipitalRender)
    ensures
        r@ == render_related_v(p@),
{
    let title = page_title(p);
    let arr = p.items_at("related");
    let n: usize = rows_to_show(arr.len());
    let mut links: Vec<ReaderLink> = Vec::new();
    for i in 0..n
        invariant
            n <= arr@.len(),
            views(links@) == related_rows_v(views(arr@), i as int),
    {
        assert(views(arr@)[i as int] == arr@[i as int]@);
        links.push(related_row(&arr[i]));
    }
    assert(links@.len() == views(links@).len());
    let mut meta = dec_len(links.len());
    meta.append(" connected page");
    meta.append(plural(links.len()));
    meta.append(" · ");
    meta.append(dec_u64(p.u64_or("distilled_total", 0)).as_str());
    meta.append(" distilled in store");
    let crumb_label = cap_crumb(cat("related: ", title.as_str()).as_str());
    OccipitalRender {
        mode: copy("related"),
        title,
        url: json_str(p, "url"),
        meta,
        badge: String::new(),
        blocks: Vec::new(),
        links,
        crumb_label,
        crumb_url: json_str(p, "url"),
    }
}

// ── Distilled pages ─────────────────────────────────────────────────────────

/// The key points among the first `n` items, as bullets.
pub open spec fn points_v(a: Seq<JsonV>, n: int) -> Seq<ReaderBlockV>
    decreases n,
{
    if n <= 0 {
        Seq::empty()
    } else {
        match text_v(a[n - 1]) {
            Some(s) => points_v(a, n - 1).push(block_v("bullet"@, s)),
            None => points_v(a, n - 1),
        }
    }
}

/// A card's last line: its tags, then its entities.
pub open spec fn tagline_v(d: JsonV) -> Seq<char> {
    let tags = joined(strings_at(d, "tags"@), ", "@);
    let entities = joined(strings_at(d, "entities"@), ", "@);
    if tags.len() > 0 && entities.len() > 0 {
        "🏷 "@ + tags + " · "@ + entities
    } else if tags.len() > 0 {
        "🏷 "@ + tags
    } else {
        entities
    }
}

/// A block that is there only where it has a text.
pub open spec fn block_if_any(kind: Seq<char>, text: Seq<char>) -> Seq<ReaderBlockV> {
    if text.len() == 0 {
        Seq::empty()
    } else {
        seq![block_v(kind, text)]
    }
}

/// The card of a distilled page; every card but the first stands below a rule.
pub open spec fn card_v(d: JsonV, ruled: bool) -> Seq<ReaderBlockV> {
    let points = items_or_none(d, "key_points"@);
    let rule = if ruled {
        seq![block_v("rule"@, Seq::empty())]
    } else {
        Seq::empty()
    };
    rule + seq![block_v("h2"@, title_v(d))] + block_if_any("p"@, str_v(d, "summary"@)) + points_v(
        points,
        points.len() as int,
    ) + block_if_any("quote"@, tagline_v(d))
}

/// The cards of the first `n` distilled pages.
pub open spec fn cards_v(a: Seq<JsonV>, n: int) -> Seq<ReaderBlockV>
    decreases n,
{
    if n <= 0 {
        Seq::empty()
    } else {
        cards_v(a, n - 1) + card_v(a[n - 1], n - 1 > 0)
    }
}

/// The row that leads to a distilled page's source.
pub open spec fn source_row_v(d: JsonV) -> ReaderLinkV {
    ReaderLinkV {
        label: title_v(d),
        url: str_v(d, "url"@),
        detail: head(str_v(d, "summary"@), 160),
        badge: if flagged(d, "from_cache"@) {
            "cache"@
        } else {
            str_v(d, "backend"@)
        },
    }
}

/// The source rows of the first `n` distilled pages that have an address.
pub open spec fn source_rows_v(a: Seq<JsonV>, n: int) -> Seq<ReaderLinkV>
    decreases n,
{
    if n <= 0 {
        Seq::empty()
    } else if str_v(a[n - 1], "url"@).len() == 0 {
        source_rows_v(a, n - 1)
    } else {
        source_rows_v(a, n - 1).push(source_row_v(a[n - 1]))
    }
}

/// The warnings of the first `n` pages that could not be distilled.
pub open spec fn warnings_v(a: Seq<JsonV>, n: int) -> Seq<ReaderBlockV>
    decreases n,
{
    if n <= 0 {
        Seq::empty()
    } else {
        warnings_v(a, n - 1).push(
            block_v(
                "quote"@,
                "⚠ "@ + str_v(a[n - 1], "url"@) + " — "@ + str_v(a[n - 1], "error"@),
            ),
        )
    }
}

/// The blocks of a distillation.
pub open spec fn distill_blocks_v(p: JsonV) -> Seq<ReaderBlockV> {
    let distilled = items_or_none(p, "distilled"@);
    let failed = items_or_none(p, "failed"@);
    let blocks = cards_v(distilled, distilled.len() as int) + warnings_v(
        failed,
        failed.len() as int,
    );
    if distilled.len() == 0 && failed.len() == 0 {
        blocks.push(
            block_v("quote"@, "Nothing to distill — every cached page is already curated."@),
        )
    } else {
        blocks
    }
}

/// Where a single distilled page came from.
pub open spec fn provenance_v(d: JsonV) -> Seq<char> {
    if flagged(d, "from_cache"@) {
        " · already current (no LLM spend)"@
    } else {
        given(str_v(d, "model"@).len() > 0, " · "@ + str_v(d, "model"@))
    }
}

/// The meta line of a distillation.
pub open spec fn distill_meta_v(p: JsonV) -> Seq<char> {
    let distilled = items_or_none(p, "distilled"@);
    let failed = items_or_none(p, "failed"@);
    let remaining = uint_or(p, "remaining"@, 0);
    dec(distilled.len()) + " page"@ + plural_v(distilled.len()) + " distilled"@ + given(
        failed.len() > 0,
        " · "@ + dec(failed.len()) + " failed"@,
    ) + given(remaining > 0, " · "@ + dec(remaining as nat) + " still undistilled"@) + (
    if distilled.len() == 1 {
        provenance_v(distilled[0])
    } else {
        Seq::empty()
    })
}

/// What was distilled. A single page lends the plan its title, address and
/// freshness.
pub open spec fn render_distill_v(p: JsonV) -> RenderV {
    let a = items_or_none(p, "distilled"@);
    let single = a.len() == 1;
    let title = if single {
        title_v(a[0])
    } else {
        "Distilled "@ + dec(a.len()) + " page"@ + plural_v(a.len())
    };
    let url = if single {
        str_v(a[0], "url"@)
    } else {
        Seq::empty()
    };
    RenderV {
        mode: "distill"@,
        title,
        url,
        meta: distill_meta_v(p),
        badge: if !single {
            Seq::empty()
        } else if flagged(a[0], "from_cache"@) {
            "cache"@
        } else {
            "live"@
        },
        blocks: distill_blocks_v(p),
        links: source_rows_v(a, a.len() as int),
        crumb_label: crumb_v("distill: "@ + title),
        crumb_url: url,
    }
}

fn tagline(d: &Json) -> (r: String)
    ensures
        r@ == tagline_v(d@),
{
    let tags = join_strings(d, "tags");
    let entities = join_strings(d, "entities");
    if !tags.as_str().is_empty() {
        let mut line = cat("🏷 ", tags.as_str());
        if !entities.as_str().is_empty() {
            line.append(" · ");
            line.append(entities.as_str());
        }
        line
    } else {
        entities
    }
}

fn push_block_if_any(out: &mut Vec<ReaderBlock>, kind: &str, text: String)
    ensures
        views(final(out)@) == views(old(out)@) + block_if_any(kind@, text@),
{
    if !text.as_str().is_empty() {
        assert(views(out@).push(block_v(kind@, text@)) =~= views(out@) + block_if_any(
            kind@,
            text@,
        ));
        out.push(block(kind, text));
    } else {
        assert(views(out@) =~= views(out@) + block_if_any(kind@, text@));
    }
}

fn push_points(out: &mut Vec<ReaderBlock>, d: &Json)
    ensures
        ({
            let a = items_or_none(d@, "key_points"@);
            views(final(out)@) == views(old(out)@) + points_v(a, a.len() as int)
        }),
{
    let arr = d.items_at("key_points");
    let ghost a = views(arr@);
    assert(views(out@) + points_v(a, 0) =~= views(out@));
    for i in 0..arr.len()
        invariant
            a == views(arr@),
            views(out@) == views(old(out)@) + points_v(a, i as int),
    {
        assert(a[i as int] == arr@[i as int]@);
        match arr[i].as_str() {
            Some(s) => {
                assert((views(old(out)@) + points_v(a, i as int)).push(block_v("bullet"@, s@))
                    =~= views(old(out)@) + points_v(a, i as int + 1));
                out.push(block("bullet", copy(s)));
            },
            None => {},
        }
    }
}

fn push_card(out: &mut Vec<ReaderBlock>, d: &Json, ruled: bool)
    ensures
        views(final(out)@) == views(old(out)@) + card_v(d@, ruled),
{
    let ghost before = views(out@);
    if ruled {
        out.push(block("rule", String::new()));
    }
    out.push(block("h2", page_title(d)));
    push_block_if_any(out, "p", json_str(d, "summary"));
    push_points(out, d);
    push_block_if_any(out, "quote", tagline(d));
    assert(views(out@) =~= before + card_v(d@, ruled));
}

fn source_row(d: &Json) -> (r: ReaderLink)
    ensures
        r@ == source_row_v(d@),
{
    let badge = if json_flag(d, "from_cache") {
        copy("cache")
    } else {
        json_str(d, "backend")
    };
    let detail = copy(take_chars(json_str(d, "summary").as_str(), 160));
    ReaderLink { label: page_title(d), url: json_str(d, "url"), detail, badge }
}

fn distill_parts(p: &Json) -> (r: (Vec<ReaderBlock>, Vec<ReaderLink>))
    ensures
        views(r.0@) == distill_blocks_v(p@),
        ({
            let a = items_or_none(p@, "distilled"@);
            views(r.1@) == source_rows_v(a, a.len() as int)
        }),
{
    let distilled = p.items_at("distilled");
    let failed = p.items_at("failed");
    let ghost a = views(distilled@);
    let ghost b = views(failed@);
    let mut blocks: Vec<ReaderBlock> = Vec::new();
    let mut links: Vec<ReaderLink> = Vec::new();
    for i in 0..distilled.len()
        invariant
            a == views(distilled@),
            views(blocks@) == cards_v(a, i as int),
            views(links@) == source_rows_v(a, i as int),
    {
        assert(a[i as int] == distilled@[i as int]@);
        push_card(&mut blocks, &distilled[i], i > 0);
        if !json_str(&distilled[i], "url").as_str().is_empty() {
            links.push(source_row(&distilled[i]));
        }
    }
    let ghost cards = cards_v(a, a.len() as int);
    assert(cards + warnings_v(b, 0) =~= cards);
    for i in 0..failed.len()
        invariant
            b == views(failed@),
            views(blocks@) == cards + warnings_v(b, i as int),
    {
        assert(b[i as int] == failed@[i as int]@);
        let mut line = copy("⚠ ");
        line.append(json_str(&failed[i], "url").as_str());
        line.append(" — ");
        line.append(json_str(&failed[i], "error").as_str());
        let warning = block("quote", line);
        assert((cards + warnings_v(b, i as int)).push(warning@) =~= cards + warnings_v(
            b,
            i as int + 1,
        ));
        blocks.push(warning);
    }
    if distilled.len() == 0 && failed.len() == 0 {
        blocks.push(
            block("quote", copy("Nothing to distill — every cached page is already curated.")),
        );
    }
    (blocks, links)
}

fn append_provenance(out: &mut String, d: &Json)
    ensures
        final(out)@ == old(out)@ + provenance_v(d@),
{
    if json_flag(d, "from_cache") {
        out.append(" · already current (no LLM spend)");
    } else {
        let model = json_str(d, "model");
        let named = !model.as_str().is_empty();
        append_given(out, named, cat(" · ", model.as_str()).as_str());
    }
}

fn distill_meta(p: &Json) -> (r: String)
    ensures
        r@ == distill_meta_v(p@),
{
    let distilled = p.items_at("distilled");
    let failed = p.items_at("failed");
    let remaining: u64 = p.u64_or("remaining", 0);
    assert(distilled@.len() == views(distilled@).len());
    assert(failed@.len() == views(failed@).len());
    let mut meta = dec_len(distilled.len());
    meta.append(" page");
    meta.append(plural(distilled.len()));
    meta.append(" distilled");
    append_given(
        &mut meta,
        failed.len() > 0,
        cat3(" · ", dec_len(failed.len()).as_str(), " failed").as_str(),
    );
    append_given(
        &mut meta,
        remaining > 0,
        cat3(" · ", dec_u64(remaining).as_str(), " still undistilled").as_str(),
    );
    if distilled.len() == 1 {
        assert(views(distilled@)[0] == distilled@[0]@);
        append_provenance(&mut meta, &distilled[0]);
    } else {
        assert(meta@ =~= meta@ + Seq::<char>::empty());
    }
    meta
}

fn render_distill(p: &Json) -> (r: OccipitalRender)
    ensures
        r@ == render_distill_v(p@),
{
    let (blocks, links) = distill_parts(p);
    let meta = distill_meta(p);
    let distilled = p.items_at("distilled");
    assert(distilled@.len() == views(distilled@).len());
    let (title, url, badge) = if distilled.len() == 1 {
        assert(views(distilled@)[0] == distilled@[0]@);
        let d = &distilled[0];
        let badge = if json_flag(d, "from_cache") {
            copy("cache")
        } else {
            copy("live")
        };
        (page_title(d), json_str(d, "url"), badge)
    } else {
        let mut t = copy("Distilled ");
        t.append(dec_len(distilled.len()).as_str());
        t.append(" page");
        t.append(plural(distilled.len()));
        (t, String::new(), String::new())
    };
    let crumb_label = cap_crumb(cat("distill: ", title.as_str()).as_str());
    let crumb_url = url.clone();
    OccipitalRender {
        mode: copy("distill"),
        title,
        url,
        meta,
        badge,
        blocks,
        links,
        crumb_label,
        crumb_url,
    }
}

// ── Any payload ─────────────────────────────────────────────────────────────

/// A payload of a kind that the reader does not know: it says so.
pub open spec fn render_unknown_v(kind: Seq<char>) -> RenderV {
    RenderV {
        mode: "page"@,
        title: "unrenderable payload: kind \""@ + kind + "\""@,
        url: Seq::empty(),
        meta: "the reader has no renderer for this kind"@ + " — the "@
            + "gate and the render arms have drifted"@,
        badge: Seq::empty(),
        blocks: Seq::empty(),
        links: Seq::empty(),
        crumb_label: crumb_v(kind),
        crumb_url: Seq::empty(),
    }
}

/// What the reader shows of a payload.
pub open spec fn render_v(p: JsonV) -> RenderV {
    let kind = str_v(p, "kind"@);
    if kind == "page"@ {
        render_page_v(p)
    } else if kind == "click"@ {
        render_click_v(p)
    } else if kind == "submit"@ {
        render_submit_v(p)
    } else if kind == "dom"@ {
        render_dom_v(p)
    } else if kind == "results"@ {
        render_results_v(p)
    } else if kind == "recall"@ {
        render_recall_v(p)
    } else if kind == "related"@ {
        render_related_v(p)
    } else if kind == "distill"@ {
        render_distill_v(p)
    } else {
        render_unknown_v(kind)
    }
}

/// Plans what the reader shows of a payload.
pub fn build_occipital_render(p: &Json) -> (r: OccipitalRender)
    ensures
        r@ == render_v(p@),
{
    let kind_text = json_str(p, "kind");
    let kind = kind_text.as_str();
    let badge = badge_of(p, kind);
    if same(kind, "page") {
        render_page(p, badge)
    } else if same(kind, "click") {
        render_click(p, badge)
    } else if same(kind, "submit") {
        render_submit(p, badge)
    } else if same(kind, "dom") {
        render_dom(p, badge)
    } else if same(kind, "results") {
        render_results(p, badge)
    } else if same(kind, "recall") {
        render_recall(p)
    } else if same(kind, "related") {
        render_related(p)
    } else if same(kind, "distill") {
        render_distill(p)
    } else {
        OccipitalRender {
            mode: copy("page"),
            title: cat3("unrenderable payload: kind \"", kind, "\""),
            url: String::new(),
            meta: cat3(
                "the reader has no renderer for this kind",
                " — the ",
                "gate and the render arms have drifted",
            ),
            badge: String::new(),
            blocks: Vec::new(),
            links: Vec::new(),
            crumb_label: cap_crumb(kind),
            crumb_url: String::new(),
        }
    }
}

// ── The trail ───────────────────────────────────────────────────────────────

/// How many crumbs the trail keeps.
pub const TRAIL_MAX: usize = 8;

/// The trail after a payload: a crumb with the label of the last one adds nothing,
/// any other goes to the end, and the oldest make room.
pub open spec fn trail_v(trail: Seq<ReaderLinkV>, crumb: ReaderLinkV) -> Seq<ReaderLinkV> {
    if trail.len() > 0 && trail.last().label == crumb.label {
        trail
    } else {
        let t = trail.push(crumb);
        if t.len() > TRAIL_MAX {
            t.skip(t.len() - TRAIL_MAX)
        } else {
            t
        }
    }
}

/// Adds a crumb to the trail.
pub fn push_crumb(trail: &mut Vec<ReaderLink>, label: String, url: String)
    ensures
        views(final(trail)@) == trail_v(
            views(old(trail)@),
            ReaderLinkV { label: label@, url: url@, detail: Seq::empty(), badge: Seq::empty() },
        ),
{
    let ghost before = views(trail@);
    let n: usize = trail.len();
    if n > 0 && same(trail[n - 1].label.as_str(), label.as_str()) {
        assert(before.last() == trail@[n - 1]@);
        return;
    }
    if n > 0 {
        assert(before.last() == trail@[n - 1]@);
    }
    let crumb = ReaderLink { label, url, detail: String::new(), badge: String::new() };
    let ghost t = before.push(crumb@);
    trail.push(crumb);
    assert(t.skip(0) =~= t);
    while trail.len() > TRAIL_MAX
        invariant
            trail@.len() <= t.len(),
            views(trail@) == t.skip(t.len() - trail@.len()),
            trail@.len() <= TRAIL_MAX ==> t.len() - trail@.len() == if t.len() > TRAIL_MAX {
                t.len() - TRAIL_MAX
            } else {
                0
            },
        decreases trail@.len(),
    {
        let ghost v = trail@;
        trail.remove(0);
        assert(views(trail@) =~= views(v).skip(1));
        assert(t.skip(t.len() - v.len()).skip(1) =~= t.skip(t.len() - v.len() + 1));
    }
}

// ── The window ──────────────────────────────────────────────────────────────

/// The reader window: the last payload, and the trail that led there.
#[derive(Debug)]
pub struct ReaderPane {
    pub page: OccipitalRender,
    pub trail: Vec<ReaderLink>,
    pub scroll_tick: i32,
}

/// The model of a [`ReaderPane`].
pub struct ReaderPaneV {
    pub page: RenderV,
    pub trail: Seq<ReaderLinkV>,
    pub scroll_tick: i32,
}

impl View for ReaderPane {
    type V = ReaderPaneV;

    open spec fn view(&self) -> ReaderPaneV {
        ReaderPaneV {
            page: self.page@,
            trail: views(self.trail@),
            scroll_tick: self.scroll_tick,
        }
    }
}

/// The crumb of a plan.
pub open spec fn crumb_of(r: RenderV) -> ReaderLinkV {
    ReaderLinkV {
        label: r.crumb_label,
        url: r.crumb_url,
        detail: Seq::empty(),
        badge: Seq::empty(),
    }
}

/// The window with a new payload.
pub open spec fn turned(p: ReaderPaneV, r: RenderV) -> ReaderPaneV {
    ReaderPaneV {
        page: r,
        trail: trail_v(p.trail, crumb_of(r)),
        scroll_tick: wrapping_next(p.scroll_tick),
    }
}

/// A blank plan.
pub open spec fn blank_render() -> RenderV {
    RenderV {
        mode: Seq::empty(),
        title: Seq::empty(),
        url: Seq::empty(),
        meta: Seq::empty(),
        badge: Seq::empty(),
        blocks: Seq::empty(),
        links: Seq::empty(),
        crumb_label: Seq::empty(),
        crumb_url: Seq::empty(),
    }
}

impl ReaderPane {
    /// A window that has shown nothing.
    pub fn new() -> (r: ReaderPane)
        ensures
            r@ == (ReaderPaneV { page: blank_render(), trail: Seq::empty(), scroll_tick: 0 }),
    {
        ReaderPane {
            page: OccipitalRender {
                mode: String::new(),
                title: String::new(),
                url: String::new(),
                meta: String::new(),
                badge: String::new(),
                blocks: Vec::new(),
                links: Vec::new(),
                crumb_label: String::new(),
                crumb_url: String::new(),
            },
            trail: Vec::new(),
            scroll_tick: 0,
        }
    }

    /// Shows a payload.
    pub fn apply_occipital_render(&mut self, r: OccipitalRender)
        ensures
            final(self)@ == turned(old(self)@, r@),
    {
        push_crumb(&mut self.trail, r.crumb_label.clone(), r.crumb_url.clone());
        self.page = r;
        self.scroll_tick = next_after(self.scroll_tick);
    }
}

// ── Laws ────────────────────────────────────────────────────────────────────

/// What is recovered from a tool's answer is always a payload of the wanted sort.
pub proof fn recovered_payloads_are_wanted(w: Wanted, content: JsonV)
    ensures
        payload_of(w, content) matches Some(p) ==> wanted(w, p),
{
    match content {
        JsonV::Arr(a) => {
            recovered_items_are_wanted(w, a, 0);
        },
        _ => {},
    }
}

proof fn recovered_items_are_wanted(w: Wanted, a: Seq<JsonV>, i: int)
    ensures
        payload_in_items(w, a, i) matches Some(p) ==> wanted(w, p),
    decreases a.len() - i,
{
    if 0 <= i < a.len() {
        recovered_items_are_wanted(w, a, i + 1);
    }
}

/// Every kind that is let through has a renderer of its own, and no other kind
/// has: the plan's layout is the payload's kind, or it says that there is none.
pub proof fn gate_and_renderers_agree(p: JsonV)
    ensures
        is_reader(p) ==> render_v(p).mode == str_v(p, "kind"@),
        !reader_kind(str_v(p, "kind"@)) ==> render_v(p) == render_unknown_v(str_v(p, "kind"@)),
{
}

/// The trail keeps its bound, and ends with the crumb that came last.
pub proof fn the_trail_is_bounded(trail: Seq<ReaderLinkV>, crumb: ReaderLinkV)
    requires
        trail.len() <= TRAIL_MAX,
    ensures
        0 < trail_v(trail, crumb).len() <= TRAIL_MAX,
        trail_v(trail, crumb).last().label == crumb.label,
        trail_v(trail_v(trail, crumb), crumb) == trail_v(trail, crumb),
{
}

} // verus!
