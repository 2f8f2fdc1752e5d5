//! What the reader shows of what was found on the web.
use vstd::prelude::*;
use crate::json::{flagged, items_or_none, num_at, text_or, uint_or, JsonV};
use crate::markdown::{blocks_of, ReaderBlockV};
use crate::reader::{
    hit_row_v, hit_rows_v, page_links_v, related_row_v, related_rows_v, render_v, result_row_v,
    result_rows_v, trail_v, ReaderLinkV,
};
use crate::text::{begins, dec, ends, trimmed};

verus! {

/// Whether a payload is of a kind.
pub open spec fn of_kind(p: JsonV, kind: Seq<char>) -> bool {
    text_or(p, "kind"@, ""@) == kind
}

/// A text of a payload; empty where it has none.
pub open spec fn said(p: JsonV, key: Seq<char>) -> Seq<char> {
    text_or(p, key, ""@)
}

proof fn kinds_unlike()
    ensures
        "page"@.len() == 4 && "click"@.len() == 5 && "submit"@.len() == 6 && "dom"@.len() == 3
            && "results"@.len() == 7 && "recall"@.len() == 6 && "related"@.len() == 7
            && "distill"@.len() == 7,
        "submit"@ != "recall"@,
        "results"@ != "related"@,
        "results"@ != "distill"@,
        "related"@ != "distill"@,
{
    reveal_strlit("page");
    reveal_strlit("click");
    reveal_strlit("submit");
    reveal_strlit("dom");
    reveal_strlit("results");
    reveal_strlit("recall");
    reveal_strlit("related");
    reveal_strlit("distill");
    assert("submit"@[0] == 's' && "recall"@[0] == 'r' && "distill"@[0] == 'd');
    assert("results"@[2] == 's' && "related"@[2] == 'l');
}

/// Each kind of payload is shown in a mode of its own.
pub proof fn kinds_have_a_mode(p: JsonV)
    ensures
        of_kind(p, "page"@) ==> render_v(p).mode == "page"@,
        of_kind(p, "click"@) ==> render_v(p).mode == "click"@,
        of_kind(p, "submit"@) ==> render_v(p).mode == "submit"@,
        of_kind(p, "dom"@) ==> render_v(p).mode == "dom"@,
        of_kind(p, "results"@) ==> render_v(p).mode == "results"@,
        of_kind(p, "recall"@) ==> render_v(p).mode == "recall"@,
        of_kind(p, "related"@) ==> render_v(p).mode == "related"@,
        of_kind(p, "distill"@) ==> render_v(p).mode == "distill"@,
{
    kinds_unlike();
}

/// Whether a paragraph is a form that the page describes.
pub open spec fn is_form(b: ReaderBlockV) -> bool {
    b.kind == "p"@ && begins(b.text, "[form#"@) && ends(b.text, "]"@)
}

/// A page is shown with its address, its title or else its address, and the blocks of its
/// markdown; a paragraph that describes a form is shown as a form, without its brackets.
pub proof fn pages_show_their_blocks(p: JsonV, i: int)
    requires
        of_kind(p, "page"@) || of_kind(p, "click"@) || of_kind(p, "submit"@),
        said(p, "markdown"@).len() > 0,
        0 <= i < blocks_of(said(p, "markdown"@)).len(),
    ensures
        ({
            let r = render_v(p);
            let b = blocks_of(said(p, "markdown"@));
            &&& r.url == said(p, "url"@)
            &&& said(p, "title"@).len() > 0 ==> r.title == said(p, "title"@)
            &&& said(p, "title"@).len() == 0 ==> r.title == said(p, "url"@)
            &&& r.blocks.len() == b.len()
            &&& !is_form(b[i]) ==> r.blocks[i] == b[i]
            &&& is_form(b[i]) ==> r.blocks[i].kind == "form"@ && r.blocks[i].text
                == b[i].text.subrange(1, b[i].text.len() - 1)
        }),
{
    kinds_unlike();
}

/// A page that could not be read says so.
pub proof fn empty_pages_say_why(p: JsonV)
    requires
        of_kind(p, "page"@) || of_kind(p, "click"@) || of_kind(p, "submit"@),
        said(p, "markdown"@).len() == 0,
    ensures
        flagged(p, "js_required"@) ==> render_v(p).blocks.len() == 1 && render_v(p).blocks[0].kind
            == "quote"@,
        !flagged(p, "js_required"@) ==> render_v(p).blocks.len() == 0,
{
    kinds_unlike();
}

/// How many rows are shown of so many.
pub open spec fn room_for(n: nat) -> nat {
    if n < 60 {
        n
    } else {
        60
    }
}

/// What a row goes by: its own words, or its address where it has none.
pub open spec fn goes_by(row: JsonV, key: Seq<char>) -> Seq<char> {
    if trimmed(said(row, key)).len() == 0 {
        said(row, "url"@)
    } else {
        said(row, key)
    }
}

proof fn links_in_order(a: Seq<JsonV>, n: int, i: int)
    requires
        0 <= i < n <= a.len(),
        forall|j: int| 0 <= j < a.len() ==> said(#[trigger] a[j], "url"@).len() > 0,
    ensures
        page_links_v(a, n).len() == n,
        page_links_v(a, n)[i].url == said(a[i], "url"@),
        page_links_v(a, n)[i].label == goes_by(a[i], "text"@),
    decreases n,
{
    assert(said(a[n - 1], "url"@).len() > 0);
    if n > 1 {
        if i < n - 1 {
            links_in_order(a, n - 1, i);
        } else {
            links_in_order(a, n - 1, 0);
        }
    } else {
        assert(page_links_v(a, 0).len() == 0);
    }
}

/// The links of a page are shown in their order, each by its text, sixty at most.
pub proof fn pages_show_their_links(p: JsonV, i: int)
    requires
        of_kind(p, "page"@) || of_kind(p, "click"@) || of_kind(p, "submit"@),
        forall|j: int|
            0 <= j < items_or_none(p, "links"@).len() ==> said(
                #[trigger] items_or_none(p, "links"@)[j],
                "url"@,
            ).len() > 0,
        0 <= i < room_for(items_or_none(p, "links"@).len()),
    ensures
        ({
            let a = items_or_none(p, "links"@);
            let r = render_v(p);
            &&& r.links.len() == room_for(a.len())
            &&& r.links[i].url == said(a[i], "url"@)
            &&& r.links[i].label == goes_by(a[i], "text"@)
        }),
{
    kinds_unlike();
    let a = items_or_none(p, "links"@);
    links_in_order(a, room_for(a.len()) as int, i);
}

proof fn rows_in_order(a: Seq<JsonV>, n: int, i: int)
    requires
        0 <= i < n <= a.len(),
    ensures
        result_rows_v(a, n).len() == n && hit_rows_v(a, n).len() == n && related_rows_v(a, n).len()
            == n,
        result_rows_v(a, n)[i] == result_row_v(a[i]),
        hit_rows_v(a, n)[i] == hit_row_v(a[i]),
        related_rows_v(a, n)[i] == related_row_v(a[i]),
    decreases n,
{
    if n > 1 {
        if i < n - 1 {
            rows_in_order(a, n - 1, i);
        } else {
            rows_in_order(a, n - 1, 0);
        }
    } else {
        assert(result_rows_v(a, 0).len() == 0 && hit_rows_v(a, 0).len() == 0 && related_rows_v(a, 0)
            .len() == 0);
    }
}

/// What a search found is shown in its order under the question: each with its title, its
/// address, what it says and its rank. So is what was remembered, with its score, and what is
/// related. Sixty at most.
pub proof fn finds_are_listed(p: JsonV, i: int)
    ensures
        ({
            let r = render_v(p);
            let a = items_or_none(p, "results"@);
            of_kind(p, "results"@) && 0 <= i < room_for(a.len()) ==> {
                &&& r.title == said(p, "query"@)
                &&& r.links.len() == room_for(a.len())
                &&& r.links[i].label == goes_by(a[i], "title"@)
                &&& r.links[i].url == said(a[i], "url"@)
                &&& r.links[i].detail == said(a[i], "snippet"@)
                &&& r.links[i].badge == "#"@ + dec(uint_or(a[i], "rank"@, 0) as nat + 1)
            }
        }),
        ({
            let r = render_v(p);
            let a = items_or_none(p, "hits"@);
            of_kind(p, "recall"@) && 0 <= i < room_for(a.len()) ==> {
                &&& r.title == said(p, "query"@)
                &&& r.links.len() == room_for(a.len())
                &&& r.links[i].label == goes_by(a[i], "title"@)
                &&& r.links[i].url == said(a[i], "url"@)
                &&& r.links[i].detail == said(a[i], "snippet"@)
                &&& num_at(a[i], "score"@) is None ==> r.links[i].badge == "kw"@
                &&& num_at(a[i], "score"@) matches Some(n) ==> r.links[i].badge == n.hundredths
            }
        }),
        ({
            let r = render_v(p);
            let a = items_or_none(p, "related"@);
            of_kind(p, "related"@) && 0 <= i < room_for(a.len()) ==> {
                &&& r.url == said(p, "url"@)
                &&& r.links.len() == room_for(a.len())
                &&& r.links[i].label == goes_by(a[i], "title"@)
                &&& r.links[i].url == said(a[i], "url"@)
            }
        }),
{
    kinds_unlike();
    let a = items_or_none(p, "results"@);
    let b = items_or_none(p, "hits"@);
    let c = items_or_none(p, "related"@);
    if 0 <= i < room_for(a.len()) {
        rows_in_order(a, room_for(a.len()) as int, i);
    }
    if 0 <= i < room_for(b.len()) {
        rows_in_order(b, room_for(b.len()) as int, i);
    }
    if 0 <= i < room_for(c.len()) {
        rows_in_order(c, room_for(c.len()) as int, i);
    }
}

/// The trail ends with where the reader is; a stop at the same place twice is one. It keeps
/// the last eight stops in their order.
pub proof fn trails_end_where_the_reader_is(trail: Seq<ReaderLinkV>, crumb: ReaderLinkV, i: int)
    requires
        trail.len() <= 8,
        0 <= i < trail.len(),
    ensures
        ({
            let t = trail_v(trail, crumb);
            &&& 0 < t.len() <= 8
            &&& t.last().label == crumb.label
            &&& trail.last().label == crumb.label ==> t == trail
            &&& trail.last().label != crumb.label ==> t.last() == crumb
            &&& trail.last().label != crumb.label && trail.len() < 8 ==> t.len() == trail.len() + 1
                && t[i] == trail[i]
            &&& trail.last().label != crumb.label && trail.len() == 8 && i > 0 ==> t.len() == 8
                && t[i - 1] == trail[i]
        }),
{
}

} // verus!
