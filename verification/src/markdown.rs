//! Reader-mode markdown: a page's text as a flat list of display blocks.
use vstd::prelude::*;
use crate::text::{
    begins, byte_count, byte_count_add, byte_len, chars_of, copy, dec, dec_len, find_char, fit,
    leading, lines, lines_of, run, same, seek, seek_bounds, skip_chars, starts_with, strip_prefix,
    take_bytes, text_of, trim, trim_back, trim_end, trim_front, trim_start, trimmed, views,
};

verus! {

broadcast use {crate::text::views_push, crate::text::views_empty};

/// A block of the reader: a heading, a paragraph, a bullet, and so on.
#[derive(Debug)]
pub struct ReaderBlock {
    pub kind: String,
    pub text: String,
    pub depth: i32,
}

/// The model of a [`ReaderBlock`].
pub struct ReaderBlockV {
    pub kind: Seq<char>,
    pub text: Seq<char>,
    pub depth: i32,
}

impl View for ReaderBlock {
    type V = ReaderBlockV;

    open spec fn view(&self) -> ReaderBlockV {
        ReaderBlockV { kind: self.kind@, text: self.text@, depth: self.depth }
    }
}

/// A block at the left margin.
pub open spec fn block_v(kind: Seq<char>, text: Seq<char>) -> ReaderBlockV {
    ReaderBlockV { kind, text, depth: 0 }
}

/// A block at the left margin.
pub fn block(kind: &str, text: String) -> (r: ReaderBlock)
    ensures
        r@ == block_v(kind@, text@),
{
    ReaderBlock { kind: copy(kind), text, depth: 0 }
}

// ── Inline markup ───────────────────────────────────────────────────────────

/// Where reading goes on after a place that may open a parenthesis: behind it.
pub open spec fn past_paren(s: Seq<char>, i: int) -> int {
    if 0 <= i < s.len() && s[i] == '(' {
        past(s, seek(s, ')', i + 1))
    } else {
        i
    }
}

/// The place behind a character that was looked for; the end where it is missing.
pub open spec fn past(s: Seq<char>, k: int) -> int {
    if k < s.len() {
        k + 1
    } else {
        s.len() as int
    }
}

/// What the character at `i` adds to the reading text, and where reading goes on.
/// A backslash keeps the next character, emphasis and code marks vanish, an image
/// is its caption behind a picture sign, a link is its text, and square brackets
/// that start no link stay.
pub open spec fn piece(s: Seq<char>, i: int) -> (Seq<char>, int) {
    let c = s[i];
    if c == '\\' {
        if i + 1 < s.len() {
            (seq![s[i + 1]], i + 2)
        } else {
            (Seq::empty(), i + 1)
        }
    } else if c == '`' || c == '*' {
        (Seq::empty(), i + 1)
    } else if c == '!' && i + 1 < s.len() && s[i + 1] == '[' {
        let k = seek(s, ']', i + 2);
        let caption = s.subrange(i + 2, k);
        if caption.len() == 0 {
            (Seq::empty(), past_paren(s, past(s, k)))
        } else {
            ("🖼 "@ + caption, past_paren(s, past(s, k)))
        }
    } else if c == '[' {
        let k = seek(s, ']', i + 1);
        let inner = s.subrange(i + 1, k);
        let a = past(s, k);
        if a < s.len() && s[a] == '(' {
            (inner, past_paren(s, a))
        } else {
            ((seq!['['] + inner).push(']'), a)
        }
    } else {
        (seq![c], i + 1)
    }
}

/// The reading text of `s` from `i` on.
pub open spec fn plain_from(s: Seq<char>, i: int) -> Seq<char>
    decreases s.len() - i,
    when 0 <= i <= s.len()
    via plain_from_decreases
{
    if i >= s.len() {
        Seq::empty()
    } else {
        piece(s, i).0 + plain_from(s, piece(s, i).1)
    }
}

proof fn past_paren_bounds(s: Seq<char>, i: int)
    requires
        0 <= i <= s.len(),
    ensures
        i <= past_paren(s, i) <= s.len(),
{
    if i < s.len() {
        seek_bounds(s, ')', i + 1);
    }
}

#[via_fn]
proof fn plain_from_decreases(s: Seq<char>, i: int) {
    if i < s.len() {
        seek_bounds(s, ']', i + 1);
        past_paren_bounds(s, past(s, seek(s, ']', i + 1)));
        if i + 1 < s.len() {
            seek_bounds(s, ']', i + 2);
            past_paren_bounds(s, past(s, seek(s, ']', i + 2)));
        }
    }
}

/// A line's reading text, without white space at its ends.
pub open spec fn plain(s: Seq<char>) -> Seq<char> {
    trimmed(plain_from(s, 0))
}

fn skip_paren(v: &Vec<char>, i: usize) -> (r: usize)
    requires
        i <= v@.len(),
    ensures
        r == past_paren(v@, i as int),
        i <= r <= v@.len(),
{
    if i < v.len() && v[i] == '(' {
        let k: usize = find_char(v, ')', i + 1);
        if k < v.len() {
            k + 1
        } else {
            k
        }
    } else {
        i
    }
}

fn next_piece(v: &Vec<char>, i: usize) -> (r: (String, usize))
    requires
        i < v@.len(),
    ensures
        (r.0@, r.1 as int) == piece(v@, i as int),
        i < r.1 <= v@.len(),
{
    let n: usize = v.len();
    let c = v[i];
    let mut out = String::new();
    if c == '\\' {
        if i + 1 < n {
            out.push(v[i + 1]);
            assert(out@ =~= seq![v@[i + 1]]);
            (out, i + 2)
        } else {
            (out, i + 1)
        }
    } else if c == '`' || c == '*' {
        (out, i + 1)
    } else if c == '!' && i + 1 < n && v[i + 1] == '[' {
        let k: usize = find_char(v, ']', i + 2);
        let caption = text_of(v, i + 2, k);
        let after: usize = if k < n {
            k + 1
        } else {
            k
        };
        if !caption.as_str().is_empty() {
            out = copy("🖼 ");
            out.append(caption.as_str());
        }
        (out, skip_paren(v, after))
    } else if c == '[' {
        let k: usize = find_char(v, ']', i + 1);
        let inner = text_of(v, i + 1, k);
        let a: usize = if k < n {
            k + 1
        } else {
            k
        };
        if a < n && v[a] == '(' {
            (inner, skip_paren(v, a))
        } else {
            out.push('[');
            assert(out@ =~= seq!['[']);
            out.append(inner.as_str());
            out.push(']');
            (out, a)
        }
    } else {
        out.push(c);
        assert(out@ =~= seq![c]);
        (out, i + 1)
    }
}

/// Strips inline markdown to clean reading text.
pub fn strip_inline_md(s: &str) -> (r: String)
    ensures
        r@ == plain(s@),
{
    let v = chars_of(s);
    let n: usize = v.len();
    let mut out = String::new();
    let mut i: usize = 0;
    assert(out@ + plain_from(v@, 0) =~= plain_from(v@, 0));
    while i < n
        invariant
            i <= n == v@.len(),
            out@ + plain_from(v@, i as int) == plain_from(v@, 0),
        decreases n - i,
    {
        let (part, next) = next_piece(&v, i);
        assert(out@ + (part@ + plain_from(v@, next as int)) =~= out@ + part@ + plain_from(
            v@,
            next as int,
        ));
        out.append(part.as_str());
        i = next;
    }
    assert(out@ + plain_from(v@, n as int) =~= out@);
    copy(trim(out.as_str()))
}

// ── Blocks ──────────────────────────────────────────────────────────────────

/// How many blocks a page shows before it is cut off.
pub const OCCIPITAL_MAX_BLOCKS: usize = 400;

/// How many bytes of a code block are shown.
pub const CODE_BYTES: u64 = 4000;

/// What is known when some lines of a page have been read.
pub struct PageV {
    /// The blocks so far.
    pub blocks: Seq<ReaderBlockV>,
    /// The paragraph that is being gathered.
    pub para: Seq<char>,
    /// Whether the lines stand between code fences.
    pub in_code: bool,
    /// The code block that is being gathered.
    pub code: Seq<char>,
}

/// The paragraph at hand, as a block, where it holds anything.
pub open spec fn para_blocks(para: Seq<char>) -> Seq<ReaderBlockV> {
    let p = trimmed(para);
    if p.len() == 0 {
        Seq::empty()
    } else {
        seq![block_v("p"@, plain(p))]
    }
}

/// A closed code block: cut to a bounded size, with a sign where it was cut.
pub open spec fn code_text(code: Seq<char>) -> Seq<char> {
    let body = trim_back(code);
    if byte_count(body) > CODE_BYTES {
        fit(body, CODE_BYTES as nat) + "…"@
    } else {
        body
    }
}

/// What follows a bullet mark.
pub open spec fn bullet_text(lead: Seq<char>) -> Option<Seq<char>> {
    if begins(lead, "- "@) || begins(lead, "* "@) || begins(lead, "+ "@) {
        Some(lead.skip(2))
    } else {
        None
    }
}

/// What follows a quote mark.
pub open spec fn quote_text(lead: Seq<char>) -> Option<Seq<char>> {
    if begins(lead, "> "@) {
        Some(lead.skip(2))
    } else if begins(lead, ">"@) {
        Some(lead.skip(1))
    } else {
        None
    }
}

pub open spec fn is_rule(lead: Seq<char>) -> bool {
    lead == "---"@ || lead == "***"@ || lead == "___"@ || lead == "- - -"@
}

/// The level of a heading with `n` marks: one to three.
pub open spec fn heading_level(n: nat) -> nat {
    if n < 1 {
        1
    } else if n > 3 {
        3
    } else {
        n
    }
}

/// How deep a bullet stands: one step for two bytes of indentation, four at most.
pub open spec fn bullet_depth(line: Seq<char>) -> i32 {
    let d = (byte_count(line) - byte_count(trim_front(line))) / 2;
    if d < 4 {
        d as i32
    } else {
        4
    }
}

/// The block that a line outside code is, where it is one of its own.
pub open spec fn line_block(line: Seq<char>) -> Option<ReaderBlockV> {
    let lead = trim_front(line);
    let marks = run(lead, '#');
    if lead.len() > 0 && lead[0] == '#' {
        Some(
            block_v(
                "h"@ + dec(heading_level(marks)),
                plain(trimmed(lead.skip(marks as int))),
            ),
        )
    } else if is_rule(lead) {
        Some(block_v("rule"@, Seq::empty()))
    } else if bullet_text(lead) is Some {
        Some(
            ReaderBlockV {
                kind: "bullet"@,
                text: plain(bullet_text(lead)->0),
                depth: bullet_depth(line),
            },
        )
    } else if quote_text(lead) is Some {
        Some(block_v("quote"@, plain(trimmed(quote_text(lead)->0))))
    } else {
        None
    }
}

/// Reads one more line.
pub open spec fn read_line(st: PageV, raw: Seq<char>) -> PageV {
    let line = trim_back(raw);
    let lead = trim_front(line);
    if st.in_code {
        if begins(lead, "```"@) {
            PageV {
                blocks: st.blocks.push(block_v("code"@, code_text(st.code))),
                code: Seq::empty(),
                in_code: false,
                ..st
            }
        } else {
            PageV { code: (st.code + raw).push('\n'), ..st }
        }
    } else if begins(lead, "```"@) {
        PageV {
            blocks: st.blocks + para_blocks(st.para),
            para: Seq::empty(),
            in_code: true,
            ..st
        }
    } else if lead.len() == 0 {
        PageV { blocks: st.blocks + para_blocks(st.para), para: Seq::empty(), ..st }
    } else if line_block(line) is Some {
        PageV {
            blocks: (st.blocks + para_blocks(st.para)).push(line_block(line)->0),
            para: Seq::empty(),
            ..st
        }
    } else if st.para.len() == 0 {
        PageV { para: lead, ..st }
    } else {
        PageV { para: st.para.push(' ') + lead, ..st }
    }
}

/// The blocks when no line is left: an open paragraph is closed, and so is an open
/// code block that holds anything.
pub open spec fn close_page(st: PageV) -> Seq<ReaderBlockV> {
    let blocks = st.blocks + para_blocks(st.para);
    if st.in_code && trimmed(st.code).len() > 0 {
        blocks.push(block_v("code"@, trim_back(st.code)))
    } else {
        blocks
    }
}

/// The two blocks that stand for the rest of a page that is too long.
pub open spec fn cut_off() -> Seq<ReaderBlockV> {
    seq![block_v("rule"@, Seq::empty()), block_v("p"@, "… (page truncated for display)"@)]
}

/// The blocks of the lines from `i` on, when `st` is known of those before.
pub open spec fn blocks_from(st: PageV, lines: Seq<Seq<char>>, i: int) -> Seq<ReaderBlockV>
    decreases lines.len() - i,
{
    if i < 0 || i >= lines.len() {
        close_page(st)
    } else if st.blocks.len() >= OCCIPITAL_MAX_BLOCKS {
        st.blocks + cut_off()
    } else {
        blocks_from(read_line(st, lines[i]), lines, i + 1)
    }
}

pub open spec fn blank_page() -> PageV {
    PageV { blocks: Seq::empty(), para: Seq::empty(), in_code: false, code: Seq::empty() }
}

/// The blocks of a page.
pub open spec fn blocks_of(md: Seq<char>) -> Seq<ReaderBlockV> {
    blocks_from(blank_page(), lines_of(md), 0)
}

/// The text behind a leading bullet mark.
pub fn bullet_rest(lead: &str) -> (r: Option<&str>)
    ensures
        r is Some <==> bullet_text(lead@) is Some,
        r is Some ==> bullet_text(lead@) == Some(r->0@),
{
    proof {
        reveal_strlit("- ");
        reveal_strlit("* ");
        reveal_strlit("+ ");
    }
    match strip_prefix(lead, "- ") {
        Some(rest) => Some(rest),
        None => match strip_prefix(lead, "* ") {
            Some(rest) => Some(rest),
            None => strip_prefix(lead, "+ "),
        },
    }
}

fn quote_rest(lead: &str) -> (r: Option<&str>)
    ensures
        r is Some <==> quote_text(lead@) is Some,
        r is Some ==> quote_text(lead@) == Some(r->0@),
{
    proof {
        reveal_strlit("> ");
        reveal_strlit(">");
    }
    match strip_prefix(lead, "> ") {
        Some(rest) => Some(rest),
        None => strip_prefix(lead, ">"),
    }
}

proof fn trim_front_bytes(s: Seq<char>)
    ensures
        byte_count(trim_front(s)) <= byte_count(s),
    decreases s.len(),
{
    if s.len() > 0 && crate::text::is_space(s[0]) {
        trim_front_bytes(s.drop_first());
        assert(s =~= seq![s[0]] + s.drop_first());
        byte_count_add(seq![s[0]], s.drop_first());
    }
}

fn depth_of(line: &str, lead: &str) -> (d: i32)
    requires
        lead@ == trim_front(line@),
    ensures
        d == bullet_depth(line@),
{
    proof {
        trim_front_bytes(line@);
    }
    let d: u128 = (byte_len(line) - byte_len(lead)) / 2;
    if d < 4 {
        d as i32
    } else {
        4
    }
}

fn block_of_line(line: &str) -> (r: Option<ReaderBlock>)
    ensures
        r is Some <==> line_block(line@) is Some,
        r is Some ==> line_block(line@) == Some(r->0@),
{
    let lead = trim_start(line);
    let marks: usize = leading(lead, '#');
    if marks > 0 {
        let level: usize = if marks > 3 {
            3
        } else {
            marks
        };
        let mut kind = copy("h");
        kind.append(dec_len(level).as_str());
        let text = strip_inline_md(trim(skip_chars(lead, marks)));
        return Some(block(kind.as_str(), text));
    }
    if same(lead, "---") || same(lead, "***") || same(lead, "___") || same(lead, "- - -") {
        return Some(block("rule", String::new()));
    }
    match bullet_rest(lead) {
        Some(rest) => {
            return Some(
                ReaderBlock {
                    kind: copy("bullet"),
                    text: strip_inline_md(rest),
                    depth: depth_of(line, lead),
                },
            );
        },
        None => {},
    }
    match quote_rest(lead) {
        Some(rest) => Some(block("quote", strip_inline_md(trim(rest)))),
        None => None,
    }
}

fn flush_para(para: &mut String, blocks: &mut Vec<ReaderBlock>)
    ensures
        final(para)@ == Seq::<char>::empty(),
        views(final(blocks)@) == views(old(blocks)@) + para_blocks(old(para)@),
{
    let p = trim(para.as_str());
    if !p.is_empty() {
        let b = block("p", strip_inline_md(p));
        blocks.push(b);
        assert(views(old(blocks)@).push(b@) =~= views(old(blocks)@) + para_blocks(old(para)@));
    } else {
        assert(views(old(blocks)@) =~= views(old(blocks)@) + para_blocks(old(para)@));
    }
    *para = String::new();
}

fn shown_code(code: &str) -> (r: String)
    ensures
        r@ == code_text(code@),
{
    let body = trim_end(code);
    if byte_len(body) > CODE_BYTES as u128 {
        let mut r = copy(take_bytes(body, CODE_BYTES));
        r.append("…");
        r
    } else {
        copy(body)
    }
}

/// Parses reader-mode markdown into a flat list of blocks.
pub fn parse_reader_markdown(md: &str) -> (r: Vec<ReaderBlock>)
    ensures
        views(r@) == blocks_of(md@),
{
    let all = lines(md);
    let mut blocks: Vec<ReaderBlock> = Vec::new();
    let mut para = String::new();
    let mut in_code = false;
    let mut code = String::new();
    for i in 0..all.len()
        invariant
            views(all@) == lines_of(md@),
            blocks_from(
                PageV { blocks: views(blocks@), para: para@, in_code, code: code@ },
                lines_of(md@),
                i as int,
            ) == blocks_of(md@),
    {
        let ghost st = PageV { blocks: views(blocks@), para: para@, in_code, code: code@ };
        if blocks.len() >= OCCIPITAL_MAX_BLOCKS {
            blocks.push(block("rule", String::new()));
            blocks.push(block("p", copy("… (page truncated for display)")));
            assert(views(blocks@) =~= st.blocks + cut_off());
            return blocks;
        }
        let raw = all[i].as_str();
        assert(raw@ == views(all@)[i as int]);
        let line = trim_end(raw);
        let lead = trim_start(line);
        if in_code {
            if starts_with(lead, "```") {
                blocks.push(block("code", shown_code(code.as_str())));
                code = String::new();
                in_code = false;
            } else {
                code.append(raw);
                code.push('\n');
            }
        } else if starts_with(lead, "```") {
            flush_para(&mut para, &mut blocks);
            in_code = true;
        } else if lead.is_empty() {
            flush_para(&mut para, &mut blocks);
        } else {
            match block_of_line(line) {
                Some(b) => {
                    flush_para(&mut para, &mut blocks);
                    blocks.push(b);
                },
                None => {
                    if !para.as_str().is_empty() {
                        para.push(' ');
                        para.append(lead);
                    } else {
                        para = copy(lead);
                    }
                },
            }
        }
        assert(read_line(st, raw@) == PageV {
            blocks: views(blocks@),
            para: para@,
            in_code,
            code: code@,
        });
    }
    flush_para(&mut para, &mut blocks);
    if in_code && !trim(code.as_str()).is_empty() {
        blocks.push(block("code", copy(trim_end(code.as_str()))));
    }
    blocks
}

// ── Laws ────────────────────────────────────────────────────────────────────

proof fn read_line_adds_two(st: PageV, raw: Seq<char>)
    ensures
        read_line(st, raw).blocks.len() <= st.blocks.len() + 2,
{
}

proof fn blocks_from_bounded(st: PageV, lines: Seq<Seq<char>>, i: int)
    requires
        st.blocks.len() < OCCIPITAL_MAX_BLOCKS + 2,
    ensures
        blocks_from(st, lines, i).len() <= OCCIPITAL_MAX_BLOCKS + 3,
    decreases lines.len() - i,
{
    if 0 <= i < lines.len() && st.blocks.len() < OCCIPITAL_MAX_BLOCKS {
        read_line_adds_two(st, lines[i]);
        blocks_from_bounded(read_line(st, lines[i]), lines, i + 1);
    }
}

/// A page of any length shows a bounded number of blocks.
pub proof fn pages_are_bounded(md: Seq<char>)
    ensures
        blocks_of(md).len() <= OCCIPITAL_MAX_BLOCKS + 3,
{
    blocks_from_bounded(blank_page(), lines_of(md), 0);
}

} // verus!
