//! What a page's markdown shows, line by line and mark by mark.
use vstd::prelude::*;
use crate::markdown::{
    blank_page, block_v, blocks_from, blocks_of, close_page, code_text, line_block, para_blocks,
    past, past_paren, piece, plain, plain_from, read_line, PageV, ReaderBlockV,
    OCCIPITAL_MAX_BLOCKS,
};
use crate::text::{
    begins, byte_count, dec, is_space, joined, lines_of, run, seek, seek_bounds, trim_back,
    trim_front, trimmed,
};

verus! {

// ── Lines ───────────────────────────────────────────────────────────────────

/// Whether a line opens or closes a code block.
pub open spec fn fence(line: Seq<char>) -> bool {
    begins(trimmed(line), "```"@)
}

/// Whether a line is plain text: neither blank, nor a fence, a heading, a rule, a bullet or
/// a quote.
pub open spec fn plain_line(line: Seq<char>) -> bool {
    let t = trimmed(line);
    &&& t.len() > 0
    &&& !fence(line)
    &&& t[0] != '#'
    &&& t[0] != '>'
    &&& t != "---"@ && t != "***"@ && t != "___"@ && t != "- - -"@
    &&& !begins(t, "- "@) && !begins(t, "* "@) && !begins(t, "+ "@)
}

/// Lines without white space at their ends.
pub open spec fn tight(ls: Seq<Seq<char>>) -> Seq<Seq<char>> {
    Seq::new(ls.len(), |i: int| trimmed(ls[i]))
}

/// How many of the first `n` lines are fences.
pub open spec fn fences(ls: Seq<Seq<char>>, n: int) -> nat
    decreases n,
{
    if n <= 0 {
        0
    } else if fence(ls[n - 1]) {
        fences(ls, n - 1) + 1
    } else {
        fences(ls, n - 1)
    }
}

proof fn trim_back_of_spaced(s: Seq<char>)
    requires
        s.len() > 0,
    ensures
        trim_back(s.drop_first()).len() > 0 ==> trim_back(s) == seq![s[0]] + trim_back(
            s.drop_first(),
        ),
        trim_back(s.drop_first()).len() == 0 && is_space(s[0]) ==> trim_back(s).len() == 0,
        trim_back(s.drop_first()).len() == 0 && !is_space(s[0]) ==> trim_back(s) == seq![s[0]],
    decreases s.len(),
{
    if s.len() == 1 {
        assert(s.drop_first() =~= Seq::<char>::empty());
        assert(s.drop_last() =~= Seq::<char>::empty());
        assert(s =~= seq![s[0]]);
    } else {
        assert(s.drop_first().last() == s.last());
        assert(s.drop_first().drop_last() =~= s.drop_last().drop_first());
        if is_space(s.last()) {
            trim_back_of_spaced(s.drop_last());
        } else {
            assert(s =~= seq![s[0]] + s.drop_first());
        }
    }
}

/// It does not matter at which end white space is taken off first.
pub proof fn trimming_either_way(s: Seq<char>)
    ensures
        trim_front(trim_back(s)) == trimmed(s),
    decreases s.len(),
{
    if s.len() > 0 {
        trim_back_of_spaced(s);
        if is_space(s[0]) {
            trimming_either_way(s.drop_first());
            let rest = trim_back(s.drop_first());
            if rest.len() > 0 {
                assert((seq![s[0]] + rest).drop_first() =~= rest);
            }
        }
    }
}

proof fn trim_back_twice(s: Seq<char>)
    ensures
        trim_back(trim_back(s)) == trim_back(s),
    decreases s.len(),
{
    if s.len() > 0 && is_space(s.last()) {
        trim_back_twice(s.drop_last());
    }
}

proof fn marks()
    ensures
        "- "@ == seq!['-', ' '],
        "* "@ == seq!['*', ' '],
        "+ "@ == seq!['+', ' '],
        "> "@ == seq!['>', ' '],
        ">"@ == seq!['>'],
        "---"@ == seq!['-', '-', '-'],
        "***"@ == seq!['*', '*', '*'],
        "___"@ == seq!['_', '_', '_'],
        "- - -"@ == seq!['-', ' ', '-', ' ', '-'],
        "```"@ == seq!['`', '`', '`'],
{
    reveal_strlit("- ");
    reveal_strlit("* ");
    reveal_strlit("+ ");
    reveal_strlit("> ");
    reveal_strlit(">");
    reveal_strlit("---");
    reveal_strlit("***");
    reveal_strlit("___");
    reveal_strlit("- - -");
    reveal_strlit("```");
    assert("- "@ =~= seq!['-', ' ']);
    assert("* "@ =~= seq!['*', ' ']);
    assert("+ "@ =~= seq!['+', ' ']);
    assert("> "@ =~= seq!['>', ' ']);
    assert(">"@ =~= seq!['>']);
    assert("---"@ =~= seq!['-', '-', '-']);
    assert("***"@ =~= seq!['*', '*', '*']);
    assert("___"@ =~= seq!['_', '_', '_']);
    assert("- - -"@ =~= seq!['-', ' ', '-', ' ', '-']);
    assert("```"@ =~= seq!['`', '`', '`']);
}

proof fn plain_lines_are_no_blocks(raw: Seq<char>)
    requires
        plain_line(raw),
    ensures
        line_block(trim_back(raw)) is None,
        trim_front(trim_back(raw)) == trimmed(raw),
{
    trimming_either_way(raw);
    marks();
    let t = trimmed(raw);
    if begins(t, "> "@) {
        assert(t.take(2)[0] == '>');
    }
    if begins(t, ">"@) {
        assert(t.take(1)[0] == '>');
    }
}

// ── State by state ──────────────────────────────────────────────────────────

spec fn read_all(st: PageV, ls: Seq<Seq<char>>, n: int) -> PageV
    decreases n,
{
    if n <= 0 {
        st
    } else {
        read_line(read_all(st, ls, n - 1), ls[n - 1])
    }
}

proof fn close_only_adds(st: PageV)
    ensures
        close_page(st).len() >= st.blocks.len(),
{
}

/// A page that shows fewer blocks than the bound was not cut off.
proof fn short_pages_are_whole(st: PageV, ls: Seq<Seq<char>>, i: int)
    requires
        0 <= i <= ls.len(),
        blocks_from(read_all(st, ls, i), ls, i).len() < OCCIPITAL_MAX_BLOCKS || close_page(
            read_all(st, ls, ls.len() as int),
        ).len() < OCCIPITAL_MAX_BLOCKS,
    ensures
        blocks_from(read_all(st, ls, i), ls, i) == close_page(read_all(st, ls, ls.len() as int)),
    decreases ls.len() - i,
{
    if i < ls.len() {
        blocks_only_grow(st, ls, i, ls.len() as int);
        close_only_adds(read_all(st, ls, ls.len() as int));
        short_pages_are_whole(st, ls, i + 1);
    }
}

proof fn blocks_only_grow(st: PageV, ls: Seq<Seq<char>>, i: int, n: int)
    requires
        0 <= i <= n,
    ensures
        read_all(st, ls, n).blocks.len() >= read_all(st, ls, i).blocks.len(),
    decreases n - i,
{
    if i < n {
        blocks_only_grow(st, ls, i, n - 1);
    }
}

spec fn below(p: Seq<ReaderBlockV>, st: PageV) -> PageV {
    PageV { blocks: p + st.blocks, ..st }
}

proof fn reading_below(p: Seq<ReaderBlockV>, st: PageV, raw: Seq<char>)
    ensures
        read_line(below(p, st), raw) == below(p, read_line(st, raw)),
{
    let line = trim_back(raw);
    let q = para_blocks(st.para);
    assert(p + st.blocks + q =~= p + (st.blocks + q));
    let b = block_v("code"@, code_text(st.code));
    assert((p + st.blocks).push(b) =~= p + st.blocks.push(b));
    if line_block(line) is Some {
        let c = line_block(line)->0;
        assert((p + st.blocks + q).push(c) =~= p + (st.blocks + q).push(c));
    }
}

proof fn reading_all_below(p: Seq<ReaderBlockV>, st: PageV, ls: Seq<Seq<char>>, n: int)
    requires
        0 <= n <= ls.len(),
    ensures
        read_all(below(p, st), ls, n) == below(p, read_all(st, ls, n)),
    decreases n,
{
    if n > 0 {
        reading_all_below(p, st, ls, n - 1);
        reading_below(p, read_all(st, ls, n - 1), ls[n - 1]);
    }
}

proof fn closing_below(p: Seq<ReaderBlockV>, st: PageV)
    ensures
        close_page(below(p, st)) == p + close_page(st),
{
    let q = para_blocks(st.para);
    assert(p + st.blocks + q =~= p + (st.blocks + q));
    let b = block_v("code"@, trim_back(st.code));
    assert((p + st.blocks + q).push(b) =~= p + (st.blocks + q).push(b));
}

proof fn reading_two(st: PageV, a: Seq<Seq<char>>, b: Seq<Seq<char>>, n: int)
    requires
        0 <= n <= b.len(),
    ensures
        read_all(st, a + b, a.len() + n) == read_all(read_all(st, a, a.len() as int), b, n),
    decreases n,
{
    if n > 0 {
        reading_two(st, a, b, n - 1);
        assert((a + b)[a.len() + n - 1] == b[n - 1]);
    } else {
        reading_first(st, a, b, a.len() as int);
    }
}

proof fn reading_first(st: PageV, a: Seq<Seq<char>>, b: Seq<Seq<char>>, n: int)
    requires
        0 <= n <= a.len(),
    ensures
        read_all(st, a + b, n) == read_all(st, a, n),
    decreases n,
{
    if n > 0 {
        reading_first(st, a, b, n - 1);
        assert((a + b)[n - 1] == a[n - 1]);
    }
}

proof fn fences_toggle(ls: Seq<Seq<char>>, n: int)
    requires
        0 <= n <= ls.len(),
    ensures
        read_all(blank_page(), ls, n).in_code == (fences(ls, n) % 2 == 1),
        !read_all(blank_page(), ls, n).in_code ==> read_all(blank_page(), ls, n).code.len() == 0,
        read_all(blank_page(), ls, n).in_code ==> read_all(blank_page(), ls, n).para.len() == 0,
    decreases n,
{
    if n > 0 {
        fences_toggle(ls, n - 1);
        trimming_either_way(ls[n - 1]);
    }
}

proof fn other_lines_close_the_paragraph(st: PageV, raw: Seq<char>)
    requires
        !plain_line(raw),
        !st.in_code,
    ensures
        read_line(st, raw) == read_line(
            PageV { blocks: st.blocks + para_blocks(st.para), para: Seq::empty(), ..st },
            raw,
        ),
        read_line(st, raw).para.len() == 0,
{
    trimming_either_way(raw);
    marks();
    let t = trimmed(raw);
    let u = PageV { blocks: st.blocks + para_blocks(st.para), para: Seq::empty(), ..st };
    assert(trimmed(Seq::<char>::empty()).len() == 0);
    assert(u.blocks + para_blocks(u.para) =~= u.blocks);
    assert(t.len() == 0 || fence(raw) || line_block(trim_back(raw)) is Some) by {
        if t.len() > 0 && t[0] == '>' {
            assert(t.take(1) =~= ">"@);
        }
    }
}

// ── What a page shows ───────────────────────────────────────────────────────

/// Plain lines make up one paragraph: the reading text of all of them, in their order,
/// with one space between each and the next.
pub proof fn plain_lines_are_one_paragraph(md: Seq<char>)
    requires
        lines_of(md).len() > 0,
        forall|i: int| 0 <= i < lines_of(md).len() ==> plain_line(#[trigger] lines_of(md)[i]),
    ensures
        blocks_of(md) == seq![block_v("p"@, plain(joined(tight(lines_of(md)), " "@)))],
{
    let ls = lines_of(md);
    let n = ls.len() as int;
    gathering(ls, n);
    let text = joined(tight(ls), " "@);
    joined_is_tight(ls, n);
    assert(tight(ls).take(n) =~= tight(ls));
    crate::text::trimmed_when_tight(text);
    let st = read_all(blank_page(), ls, n);
    assert(st.blocks + para_blocks(st.para) =~= seq![block_v("p"@, plain(text))]);
    short_pages_are_whole(blank_page(), ls, 0);
}

proof fn gathering(ls: Seq<Seq<char>>, n: int)
    requires
        0 < n <= ls.len(),
        forall|i: int| 0 <= i < ls.len() ==> plain_line(#[trigger] ls[i]),
    ensures
        read_all(blank_page(), ls, n) == (PageV {
            para: joined(tight(ls).take(n), " "@),
            ..blank_page()
        }),
    decreases n,
{
    reveal_strlit(" ");
    plain_lines_are_no_blocks(ls[n - 1]);
    let all = tight(ls).take(n);
    assert(all.last() == trimmed(ls[n - 1]));
    if n == 1 {
        assert(all =~= seq![trimmed(ls[0])]);
        assert(read_all(blank_page(), ls, 0) == blank_page());
    } else {
        gathering(ls, n - 1);
        assert(all.drop_last() =~= tight(ls).take(n - 1));
        joined_is_tight(ls, n - 1);
        let before = joined(tight(ls).take(n - 1), " "@);
        assert(before.push(' ') + all.last() =~= before + " "@ + all.last());
    }
}

proof fn joined_is_tight(ls: Seq<Seq<char>>, n: int)
    requires
        0 < n <= ls.len(),
        forall|i: int| 0 <= i < ls.len() ==> plain_line(#[trigger] ls[i]),
    ensures
        ({
            let t = joined(tight(ls).take(n), " "@);
            t.len() > 0 && !is_space(t[0]) && !is_space(t.last())
        }),
    decreases n,
{
    let all = tight(ls).take(n);
    assert(plain_line(ls[n - 1]));
    trimmed_ends(ls[n - 1]);
    assert(all.last() == trimmed(ls[n - 1]));
    if n > 1 {
        joined_is_tight(ls, n - 1);
        assert(all.drop_last() =~= tight(ls).take(n - 1));
        let a = joined(all.drop_last(), " "@);
        let t = a + " "@ + all.last();
        assert(t[0] == a[0] && t.last() == all.last().last());
    } else {
        assert(all =~= seq![trimmed(ls[0])]);
    }
}

/// A trimmed text neither starts nor ends with white space.
proof fn trimmed_ends(s: Seq<char>)
    ensures
        trimmed(s).len() > 0 ==> !is_space(trimmed(s)[0]) && !is_space(trimmed(s).last()),
    decreases s.len(),
{
    trim_back_last(trim_front(s));
    trim_front_first(s);
}

proof fn trim_front_first(s: Seq<char>)
    ensures
        trim_front(s).len() > 0 ==> !is_space(trim_front(s)[0]),
    decreases s.len(),
{
    if s.len() > 0 && is_space(s[0]) {
        trim_front_first(s.drop_first());
    }
}

proof fn trim_back_last(s: Seq<char>)
    ensures
        trim_back(s).len() > 0 ==> !is_space(trim_back(s).last()) && trim_back(s)[0] == s[0],
    decreases s.len(),
{
    if s.len() > 0 && is_space(s.last()) {
        trim_back_last(s.drop_last());
    }
}

/// Pages can be put together: where the lines of one are followed by those of another, and
/// neither a paragraph nor a code block runs on from one to the other, the blocks of the one
/// are followed by those of the other. So nothing on a page is lost, and nothing moves.
pub proof fn pages_add_up(md: Seq<char>, x: Seq<char>, y: Seq<char>)
    requires
        lines_of(md) == lines_of(x) + lines_of(y),
        fences(lines_of(x), lines_of(x).len() as int) % 2 == 0,
        lines_of(x).len() == 0 || lines_of(y).len() == 0 || !plain_line(lines_of(x).last())
            || !plain_line(lines_of(y)[0]),
        blocks_of(x).len() + blocks_of(y).len() < OCCIPITAL_MAX_BLOCKS,
    ensures
        blocks_of(md) == blocks_of(x) + blocks_of(y),
{
    let (a, b) = (lines_of(x), lines_of(y));
    let (m, n) = (a.len() as int, b.len() as int);
    let st = read_all(blank_page(), a, m);
    short_pages_are_whole(blank_page(), a, 0);
    short_pages_are_whole(blank_page(), b, 0);
    fences_toggle(a, m);
    let p = close_page(st);
    let u = PageV { blocks: p, para: Seq::empty(), ..st };
    assert(st.code =~= Seq::<char>::empty());
    assert(u == below(p, blank_page())) by {
        assert(p + Seq::<ReaderBlockV>::empty() =~= p);
    }
    reading_two(blank_page(), a, b, n);
    assert(close_page(read_all(st, b, n)) == close_page(read_all(u, b, n))) by {
        if m == 0 || !plain_line(a[m - 1]) {
            assert(st.para.len() == 0) by {
                if m > 0 {
                    fences_toggle(a, m - 1);
                    let before = read_all(blank_page(), a, m - 1);
                    if !before.in_code {
                        other_lines_close_the_paragraph(before, a[m - 1]);
                    }
                }
            }
            assert(st.para =~= Seq::<char>::empty());
            assert(trimmed(Seq::<char>::empty()).len() == 0);
            assert(p =~= st.blocks);
        } else if n > 0 {
            other_lines_close_the_paragraph(st, b[0]);
            reading_from_one(st, u, b, n);
        } else {
            assert(trimmed(Seq::<char>::empty()).len() == 0);
            assert(u.blocks + para_blocks(u.para) =~= st.blocks + para_blocks(st.para));
        }
    }
    reading_all_below(p, blank_page(), b, n);
    closing_below(p, read_all(blank_page(), b, n));
    short_pages_are_whole(blank_page(), a + b, 0);
}

proof fn reading_from_one(st: PageV, u: PageV, b: Seq<Seq<char>>, n: int)
    requires
        1 <= n <= b.len(),
        read_line(st, b[0]) == read_line(u, b[0]),
    ensures
        read_all(st, b, n) == read_all(u, b, n),
    decreases n,
{
    if n > 1 {
        reading_from_one(st, u, b, n - 1);
    } else {
        assert(read_all(st, b, 0) == st && read_all(u, b, 0) == u);
    }
}

// ── Single lines ────────────────────────────────────────────────────────────

proof fn one_line(md: Seq<char>, line: Seq<char>)
    requires
        lines_of(md) == seq![line],
    ensures
        !fence(line) && trimmed(line).len() == 0 ==> blocks_of(md).len() == 0,
        !fence(line) && trimmed(line).len() > 0 && line_block(trim_back(line)) is Some
            ==> blocks_of(md) == seq![line_block(trim_back(line))->0],
{
    let ls = seq![line];
    let st = read_all(blank_page(), ls, 1);
    assert(read_all(blank_page(), ls, 0) == blank_page());
    trimming_either_way(line);
    assert(trimmed(Seq::<char>::empty()).len() == 0);
    if !fence(line) && (trimmed(line).len() == 0 || line_block(trim_back(line)) is Some) {
        if trimmed(line).len() == 0 {
            assert(close_page(st) =~= Seq::<ReaderBlockV>::empty());
        } else {
            assert(close_page(st) =~= seq![line_block(trim_back(line))->0]);
        }
        short_pages_are_whole(blank_page(), ls, 0);
    }
}

/// A blank line shows nothing.
pub proof fn blank_lines_show_nothing(md: Seq<char>, line: Seq<char>)
    requires
        lines_of(md) == seq![line],
        trimmed(line).len() == 0,
    ensures
        blocks_of(md).len() == 0,
{
    marks();
    one_line(md, line);
}

/// A line that starts with marks is a heading of that level, three at most. It shows what
/// follows the marks.
pub proof fn marks_make_headings(md: Seq<char>, line: Seq<char>, n: nat, rest: Seq<char>)
    requires
        lines_of(md) == seq![line],
        n > 0,
        trimmed(line) == Seq::new(n, |i: int| '#') + rest,
        rest.len() > 0 ==> rest[0] != '#',
    ensures
        n == 1 ==> blocks_of(md) == seq![block_v("h"@ + dec(1), plain(trimmed(rest)))],
        n == 2 ==> blocks_of(md) == seq![block_v("h"@ + dec(2), plain(trimmed(rest)))],
        n >= 3 ==> blocks_of(md) == seq![block_v("h"@ + dec(3), plain(trimmed(rest)))],
{
    marks();
    one_line(md, line);
    trimming_either_way(line);
    let t = trimmed(line);
    run_of(n, rest, '#');
    assert(t[0] == '#');
    if fence(line) {
        assert(t.take(3)[0] == '`');
    }
    assert(t.skip(n as int) =~= rest);
}

proof fn run_of(n: nat, rest: Seq<char>, c: char)
    requires
        rest.len() > 0 ==> rest[0] != c,
    ensures
        run(Seq::new(n, |i: int| c) + rest, c) == n,
    decreases n,
{
    let s = Seq::new(n, |i: int| c) + rest;
    if n > 0 {
        assert(s.drop_first() =~= Seq::new((n - 1) as nat, |i: int| c) + rest);
        run_of((n - 1) as nat, rest, c);
    } else {
        assert(s =~= rest);
    }
}

/// A rule shows as a rule.
pub proof fn rules_are_rules(md: Seq<char>, line: Seq<char>)
    requires
        lines_of(md) == seq![line],
        trimmed(line) == "---"@ || trimmed(line) == "***"@ || trimmed(line) == "___"@ || trimmed(
            line,
        ) == "- - -"@,
    ensures
        blocks_of(md) == seq![block_v("rule"@, Seq::empty())],
{
    marks();
    one_line(md, line);
    trimming_either_way(line);
    let t = trimmed(line);
    if fence(line) {
        assert(t.take(3)[0] == '`');
    }
}

/// A line behind a bullet mark is a bullet with that text. It stands as many steps deep as
/// there are two spaces before it, four at most.
pub proof fn marks_make_bullets(md: Seq<char>, line: Seq<char>, n: nat, mark: char, rest: Seq<char>)
    requires
        lines_of(md) == seq![line],
        mark == '-' || mark == '*' || mark == '+',
        line == Seq::new(n, |i: int| ' ') + seq![mark, ' '] + rest,
        rest.len() > 0,
        !is_space(rest.last()),
        seq![mark, ' '] + rest != "- - -"@,
    ensures
        blocks_of(md) == seq![
            ReaderBlockV {
                kind: "bullet"@,
                text: plain(rest),
                depth: if n / 2 < 4 {
                    (n / 2) as i32
                } else {
                    4
                },
            },
        ],
{
    marks();
    one_line(md, line);
    let t = seq![mark, ' '] + rest;
    assert(line.last() == rest.last());
    assert(trim_back(line) == line);
    spaces_go(n, t);
    assert(line =~= Seq::new(n, |i: int| ' ') + t);
    trimming_either_way(line);
    assert(trim_front(line) == t);
    assert(t.last() == rest.last());
    assert(trimmed(line) == t);
    if fence(line) {
        assert(t.take(3)[0] == '`');
    }
    assert(t.take(2) =~= seq![mark, ' ']);
    assert(t.skip(2) =~= rest);
    spaces_are_bytes(n);
    crate::text::byte_count_add(Seq::new(n, |i: int| ' '), t);
}

proof fn spaces_go(n: nat, t: Seq<char>)
    requires
        t.len() > 0,
        !is_space(t[0]),
    ensures
        trim_front(Seq::new(n, |i: int| ' ') + t) == t,
    decreases n,
{
    let s = Seq::new(n, |i: int| ' ') + t;
    if n > 0 {
        assert(s.drop_first() =~= Seq::new((n - 1) as nat, |i: int| ' ') + t);
        spaces_go((n - 1) as nat, t);
    } else {
        assert(s =~= t);
    }
}

proof fn spaces_are_bytes(n: nat)
    ensures
        byte_count(Seq::new(n, |i: int| ' ')) == n,
    decreases n,
{
    let s = Seq::new(n, |i: int| ' ');
    if n > 0 {
        assert(s.drop_last() =~= Seq::new((n - 1) as nat, |i: int| ' '));
        spaces_are_bytes((n - 1) as nat);
    }
}

/// A line behind a quote mark is a quote with that text.
pub proof fn marks_make_quotes(md: Seq<char>, line: Seq<char>, rest: Seq<char>)
    requires
        lines_of(md) == seq![line],
        trimmed(line) == seq!['>'] + rest,
    ensures
        blocks_of(md) == seq![block_v("quote"@, plain(trimmed(rest)))],
{
    marks();
    one_line(md, line);
    trimming_either_way(line);
    let t = trimmed(line);
    assert(t[0] == '>');
    if fence(line) {
        assert(t.take(3)[0] == '`');
    }
    if crate::text::begins(t, "- "@) || crate::text::begins(t, "* "@) || crate::text::begins(
        t,
        "+ "@,
    ) {
        assert(t.take(2)[0] == '>');
    }
    assert(t.take(1) =~= ">"@);
    assert(t.skip(1) =~= rest);
    if begins(t, "> "@) {
        assert(t.take(2)[1] == ' ');
        assert(rest[0] == ' ');
        assert(t.skip(2) =~= rest.drop_first());
        assert(trim_front(rest) == trim_front(rest.drop_first()));
    }
}

// ── Code ────────────────────────────────────────────────────────────────────

/// Lines, each with a line feed behind it.
pub open spec fn fed(ls: Seq<Seq<char>>, n: int) -> Seq<char>
    decreases n,
{
    if n <= 0 {
        Seq::empty()
    } else {
        (fed(ls, n - 1) + ls[n - 1]).push('\n')
    }
}

proof fn reading_code(ls: Seq<Seq<char>>, n: int)
    requires
        1 <= n <= ls.len(),
        fence(ls[0]),
        forall|i: int| 1 <= i < n ==> !fence(#[trigger] ls[i]),
    ensures
        read_all(blank_page(), ls, n) == (PageV {
            in_code: true,
            code: fed(ls.skip(1), n - 1),
            ..blank_page()
        }),
    decreases n,
{
    trimming_either_way(ls[n - 1]);
    if n > 1 {
        reading_code(ls, n - 1);
        assert(ls.skip(1)[n - 2] == ls[n - 1]);
    } else {
        assert(read_all(blank_page(), ls, 0) == blank_page());
        assert(trimmed(Seq::<char>::empty()).len() == 0);
        assert(blank_page().blocks + para_blocks(Seq::empty()) =~= Seq::<ReaderBlockV>::empty());
    }
}

/// What stands between two fences is shown as it is, white space at its end aside, where it
/// is no longer than four thousand bytes.
pub proof fn code_is_shown_as_it_is(md: Seq<char>)
    requires
        lines_of(md).len() >= 2,
        fence(lines_of(md)[0]),
        fence(lines_of(md).last()),
        forall|i: int| 0 < i < lines_of(md).len() - 1 ==> !fence(#[trigger] lines_of(md)[i]),
    ensures
        ({
            let ls = lines_of(md);
            let code = trim_back(fed(ls.skip(1), ls.len() - 2));
            byte_count(code) <= 4000 ==> blocks_of(md) == seq![block_v("code"@, code)]
        }),
        blocks_of(md).len() == 1,
        blocks_of(md)[0].kind == "code"@,
{
    let ls = lines_of(md);
    let n = ls.len() as int;
    reading_code(ls, n - 1);
    trimming_either_way(ls[n - 1]);
    let st = read_all(blank_page(), ls, n);
    assert(trimmed(Seq::<char>::empty()).len() == 0);
    assert(st.blocks =~= seq![block_v("code"@, code_text(fed(ls.skip(1), n - 2)))]);
    assert(close_page(st) =~= st.blocks);
    short_pages_are_whole(blank_page(), ls, 0);
}

/// Code whose second fence is missing is shown all the same.
pub proof fn open_code_is_shown(md: Seq<char>)
    requires
        lines_of(md).len() >= 1,
        fence(lines_of(md)[0]),
        forall|i: int| 0 < i < lines_of(md).len() ==> !fence(#[trigger] lines_of(md)[i]),
    ensures
        ({
            let ls = lines_of(md);
            let code = fed(ls.skip(1), ls.len() - 1);
            &&& trimmed(code).len() > 0 ==> blocks_of(md) == seq![block_v("code"@, trim_back(code))]
            &&& trimmed(code).len() == 0 ==> blocks_of(md).len() == 0
        }),
{
    let ls = lines_of(md);
    let n = ls.len() as int;
    reading_code(ls, n);
    let st = read_all(blank_page(), ls, n);
    assert(trimmed(Seq::<char>::empty()).len() == 0);
    assert(st.blocks + para_blocks(st.para) =~= Seq::<ReaderBlockV>::empty());
    let code = fed(ls.skip(1), n - 1);
    if trimmed(code).len() > 0 {
        assert(close_page(st) =~= seq![block_v("code"@, trim_back(code))]);
    }
    short_pages_are_whole(blank_page(), ls, 0);
}

// ── Marks inside a line ─────────────────────────────────────────────────────

/// A line's reading text, before white space is taken off its ends.
pub open spec fn reading(s: Seq<char>) -> Seq<char> {
    plain_from(s, 0)
}

/// Whether a text holds no character that marks anything.
pub open spec fn unmarked(s: Seq<char>) -> bool {
    forall|i: int|
        0 <= i < s.len() ==> (#[trigger] s[i]) != '\\' && s[i] != '`' && s[i] != '*' && s[i] != '['
}

proof fn seek_behind(a: Seq<char>, b: Seq<char>, c: char, i: int)
    requires
        0 <= i <= b.len(),
    ensures
        seek(a + b, c, a.len() + i) == a.len() + seek(b, c, i),
    decreases b.len() - i,
{
    if i < b.len() {
        assert((a + b)[a.len() + i] == b[i]);
        if b[i] != c {
            seek_behind(a, b, c, i + 1);
        }
    }
}

proof fn past_paren_behind(a: Seq<char>, b: Seq<char>, i: int)
    requires
        0 <= i <= b.len(),
    ensures
        past_paren(a + b, a.len() + i) == a.len() + past_paren(b, i),
{
    if i < b.len() {
        assert((a + b)[a.len() + i] == b[i]);
        seek_behind(a, b, ')', i + 1);
        seek_bounds(b, ')', i + 1);
    }
}

proof fn piece_behind(a: Seq<char>, b: Seq<char>, i: int)
    requires
        0 <= i < b.len(),
    ensures
        piece(a + b, a.len() + i) == (piece(b, i).0, a.len() + piece(b, i).1),
        i < piece(b, i).1 <= b.len(),
{
    let s = a + b;
    let m = a.len() as int;
    assert(s[m + i] == b[i]);
    if i + 1 < b.len() {
        assert(s[m + i + 1] == b[i + 1]);
        seek_behind(a, b, ']', i + 2);
        seek_bounds(b, ']', i + 2);
        let k = seek(b, ']', i + 2);
        assert(s.subrange(m + i + 2, m + k) =~= b.subrange(i + 2, k));
        past_paren_behind(a, b, past(b, k));
        let p = past(b, k);
        if p < b.len() {
            seek_bounds(b, ')', p + 1);
        }
    }
    seek_behind(a, b, ']', i + 1);
    seek_bounds(b, ']', i + 1);
    let k = seek(b, ']', i + 1);
    assert(s.subrange(m + i + 1, m + k) =~= b.subrange(i + 1, k));
    past_paren_behind(a, b, past(b, k));
    let p = past(b, k);
    if p < b.len() {
        assert(s[m + p] == b[p]);
        seek_bounds(b, ')', p + 1);
    }
}

proof fn reading_behind(a: Seq<char>, b: Seq<char>, i: int)
    requires
        0 <= i <= b.len(),
    ensures
        plain_from(a + b, a.len() + i) == plain_from(b, i),
    decreases b.len() - i,
{
    if i < b.len() {
        piece_behind(a, b, i);
        reading_behind(a, b, piece(b, i).1);
    }
}

/// Text that marks nothing is read as it stands.
pub proof fn unmarked_text_is_read(a: Seq<char>, b: Seq<char>)
    requires
        unmarked(a),
        a.len() > 0 && b.len() > 0 && b[0] == '[' ==> a.last() != '!',
    ensures
        reading(a + b) == a + reading(b),
    decreases a.len(),
{
    if a.len() > 0 {
        let s = a + b;
        let rest = a.drop_first();
        assert(s[0] == a[0]);
        if s.len() > 1 && s[1] == '[' {
            assert(a.len() == 1);
        }
        assert(s =~= seq![a[0]] + (rest + b));
        reading_behind(seq![a[0]], rest + b, 0);
        assert forall|i: int| 0 <= i < rest.len() implies (#[trigger] rest[i]) != '\\' && rest[i]
            != '`' && rest[i] != '*' && rest[i] != '[' by {
            assert(rest[i] == a[i + 1]);
        }
        unmarked_text_is_read(rest, b);
        assert(seq![a[0]] + (rest + reading(b)) =~= a + reading(b));
    } else {
        assert(a + b =~= b);
        assert(a + reading(b) =~= reading(b));
    }
}

/// A text without marks is its own reading text.
pub proof fn unmarked_texts_are_their_reading(s: Seq<char>)
    requires
        unmarked(s),
    ensures
        plain(s) == trimmed(s),
{
    unmarked_text_is_read(s, Seq::empty());
    assert(s + Seq::<char>::empty() =~= s);
    assert(s + reading(Seq::empty()) =~= s);
}

/// The marks of emphasis and of code vanish, and what they surround stays.
pub proof fn emphasis_vanishes(c: char, b: Seq<char>)
    requires
        c == '*' || c == '`',
    ensures
        reading(seq![c] + b) == reading(b),
{
    reading_behind(seq![c], b, 0);
    assert((seq![c] + b)[0] == c);
    assert(Seq::<char>::empty() + reading(b) =~= reading(b));
}

/// A character behind a backslash is read as it stands, whatever it is.
pub proof fn backslashes_keep_a_character(c: char, b: Seq<char>)
    ensures
        reading(seq!['\\', c] + b) == seq![c] + reading(b),
{
    let s = seq!['\\', c] + b;
    reading_behind(seq!['\\', c], b, 0);
    assert(s[0] == '\\' && s[1] == c);
}

proof fn seek_finds(s: Seq<char>, c: char, from: int, k: int)
    requires
        0 <= from <= k < s.len(),
        s[k] == c,
        forall|j: int| from <= j < k ==> s[j] != c,
    ensures
        seek(s, c, from) == k,
{
    seek_bounds(s, c, from);
}

/// Whether a character is not in a text.
pub open spec fn lacks(s: Seq<char>, c: char) -> bool {
    forall|i: int| 0 <= i < s.len() ==> (#[trigger] s[i]) != c
}

/// A link is read as its text, without where it leads to.
pub proof fn links_are_read_as_their_text(text: Seq<char>, to: Seq<char>, b: Seq<char>)
    requires
        lacks(text, ']'),
        lacks(to, ')'),
    ensures
        reading(seq!['['] + text + seq![']', '('] + to + seq![')'] + b) == text + reading(b),
{
    let a = seq!['['] + text + seq![']', '('] + to + seq![')'];
    let s = a + b;
    let k = 1 + text.len() as int;
    let e = k + 2 + to.len() as int;
    assert(s[0] == '[');
    assert forall|j: int| 1 <= j < k implies s[j] != ']' by {
        assert(s[j] == text[j - 1]);
    }
    assert(s[k as int] == ']' && s[k + 1] == '(');
    seek_finds(s, ']', 1, k as int);
    assert forall|j: int| k + 2 <= j < e implies s[j] != ')' by {
        assert(s[j] == to[j - k - 2]);
    }
    assert(s[e as int] == ')');
    seek_finds(s, ')', k + 2, e as int);
    assert(s.subrange(1, k as int) =~= text);
    reading_behind(a, b, 0);
}

/// Square brackets that lead nowhere stay.
pub proof fn other_brackets_stay(text: Seq<char>, b: Seq<char>)
    requires
        lacks(text, ']'),
        b.len() > 0 ==> b[0] != '(',
    ensures
        reading(seq!['['] + text + seq![']'] + b) == seq!['['] + text + seq![']'] + reading(b),
{
    let a = seq!['['] + text + seq![']'];
    let s = a + b;
    let k = 1 + text.len() as int;
    assert(s[0] == '[');
    assert forall|j: int| 1 <= j < k implies s[j] != ']' by {
        assert(s[j] == text[j - 1]);
    }
    assert(s[k as int] == ']');
    seek_finds(s, ']', 1, k as int);
    assert(s.subrange(1, k as int) =~= text);
    if b.len() > 0 {
        assert(s[k + 1] == b[0]);
    }
    reading_behind(a, b, 0);
    assert((seq!['['] + text).push(']') =~= a);
}

/// A picture is read as its caption behind a sign; one without a caption is not read.
pub proof fn pictures_are_read_as_their_caption(text: Seq<char>, to: Seq<char>, b: Seq<char>)
    requires
        lacks(text, ']'),
        lacks(to, ')'),
    ensures
        text.len() > 0 ==> reading(seq!['!', '['] + text + seq![']', '('] + to + seq![')'] + b)
            == "🖼 "@ + text + reading(b),
        text.len() == 0 ==> reading(seq!['!', '['] + text + seq![']', '('] + to + seq![')'] + b)
            == reading(b),
{
    let a = seq!['!', '['] + text + seq![']', '('] + to + seq![')'];
    let s = a + b;
    let k = 2 + text.len() as int;
    let e = k + 2 + to.len() as int;
    assert(s[0] == '!' && s[1] == '[');
    assert forall|j: int| 2 <= j < k implies s[j] != ']' by {
        assert(s[j] == text[j - 2]);
    }
    assert(s[k as int] == ']' && s[k + 1] == '(');
    seek_finds(s, ']', 2, k as int);
    assert forall|j: int| k + 2 <= j < e implies s[j] != ')' by {
        assert(s[j] == to[j - k - 2]);
    }
    assert(s[e as int] == ')');
    seek_finds(s, ')', k + 2, e as int);
    assert(s.subrange(2, k as int) =~= text);
    reading_behind(a, b, 0);
    assert(Seq::<char>::empty() + reading(b) =~= reading(b));
}

} // verus!
