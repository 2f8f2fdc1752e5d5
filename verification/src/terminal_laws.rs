//! What the terminal shows of what it is sent.
use vstd::prelude::*;
use crate::terminal::{past_csi, past_escape, past_osc, shown_from, shown_text, BEL, ESC};

verus! {

proof fn endings_shift(p: Seq<char>, b: Seq<char>, i: int)
    requires
        0 <= i <= b.len(),
    ensures
        past_csi(p + b, p.len() + i) == p.len() + past_csi(b, i),
        past_osc(p + b, p.len() + i) == p.len() + past_osc(b, i),
        i <= past_csi(b, i) <= b.len(),
        i <= past_osc(b, i) <= b.len(),
    decreases b.len() - i,
{
    if i < b.len() {
        endings_shift(p, b, i + 1);
    }
}

proof fn shown_shifts(p: Seq<char>, b: Seq<char>, i: int)
    requires
        0 <= i <= b.len(),
    ensures
        shown_from(p + b, p.len() + i) == shown_from(b, i),
    decreases b.len() - i,
{
    if i < b.len() {
        let s = p + b;
        assert(s[p.len() + i] == b[i]);
        if i + 1 < b.len() {
            assert(s[p.len() + i + 1] == b[i + 1]);
        }
        if i + 2 <= b.len() {
            endings_shift(p, b, i + 2);
        }
        let next = if b[i] == ESC {
            past_escape(b, i)
        } else {
            i + 1
        };
        assert(i < next <= b.len());
        assert((if b[i] == ESC {
            past_escape(s, p.len() + i)
        } else {
            p.len() + i + 1
        }) == p.len() + next);
        shown_shifts(p, b, next);
    }
}

/// A character that can be shown is shown, and what follows is shown after it; one that
/// cannot is left out.
pub proof fn characters_show_one_by_one(c: char, rest: Seq<char>)
    requires
        c != ESC,
    ensures
        c == '\n' || c == '\t' || c as u32 >= 0x20 ==> shown_text(seq![c] + rest) == seq![c]
            + shown_text(rest),
        c != '\n' && c != '\t' && (c as u32) < 0x20 ==> shown_text(seq![c] + rest) == shown_text(
            rest,
        ),
{
    shown_shifts(seq![c], rest, 0);
    assert((seq![c] + rest)[0] == c);
}

proof fn csi_ends(s: Seq<char>, from: int, i: int)
    requires
        0 <= from <= i < s.len(),
        '@' <= s[i] <= '~',
        forall|j: int| from <= j < i ==> !('@' <= #[trigger] s[j] <= '~'),
    ensures
        past_csi(s, from) == i + 1,
    decreases i - from,
{
    if from < i {
        csi_ends(s, from + 1, i);
    }
}

proof fn osc_ends(s: Seq<char>, from: int, i: int)
    requires
        0 <= from <= i < s.len(),
        s[i] == BEL,
        forall|j: int| from <= j < i ==> #[trigger] s[j] != BEL && s[j] != ESC,
    ensures
        past_osc(s, from) == i + 1,
    decreases i - from,
{
    if from < i {
        osc_ends(s, from + 1, i);
    }
}

/// A sequence that sets a colour or moves the cursor is not shown, up to its last character.
pub proof fn colours_do_not_show(params: Seq<char>, last: char, rest: Seq<char>)
    requires
        '@' <= last <= '~',
        forall|j: int| 0 <= j < params.len() ==> !('@' <= #[trigger] params[j] <= '~'),
    ensures
        shown_text(seq![ESC, '['] + params + seq![last] + rest) == shown_text(rest),
{
    let p = seq![ESC, '['] + params + seq![last];
    let s = p + rest;
    assert(s[0] == ESC && s[1] == '[');
    assert(s[params.len() as int + 2] == last);
    assert forall|j: int| 2 <= j < params.len() + 2 implies !('@' <= #[trigger] s[j] <= '~') by {
        assert(s[j] == params[j - 2]);
    }
    csi_ends(s, 2, params.len() as int + 2);
    shown_shifts(p, rest, 0);
}

/// A title that is set is not shown, up to the bell that ends it.
pub proof fn titles_do_not_show(name: Seq<char>, rest: Seq<char>)
    requires
        forall|j: int| 0 <= j < name.len() ==> #[trigger] name[j] != BEL && name[j] != ESC,
    ensures
        shown_text(seq![ESC, ']'] + name + seq![BEL] + rest) == shown_text(rest),
{
    let p = seq![ESC, ']'] + name + seq![BEL];
    let s = p + rest;
    assert(s[0] == ESC && s[1] == ']');
    assert(s[name.len() as int + 2] == BEL);
    assert forall|j: int| 2 <= j < name.len() + 2 implies #[trigger] s[j] != BEL && s[j] != ESC by {
        assert(s[j] == name[j - 2]);
    }
    osc_ends(s, 2, name.len() as int + 2);
    shown_shifts(p, rest, 0);
}

/// A choice of character set takes one character more; any other escape ends with the
/// character behind it.
pub proof fn short_escapes_do_not_show(c: char, d: char, rest: Seq<char>)
    ensures
        c == '(' || c == ')' ==> shown_text(seq![ESC, c, d] + rest) == shown_text(rest),
        c != '(' && c != ')' && c != '[' && c != ']' ==> shown_text(seq![ESC, c] + rest)
            == shown_text(rest),
{
    let p = seq![ESC, c, d];
    let q = seq![ESC, c];
    assert((p + rest)[0] == ESC && (p + rest)[1] == c);
    assert((q + rest)[0] == ESC && (q + rest)[1] == c);
    shown_shifts(p, rest, 0);
    shown_shifts(q, rest, 0);
}

} // verus!
