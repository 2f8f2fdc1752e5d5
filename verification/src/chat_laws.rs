//! What is said in the chat, and what a session of old looks like in it.
use vstd::prelude::*;
use crate::chat::{
    all_answers, answer_to, answers_v, answered, args_v, asked, call_cards, card_place, decided,
    extended, finished, is_call, last_words, lines_of_messages, message_lines, output_v, replayed,
    said_v, stamped, texts_v, typed, user_lines, MessageV, TranscriptV,
};
use crate::json::{field, items_at, items_or_none, text_at, text_or, JsonV};
use crate::text::joined;

verus! {

// ── A session of old ────────────────────────────────────────────────────────

/// Whether the block `b` of the message `m` is what the human's side gave back to a call.
pub open spec fn gives(h: Seq<JsonV>, m: int, b: int, id: Seq<char>) -> bool {
    &&& 0 <= m < h.len()
    &&& text_at(h[m], "role"@) == Some("user"@)
    &&& 0 <= b < items_or_none(h[m], "content"@).len()
    &&& text_at(items_or_none(h[m], "content"@)[b], "type"@) == Some("tool_result"@)
    &&& text_or(items_or_none(h[m], "content"@)[b], "tool_use_id"@, ""@) == id
}

/// Whether one place in a history comes behind another.
pub open spec fn behind(m: int, b: int, n: int, c: int) -> bool {
    n > m || (n == m && c > b)
}

/// Whether a block is the last that was given back to a call, before the message `n`.
pub open spec fn last_given(h: Seq<JsonV>, n: int, m: int, b: int, id: Seq<char>) -> bool {
    &&& gives(h, m, b, id)
    &&& m < n
    &&& forall|x: int, y: int| #[trigger] gives(h, x, y, id) && x < n ==> !behind(m, b, x, y)
}

/// Whether nothing was given back to a call, before the message `n`.
pub open spec fn nothing_given(h: Seq<JsonV>, n: int, id: Seq<char>) -> bool {
    forall|x: int, y: int| #[trigger] gives(h, x, y, id) ==> x >= n
}

/// Whether a text is the last that was given back to a call before the message `n`; where
/// nothing was, it is empty.
pub open spec fn is_answer(h: Seq<JsonV>, n: int, id: Seq<char>, output: Seq<char>) -> bool {
    ||| exists|m: int, b: int| #[trigger]
        last_given(h, n, m, b, id) && output == output_v(items_or_none(h[m], "content"@)[b])
    ||| nothing_given(h, n, id) && output.len() == 0
}

spec fn answers_to(a: Seq<(Seq<char>, Seq<char>)>, id: Seq<char>) -> bool {
    exists|j: int| 0 <= j < a.len() && (#[trigger] a[j]).0 == id
}

proof fn answer_is_there(a: Seq<(Seq<char>, Seq<char>)>, id: Seq<char>, n: int)
    requires
        0 <= n <= a.len(),
    ensures
        (exists|j: int|
            0 <= j < n && (#[trigger] a[j]).0 == id && answer_to(a, id, n) == a[j].1 && forall|
                k: int,
            |
                j < k < n ==> (#[trigger] a[k]).0 != id) || ((forall|j: int|
            0 <= j < n ==> (#[trigger] a[j]).0 != id) && answer_to(a, id, n).len() == 0),
    decreases n,
{
    if n > 0 {
        if a[n - 1].0 == id {
            assert(answer_to(a, id, n) == a[n - 1].1);
        } else {
            answer_is_there(a, id, n - 1);
        }
    }
}

proof fn answer_of_two(
    a: Seq<(Seq<char>, Seq<char>)>,
    b: Seq<(Seq<char>, Seq<char>)>,
    id: Seq<char>,
    n: int,
)
    requires
        0 <= n <= b.len(),
    ensures
        ({
            let r = answer_to(a + b, id, a.len() + n);
            &&& (exists|j: int| 0 <= j < n && (#[trigger] b[j]).0 == id) ==> r == answer_to(b, id, n)
            &&& !(exists|j: int| 0 <= j < n && (#[trigger] b[j]).0 == id) ==> r == answer_to(
                a,
                id,
                a.len() as int,
            )
        }),
    decreases n,
{
    if n > 0 {
        assert((a + b)[a.len() + n - 1] == b[n - 1]);
        answer_of_two(a, b, id, n - 1);
    } else {
        answer_of_first(a, b, id, a.len() as int);
    }
}

proof fn answer_of_first(
    a: Seq<(Seq<char>, Seq<char>)>,
    b: Seq<(Seq<char>, Seq<char>)>,
    id: Seq<char>,
    n: int,
)
    requires
        0 <= n <= a.len(),
    ensures
        answer_to(a + b, id, n) == answer_to(a, id, n),
    decreases n,
{
    if n > 0 {
        assert((a + b)[n - 1] == a[n - 1]);
        answer_of_first(a, b, id, n - 1);
    }
}

spec fn block_gives(a: Seq<JsonV>, b: int, id: Seq<char>) -> bool {
    &&& 0 <= b < a.len()
    &&& text_at(a[b], "type"@) == Some("tool_result"@)
    &&& text_or(a[b], "tool_use_id"@, ""@) == id
}

proof fn answers_in_blocks(a: Seq<JsonV>, id: Seq<char>, n: int)
    requires
        0 <= n <= a.len(),
    ensures
        ({
            let s = answers_v(a, n);
            &&& answers_to(s, id) ==> exists|b: int| #[trigger]
                block_gives(a, b, id) && b < n && answer_to(s, id, s.len() as int) == output_v(a[b])
                    && forall|y: int| #[trigger] block_gives(a, y, id) && y < n ==> y <= b
            &&& !answers_to(s, id) ==> forall|y: int| #[trigger] block_gives(a, y, id) ==> y >= n
        }),
    decreases n,
{
    if n > 0 {
        answers_in_blocks(a, id, n - 1);
        let s = answers_v(a, n - 1);
        let t = answers_v(a, n);
        if typed(a[n - 1], "tool_result"@) {
            assert(t.last().0 == text_or(a[n - 1], "tool_use_id"@, ""@));
            answer_of_first(s, seq![t.last()], id, s.len() as int);
            assert(s + seq![t.last()] =~= t);
            if t.last().0 == id {
                assert(t[t.len() - 1].0 == id);
                assert(block_gives(a, n - 1, id));
            } else {
                if answers_to(s, id) {
                    let j = choose|j: int| 0 <= j < s.len() && (#[trigger] s[j]).0 == id;
                    assert(t[j].0 == id);
                }
                if answers_to(t, id) {
                    let j = choose|j: int| 0 <= j < t.len() && (#[trigger] t[j]).0 == id;
                    assert(s[j].0 == id);
                }
            }
        }
    }
}

proof fn answers_in_messages(h: Seq<JsonV>, id: Seq<char>, n: int)
    requires
        0 <= n <= h.len(),
    ensures
        is_answer(h, n, id, answer_to(all_answers(h, n), id, all_answers(h, n).len() as int)),
    decreases n,
{
    if n > 0 {
        answers_in_messages(h, id, n - 1);
        let a = items_or_none(h[n - 1], "content"@);
        let s = all_answers(h, n - 1);
        if text_at(h[n - 1], "role"@) == Some("user"@) {
            let more = answers_v(a, a.len() as int);
            answers_in_blocks(a, id, a.len() as int);
            answer_of_two(s, more, id, more.len() as int);
            if answers_to(more, id) {
                let b = choose|b: int| #[trigger]
                    block_gives(a, b, id) && b < a.len() && answer_to(
                        more,
                        id,
                        more.len() as int,
                    ) == output_v(a[b]) && forall|y: int| #[trigger]
                        block_gives(a, y, id) && y < a.len() ==> y <= b;
                assert forall|x: int, y: int| #[trigger] gives(h, x, y, id) && x < n implies !behind(
                    n - 1,
                    b,
                    x,
                    y,
                ) by {
                    if x == n - 1 {
                        assert(block_gives(a, y, id));
                    }
                }
                assert(gives(h, n - 1, b, id));
                assert(last_given(h, n, n - 1, b, id));
            } else {
                assert forall|x: int, y: int| #[trigger] gives(h, x, y, id) implies x != n - 1 by {
                    if x == n - 1 {
                        assert(block_gives(a, y, id));
                    }
                }
                given_before(h, n, id);
            }
        } else {
            assert forall|x: int, y: int| #[trigger] gives(h, x, y, id) implies x != n - 1 by {}
            given_before(h, n, id);
        }
    }
}

proof fn given_before(h: Seq<JsonV>, n: int, id: Seq<char>)
    requires
        0 < n <= h.len(),
        forall|x: int, y: int| #[trigger] gives(h, x, y, id) ==> x != n - 1,
    ensures
        forall|o: Seq<char>| is_answer(h, n - 1, id, o) ==> #[trigger] is_answer(h, n, id, o),
{
    assert forall|o: Seq<char>| is_answer(h, n - 1, id, o) implies #[trigger] is_answer(
        h,
        n,
        id,
        o,
    ) by {
        if !(nothing_given(h, n - 1, id) && o.len() == 0) {
            let (m, b) = choose|m: int, b: int| #[trigger]
                last_given(h, n - 1, m, b, id) && o == output_v(
                    items_or_none(h[m], "content"@)[b],
                );
            assert(last_given(h, n, m, b, id));
        }
    }
}

/// The card of a call in a replayed session shows what was last given back to that call,
/// and nothing where nothing was: never what belongs to another.
pub proof fn cards_show_their_own_output(h: Seq<JsonV>, i: int)
    requires
        0 <= i < replayed(h).len(),
        replayed(h)[i].role == "tool"@,
    ensures
        is_answer(h, h.len() as int, replayed(h)[i].call_id, replayed(h)[i].tool_output),
{
    cards_in_messages(h, h.len() as int, i);
}

proof fn roles_unlike()
    ensures
        "user"@ != "tool"@,
        "agent"@ != "tool"@,
        "user"@ != "assistant"@,
        "user"@ != "agent"@,
{
    reveal_strlit("user");
    reveal_strlit("tool");
    reveal_strlit("agent");
    reveal_strlit("assistant");
    assert("user"@[0] == 'u' && "tool"@[0] == 't');
    assert("agent"@.len() == 5 && "tool"@.len() == 4 && "assistant"@.len() == 9);
}

proof fn cards_in_messages(h: Seq<JsonV>, n: int, i: int)
    requires
        0 <= n <= h.len(),
        0 <= i < lines_of_messages(h, all_answers(h, h.len() as int), n).len(),
        lines_of_messages(h, all_answers(h, h.len() as int), n)[i].role == "tool"@,
    ensures
        ({
            let c = lines_of_messages(h, all_answers(h, h.len() as int), n)[i];
            is_answer(h, h.len() as int, c.call_id, c.tool_output)
        }),
    decreases n,
{
    let answers = all_answers(h, h.len() as int);
    let before = lines_of_messages(h, answers, n - 1);
    let more = message_lines(h[n - 1], answers);
    let a = items_or_none(h[n - 1], "content"@);
    roles_unlike();
    if i < before.len() {
        cards_in_messages(h, n - 1, i);
    } else {
        let k = i - before.len();
        assert(lines_of_messages(h, answers, n)[i] == more[k]);
        if text_at(h[n - 1], "role"@) == Some("user"@) {
            user_lines_are_the_human_s(a, a.len() as int, k);
        } else {
            let cards = call_cards(a, answers, a.len() as int);
            let text = joined(texts_v(a, a.len() as int), ""@);
            let j = if text.len() > 0 {
                k - 1
            } else {
                k
            };
            assert(j >= 0);
            assert(more[k] == cards[j]);
            cards_in_blocks(h, a, a.len() as int, j);
        }
    }
}

proof fn user_lines_are_the_human_s(a: Seq<JsonV>, n: int, k: int)
    requires
        0 <= k < user_lines(a, n).len(),
    ensures
        user_lines(a, n)[k].role == "user"@,
    decreases n,
{
    if n > 0 && k < user_lines(a, n - 1).len() {
        user_lines_are_the_human_s(a, n - 1, k);
    }
}

proof fn cards_in_blocks(h: Seq<JsonV>, a: Seq<JsonV>, n: int, j: int)
    requires
        0 <= j < call_cards(a, all_answers(h, h.len() as int), n).len(),
    ensures
        ({
            let c = call_cards(a, all_answers(h, h.len() as int), n)[j];
            is_answer(h, h.len() as int, c.call_id, c.tool_output)
        }),
    decreases n,
{
    let answers = all_answers(h, h.len() as int);
    if n > 0 {
        if j < call_cards(a, answers, n - 1).len() {
            cards_in_blocks(h, a, n - 1, j);
        } else {
            answers_in_messages(h, text_or(a[n - 1], "id"@, ""@), h.len() as int);
        }
    }
}

// ── One block more ──────────────────────────────────────────────────────────

/// Whether a message is one of a side of the session, with this content.
pub open spec fn message(m: JsonV, role: Seq<char>, content: Seq<JsonV>) -> bool {
    text_at(m, "role"@) == Some(role) && items_at(m, "content"@) == Some(content)
}

proof fn answers_before(h: Seq<JsonV>, m: JsonV, n: int)
    requires
        0 <= n <= h.len(),
    ensures
        all_answers(h.push(m), n) == all_answers(h, n),
    decreases n,
{
    if n > 0 {
        answers_before(h, m, n - 1);
    }
}

proof fn lines_before(h: Seq<JsonV>, m: JsonV, answers: Seq<(Seq<char>, Seq<char>)>, n: int)
    requires
        0 <= n <= h.len(),
    ensures
        lines_of_messages(h.push(m), answers, n) == lines_of_messages(h, answers, n),
    decreases n,
{
    if n > 0 {
        lines_before(h, m, answers, n - 1);
    }
}

proof fn replay_of_one_more(h: Seq<JsonV>, m: JsonV, more: Seq<(Seq<char>, Seq<char>)>)
    requires
        all_answers(h.push(m), h.len() as int + 1) == all_answers(h, h.len() as int) + more,
    ensures
        replayed(h.push(m)) == lines_of_messages(
            h,
            all_answers(h, h.len() as int) + more,
            h.len() as int,
        ) + message_lines(m, all_answers(h, h.len() as int) + more),
{
    lines_before(h, m, all_answers(h, h.len() as int) + more, h.len() as int);
    assert(h.push(m)[h.len() as int] == m);
}

/// The answers of a message of the human's side, and those of any other.
proof fn answers_of_one_more(h: Seq<JsonV>, m: JsonV)
    ensures
        text_at(m, "role"@) == Some("user"@) ==> all_answers(h.push(m), h.len() as int + 1) == all_answers(
            h,
            h.len() as int,
        ) + answers_v(
            items_or_none(m, "content"@),
            items_or_none(m, "content"@).len() as int,
        ),
        text_at(m, "role"@) != Some("user"@) ==> all_answers(h.push(m), h.len() as int + 1) == all_answers(
            h,
            h.len() as int,
        ),
{
    answers_before(h, m, h.len() as int);
    assert(h.push(m)[h.len() as int] == m);
}

proof fn user_lines_before(a: Seq<JsonV>, b: JsonV, n: int)
    requires
        0 <= n <= a.len(),
    ensures
        user_lines(a.push(b), n) == user_lines(a, n),
        answers_v(a.push(b), n) == answers_v(a, n),
        texts_v(a.push(b), n) == texts_v(a, n),
    decreases n,
{
    if n > 0 {
        user_lines_before(a, b, n - 1);
    }
}

proof fn call_cards_before(a: Seq<JsonV>, b: JsonV, answers: Seq<(Seq<char>, Seq<char>)>, n: int)
    requires
        0 <= n <= a.len(),
    ensures
        call_cards(a.push(b), answers, n) == call_cards(a, answers, n),
    decreases n,
{
    if n > 0 {
        call_cards_before(a, b, answers, n - 1);
    }
}

/// A text of the human at the end of a history is a line of the human's at the end of the
/// chat; the lines before it stay.
pub proof fn human_texts_are_replayed(
    h: Seq<JsonV>,
    m: JsonV,
    m2: JsonV,
    a: Seq<JsonV>,
    b: JsonV,
    text: Seq<char>,
)
    requires
        message(m, "user"@, a),
        message(m2, "user"@, a.push(b)),
        text_at(b, "type"@) == Some("text"@),
        text_at(b, "text"@) == Some(text),
        text.len() > 0,
    ensures
        replayed(h.push(m2)) == replayed(h.push(m)).push(
            MessageV {
                role: "user"@,
                text,
                streaming: false,
                call_id: ""@,
                tool_name: ""@,
                tool_args: ""@,
                tool_output: ""@,
                tool_status: ""@,
                awaiting_approval: false,
            },
        ),
{
    reveal_strlit("");
    assert(""@ =~= Seq::<char>::empty());
    reveal_strlit("text");
    reveal_strlit("tool_result");
    assert("text"@.len() == 4 && "tool_result"@.len() == 11);
    answers_of_one_more(h, m);
    answers_of_one_more(h, m2);
    user_lines_before(a, b, a.len() as int);
    assert(a.push(b)[a.len() as int] == b);
    let more = answers_v(a, a.len() as int);
    replay_of_one_more(h, m, more);
    replay_of_one_more(h, m2, more);
    let x = user_lines(a, a.len() as int);
    let y = user_lines(a.push(b), a.len() as int + 1);
    assert(y == x.push(said_v("user"@, text, false)));
    let base = lines_of_messages(h, all_answers(h, h.len() as int) + more, h.len() as int);
    assert(base + x.push(said_v("user"@, text, false)) =~= (base + x).push(
        said_v("user"@, text, false),
    ));
}

/// A call of the agent at the end of a history is a card at the end of the chat, with the
/// call's name and arguments, settled; the lines before it stay.
pub proof fn calls_are_replayed(h: Seq<JsonV>, m: JsonV, m2: JsonV, a: Seq<JsonV>, b: JsonV)
    requires
        message(m, "assistant"@, a),
        message(m2, "assistant"@, a.push(b)),
        text_at(b, "type"@) == Some("tool_use"@),
    ensures
        ({
            let r = replayed(h.push(m2));
            let c = r.last();
            &&& r.len() == replayed(h.push(m)).len() + 1
            &&& r.drop_last() == replayed(h.push(m))
            &&& c.role == "tool"@
            &&& c.call_id == text_or(b, "id"@, ""@)
            &&& c.tool_name == text_or(b, "name"@, ""@)
            &&& c.tool_args == args_v(b)
            &&& c.tool_status == "done"@
            &&& !c.awaiting_approval && !c.streaming && c.text.len() == 0
        }),
{
    roles_unlike();
    reveal_strlit("text");
    reveal_strlit("tool_use");
    assert("text"@.len() == 4 && "tool_use"@.len() == 8);
    answers_of_one_more(h, m);
    answers_of_one_more(h, m2);
    user_lines_before(a, b, a.len() as int);
    let none = Seq::<(Seq<char>, Seq<char>)>::empty();
    let all = all_answers(h, h.len() as int);
    assert(all + none =~= all);
    call_cards_before(a, b, all, a.len() as int);
    assert(a.push(b)[a.len() as int] == b);
    replay_of_one_more(h, m, none);
    replay_of_one_more(h, m2, none);
    let x = message_lines(m, all);
    let y = message_lines(m2, all);
    assert(y.drop_last() =~= x);
    let base = lines_of_messages(h, all, h.len() as int);
    assert((base + y).drop_last() =~= base + x);
}

/// A message without content adds nothing to the chat, and neither does one of another
/// side.
pub proof fn empty_messages_are_not_replayed(h: Seq<JsonV>, m: JsonV)
    requires
        items_or_none(m, "content"@).len() == 0 || (text_at(m, "role"@) != Some("user"@) && text_at(
            m,
            "role"@,
        ) != Some("assistant"@)),
    ensures
        replayed(h.push(m)) == replayed(h),
{
    answers_of_one_more(h, m);
    let none = Seq::<(Seq<char>, Seq<char>)>::empty();
    let all = all_answers(h, h.len() as int);
    assert(all + none =~= all);
    replay_of_one_more(h, m, none);
    let a = items_or_none(m, "content"@);
    assert(a.len() == 0 ==> joined(texts_v(a, 0), ""@).len() == 0);
    assert(message_lines(m, all) =~= Seq::<MessageV>::empty());
    assert(replayed(h) + Seq::<MessageV>::empty() =~= replayed(h));
}

/// Whether all blocks are texts.
pub open spec fn all_texts(a: Seq<JsonV>, texts: Seq<Seq<char>>) -> bool {
    &&& a.len() == texts.len()
    &&& forall|i: int|
        0 <= i < a.len() ==> text_at(#[trigger] a[i], "type"@) == Some("text"@) && text_at(
            a[i],
            "text"@,
        ) == Some(texts[i])
}

proof fn texts_of_texts(
    a: Seq<JsonV>,
    texts: Seq<Seq<char>>,
    answers: Seq<(Seq<char>, Seq<char>)>,
    n: int,
)
    requires
        all_texts(a, texts),
        0 <= n <= a.len(),
    ensures
        texts_v(a, n) == texts.take(n),
        call_cards(a, answers, n).len() == 0,
    decreases n,
{
    reveal_strlit("text");
    reveal_strlit("tool_use");
    assert("text"@.len() == 4 && "tool_use"@.len() == 8);
    if n > 0 {
        texts_of_texts(a, texts, answers, n - 1);
        assert(texts.take(n - 1).push(texts[n - 1]) =~= texts.take(n));
    } else {
        assert(texts.take(0) =~= Seq::<Seq<char>>::empty());
    }
}

/// What the agent said in a message is one line of the agent's, all its texts together.
pub proof fn agent_texts_are_replayed(h: Seq<JsonV>, m: JsonV, a: Seq<JsonV>, texts: Seq<Seq<char>>)
    requires
        message(m, "assistant"@, a),
        all_texts(a, texts),
        joined(texts, ""@).len() > 0,
    ensures
        replayed(h.push(m)) == replayed(h).push(
            MessageV {
                role: "agent"@,
                text: joined(texts, ""@),
                streaming: false,
                call_id: ""@,
                tool_name: ""@,
                tool_args: ""@,
                tool_output: ""@,
                tool_status: ""@,
                awaiting_approval: false,
            },
        ),
{
    reveal_strlit("");
    assert(""@ =~= Seq::<char>::empty());
    roles_unlike();
    answers_of_one_more(h, m);
    let none = Seq::<(Seq<char>, Seq<char>)>::empty();
    let all = all_answers(h, h.len() as int);
    assert(all + none =~= all);
    replay_of_one_more(h, m, none);
    texts_of_texts(a, texts, all, a.len() as int);
    assert(texts.take(a.len() as int) =~= texts);
    let line = said_v("agent"@, joined(texts, ""@), false);
    assert(message_lines(m, all) =~= seq![line]);
    assert(replayed(h) + seq![line] =~= replayed(h).push(line));
}

/// What a tool gave back is shown as it is where it is a text, and the texts of a list are
/// shown below each other.
pub proof fn outputs_are_shown(b: JsonV, a: Seq<JsonV>, texts: Seq<Seq<char>>)
    ensures
        forall|s: Seq<char>| field(b, "content"@) == Some(JsonV::Str(s)) ==> output_v(b) == s,
        all_texts(a, texts) && field(b, "content"@) == Some(JsonV::Arr(a)) ==> output_v(b) == joined(
            texts,
            "\n"@,
        ),
{
    if all_texts(a, texts) {
        texts_of_texts(a, texts, Seq::empty(), a.len() as int);
        assert(texts.take(a.len() as int) =~= texts);
    }
}

// ── The chat at hand ────────────────────────────────────────────────────────

/// Whether the line at `i` is the newest card of a call.
pub open spec fn newest(ms: Seq<MessageV>, id: Seq<char>, i: int) -> bool {
    &&& 0 <= i < ms.len()
    &&& ms[i].role == "tool"@ && ms[i].call_id == id
    &&& forall|j: int|
        i < j < ms.len() ==> !((#[trigger] ms[j]).role == "tool"@ && ms[j].call_id == id)
}

proof fn newest_is_found(ms: Seq<MessageV>, id: Seq<char>, i: int, n: int)
    requires
        newest(ms, id, i),
        i < n <= ms.len(),
    ensures
        card_place(ms, id, n) == i,
    decreases n,
{
    if n > i + 1 {
        assert(!is_call(ms[n - 1], id));
        newest_is_found(ms, id, i, n - 1);
    }
}

proof fn none_is_found(ms: Seq<MessageV>, id: Seq<char>, n: int)
    requires
        0 <= n <= ms.len(),
        forall|j: int|
            0 <= j < ms.len() ==> !((#[trigger] ms[j]).role == "tool"@ && ms[j].call_id == id),
    ensures
        card_place(ms, id, n) == -1,
    decreases n,
{
    if n > 0 {
        none_is_found(ms, id, n - 1);
    }
}

/// What a tool gave back goes on the newest card of its call, which then asks for nothing;
/// so does a question, and the human's decision on it: a refused call has failed. No other
/// line changes.
pub proof fn cards_change_alone(
    t: TranscriptV,
    id: Seq<char>,
    i: int,
    output: Seq<char>,
    status: Seq<char>,
)
    requires
        newest(t.messages, id, i),
    ensures
        answered(t, id, output, status) == (TranscriptV {
            messages: t.messages.update(
                i,
                MessageV {
                    tool_output: output,
                    tool_status: status,
                    awaiting_approval: false,
                    ..t.messages[i]
                },
            ),
            ..t
        }),
        forall|name: Seq<char>, args: Seq<char>| #[trigger]
            asked(t, id, name, args) == (TranscriptV {
                messages: t.messages.update(
                    i,
                    MessageV { awaiting_approval: true, ..t.messages[i] },
                ),
                ..t
            }),
        decided(t, id, true).messages == t.messages.update(
            i,
            MessageV { awaiting_approval: false, ..t.messages[i] },
        ),
        decided(t, id, false).messages == t.messages.update(
            i,
            MessageV { awaiting_approval: false, tool_status: "error"@, ..t.messages[i] },
        ),
{
    newest_is_found(t.messages, id, i, t.messages.len() as int);
}

/// A call without a card gets one when it asks; an answer and a decision without a card
/// change nothing.
pub proof fn calls_without_a_card(
    t: TranscriptV,
    id: Seq<char>,
    name: Seq<char>,
    args: Seq<char>,
    output: Seq<char>,
    status: Seq<char>,
    granted: bool,
)
    requires
        forall|j: int|
            0 <= j < t.messages.len() ==> !((#[trigger] t.messages[j]).role == "tool"@
                && t.messages[j].call_id == id),
    ensures
        answered(t, id, output, status) == t,
        decided(t, id, granted) == t,
        ({
            let u = asked(t, id, name, args);
            let c = u.messages.last();
            &&& u.messages.len() == t.messages.len() + 1
            &&& u.messages.drop_last() == t.messages
            &&& c.role == "tool"@ && c.call_id == id && c.tool_name == name && c.tool_args == args
            &&& c.awaiting_approval && c.tool_status == "running"@ && c.tool_output.len() == 0
        }),
{
    none_is_found(t.messages, id, t.messages.len() as int);
    assert(asked(t, id, name, args).messages.drop_last() =~= t.messages);
}

/// What the agent says goes on its own line at the end, and changes no other; where the last
/// line is someone else's, nothing does.
pub proof fn deltas_go_on_the_last_line(t: TranscriptV, delta: Seq<char>)
    requires
        t.messages.len() > 0,
    ensures
        ({
            let n = t.messages.len() - 1;
            let last = t.messages[n];
            &&& last.role == "agent"@ ==> extended(t, delta).messages == t.messages.update(
                n,
                MessageV { text: last.text + delta, ..last },
            )
            &&& last.role != "agent"@ ==> extended(t, delta) == t
        }),
{
    let last = t.messages.last();
    assert(t.messages.drop_last().push(MessageV { text: last.text + delta, ..last })
        =~= t.messages.update(t.messages.len() - 1, MessageV { text: last.text + delta, ..last }));
}

/// The end of a turn closes the agent's line, and takes an empty one away. The lines before
/// it stay.
pub proof fn turns_close_the_last_line(t: TranscriptV)
    requires
        t.messages.len() > 0,
    ensures
        ({
            let n = t.messages.len() - 1;
            let last = t.messages[n];
            let u = finished(t);
            &&& u.messages.len() >= n
            &&& u.messages.take(n) == t.messages.take(n)
            &&& last.role == "agent"@ && last.streaming && last.text.len() == 0 ==> u.messages.len()
                == n
            &&& last.role == "agent"@ && last.text.len() > 0 ==> u.messages.len() == n + 1
                && u.messages.last() == MessageV { streaming: false, ..last }
            &&& last.role != "agent"@ ==> u == t
        }),
{
    let n = t.messages.len() - 1;
    assert(finished(t).messages.take(n) =~= t.messages.take(n));
}

/// A time mark is set at the end where none was, or where the last is three minutes old.
pub proof fn marks_are_set_when_due(t: TranscriptV, epoch: i64, label: Seq<char>)
    ensures
        t.last_stamp == 0 || epoch - t.last_stamp >= 180 ==> {
            let u = stamped(t, epoch, label);
            &&& u.last_stamp == epoch
            &&& u.messages.len() == t.messages.len() + 1
            &&& u.messages.drop_last() == t.messages
            &&& u.messages.last().role == "time"@
            &&& u.messages.last().text == label
        },
        t.last_stamp != 0 && epoch - t.last_stamp < 180 ==> stamped(t, epoch, label) == t,
{
    let u = stamped(t, epoch, label);
    if u.messages.len() > t.messages.len() {
        assert(u.messages.drop_last() =~= t.messages);
    }
}

/// The agent's last words are those of its last line.
pub proof fn last_words_are_the_agent_s(ms: Seq<MessageV>, i: int, n: int)
    requires
        0 <= i < n <= ms.len(),
        ms[i].role == "agent"@,
        forall|j: int| i < j < n ==> (#[trigger] ms[j]).role != "agent"@,
    ensures
        last_words(ms, n) == ms[i].text,
    decreases n,
{
    if n > i + 1 {
        last_words_are_the_agent_s(ms, i, n - 1);
    }
}

} // verus!
