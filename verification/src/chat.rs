//! The chat: what was said, which tools ran, and when.
use vstd::prelude::*;
use crate::json::{
    compact, field, items_at, items_or_none, pretty, pretty_json, print_json, text_at, Json, JsonV,
};
use crate::reader::{json_str, str_v};
use crate::text::{cat, copy, join, joined, same, views};

verus! {

broadcast use {crate::text::views_push, crate::text::views_empty, crate::text::views_add};

/// A line of the chat: something said, a tool card, or a time mark.
#[derive(Debug)]
pub struct MessageItem {
    /// "user", "agent", "tool" or "time".
    pub role: String,
    pub text: String,
    /// Whether more of the text is to come.
    pub streaming: bool,
    pub call_id: String,
    pub tool_name: String,
    pub tool_args: String,
    pub tool_output: String,
    /// "running", "done" or "error".
    pub tool_status: String,
    pub awaiting_approval: bool,
}

/// The model of a [`MessageItem`].
pub struct MessageV {
    pub role: Seq<char>,
    pub text: Seq<char>,
    pub streaming: bool,
    pub call_id: Seq<char>,
    pub tool_name: Seq<char>,
    pub tool_args: Seq<char>,
    pub tool_output: Seq<char>,
    pub tool_status: Seq<char>,
    pub awaiting_approval: bool,
}

impl View for MessageItem {
    type V = MessageV;

    open spec fn view(&self) -> MessageV {
        MessageV {
            role: self.role@,
            text: self.text@,
            streaming: self.streaming,
            call_id: self.call_id@,
            tool_name: self.tool_name@,
            tool_args: self.tool_args@,
            tool_output: self.tool_output@,
            tool_status: self.tool_status@,
            awaiting_approval: self.awaiting_approval,
        }
    }
}

/// Something said.
pub open spec fn said_v(role: Seq<char>, text: Seq<char>, streaming: bool) -> MessageV {
    MessageV {
        role,
        text,
        streaming,
        call_id: Seq::empty(),
        tool_name: Seq::empty(),
        tool_args: Seq::empty(),
        tool_output: Seq::empty(),
        tool_status: Seq::empty(),
        awaiting_approval: false,
    }
}

/// Something said.
pub fn said(role: &str, text: String, streaming: bool) -> (r: MessageItem)
    ensures
        r@ == said_v(role@, text@, streaming),
{
    MessageItem {
        role: copy(role),
        text,
        streaming,
        call_id: String::new(),
        tool_name: String::new(),
        tool_args: String::new(),
        tool_output: String::new(),
        tool_status: String::new(),
        awaiting_approval: false,
    }
}

/// A tool card.
pub open spec fn tool_v(
    call_id: Seq<char>,
    name: Seq<char>,
    args: Seq<char>,
    output: Seq<char>,
    status: Seq<char>,
    awaiting: bool,
) -> MessageV {
    MessageV {
        role: "tool"@,
        text: Seq::empty(),
        streaming: false,
        call_id,
        tool_name: name,
        tool_args: args,
        tool_output: output,
        tool_status: status,
        awaiting_approval: awaiting,
    }
}

/// A tool card.
pub fn tool_card(
    call_id: String,
    name: String,
    args: String,
    output: String,
    status: &str,
    awaiting: bool,
) -> (r: MessageItem)
    ensures
        r@ == tool_v(call_id@, name@, args@, output@, status@, awaiting),
{
    MessageItem {
        role: copy("tool"),
        text: String::new(),
        streaming: false,
        call_id,
        tool_name: name,
        tool_args: args,
        tool_output: output,
        tool_status: copy(status),
        awaiting_approval: awaiting,
    }
}

/// The chat of the session at hand.
#[derive(Debug)]
pub struct Transcript {
    pub messages: Vec<MessageItem>,
    /// When the last time mark was set, in seconds; zero where none is.
    pub last_stamp: i64,
}

/// The model of a [`Transcript`].
pub struct TranscriptV {
    pub messages: Seq<MessageV>,
    pub last_stamp: i64,
}

impl View for Transcript {
    type V = TranscriptV;

    open spec fn view(&self) -> TranscriptV {
        TranscriptV { messages: views(self.messages@), last_stamp: self.last_stamp }
    }
}

// ── What the operations do ──────────────────────────────────────────────────

/// One more line at the end.
pub open spec fn pushed(t: TranscriptV, m: MessageV) -> TranscriptV {
    TranscriptV { messages: t.messages.push(m), ..t }
}

/// Whether the last line is the agent's.
pub open spec fn agent_last(t: TranscriptV) -> bool {
    t.messages.len() > 0 && t.messages.last().role == "agent"@
}

/// Whether text from the agent needs a line of its own.
pub open spec fn needs_bubble(t: TranscriptV) -> bool {
    !(agent_last(t) && t.messages.last().streaming)
}

/// More text on the last line, where that is the agent's.
pub open spec fn extended(t: TranscriptV, delta: Seq<char>) -> TranscriptV {
    if agent_last(t) {
        let last = t.messages.last();
        TranscriptV {
            messages: t.messages.drop_last().push(MessageV { text: last.text + delta, ..last }),
            ..t
        }
    } else {
        t
    }
}

/// The agent's last line is closed; one that got no text is dropped.
pub open spec fn finished(t: TranscriptV) -> TranscriptV {
    if agent_last(t) {
        let last = t.messages.last();
        if last.streaming && last.text.len() == 0 {
            TranscriptV { messages: t.messages.drop_last(), ..t }
        } else {
            TranscriptV {
                messages: t.messages.drop_last().push(MessageV { streaming: false, ..last }),
                ..t
            }
        }
    } else {
        t
    }
}

/// Whether a time mark is due: none was set, or the last is three minutes old.
pub open spec fn stamp_due(t: TranscriptV, epoch: i64) -> bool {
    t.last_stamp == 0 || epoch - t.last_stamp >= 180
}

/// A time mark where one is due.
pub open spec fn stamped(t: TranscriptV, epoch: i64, label: Seq<char>) -> TranscriptV {
    if stamp_due(t, epoch) {
        TranscriptV {
            messages: t.messages.push(said_v("time"@, label, false)),
            last_stamp: epoch,
        }
    } else {
        t
    }
}

/// Whether a line is the card of a call.
pub open spec fn is_call(m: MessageV, call_id: Seq<char>) -> bool {
    m.role == "tool"@ && m.call_id == call_id
}

/// The place of the newest card of a call among the first `n` lines; -1 where there
/// is none.
pub open spec fn card_place(ms: Seq<MessageV>, call_id: Seq<char>, n: int) -> int
    decreases n,
{
    if n <= 0 {
        -1
    } else if is_call(ms[n - 1], call_id) {
        n - 1
    } else {
        card_place(ms, call_id, n - 1)
    }
}

/// The place of the newest card of a call.
pub open spec fn newest_card(t: TranscriptV, call_id: Seq<char>) -> int {
    card_place(t.messages, call_id, t.messages.len() as int)
}

/// The newest card of a call, replaced.
pub open spec fn with_card(t: TranscriptV, call_id: Seq<char>, m: MessageV) -> TranscriptV {
    TranscriptV { messages: t.messages.update(newest_card(t, call_id), m), ..t }
}

/// A tool's answer on its card.
pub open spec fn answered(
    t: TranscriptV,
    call_id: Seq<char>,
    output: Seq<char>,
    status: Seq<char>,
) -> TranscriptV {
    let i = newest_card(t, call_id);
    if i >= 0 {
        with_card(
            t,
            call_id,
            MessageV {
                tool_output: output,
                tool_status: status,
                awaiting_approval: false,
                ..t.messages[i]
            },
        )
    } else {
        t
    }
}

/// A call's card asks for approval; a call without a card gets one.
pub open spec fn asked(
    t: TranscriptV,
    call_id: Seq<char>,
    name: Seq<char>,
    args: Seq<char>,
) -> TranscriptV {
    let i = newest_card(t, call_id);
    if i >= 0 {
        with_card(t, call_id, MessageV { awaiting_approval: true, ..t.messages[i] })
    } else {
        pushed(t, tool_v(call_id, name, args, Seq::empty(), "running"@, true))
    }
}

/// The human's decision on a call's card.
pub open spec fn decided(t: TranscriptV, call_id: Seq<char>, granted: bool) -> TranscriptV {
    let i = newest_card(t, call_id);
    if i >= 0 {
        let m = t.messages[i];
        with_card(
            t,
            call_id,
            MessageV {
                awaiting_approval: false,
                tool_status: if granted {
                    m.tool_status
                } else {
                    "error"@
                },
                ..m
            },
        )
    } else {
        t
    }
}

/// A card after its turn was cancelled: what was pending has failed.
pub open spec fn retired(m: MessageV) -> MessageV {
    if m.role == "tool"@ && (m.awaiting_approval || m.tool_status == "running"@) {
        MessageV {
            awaiting_approval: false,
            tool_status: "error"@,
            tool_output: if m.tool_output.len() == 0 {
                "cancelled"@
            } else {
                m.tool_output
            },
            ..m
        }
    } else {
        m
    }
}

/// The chat after its turn was cancelled.
pub open spec fn cancelled(t: TranscriptV) -> TranscriptV {
    TranscriptV { messages: t.messages.map_values(|m: MessageV| retired(m)), ..t }
}

/// The agent's last words among the first `n` lines.
pub open spec fn last_words(ms: Seq<MessageV>, n: int) -> Seq<char>
    decreases n,
{
    if n <= 0 {
        Seq::empty()
    } else if ms[n - 1].role == "agent"@ {
        ms[n - 1].text
    } else {
        last_words(ms, n - 1)
    }
}

// ── The operations ──────────────────────────────────────────────────────────

fn retire(m: MessageItem) -> (r: MessageItem)
    ensures
        r@ == retired(m@),
{
    if same(m.role.as_str(), "tool") && (m.awaiting_approval || same(
        m.tool_status.as_str(),
        "running",
    )) {
        let tool_output = if m.tool_output.as_str().is_empty() {
            copy("cancelled")
        } else {
            m.tool_output
        };
        MessageItem {
            role: m.role,
            text: m.text,
            streaming: m.streaming,
            call_id: m.call_id,
            tool_name: m.tool_name,
            tool_args: m.tool_args,
            tool_output,
            tool_status: copy("error"),
            awaiting_approval: false,
        }
    } else {
        m
    }
}

impl Transcript {
    /// An empty chat.
    pub fn new() -> (r: Transcript)
        ensures
            r@ == (TranscriptV { messages: Seq::empty(), last_stamp: 0 }),
    {
        Transcript { messages: Vec::new(), last_stamp: 0 }
    }

    /// Adds a line.
    pub fn push_message(&mut self, item: MessageItem)
        ensures
            final(self)@ == pushed(old(self)@, item@),
    {
        self.messages.push(item);
    }

    fn agent_is_last(&self) -> (r: bool)
        ensures
            r == agent_last(self@),
    {
        let n: usize = self.messages.len();
        assert(self@.messages.len() == n);
        n > 0 && same(self.messages[n - 1].role.as_str(), "agent")
    }

    /// Whether text from the agent needs a line of its own.
    pub fn lacks_bubble(&self) -> (r: bool)
        ensures
            r == needs_bubble(self@),
    {
        let n: usize = self.messages.len();
        assert(self@.messages.len() == n);
        !(self.agent_is_last() && self.messages[n - 1].streaming)
    }

    /// Adds text to the last line, where that is the agent's.
    pub fn update_last_agent_message(&mut self, delta: &str)
        ensures
            final(self)@ == extended(old(self)@, delta@),
    {
        if self.agent_is_last() {
            let ghost before = views(self.messages@);
            let n: usize = self.messages.len();
            let text = cat(self.messages[n - 1].text.as_str(), delta);
            self.messages[n - 1].text = text;
            assert(views(self.messages@) =~= before.drop_last().push(
                MessageV { text: before.last().text + delta@, ..before.last() },
            ));
        }
    }

    /// Closes the agent's last line.
    pub fn finish_last_agent_message(&mut self)
        ensures
            final(self)@ == finished(old(self)@),
    {
        if self.agent_is_last() {
            let ghost before = views(self.messages@);
            let n: usize = self.messages.len();
            if self.messages[n - 1].streaming && self.messages[n - 1].text.as_str().is_empty() {
                self.messages.pop();
                assert(views(self.messages@) =~= before.drop_last());
            } else {
                self.messages[n - 1].streaming = false;
                assert(views(self.messages@) =~= before.drop_last().push(
                    MessageV { streaming: false, ..before.last() },
                ));
            }
        }
    }

    /// Empties the chat.
    pub fn clear_messages(&mut self)
        ensures
            final(self)@ == (TranscriptV { messages: Seq::empty(), last_stamp: 0 }),
    {
        self.messages = Vec::new();
        self.last_stamp = 0;
    }

    /// Sets a time mark where one is due at `epoch`.
    pub fn maybe_push_time_divider(&mut self, epoch: i64, label: &str)
        ensures
            final(self)@ == stamped(old(self)@, epoch, label@),
    {
        let due = self.last_stamp == 0 || epoch as i128 - self.last_stamp as i128 >= 180;
        if due {
            self.last_stamp = epoch;
            self.messages.push(said("time", copy(label), false));
        }
    }

    /// The place of the newest card of a call.
    pub fn find_tool_row(&self, call_id: &str) -> (r: Option<usize>)
        ensures
            match r {
                Some(i) => i < self@.messages.len() && i == newest_card(self@, call_id@),
                None => newest_card(self@, call_id@) == -1,
            },
    {
        let ghost ms = self@.messages;
        let mut n: usize = self.messages.len();
        while n > 0 && !(same(self.messages[n - 1].role.as_str(), "tool") && same(
            self.messages[n - 1].call_id.as_str(),
            call_id,
        ))
            invariant
                n <= self.messages@.len(),
                ms == views(self.messages@),
                newest_card(self@, call_id@) == card_place(ms, call_id@, n as int),
            decreases n,
        {
            n = n - 1;
        }
        if n > 0 {
            Some(n - 1)
        } else {
            None
        }
    }

    /// Puts a tool's answer on its card.
    pub fn answer(&mut self, call_id: &str, output: String, status: &str)
        ensures
            final(self)@ == answered(old(self)@, call_id@, output@, status@),
    {
        match self.find_tool_row(call_id) {
            Some(i) => {
                let ghost before = views(self.messages@);
                let ghost m = MessageV {
                    tool_output: output@,
                    tool_status: status@,
                    awaiting_approval: false,
                    ..before[i as int]
                };
                self.messages[i].tool_output = output;
                self.messages[i].tool_status = copy(status);
                self.messages[i].awaiting_approval = false;
                assert(views(self.messages@) =~= before.update(i as int, m));
            },
            None => {},
        }
    }

    /// Has a call's card ask for approval.
    pub fn ask(&mut self, call_id: &str, name: &str, args: String)
        ensures
            final(self)@ == asked(old(self)@, call_id@, name@, args@),
    {
        match self.find_tool_row(call_id) {
            Some(i) => {
                let ghost before = views(self.messages@);
                self.messages[i].awaiting_approval = true;
                assert(views(self.messages@) =~= before.update(
                    i as int,
                    MessageV { awaiting_approval: true, ..before[i as int] },
                ));
            },
            None => {
                let card = tool_card(
                    copy(call_id),
                    copy(name),
                    args,
                    String::new(),
                    "running",
                    true,
                );
                self.push_message(card);
            },
        }
    }

    /// Puts the human's decision on a call's card.
    pub fn decide(&mut self, call_id: &str, granted: bool)
        ensures
            final(self)@ == decided(old(self)@, call_id@, granted),
    {
        match self.find_tool_row(call_id) {
            Some(i) => {
                let ghost before = views(self.messages@);
                let ghost m = MessageV {
                    awaiting_approval: false,
                    tool_status: if granted {
                        before[i as int].tool_status
                    } else {
                        "error"@
                    },
                    ..before[i as int]
                };
                self.messages[i].awaiting_approval = false;
                if !granted {
                    self.messages[i].tool_status = copy("error");
                }
                assert(views(self.messages@) =~= before.update(i as int, m));
            },
            None => {},
        }
    }

    /// Retires the cards that are still pending.
    pub fn clear_pending_tools(&mut self)
        ensures
            final(self)@ == cancelled(old(self)@),
    {
        let ghost before = views(self.messages@);
        let ghost want = before.map_values(|m: MessageV| retired(m));
        let mut out: Vec<MessageItem> = Vec::new();
        let mut rest: Vec<MessageItem> = Vec::new();
        std::mem::swap(&mut rest, &mut self.messages);
        for m in it: rest
            invariant
                views(it.seq()) == before,
                want == before.map_values(|m: MessageV| retired(m)),
                views(out@) == want.take(it.index()),
        {
            let ghost i = it.index();
            assert(m@ == before[i]);
            out.push(retire(m));
            assert(want.take(i).push(want[i]) =~= want.take(i + 1));
        }
        assert(want.take(want.len() as int) =~= want);
        self.messages = out;
    }

    /// The agent's last words.
    pub fn last_agent_text(&self) -> (r: String)
        ensures
            r@ == last_words(self@.messages, self@.messages.len() as int),
    {
        let ghost ms = self@.messages;
        let mut n: usize = self.messages.len();
        while n > 0 && !same(self.messages[n - 1].role.as_str(), "agent")
            invariant
                n <= self.messages@.len(),
                ms == views(self.messages@),
                last_words(ms, ms.len() as int) == last_words(ms, n as int),
            decreases n,
        {
            n = n - 1;
        }
        if n > 0 {
            self.messages[n - 1].text.clone()
        } else {
            String::new()
        }
    }
}

// ── Replaying a session ─────────────────────────────────────────────────────

/// Whether a block is of a type.
pub open spec fn typed(b: JsonV, t: Seq<char>) -> bool {
    text_at(b, "type"@) == Some(t)
}

fn is_typed(b: &Json, t: &str) -> (r: bool)
    ensures
        r == typed(b@, t@),
{
    match b.str_at("type") {
        Some(s) => same(s, t),
        None => false,
    }
}

/// The texts among the first `n` blocks.
pub open spec fn texts_v(a: Seq<JsonV>, n: int) -> Seq<Seq<char>>
    decreases n,
{
    if n <= 0 {
        Seq::empty()
    } else {
        let b = a[n - 1];
        match text_at(b, "text"@) {
            Some(s) => if typed(b, "text"@) {
                texts_v(a, n - 1).push(s)
            } else {
                texts_v(a, n - 1)
            },
            None => texts_v(a, n - 1),
        }
    }
}

fn texts(arr: &Vec<Json>) -> (r: Vec<String>)
    ensures
        views(r@) == texts_v(views(arr@), arr@.len() as int),
{
    let mut out: Vec<String> = Vec::new();
    for i in 0..arr.len()
        invariant
            views(out@) == texts_v(views(arr@), i as int),
    {
        assert(views(arr@)[i as int] == arr@[i as int]@);
        match arr[i].str_at("text") {
            Some(s) => {
                if is_typed(&arr[i], "text") {
                    out.push(copy(s));
                }
            },
            None => {},
        }
    }
    out
}

/// What a tool answered, as text: a bare text, the texts of an array below each
/// other, or the value as JSON prints it.
pub open spec fn output_v(block: JsonV) -> Seq<char> {
    match field(block, "content"@) {
        Some(JsonV::Str(s)) => s,
        Some(JsonV::Arr(a)) => joined(texts_v(a, a.len() as int), "\n"@),
        Some(v) => compact(v),
        None => compact(JsonV::Null),
    }
}

fn output_of(block: &Json) -> (r: String)
    ensures
        r@ == output_v(block@),
{
    match block.get("content") {
        Some(c) => match c.as_str() {
            Some(s) => copy(s),
            None => match c.as_array() {
                Some(arr) => {
                    assert(views(arr@).len() == arr@.len());
                    join(&texts(arr), "\n")
                },
                None => print_json(c),
            },
        },
        None => print_json(&Json::Null),
    }
}

/// The answers among the first `n` blocks of a message, each with its call.
pub open spec fn answers_v(a: Seq<JsonV>, n: int) -> Seq<(Seq<char>, Seq<char>)>
    decreases n,
{
    if n <= 0 {
        Seq::empty()
    } else if typed(a[n - 1], "tool_result"@) {
        answers_v(a, n - 1).push((str_v(a[n - 1], "tool_use_id"@), output_v(a[n - 1])))
    } else {
        answers_v(a, n - 1)
    }
}

/// The answers in the first `n` messages.
pub open spec fn all_answers(h: Seq<JsonV>, n: int) -> Seq<(Seq<char>, Seq<char>)>
    decreases n,
{
    if n <= 0 {
        Seq::empty()
    } else if text_at(h[n - 1], "role"@) == Some("user"@) {
        let a = items_or_none(h[n - 1], "content"@);
        all_answers(h, n - 1) + answers_v(a, a.len() as int)
    } else {
        all_answers(h, n - 1)
    }
}

/// The last answer to a call among the first `n`; empty where there is none.
pub open spec fn answer_to(answers: Seq<(Seq<char>, Seq<char>)>, id: Seq<char>, n: int) -> Seq<
    char,
>
    decreases n,
{
    if n <= 0 {
        Seq::empty()
    } else if answers[n - 1].0 == id {
        answers[n - 1].1
    } else {
        answer_to(answers, id, n - 1)
    }
}

/// What the human said in the first `n` blocks of a message.
pub open spec fn user_lines(a: Seq<JsonV>, n: int) -> Seq<MessageV>
    decreases n,
{
    if n <= 0 {
        Seq::empty()
    } else {
        let text = str_v(a[n - 1], "text"@);
        if typed(a[n - 1], "text"@) && text.len() > 0 {
            user_lines(a, n - 1).push(said_v("user"@, text, false))
        } else {
            user_lines(a, n - 1)
        }
    }
}

/// A call's arguments, as text.
pub open spec fn args_v(block: JsonV) -> Seq<char> {
    match field(block, "input"@) {
        Some(JsonV::Obj(e)) => pretty(JsonV::Obj(e)),
        _ => Seq::empty(),
    }
}

/// The cards of the calls in the first `n` blocks of a message.
pub open spec fn call_cards(
    a: Seq<JsonV>,
    answers: Seq<(Seq<char>, Seq<char>)>,
    n: int,
) -> Seq<MessageV>
    decreases n,
{
    if n <= 0 {
        Seq::empty()
    } else if typed(a[n - 1], "tool_use"@) {
        let id = str_v(a[n - 1], "id"@);
        call_cards(a, answers, n - 1).push(
            tool_v(
                id,
                str_v(a[n - 1], "name"@),
                args_v(a[n - 1]),
                answer_to(answers, id, answers.len() as int),
                "done"@,
                false,
            ),
        )
    } else {
        call_cards(a, answers, n - 1)
    }
}

/// What the agent said in a message, then the cards of its calls.
pub open spec fn agent_lines(a: Seq<JsonV>, answers: Seq<(Seq<char>, Seq<char>)>) -> Seq<
    MessageV,
> {
    let text = joined(texts_v(a, a.len() as int), ""@);
    let words = if text.len() == 0 {
        Seq::empty()
    } else {
        seq![said_v("agent"@, text, false)]
    };
    words + call_cards(a, answers, a.len() as int)
}

/// The lines of one message.
pub open spec fn message_lines(m: JsonV, answers: Seq<(Seq<char>, Seq<char>)>) -> Seq<MessageV> {
    let a = items_or_none(m, "content"@);
    match text_at(m, "role"@) {
        Some(r) => if r == "user"@ {
            user_lines(a, a.len() as int)
        } else if r == "assistant"@ && items_at(m, "content"@) is Some {
            agent_lines(a, answers)
        } else {
            Seq::empty()
        },
        None => Seq::empty(),
    }
}

/// The lines of the first `n` messages.
pub open spec fn lines_of_messages(
    h: Seq<JsonV>,
    answers: Seq<(Seq<char>, Seq<char>)>,
    n: int,
) -> Seq<MessageV>
    decreases n,
{
    if n <= 0 {
        Seq::empty()
    } else {
        lines_of_messages(h, answers, n - 1) + message_lines(h[n - 1], answers)
    }
}

/// A session's history as lines of the chat.
pub open spec fn replayed(h: Seq<JsonV>) -> Seq<MessageV> {
    lines_of_messages(h, all_answers(h, h.len() as int), h.len() as int)
}

/// A call and what came back.
struct Answer {
    id: String,
    output: String,
}

impl View for Answer {
    type V = (Seq<char>, Seq<char>);

    closed spec fn view(&self) -> (Seq<char>, Seq<char>) {
        (self.id@, self.output@)
    }
}

fn push_answers(out: &mut Vec<Answer>, content: &[Json])
    ensures
        views(final(out)@) == views(old(out)@) + answers_v(
            views(content@),
            content@.len() as int,
        ),
{
    let ghost a = views(content@);
    let ghost before = views(out@);
    assert(before + answers_v(a, 0) =~= before);
    for i in 0..content.len()
        invariant
            a == views(content@),
            views(out@) == before + answers_v(a, i as int),
    {
        assert(a[i as int] == content@[i as int]@);
        if is_typed(&content[i], "tool_result") {
            let answer = Answer {
                id: json_str(&content[i], "tool_use_id"),
                output: output_of(&content[i]),
            };
            assert((before + answers_v(a, i as int)).push(answer@) =~= before + answers_v(
                a,
                i as int + 1,
            ));
            out.push(answer);
        }
    }
}

fn is_role(m: &Json, role: &str) -> (r: bool)
    ensures
        r == (text_at(m@, "role"@) == Some(role@)),
{
    match m.str_at("role") {
        Some(s) => same(s, role),
        None => false,
    }
}

fn collect_answers(history: &Vec<Json>) -> (r: Vec<Answer>)
    ensures
        views(r@) == all_answers(views(history@), history@.len() as int),
{
    let ghost h = views(history@);
    let mut out: Vec<Answer> = Vec::new();
    for i in 0..history.len()
        invariant
            h == views(history@),
            views(out@) == all_answers(h, i as int),
    {
        assert(h[i as int] == history@[i as int]@);
        if is_role(&history[i], "user") {
            let content = history[i].items_at("content");
            assert(views(content@).len() == content@.len());
            push_answers(&mut out, content);
        }
    }
    out
}

fn find_answer(answers: &Vec<Answer>, id: &str) -> (r: String)
    ensures
        r@ == answer_to(views(answers@), id@, answers@.len() as int),
{
    let ghost a = views(answers@);
    let mut n: usize = answers.len();
    while n > 0 && !same(answers[n - 1].id.as_str(), id)
        invariant
            n <= answers@.len(),
            a == views(answers@),
            answer_to(a, id@, a.len() as int) == answer_to(a, id@, n as int),
        decreases n,
    {
        n = n - 1;
    }
    if n > 0 {
        answers[n - 1].output.clone()
    } else {
        String::new()
    }
}

fn push_user_lines(out: &mut Vec<MessageItem>, content: &[Json])
    ensures
        views(final(out)@) == views(old(out)@) + user_lines(
            views(content@),
            content@.len() as int,
        ),
{
    let ghost a = views(content@);
    let ghost before = views(out@);
    assert(before + user_lines(a, 0) =~= before);
    for i in 0..content.len()
        invariant
            a == views(content@),
            views(out@) == before + user_lines(a, i as int),
    {
        assert(a[i as int] == content@[i as int]@);
        let text = json_str(&content[i], "text");
        if is_typed(&content[i], "text") && !text.as_str().is_empty() {
            let line = said("user", text, false);
            assert((before + user_lines(a, i as int)).push(line@) =~= before + user_lines(
                a,
                i as int + 1,
            ));
            out.push(line);
        }
    }
}

fn args_of(block: &Json) -> (r: String)
    ensures
        r@ == args_v(block@),
{
    match block.get("input") {
        Some(input) => match input.as_object() {
            Some(_) => pretty_json(input),
            None => String::new(),
        },
        None => String::new(),
    }
}

fn push_agent_lines(out: &mut Vec<MessageItem>, content: &Vec<Json>, answers: &Vec<Answer>)
    ensures
        views(final(out)@) == views(old(out)@) + agent_lines(views(content@), views(answers@)),
{
    let ghost a = views(content@);
    let ghost all = views(answers@);
    let ghost before = views(out@);
    let text = join(&texts(content), "");
    if !text.as_str().is_empty() {
        out.push(said("agent", text, false));
    }
    let ghost top = views(out@);
    assert(top + call_cards(a, all, 0) =~= top);
    for i in 0..content.len()
        invariant
            a == views(content@),
            all == views(answers@),
            views(out@) == top + call_cards(a, all, i as int),
    {
        assert(a[i as int] == content@[i as int]@);
        assert(all.len() == answers@.len());
        if is_typed(&content[i], "tool_use") {
            let id = json_str(&content[i], "id");
            let output = find_answer(answers, id.as_str());
            let card = tool_card(
                id,
                json_str(&content[i], "name"),
                args_of(&content[i]),
                output,
                "done",
                false,
            );
            assert((top + call_cards(a, all, i as int)).push(card@) =~= top + call_cards(
                a,
                all,
                i as int + 1,
            ));
            out.push(card);
        }
    }
    assert(views(out@) =~= before + agent_lines(a, all));
}

/// Turns a session's history into lines of the chat.
pub fn replay_history(history: &Vec<Json>) -> (r: Vec<MessageItem>)
    ensures
        views(r@) == replayed(views(history@)),
{
    let ghost h = views(history@);
    let answers = collect_answers(history);
    let ghost all = views(answers@);
    let mut out: Vec<MessageItem> = Vec::new();
    for i in 0..history.len()
        invariant
            h == views(history@),
            all == views(answers@),
            views(out@) == lines_of_messages(h, all, i as int),
    {
        assert(h[i as int] == history@[i as int]@);
        let ghost before = views(out@);
        if is_role(&history[i], "user") {
            let content = history[i].items_at("content");
            assert(views(content@).len() == content@.len());
            push_user_lines(&mut out, content);
        } else if is_role(&history[i], "assistant") {
            match history[i].arr_at("content") {
                Some(content) => {
                    push_agent_lines(&mut out, content, &answers);
                },
                None => {
                    assert(before =~= before + message_lines(h[i as int], all));
                },
            }
        } else {
            assert(before =~= before + message_lines(h[i as int], all));
        }
    }
    assert(h.len() == history@.len());
    out
}

// ── Laws ────────────────────────────────────────────────────────────────────

/// Text that comes in pieces ends up as text that comes at once.
pub proof fn deltas_add_up(t: TranscriptV, a: Seq<char>, b: Seq<char>)
    ensures
        extended(extended(t, a), b) == extended(t, a + b),
{
    if agent_last(t) {
        let last = t.messages.last();
        assert(last.text + a + b =~= last.text + (a + b));
        let u = extended(t, a);
        assert(u.messages.drop_last() =~= t.messages.drop_last());
    }
}

/// A closed turn leaves no line of the agent's open at the end.
pub proof fn finishing_closes(t: TranscriptV)
    requires
        agent_last(t),
        !(t.messages.last().streaming && t.messages.last().text.len() == 0),
    ensures
        agent_last(finished(t)),
        !finished(t).messages.last().streaming,
        finished(t).messages.last().text == t.messages.last().text,
        needs_bubble(finished(t)),
{
}

/// Whether a line still waits for something.
pub open spec fn pending(m: MessageV) -> bool {
    m.role == "tool"@ && (m.awaiting_approval || m.tool_status == "running"@)
}

/// After a cancelled turn nothing is pending, and cancelling again changes nothing.
pub proof fn cancelling_settles(t: TranscriptV)
    ensures
        forall|i: int| 0 <= i < cancelled(t).messages.len() ==> !pending(
            #[trigger] cancelled(t).messages[i],
        ),
        cancelled(t).messages.len() == t.messages.len(),
        cancelled(cancelled(t)) == cancelled(t),
{
    reveal_strlit("error");
    reveal_strlit("running");
    assert("error"@.len() != "running"@.len());
    let c = cancelled(t);
    assert forall|i: int| 0 <= i < c.messages.len() implies !pending(#[trigger] c.messages[i]) by {
        assert(c.messages[i] == retired(t.messages[i]));
    }
    assert(cancelled(c).messages =~= c.messages);
}

/// Two time marks are at least three minutes apart.
pub proof fn marks_keep_apart(t: TranscriptV, epoch: i64, later: i64, label: Seq<char>)
    requires
        stamp_due(t, epoch),
        epoch != 0,
        later < epoch + 180,
    ensures
        !stamp_due(stamped(t, epoch, label), later),
{
}

/// A call's answer goes to its newest card, and to no other line.
pub proof fn answers_find_the_newest_card(ms: Seq<MessageV>, call_id: Seq<char>, n: int)
    requires
        0 <= n <= ms.len(),
    ensures
        -1 <= card_place(ms, call_id, n) < n,
        card_place(ms, call_id, n) >= 0 ==> is_call(ms[card_place(ms, call_id, n)], call_id),
        forall|i: int|
            card_place(ms, call_id, n) < i < n ==> !is_call(#[trigger] ms[i], call_id),
    decreases n,
{
    if n > 0 && !is_call(ms[n - 1], call_id) {
        answers_find_the_newest_card(ms, call_id, n - 1);
    }
}

/// Whether a line is settled: closed, and nothing to approve.
pub open spec fn settled(m: MessageV) -> bool {
    !m.streaming && !m.awaiting_approval && (m.role == "tool"@ ==> m.tool_status == "done"@)
}

/// A replayed session has no open line and nothing to approve.
pub proof fn replays_are_settled(h: Seq<JsonV>)
    ensures
        forall|i: int| 0 <= i < replayed(h).len() ==> settled(#[trigger] replayed(h)[i]),
{
    messages_are_settled(h, all_answers(h, h.len() as int), h.len() as int);
}

proof fn messages_are_settled(h: Seq<JsonV>, answers: Seq<(Seq<char>, Seq<char>)>, n: int)
    ensures
        forall|i: int|
            0 <= i < lines_of_messages(h, answers, n).len() ==> settled(
                #[trigger] lines_of_messages(h, answers, n)[i],
            ),
    decreases n,
{
    if n > 0 {
        messages_are_settled(h, answers, n - 1);
        let a = items_or_none(h[n - 1], "content"@);
        user_lines_settled(a, a.len() as int);
        call_cards_settled(a, answers, a.len() as int);
        let before = lines_of_messages(h, answers, n - 1);
        let more = message_lines(h[n - 1], answers);
        reveal_strlit("user");
        reveal_strlit("tool");
        reveal_strlit("agent");
        assert forall|i: int| 0 <= i < more.len() implies settled(#[trigger] more[i]) by {
            if text_at(h[n - 1], "role"@) == Some("user"@) {
            } else {
                let cards = call_cards(a, answers, a.len() as int);
                let text = joined(texts_v(a, a.len() as int), ""@);
                if text.len() > 0 {
                    if i > 0 {
                        assert(more[i] == cards[i - 1]);
                    } else {
                        assert("agent"@.len() != "tool"@.len());
                    }
                } else {
                    assert(more[i] == cards[i]);
                }
            }
        }
        let all = lines_of_messages(h, answers, n);
        assert forall|i: int| 0 <= i < all.len() implies settled(#[trigger] all[i]) by {
            if i < before.len() {
                assert(all[i] == before[i]);
            } else {
                assert(all[i] == more[i - before.len()]);
            }
        }
    }
}

proof fn user_lines_settled(a: Seq<JsonV>, n: int)
    ensures
        forall|i: int|
            0 <= i < user_lines(a, n).len() ==> settled(#[trigger] user_lines(a, n)[i]),
    decreases n,
{
    if n > 0 {
        user_lines_settled(a, n - 1);
        reveal_strlit("user");
        reveal_strlit("tool");
        assert("user"@[0] == 'u' && "tool"@[0] == 't');
        let before = user_lines(a, n - 1);
        let all = user_lines(a, n);
        assert forall|i: int| 0 <= i < all.len() implies settled(#[trigger] all[i]) by {
            if i < before.len() {
                assert(all[i] == before[i]);
            }
        }
    }
}

proof fn call_cards_settled(a: Seq<JsonV>, answers: Seq<(Seq<char>, Seq<char>)>, n: int)
    ensures
        forall|i: int|
            0 <= i < call_cards(a, answers, n).len() ==> settled(
                #[trigger] call_cards(a, answers, n)[i],
            ),
    decreases n,
{
    if n > 0 {
        call_cards_settled(a, answers, n - 1);
        let before = call_cards(a, answers, n - 1);
        let all = call_cards(a, answers, n);
        assert forall|i: int| 0 <= i < all.len() implies settled(#[trigger] all[i]) by {
            if i < before.len() {
                assert(all[i] == before[i]);
            }
        }
    }
}

} // verus!
