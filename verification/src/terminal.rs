//! The terminal: a line-mode view of what a shell prints.
use vstd::prelude::*;
use crate::client::double_backoff;
use crate::text::{byte_count, byte_count_add, byte_count_bounds, byte_len, chars_of, text_of};

verus! {

// ── Escape sequences ────────────────────────────────────────────────────────

pub const ESC: char = '\u{1b}';

pub const BEL: char = '\u{7}';

/// Where a control sequence that is open at `i` is over: behind its final byte.
pub open spec fn past_csi(s: Seq<char>, i: int) -> int
    decreases s.len() - i,
{
    if i < 0 || i >= s.len() {
        s.len() as int
    } else if '@' <= s[i] <= '~' {
        i + 1
    } else {
        past_csi(s, i + 1)
    }
}

/// Where an operating system command that is open at `i` is over: behind a bell, or
/// behind an escape and the backslash that may follow it.
pub open spec fn past_osc(s: Seq<char>, i: int) -> int
    decreases s.len() - i,
{
    if i < 0 || i >= s.len() {
        s.len() as int
    } else if s[i] == BEL {
        i + 1
    } else if s[i] == ESC {
        if i + 1 < s.len() && s[i + 1] == '\\' {
            i + 2
        } else {
            i + 1
        }
    } else {
        past_osc(s, i + 1)
    }
}

/// Where an escape sequence that starts at `i` is over.
pub open spec fn past_escape(s: Seq<char>, i: int) -> int {
    if i + 1 >= s.len() {
        i + 1
    } else if s[i + 1] == '[' {
        past_csi(s, i + 2)
    } else if s[i + 1] == ']' {
        past_osc(s, i + 2)
    } else if (s[i + 1] == '(' || s[i + 1] == ')') && i + 2 < s.len() {
        i + 3
    } else {
        i + 2
    }
}

/// Whether a character can be shown: a line feed, a tab, or no control character.
pub open spec fn showable(c: char) -> bool {
    c == '\n' || c == '\t' || c as u32 >= 0x20
}

/// What the character at `i` shows, and where reading goes on. An escape sequence and a
/// control character show nothing; a line feed and a tab stay.
pub open spec fn printed(s: Seq<char>, i: int) -> (Seq<char>, int) {
    if s[i] == ESC {
        (Seq::empty(), past_escape(s, i))
    } else if showable(s[i]) {
        (seq![s[i]], i + 1)
    } else {
        (Seq::empty(), i + 1)
    }
}

/// What `s` shows from `i` on.
pub open spec fn shown_from(s: Seq<char>, i: int) -> Seq<char>
    decreases s.len() - i,
    when 0 <= i <= s.len()
    via shown_from_decreases
{
    if i >= s.len() {
        Seq::empty()
    } else {
        let (out, next) = printed(s, i);
        out + shown_from(s, next)
    }
}

proof fn past_csi_bounds(s: Seq<char>, i: int)
    requires
        0 <= i <= s.len(),
    ensures
        i <= past_csi(s, i) <= s.len(),
    decreases s.len() - i,
{
    if i < s.len() && !('@' <= s[i] <= '~') {
        past_csi_bounds(s, i + 1);
    }
}

proof fn past_osc_bounds(s: Seq<char>, i: int)
    requires
        0 <= i <= s.len(),
    ensures
        i <= past_osc(s, i) <= s.len(),
    decreases s.len() - i,
{
    if i < s.len() && s[i] != BEL && s[i] != ESC {
        past_osc_bounds(s, i + 1);
    }
}

proof fn past_escape_bounds(s: Seq<char>, i: int)
    requires
        0 <= i < s.len(),
    ensures
        i < past_escape(s, i) <= s.len(),
{
    if i + 1 < s.len() {
        past_csi_bounds(s, i + 2);
        past_osc_bounds(s, i + 2);
    }
}

#[via_fn]
proof fn shown_from_decreases(s: Seq<char>, i: int) {
    if i < s.len() {
        past_escape_bounds(s, i);
    }
}

/// What a terminal's output shows.
pub open spec fn shown_text(s: Seq<char>) -> Seq<char> {
    shown_from(s, 0)
}

fn skip_csi(v: &Vec<char>, from: usize) -> (r: usize)
    requires
        from <= v@.len(),
    ensures
        r == past_csi(v@, from as int),
        from <= r <= v@.len(),
{
    let mut i: usize = from;
    while i < v.len()
        invariant
            from <= i <= v@.len(),
            past_csi(v@, from as int) == past_csi(v@, i as int),
        decreases v@.len() - i,
    {
        if '@' <= v[i] && v[i] <= '~' {
            return i + 1;
        }
        i = i + 1;
    }
    i
}

fn skip_osc(v: &Vec<char>, from: usize) -> (r: usize)
    requires
        from <= v@.len(),
    ensures
        r == past_osc(v@, from as int),
        from <= r <= v@.len(),
{
    let mut i: usize = from;
    while i < v.len()
        invariant
            from <= i <= v@.len(),
            past_osc(v@, from as int) == past_osc(v@, i as int),
        decreases v@.len() - i,
    {
        if v[i] == BEL {
            return i + 1;
        }
        if v[i] == ESC {
            if i + 1 < v.len() && v[i + 1] == '\\' {
                return i + 2;
            }
            return i + 1;
        }
        i = i + 1;
    }
    i
}

fn skip_escape(v: &Vec<char>, i: usize) -> (r: usize)
    requires
        i < v@.len(),
    ensures
        r == past_escape(v@, i as int),
        i < r <= v@.len(),
{
    let n: usize = v.len();
    if i + 1 >= n {
        i + 1
    } else if v[i + 1] == '[' {
        skip_csi(v, i + 2)
    } else if v[i + 1] == ']' {
        skip_osc(v, i + 2)
    } else if (v[i + 1] == '(' || v[i + 1] == ')') && i + 2 < n {
        i + 3
    } else {
        i + 2
    }
}

/// Strips what a line-mode view cannot show.
pub fn strip_ansi(input: &str) -> (r: String)
    ensures
        r@ == shown_text(input@),
{
    let v = chars_of(input);
    let n: usize = v.len();
    let mut out = String::new();
    let mut i: usize = 0;
    assert(out@ + shown_from(v@, 0) =~= shown_from(v@, 0));
    while i < n
        invariant
            i <= n == v@.len(),
            out@ + shown_from(v@, i as int) == shown_from(v@, 0),
        decreases n - i,
    {
        let c = v[i];
        let ghost done = out@;
        let ghost (part, next) = printed(v@, i as int);
        if c == ESC {
            i = skip_escape(&v, i);
        } else if c == '\n' || c == '\t' || c as u32 >= 0x20 {
            out.push(c);
            i = i + 1;
        } else {
            i = i + 1;
        }
        assert(out@ =~= done + part);
        assert(done + (part + shown_from(v@, next)) =~= done + part + shown_from(v@, next));
    }
    assert(out@ + shown_from(v@, n as int) =~= out@);
    out
}

// ── Scrollback ──────────────────────────────────────────────────────────────

/// How many bytes of scrollback make it be cut.
pub const SCROLLBACK_CAP: u64 = 60_000;

/// How many bytes a cut leaves at most.
pub const SCROLLBACK_KEEP: u64 = 30_000;

/// The longest suffix that fits into `max` bytes.
pub open spec fn tail_fit(s: Seq<char>, max: nat) -> Seq<char>
    decreases s.len(),
{
    if s.len() == 0 || byte_count(s) <= max {
        s
    } else {
        tail_fit(s.drop_first(), max)
    }
}

/// The scrollback cut to size, where it is too long.
pub open spec fn kept(s: Seq<char>) -> Seq<char> {
    if byte_count(s) > SCROLLBACK_CAP {
        tail_fit(s, SCROLLBACK_KEEP as nat)
    } else {
        s
    }
}

/// The longest suffix that fits into `max` bytes.
fn take_tail(s: &str, max: u64) -> (r: String)
    ensures
        r@ == tail_fit(s@, max as nat),
{
    let v = chars_of(s);
    let mut left: u128 = byte_len(s);
    let mut i: usize = 0;
    assert(v@.skip(0) =~= v@);
    while i < v.len() && left > max as u128
        invariant
            i <= v@.len(),
            left == byte_count(v@.skip(i as int)),
            tail_fit(v@, max as nat) == tail_fit(v@.skip(i as int), max as nat),
        decreases v@.len() - i,
    {
        let c = v[i];
        proof {
            let rest = v@.skip(i as int);
            assert(rest =~= seq![c] + rest.drop_first());
            byte_count_add(seq![c], rest.drop_first());
            assert(seq![c].drop_last() =~= Seq::<char>::empty());
            assert(byte_count(Seq::<char>::empty()) == 0);
            assert(byte_count(seq![c]) == crate::text::width(c));
            assert(rest.drop_first() =~= v@.skip(i as int + 1));
        }
        left = left - width_of(c) as u128;
        i = i + 1;
    }
    assert(v@.subrange(i as int, v@.len() as int) =~= v@.skip(i as int));
    text_of(&v, i, v.len())
}

fn width_of(c: char) -> (w: u8)
    ensures
        w == crate::text::width(c),
{
    let n: u32 = c as u32;
    if n < 0x80 {
        1
    } else if n < 0x800 {
        2
    } else if n < 0x10000 {
        3
    } else {
        4
    }
}

/// What `String::from_utf8_lossy` makes of bytes.
pub uninterp spec fn lossy(bytes: Seq<u8>) -> Seq<char>;

/// Reads bytes as text with `String::from_utf8_lossy`, which depends on the bytes alone.
#[verifier::external_body]
fn lossy_text(bytes: &[u8]) -> (r: String)
    ensures
        r@ == lossy(bytes@),
{
    String::from_utf8_lossy(bytes).into_owned()
}

/// How long the terminal first waits before it connects again, in seconds.
pub const FIRST_WAIT: u64 = 2;

/// How long it waits at most.
pub const MAX_WAIT: u64 = 30;

/// The terminal's scrollback and its connection.
#[derive(Debug)]
pub struct Terminal {
    pub text: String,
    /// How long the next wait is, in seconds.
    pub wait: u64,
}

/// The model of a [`Terminal`].
pub struct TerminalV {
    pub text: Seq<char>,
    pub wait: u64,
}

impl View for Terminal {
    type V = TerminalV;

    open spec fn view(&self) -> TerminalV {
        TerminalV { text: self.text@, wait: self.wait }
    }
}

/// The wait after one of `secs`: twice as long, within bounds.
pub open spec fn next_wait(secs: u64) -> u64 {
    if secs * 2 > MAX_WAIT {
        MAX_WAIT
    } else {
        (secs * 2) as u64
    }
}

impl Terminal {
    /// A terminal that has shown nothing.
    pub fn new() -> (r: Terminal)
        ensures
            r@ == (TerminalV { text: Seq::empty(), wait: FIRST_WAIT }),
    {
        Terminal { text: String::new(), wait: FIRST_WAIT }
    }

    /// The shell printed something.
    pub fn print(&mut self, bytes: &[u8])
        ensures
            final(self)@ == (TerminalV {
                text: kept(old(self)@.text + shown_text(lossy(bytes@))),
                ..old(self)@
            }),
    {
        self.text.append(strip_ansi(lossy_text(bytes).as_str()).as_str());
        if byte_len(self.text.as_str()) > SCROLLBACK_CAP as u128 {
            self.text = take_tail(self.text.as_str(), SCROLLBACK_KEEP);
        }
    }

    /// The gateway said something.
    pub fn note(&mut self, text: &str)
        ensures
            final(self)@ == (TerminalV {
                text: old(self)@.text + shown_text(text@),
                ..old(self)@
            }),
    {
        self.text.append(strip_ansi(text).as_str());
    }

    /// The connection stands.
    pub fn connected(&mut self)
        ensures
            final(self)@ == (TerminalV { wait: FIRST_WAIT, ..old(self)@ }),
    {
        self.wait = FIRST_WAIT;
    }

    /// The connection is lost, or could not be made; says how long to wait.
    pub fn lost(&mut self) -> (secs: u64)
        ensures
            secs == old(self)@.wait,
            final(self)@ == (TerminalV { wait: next_wait(old(self)@.wait), ..old(self)@ }),
    {
        let secs: u64 = self.wait;
        self.wait = double_backoff(secs, MAX_WAIT);
        secs
    }
}

// ── Laws ────────────────────────────────────────────────────────────────────

/// What a terminal's output shows holds no control character but line feeds and tabs.
pub proof fn only_text_shows(s: Seq<char>)
    ensures
        forall|i: int| 0 <= i < shown_text(s).len() ==> showable(#[trigger] shown_text(s)[i]),
{
    only_text_shows_from(s, 0);
}

proof fn only_text_shows_from(s: Seq<char>, i: int)
    requires
        0 <= i <= s.len(),
    ensures
        forall|j: int|
            0 <= j < shown_from(s, i).len() ==> showable(#[trigger] shown_from(s, i)[j]),
    decreases s.len() - i,
{
    if i < s.len() {
        past_escape_bounds(s, i);
        let (out, next) = printed(s, i);
        only_text_shows_from(s, next);
        let rest = shown_from(s, next);
        let all = shown_from(s, i);
        assert forall|j: int| 0 <= j < all.len() implies showable(#[trigger] all[j]) by {
            if j < out.len() {
                assert(all[j] == out[j]);
            } else {
                assert(all[j] == rest[j - out.len()]);
            }
        }
    }
}

/// A text of nothing but what can be shown, tabs and line feeds among it, is shown as it
/// is.
pub proof fn plain_text_shows_as_it_is(s: Seq<char>)
    requires
        forall|i: int| 0 <= i < s.len() ==> showable(#[trigger] s[i]),
    ensures
        shown_text(s) == s,
{
    plain_text_shows_from(s, 0);
    assert(s.skip(0) =~= s);
}

proof fn plain_text_shows_from(s: Seq<char>, i: int)
    requires
        0 <= i <= s.len(),
        forall|k: int| 0 <= k < s.len() ==> showable(#[trigger] s[k]),
    ensures
        shown_from(s, i) == s.skip(i),
    decreases s.len() - i,
{
    if i < s.len() {
        assert(showable(s[i]));
        plain_text_shows_from(s, i + 1);
        assert(seq![s[i]] + s.skip(i + 1) =~= s.skip(i));
    } else {
        assert(s.skip(i) =~= Seq::<char>::empty());
    }
}

proof fn tail_fit_fits(s: Seq<char>, max: nat)
    ensures
        byte_count(tail_fit(s, max)) <= max || tail_fit(s, max).len() == 0,
        tail_fit(s, max).len() <= s.len(),
        tail_fit(s, max) == s.skip(s.len() - tail_fit(s, max).len()),
    decreases s.len(),
{
    if s.len() == 0 || byte_count(s) <= max {
        assert(s.skip(0) =~= s);
    } else {
        tail_fit_fits(s.drop_first(), max);
        let t = tail_fit(s, max);
        assert(s.drop_first().skip(s.len() - 1 - t.len()) =~= s.skip(s.len() - t.len()));
    }
}

/// The scrollback stays within its bound, and what is left of it is its end.
pub proof fn scrollback_is_bounded(s: Seq<char>)
    ensures
        byte_count(kept(s)) <= SCROLLBACK_CAP,
        kept(s).len() <= s.len(),
        kept(s) == s.skip(s.len() - kept(s).len()),
{
    tail_fit_fits(s, SCROLLBACK_KEEP as nat);
    assert(s.skip(0) =~= s);
    byte_count_bounds(kept(s));
}

} // verus!
