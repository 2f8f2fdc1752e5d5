//! Text: the string operations that the rest of the library is stated over.
//!
//! A string is its sequence of characters. Each function is given by a
//! specification function on `Seq<char>`, so that contracts elsewhere can be
//! written as equations between sequences.
use vstd::prelude::*;
use vstd::utf8::{encode_utf8, encode_utf8_decode_utf8};

verus! {

/// `String::push` appends one character.
pub assume_specification[ String::push ](s: &mut String, c: char)
    ensures
        final(s)@ == old(s)@.push(c),
;

/// What `str::to_lowercase` returns: the Unicode lower-case mapping of a text.
pub uninterp spec fn lower_case(s: Seq<char>) -> Seq<char>;

/// What `str::to_uppercase` returns: the Unicode upper-case mapping of a text.
pub uninterp spec fn upper_case(s: Seq<char>) -> Seq<char>;

/// Calls `str::to_lowercase`; its result depends on the characters alone.
#[verifier::external_body]
pub(crate) fn to_lower(s: &str) -> (r: String)
    ensures
        r@ == lower_case(s@),
{
    s.to_lowercase()
}

/// Calls `str::to_uppercase`; its result depends on the characters alone.
#[verifier::external_body]
pub(crate) fn to_upper(s: &str) -> (r: String)
    ensures
        r@ == upper_case(s@),
{
    s.to_uppercase()
}

// ── Views of lists ──────────────────────────────────────────────────────────

/// The views of the items of a list, in order.
pub open spec fn views<T: View>(s: Seq<T>) -> Seq<T::V> {
    Seq::new(s.len(), |i: int| s[i]@)
}

pub broadcast proof fn views_push<T: View>(s: Seq<T>, x: T)
    ensures
        #[trigger] views(s.push(x)) == views(s).push(x@),
{
    assert(views(s.push(x)) =~= views(s).push(x@));
}

pub broadcast proof fn views_empty<T: View>()
    ensures
        #[trigger] views(Seq::<T>::empty()) == Seq::<T::V>::empty(),
{
    assert(views(Seq::<T>::empty()) =~= Seq::<T::V>::empty());
}

pub broadcast proof fn views_add<T: View>(a: Seq<T>, b: Seq<T>)
    ensures
        #[trigger] views(a + b) == views(a) + views(b),
{
    assert(views(a + b) =~= views(a) + views(b));
}

// ── Equality, characters ────────────────────────────────────────────────────

/// Whether two texts hold the same characters.
pub fn same(a: &str, b: &str) -> (r: bool)
    ensures
        r == (a@ == b@),
{
    let x = a.as_bytes();
    let y = b.as_bytes();
    proof {
        encode_utf8_decode_utf8(a@);
        encode_utf8_decode_utf8(b@);
    }
    if x.len() != y.len() {
        return false;
    }
    for i in 0..x.len()
        invariant
            x@.len() == y@.len(),
            x@ == encode_utf8(a@),
            y@ == encode_utf8(b@),
            forall|j: int| 0 <= j < i ==> x@[j] == y@[j],
    {
        if x[i] != y[i] {
            return false;
        }
    }
    assert(x@ =~= y@);
    true
}

/// The characters of a text.
pub fn chars_of(s: &str) -> (v: Vec<char>)
    ensures
        v@ == s@,
{
    let mut v: Vec<char> = Vec::new();
    for c in it: s.chars()
        invariant
            v@ == it.seq().take(it.index()),
            it.seq() == s@,
    {
        v.push(c);
    }
    v
}

/// The text made of the characters from `from` up to `to`.
pub fn text_of(v: &Vec<char>, from: usize, to: usize) -> (s: String)
    requires
        from <= to <= v@.len(),
    ensures
        s@ == v@.subrange(from as int, to as int),
{
    let mut s = String::new();
    for i in from..to
        invariant
            from <= to <= v@.len(),
            s@ == v@.subrange(from as int, i as int),
    {
        s.push(v[i]);
        assert(v@.subrange(from as int, i as int).push(v@[i as int]) =~= v@.subrange(
            from as int,
            i as int + 1,
        ));
    }
    s
}

/// A copy of a text.
pub fn copy(s: &str) -> (r: String)
    ensures
        r@ == s@,
{
    s.to_owned()
}

/// `a` followed by `b`.
pub fn cat(a: &str, b: &str) -> (r: String)
    ensures
        r@ == a@ + b@,
{
    let mut r = a.to_owned();
    r.append(b);
    r
}

/// `a`, `b` and `c` in a row.
pub fn cat3(a: &str, b: &str, c: &str) -> (r: String)
    ensures
        r@ == a@ + b@ + c@,
{
    let mut r = a.to_owned();
    r.append(b);
    r.append(c);
    r
}

/// `a` where `b` holds, else nothing.
pub open spec fn given(b: bool, a: Seq<char>) -> Seq<char> {
    if b {
        a
    } else {
        Seq::empty()
    }
}

/// Appends `a` where `b` holds.
pub fn append_given(out: &mut String, b: bool, a: &str)
    ensures
        final(out)@ == old(out)@ + given(b, a@),
{
    if b {
        out.append(a);
    } else {
        assert(old(out)@ + Seq::<char>::empty() =~= old(out)@);
    }
}

// ── Decimal numbers ─────────────────────────────────────────────────────────

/// The decimal digit of a number below ten.
pub open spec fn digit(n: nat) -> char {
    (('0' as u32 + n) as u32) as char
}

/// A natural number in decimal, without leading zeros.
pub open spec fn dec(n: nat) -> Seq<char>
    decreases n,
{
    if n < 10 {
        seq![digit(n)]
    } else {
        dec(n / 10).push(digit(n % 10))
    }
}

/// An integer in decimal, with a minus sign where it is negative.
pub open spec fn dec_int(n: int) -> Seq<char> {
    if n < 0 {
        seq!['-'] + dec((-n) as nat)
    } else {
        dec(n as nat)
    }
}

pub(crate) fn digit_char(d: u8) -> (c: char)
    requires
        d < 10,
    ensures
        c == digit(d as nat),
{
    (48 + d) as char
}

/// A number in decimal.
pub fn decimal(n: u128) -> (s: String)
    ensures
        s@ == dec(n as nat),
    decreases n,
{
    if n < 10 {
        let mut s = String::new();
        s.push(digit_char(n as u8));
        assert(s@ =~= seq![digit(n as nat)]);
        s
    } else {
        let mut s = decimal(n / 10);
        s.push(digit_char((n % 10) as u8));
        s
    }
}

/// An unsigned number in decimal.
pub fn dec_u64(n: u64) -> (s: String)
    ensures
        s@ == dec(n as nat),
{
    decimal(n as u128)
}

/// A count in decimal.
pub fn dec_len(n: usize) -> (s: String)
    ensures
        s@ == dec(n as nat),
{
    decimal(n as u128)
}

/// A signed number in decimal.
pub fn dec_i64(n: i64) -> (s: String)
    ensures
        s@ == dec_int(n as int),
{
    if n < 0 {
        let mut s = String::new();
        s.push('-');
        let m: u128 = (-(n as i128)) as u128;
        s.append(decimal(m).as_str());
        assert(s@ =~= seq!['-'] + dec((-(n as int)) as nat));
        s
    } else {
        decimal(n as u128)
    }
}

// ── White space ─────────────────────────────────────────────────────────────

/// The characters with Unicode's `White_Space` property.
pub open spec fn is_space(c: char) -> bool {
    let n = c as u32;
    (0x9 <= n <= 0xd) || n == 0x20 || n == 0x85 || n == 0xa0 || n == 0x1680 || (0x2000 <= n
        <= 0x200a) || n == 0x2028 || n == 0x2029 || n == 0x202f || n == 0x205f || n == 0x3000
}

/// Whether a character is white space.
pub fn space(c: char) -> (r: bool)
    ensures
        r == is_space(c),
{
    let n: u32 = c as u32;
    (0x9 <= n && n <= 0xd) || n == 0x20 || n == 0x85 || n == 0xa0 || n == 0x1680 || (0x2000 <= n
        && n <= 0x200a) || n == 0x2028 || n == 0x2029 || n == 0x202f || n == 0x205f || n == 0x3000
}

/// A text without its leading white space.
pub open spec fn trim_front(s: Seq<char>) -> Seq<char>
    decreases s.len(),
{
    if s.len() > 0 && is_space(s[0]) {
        trim_front(s.drop_first())
    } else {
        s
    }
}

/// A text without its trailing white space.
pub open spec fn trim_back(s: Seq<char>) -> Seq<char>
    decreases s.len(),
{
    if s.len() > 0 && is_space(s.last()) {
        trim_back(s.drop_last())
    } else {
        s
    }
}

/// A text without white space at either end.
pub open spec fn trimmed(s: Seq<char>) -> Seq<char> {
    trim_back(trim_front(s))
}

/// A text that neither starts nor ends with white space is its own trim.
pub proof fn trimmed_when_tight(s: Seq<char>)
    requires
        s.len() > 0,
        !is_space(s[0]),
        !is_space(s.last()),
    ensures
        trimmed(s) == s,
{
}

proof fn trim_front_starts_tight(s: Seq<char>)
    ensures
        trim_front(s).len() > 0 ==> !is_space(trim_front(s)[0]),
    decreases s.len(),
{
    if s.len() > 0 && is_space(s[0]) {
        trim_front_starts_tight(s.drop_first());
    }
}

proof fn trim_back_ends_tight(s: Seq<char>)
    ensures
        trim_back(s).len() > 0 ==> !is_space(trim_back(s).last()) && trim_back(s)[0] == s[0],
    decreases s.len(),
{
    if s.len() > 0 && is_space(s.last()) {
        trim_back_ends_tight(s.drop_last());
    }
}

/// Trimming twice is trimming once.
pub proof fn trimmed_of_trimmed(s: Seq<char>)
    ensures
        trimmed(trimmed(s)) == trimmed(s),
{
    trim_front_starts_tight(s);
    trim_back_ends_tight(trim_front(s));
    if trimmed(s).len() > 0 {
        trimmed_when_tight(trimmed(s));
    }
}

/// A text without its leading white space.
pub fn trim_start(s: &str) -> (r: &str)
    ensures
        r@ == trim_front(s@),
{
    let v = chars_of(s);
    let n: usize = v.len();
    let mut i: usize = 0;
    assert(v@.subrange(0, n as int) =~= v@);
    while i < n && space(v[i])
        invariant
            i <= n == v@.len(),
            trim_front(v@) == trim_front(v@.subrange(i as int, n as int)),
        decreases n - i,
    {
        assert(v@.subrange(i as int, n as int).drop_first() =~= v@.subrange(
            i as int + 1,
            n as int,
        ));
        i = i + 1;
    }
    s.substring_char(i, n)
}

/// A text without its trailing white space.
pub fn trim_end(s: &str) -> (r: &str)
    ensures
        r@ == trim_back(s@),
{
    let v = chars_of(s);
    let mut n: usize = v.len();
    assert(v@.subrange(0, n as int) =~= v@);
    while n > 0 && space(v[n - 1])
        invariant
            n <= v@.len(),
            trim_back(v@) == trim_back(v@.subrange(0, n as int)),
        decreases n,
    {
        assert(v@.subrange(0, n as int).drop_last() =~= v@.subrange(0, n as int - 1));
        n = n - 1;
    }
    s.substring_char(0, n)
}

/// A text without white space at either end.
pub fn trim(s: &str) -> (r: &str)
    ensures
        r@ == trimmed(s@),
{
    trim_end(trim_start(s))
}

// ── Prefixes, suffixes, parts ───────────────────────────────────────────────

/// Whether a text begins with another.
pub open spec fn begins(s: Seq<char>, p: Seq<char>) -> bool {
    p.len() <= s.len() && s.take(p.len() as int) == p
}

/// Whether a text ends with another.
pub open spec fn ends(s: Seq<char>, p: Seq<char>) -> bool {
    p.len() <= s.len() && s.skip(s.len() - p.len()) == p
}

/// The first `n` characters, or all of them where there are fewer.
pub open spec fn head(s: Seq<char>, n: nat) -> Seq<char> {
    if s.len() <= n {
        s
    } else {
        s.take(n as int)
    }
}

/// Whether `s` begins with `p`.
pub fn starts_with(s: &str, p: &str) -> (r: bool)
    ensures
        r == begins(s@, p@),
{
    let k: usize = p.unicode_len();
    if s.unicode_len() < k {
        return false;
    }
    assert(s@.subrange(0, k as int) =~= s@.take(k as int));
    same(s.substring_char(0, k), p)
}

/// Whether `s` ends with `p`.
pub fn ends_with(s: &str, p: &str) -> (r: bool)
    ensures
        r == ends(s@, p@),
{
    let k: usize = p.unicode_len();
    let n: usize = s.unicode_len();
    if n < k {
        return false;
    }
    assert(s@.subrange(n - k, n as int) =~= s@.skip(n - k));
    same(s.substring_char(n - k, n), p)
}

/// What follows the prefix `p` of `s`, where it has that prefix.
pub fn strip_prefix<'a>(s: &'a str, p: &str) -> (r: Option<&'a str>)
    ensures
        r is Some <==> begins(s@, p@),
        r is Some ==> r->0@ == s@.skip(p@.len() as int),
{
    if starts_with(s, p) {
        let k: usize = p.unicode_len();
        let n: usize = s.unicode_len();
        assert(s@.subrange(k as int, n as int) =~= s@.skip(k as int));
        Some(s.substring_char(k, n))
    } else {
        None
    }
}

/// What stands before the suffix `p` of `s`, where it has that suffix.
pub fn strip_suffix<'a>(s: &'a str, p: &str) -> (r: Option<&'a str>)
    ensures
        r is Some <==> ends(s@, p@),
        r is Some ==> r->0@ == s@.take(s@.len() - p@.len()),
{
    if ends_with(s, p) {
        let k: usize = p.unicode_len();
        let n: usize = s.unicode_len();
        assert(s@.subrange(0, n - k) =~= s@.take(n - k));
        Some(s.substring_char(0, n - k))
    } else {
        None
    }
}

/// The first `n` characters of `s`.
pub fn take_chars(s: &str, n: usize) -> (r: &str)
    ensures
        r@ == head(s@, n as nat),
{
    let len: usize = s.unicode_len();
    if len <= n {
        s
    } else {
        assert(s@.subrange(0, n as int) =~= s@.take(n as int));
        s.substring_char(0, n)
    }
}

/// The place of the first `c` in `s` from `from` on; the length where there is none.
pub open spec fn seek(s: Seq<char>, c: char, from: int) -> int
    decreases s.len() - from,
{
    if 0 <= from < s.len() && s[from] != c {
        seek(s, c, from + 1)
    } else {
        from
    }
}

pub proof fn seek_bounds(s: Seq<char>, c: char, from: int)
    requires
        0 <= from <= s.len(),
    ensures
        from <= seek(s, c, from) <= s.len(),
        seek(s, c, from) < s.len() ==> s[seek(s, c, from)] == c,
        forall|j: int| from <= j < seek(s, c, from) ==> s[j] != c,
    decreases s.len() - from,
{
    if from < s.len() && s[from] != c {
        seek_bounds(s, c, from + 1);
    }
}

/// Finds the first `c` from `from` on.
pub fn find_char(v: &Vec<char>, c: char, from: usize) -> (r: usize)
    requires
        from <= v@.len(),
    ensures
        r == seek(v@, c, from as int),
        from <= r <= v@.len(),
{
    let mut i: usize = from;
    while i < v.len() && v[i] != c
        invariant
            from <= i <= v@.len(),
            seek(v@, c, from as int) == seek(v@, c, i as int),
        decreases v@.len() - i,
    {
        i = i + 1;
    }
    i
}

/// The parts of `s` between the occurrences of `c`; one part where there is none.
pub open spec fn split_at(s: Seq<char>, c: char) -> Seq<Seq<char>>
    decreases s.len(),
    when 0 <= seek(s, c, 0) <= s.len()
    via split_at_decreases
{
    let k = seek(s, c, 0);
    if k < s.len() {
        seq![s.take(k)] + split_at(s.skip(k + 1), c)
    } else {
        seq![s]
    }
}

#[via_fn]
proof fn split_at_decreases(s: Seq<char>, c: char) {
    seek_bounds(s, c, 0);
}


// ── Lines ───────────────────────────────────────────────────────────────────

/// A line without the carriage return that belongs to its line feed.
pub open spec fn without_cr(s: Seq<char>) -> Seq<char> {
    if s.len() > 0 && s.last() == '\r' {
        s.drop_last()
    } else {
        s
    }
}

/// The lines of `s` from `from` on: what stands between the line feeds, where a
/// last line feed starts no further line.
pub open spec fn lines_from(s: Seq<char>, from: int) -> Seq<Seq<char>>
    decreases s.len() - from,
    when 0 <= from <= s.len()
    via lines_from_decreases
{
    let k = seek(s, '\n', from);
    if from >= s.len() {
        Seq::empty()
    } else if k < s.len() {
        seq![without_cr(s.subrange(from, k))] + lines_from(s, k + 1)
    } else {
        seq![s.subrange(from, k)]
    }
}

#[via_fn]
proof fn lines_from_decreases(s: Seq<char>, from: int) {
    seek_bounds(s, '\n', from);
}

/// The lines of a text.
pub open spec fn lines_of(s: Seq<char>) -> Seq<Seq<char>> {
    lines_from(s, 0)
}

/// The lines of a text.
pub fn lines(s: &str) -> (r: Vec<String>)
    ensures
        views(r@) == lines_of(s@),
{
    broadcast use views_push;

    let v = chars_of(s);
    let mut out: Vec<String> = Vec::new();
    let mut from: usize = 0;
    assert(views(out@) =~= Seq::<Seq<char>>::empty());
    assert(views(out@) + lines_from(v@, 0) =~= lines_from(v@, 0));
    while from < v.len()
        invariant
            from <= v@.len(),
            views(out@) + lines_from(v@, from as int) == lines_from(v@, 0),
        decreases v@.len() - from,
    {
        let k: usize = find_char(&v, '\n', from);
        let ghost done = views(out@);
        if k < v.len() {
            let end: usize = if k > from && v[k - 1] == '\r' {
                k - 1
            } else {
                k
            };
            assert(v@.subrange(from as int, end as int) =~= without_cr(
                v@.subrange(from as int, k as int),
            ));
            out.push(text_of(&v, from, end));
            assert(done + (seq![without_cr(v@.subrange(from as int, k as int))] + lines_from(
                v@,
                k + 1,
            )) =~= done.push(without_cr(v@.subrange(from as int, k as int))) + lines_from(
                v@,
                k + 1,
            ));
            from = k + 1;
        } else {
            out.push(text_of(&v, from, k));
            assert(done + seq![v@.subrange(from as int, k as int)] =~= done.push(
                v@.subrange(from as int, k as int),
            ) + Seq::<Seq<char>>::empty());
            from = k;
        }
    }
    assert(views(out@) + Seq::<Seq<char>>::empty() =~= views(out@));
    out
}

/// The texts in a row, with `sep` between neighbours.
pub open spec fn joined(s: Seq<Seq<char>>, sep: Seq<char>) -> Seq<char>
    decreases s.len(),
{
    if s.len() == 0 {
        Seq::empty()
    } else if s.len() == 1 {
        s[0]
    } else {
        joined(s.drop_last(), sep) + sep + s.last()
    }
}

/// Joins texts with `sep` between neighbours.
pub fn join(v: &Vec<String>, sep: &str) -> (r: String)
    ensures
        r@ == joined(views(v@), sep@),
{
    let mut out = String::new();
    for i in 0..v.len()
        invariant
            out@ == joined(views(v@).take(i as int), sep@),
    {
        if i > 0 {
            out.append(sep);
        }
        out.append(v[i].as_str());
        proof {
            let t = views(v@).take(i as int + 1);
            assert(t.drop_last() =~= views(v@).take(i as int));
            if i == 0 {
                assert(views(v@).take(0) =~= Seq::<Seq<char>>::empty());
                assert(Seq::<char>::empty() + v@[0]@ =~= v@[0]@);
            }
        }
    }
    assert(views(v@).take(v@.len() as int) =~= views(v@));
    out
}

// ── Bytes ───────────────────────────────────────────────────────────────────

/// How many bytes UTF-8 takes for a character.
pub open spec fn width(c: char) -> nat {
    let n = c as u32;
    if n < 0x80 {
        1
    } else if n < 0x800 {
        2
    } else if n < 0x10000 {
        3
    } else {
        4
    }
}

/// How many bytes UTF-8 takes for a text.
pub open spec fn byte_count(s: Seq<char>) -> nat
    decreases s.len(),
{
    if s.len() == 0 {
        0
    } else {
        byte_count(s.drop_last()) + width(s.last())
    }
}

/// How many leading characters of `s` fit into `max` bytes.
pub open spec fn fitting(s: Seq<char>, max: nat) -> nat
    decreases s.len(),
{
    if s.len() == 0 || byte_count(s) <= max {
        s.len()
    } else {
        fitting(s.drop_last(), max)
    }
}

/// The longest prefix of `s` that fits into `max` bytes.
pub open spec fn fit(s: Seq<char>, max: nat) -> Seq<char> {
    s.take(fitting(s, max) as int)
}

fn char_width(c: char) -> (w: u8)
    ensures
        w == width(c),
        1 <= w <= 4,
{
    let n: u32 = c as u32;
    if n < 0x80 {
        1
    } else if n < 0x800 {
        2
    } else if n < 0x10000 {
        3
    } else {
        4
    }
}

pub proof fn byte_count_bounds(s: Seq<char>)
    ensures
        s.len() <= byte_count(s) <= 4 * s.len(),
    decreases s.len(),
{
    if s.len() > 0 {
        byte_count_bounds(s.drop_last());
    }
}

pub proof fn byte_count_add(a: Seq<char>, b: Seq<char>)
    ensures
        byte_count(a + b) == byte_count(a) + byte_count(b),
    decreases b.len(),
{
    if b.len() == 0 {
        assert(a + b =~= a);
    } else {
        assert((a + b).drop_last() =~= a + b.drop_last());
        byte_count_add(a, b.drop_last());
    }
}

pub proof fn fitting_bounds(s: Seq<char>, max: nat)
    ensures
        fitting(s, max) <= s.len(),
        byte_count(fit(s, max)) <= max,
        fitting(s, max) < s.len() ==> byte_count(s.take(fitting(s, max) as int + 1)) > max,
    decreases s.len(),
{
    if s.len() == 0 || byte_count(s) <= max {
        assert(s.take(s.len() as int) =~= s);
    } else {
        let t = s.drop_last();
        fitting_bounds(t, max);
        let k = fitting(t, max);
        assert(s.take(k as int) =~= t.take(k as int));
        if k < t.len() {
            assert(s.take(k as int + 1) =~= t.take(k as int + 1));
        } else {
            assert(s.take(k as int + 1) =~= s);
        }
    }
}

/// How many bytes a text takes.
pub fn byte_len(s: &str) -> (n: u128)
    ensures
        n == byte_count(s@),
{
    let v = chars_of(s);
    let mut n: u128 = 0;
    for i in 0..v.len()
        invariant
            n == byte_count(v@.take(i as int)),
            n <= 4 * i,
    {
        n = n + char_width(v[i]) as u128;
        assert(v@.take(i as int + 1).drop_last() =~= v@.take(i as int));
    }
    assert(v@.take(v@.len() as int) =~= v@);
    n
}

/// The longest prefix of `s` that fits into `max` bytes.
pub fn take_bytes(s: &str, max: u64) -> (r: &str)
    ensures
        r@ == fit(s@, max as nat),
{
    let v = chars_of(s);
    let mut n: u128 = 0;
    let mut i: usize = 0;
    assert(v@.take(0).len() == 0);
    while i < v.len() && n + char_width(v[i]) as u128 <= max as u128
        invariant
            i <= v@.len(),
            n == byte_count(v@.take(i as int)),
            n <= max,
        decreases v@.len() - i,
    {
        n = n + char_width(v[i]) as u128;
        assert(v@.take(i as int + 1).drop_last() =~= v@.take(i as int));
        i = i + 1;
    }
    proof {
        fitting_bounds(v@, max as nat);
        let k = fitting(v@, max as nat);
        if i < v.len() {
            assert(v@.take(i as int + 1).drop_last() =~= v@.take(i as int));
        }
        if k < i {
            let a = v@.take(k as int + 1);
            assert(v@.take(i as int) =~= a + v@.subrange(k as int + 1, i as int));
            byte_count_add(a, v@.subrange(k as int + 1, i as int));
        }
        if k > i {
            let a = v@.take(i as int + 1);
            assert(v@.take(k as int) =~= a + v@.subrange(i as int + 1, k as int));
            byte_count_add(a, v@.subrange(i as int + 1, k as int));
        }
        assert(s@.subrange(0, i as int) =~= s@.take(i as int));
    }
    s.substring_char(0, i)
}

/// How many times `c` leads `s`.
pub open spec fn run(s: Seq<char>, c: char) -> nat
    decreases s.len(),
{
    if s.len() > 0 && s[0] == c {
        1 + run(s.drop_first(), c)
    } else {
        0
    }
}

/// Counts the leading `c` of `s`.
pub fn leading(s: &str, c: char) -> (n: usize)
    ensures
        n == run(s@, c),
        n <= s@.len(),
{
    let v = chars_of(s);
    let mut i: usize = 0;
    assert(v@.skip(0) =~= v@);
    while i < v.len() && v[i] == c
        invariant
            i <= v@.len(),
            run(v@, c) == i + run(v@.skip(i as int), c),
        decreases v@.len() - i,
    {
        assert(v@.skip(i as int).drop_first() =~= v@.skip(i as int + 1));
        i = i + 1;
    }
    i
}

/// `s` from its `n`-th character on.
pub fn skip_chars(s: &str, n: usize) -> (r: &str)
    requires
        n <= s@.len(),
    ensures
        r@ == s@.skip(n as int),
{
    let len: usize = s.unicode_len();
    assert(s@.subrange(n as int, len as int) =~= s@.skip(n as int));
    s.substring_char(n, len)
}

// ── Reading numbers ─────────────────────────────────────────────────────────

/// The number that the first `n` decimal digits of `s` write.
pub open spec fn digits_value(s: Seq<char>, n: int) -> Option<nat>
    decreases n,
{
    if n <= 0 {
        Some(0)
    } else {
        match digits_value(s, n - 1) {
            Some(v) => if '0' <= s[n - 1] <= '9' {
                Some(v * 10 + (s[n - 1] as u32 - '0' as u32) as nat)
            } else {
                None
            },
            None => None,
        }
    }
}

/// The digits of a number's text: what follows a leading plus sign.
pub open spec fn digits_of(s: Seq<char>) -> Seq<char> {
    if s.len() > 1 && s[0] == '+' {
        s.skip(1)
    } else {
        s
    }
}

/// The unsigned number that a text writes, where it writes one that fits.
pub open spec fn u64_of(s: Seq<char>) -> Option<u64> {
    let d = digits_of(s);
    if s.len() == 0 {
        None
    } else {
        match digits_value(d, d.len() as int) {
            Some(v) => if v <= u64::MAX {
                Some(v as u64)
            } else {
                None
            },
            None => None,
        }
    }
}

proof fn digits_value_grows(s: Seq<char>, n: int, m: int)
    requires
        0 <= n <= m,
    ensures
        digits_value(s, n) is None ==> digits_value(s, m) is None,
        digits_value(s, m) is Some ==> digits_value(s, n) is Some && digits_value(s, n)->0
            <= digits_value(s, m)->0,
    decreases m - n,
{
    if n < m {
        digits_value_grows(s, n, m - 1);
    }
}

/// Reads an unsigned number.
pub fn parse_u64(s: &str) -> (r: Option<u64>)
    ensures
        r == u64_of(s@),
{
    let v = chars_of(s);
    if v.len() == 0 {
        return None;
    }
    let from: usize = if v.len() > 1 && v[0] == '+' {
        1
    } else {
        0
    };
    let ghost d = digits_of(s@);
    assert(v@.skip(from as int) =~= d);
    let mut n: u64 = 0;
    for i in from..v.len()
        invariant
            v@ == s@,
            v@.len() > 0,
            from <= v@.len(),
            d == digits_of(s@),
            d == v@.skip(from as int),
            digits_value(d, i - from) == Some(n as nat),
    {
        assert(d[i - from] == v@[i as int]);
        let c = v[i];
        proof {
            digits_value_grows(d, i - from + 1, d.len() as int);
        }
        if !('0' <= c && c <= '9') {
            return None;
        }
        let digit: u64 = (c as u32 - '0' as u32) as u64;
        if n > 1844674407370955161 {
            return None;
        }
        if n == 1844674407370955161 && digit > 5 {
            return None;
        }
        n = n * 10 + digit;
    }
    Some(n)
}

// ── Looking for parts ───────────────────────────────────────────────────────

/// The place of the last `c` among the first `n` characters; -1 where there is none.
pub open spec fn last_place(s: Seq<char>, c: char, n: int) -> int
    decreases n,
{
    if n <= 0 {
        -1
    } else if s[n - 1] == c {
        n - 1
    } else {
        last_place(s, c, n - 1)
    }
}

/// What follows the last `c`; all of it where there is none.
pub open spec fn after_last_v(s: Seq<char>, c: char) -> Seq<char> {
    s.skip(last_place(s, c, s.len() as int) + 1)
}

/// What stands before the last `c`, where there is one.
pub open spec fn before_last_v(s: Seq<char>, c: char) -> Option<Seq<char>> {
    let k = last_place(s, c, s.len() as int);
    if k >= 0 {
        Some(s.take(k))
    } else {
        None
    }
}

fn find_last(v: &Vec<char>, c: char) -> (r: Option<usize>)
    ensures
        match r {
            Some(i) => i < v@.len() && i == last_place(v@, c, v@.len() as int),
            None => last_place(v@, c, v@.len() as int) == -1,
        },
{
    let mut n: usize = v.len();
    while n > 0 && v[n - 1] != c
        invariant
            n <= v@.len(),
            last_place(v@, c, v@.len() as int) == last_place(v@, c, n as int),
        decreases n,
    {
        n = n - 1;
    }
    if n > 0 {
        Some(n - 1)
    } else {
        None
    }
}

/// What follows the last `c`; all of it where there is none.
pub fn after_last(s: &str, c: char) -> (r: &str)
    ensures
        r@ == after_last_v(s@, c),
{
    let v = chars_of(s);
    let n: usize = v.len();
    match find_last(&v, c) {
        Some(i) => skip_chars(s, if i < n {
            i + 1
        } else {
            n
        }),
        None => {
            assert(s@.skip(0) =~= s@);
            s
        },
    }
}

/// What stands before the last `c`, where there is one.
pub fn before_last(s: &str, c: char) -> (r: Option<&str>)
    ensures
        r is Some <==> before_last_v(s@, c) is Some,
        r is Some ==> before_last_v(s@, c) == Some(r->0@),
{
    let v = chars_of(s);
    match find_last(&v, c) {
        Some(i) => {
            assert(s@.subrange(0, i as int) =~= s@.take(i as int));
            Some(s.substring_char(0, i))
        },
        None => None,
    }
}

/// What stands before the first `c`; all of it where there is none.
pub open spec fn before_first_v(s: Seq<char>, c: char) -> Seq<char> {
    s.take(seek(s, c, 0))
}

/// What stands before the first `c`; all of it where there is none.
pub fn before_first(s: &str, c: char) -> (r: &str)
    ensures
        r@ == before_first_v(s@, c),
{
    let v = chars_of(s);
    let k: usize = find_char(&v, c, 0);
    assert(s@.subrange(0, k as int) =~= s@.take(k as int));
    s.substring_char(0, k)
}

/// A text without the `p` that it ends with, however often.
pub open spec fn strip_ends(s: Seq<char>, p: Seq<char>) -> Seq<char>
    decreases s.len(),
{
    if p.len() > 0 && ends(s, p) {
        strip_ends(s.take(s.len() - p.len()), p)
    } else {
        s
    }
}

/// A text without the `p` that it ends with, however often.
pub fn trim_end_matches<'a>(s: &'a str, p: &str) -> (r: &'a str)
    ensures
        r@ == strip_ends(s@, p@),
{
    let mut rest = s;
    if p.is_empty() {
        return rest;
    }
    while ends_with(rest, p)
        invariant
            p@.len() > 0,
            strip_ends(s@, p@) == strip_ends(rest@, p@),
        decreases rest@.len(),
    {
        let n: usize = rest.unicode_len() - p.unicode_len();
        assert(rest@.subrange(0, n as int) =~= rest@.take(n as int));
        rest = rest.substring_char(0, n);
    }
    rest
}

/// Whether `p` stands in `s` at `i`.
pub open spec fn stands_at(s: Seq<char>, p: Seq<char>, i: int) -> bool {
    0 <= i && i + p.len() <= s.len() && s.subrange(i, i + p.len()) == p
}

/// The first place of `p` in `s` from `i` on; -1 where there is none.
pub open spec fn text_place(s: Seq<char>, p: Seq<char>, i: int) -> int
    decreases s.len() + 1 - i,
{
    if i < 0 || i + p.len() > s.len() {
        -1
    } else if stands_at(s, p, i) {
        i
    } else {
        text_place(s, p, i + 1)
    }
}

/// Whether `p` stands anywhere in `s`.
pub open spec fn holds_text(s: Seq<char>, p: Seq<char>) -> bool {
    text_place(s, p, 0) >= 0
}

/// The first place of `p` in `s`.
pub fn find_text(s: &str, p: &str) -> (r: Option<usize>)
    ensures
        match r {
            Some(i) => i == text_place(s@, p@, 0) && stands_at(s@, p@, i as int),
            None => text_place(s@, p@, 0) < 0,
        },
{
    let n: usize = s.unicode_len();
    let k: usize = p.unicode_len();
    let mut i: usize = 0;
    while i <= n && k <= n - i
        invariant
            n == s@.len(),
            k == p@.len(),
            i <= n + 1,
            text_place(s@, p@, 0) == text_place(s@, p@, i as int),
        decreases n + 1 - i,
    {
        if same(s.substring_char(i, i + k), p) {
            return Some(i);
        }
        assert(k > 0) by {
            if k == 0 {
                assert(s@.subrange(i as int, i as int) =~= p@);
            }
        }
        i = i + 1;
    }
    None
}

/// Whether `p` stands anywhere in `s`.
pub fn contains(s: &str, p: &str) -> (r: bool)
    ensures
        r == holds_text(s@, p@),
{
    find_text(s, p).is_some()
}

/// `s` with the first `p` replaced by `q`.
pub open spec fn replaced_once(s: Seq<char>, p: Seq<char>, q: Seq<char>) -> Seq<char> {
    let i = text_place(s, p, 0);
    if i >= 0 {
        s.take(i) + q + s.skip(i + p.len())
    } else {
        s
    }
}

/// Replaces the first `p` by `q`.
pub fn replace_once(s: &str, p: &str, q: &str) -> (r: String)
    ensures
        r@ == replaced_once(s@, p@, q@),
{
    match find_text(s, p) {
        Some(i) => {
            let k: usize = p.unicode_len();
            let n: usize = s.unicode_len();
            assert(i + k <= n);
            assert(s@.subrange(0, i as int) =~= s@.take(i as int));
            let mut out = copy(s.substring_char(0, i));
            out.append(q);
            out.append(skip_chars(s, i + k));
            out
        },
        None => copy(s),
    }
}

/// A character in ASCII lower case.
pub open spec fn low_char(c: char) -> char {
    if 'A' <= c <= 'Z' {
        ((c as u32 + 32) as u32) as char
    } else {
        c
    }
}

/// A text in ASCII lower case.
pub open spec fn low_text(s: Seq<char>) -> Seq<char> {
    Seq::new(s.len(), |i: int| low_char(s[i]))
}

fn lower_char(c: char) -> (r: char)
    ensures
        r == low_char(c),
{
    if 'A' <= c && c <= 'Z' {
        (c as u8 + 32) as char
    } else {
        c
    }
}

/// A text in ASCII lower case.
pub fn ascii_lower(s: &str) -> (r: String)
    ensures
        r@ == low_text(s@),
{
    let v = chars_of(s);
    let mut out = String::new();
    for i in 0..v.len()
        invariant
            v@ == s@,
            out@ == low_text(s@).take(i as int),
    {
        out.push(lower_char(v[i]));
        assert(low_text(s@).take(i as int).push(low_text(s@)[i as int]) =~= low_text(s@).take(
            i as int + 1,
        ));
    }
    assert(low_text(s@).take(s@.len() as int) =~= low_text(s@));
    out
}

} // verus!
