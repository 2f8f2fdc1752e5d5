//! How JSON is written where its letters matter: texts between quotation marks, and
//! objects of a few plain fields in the order in which they are given.
use vstd::prelude::*;
use crate::json::{entries, names_differ, reads_as, to_value, whole, Json, JsonV};
use crate::text::joined;

verus! {

// ── Texts ───────────────────────────────────────────────────────────────────

/// A hexadecimal digit in lower case.
pub open spec fn low_hex(n: int) -> char {
    if n < 10 {
        (('0' as u32 + n) as u32) as char
    } else {
        (('a' as u32 + n - 10) as u32) as char
    }
}

/// A character inside a JSON string.
pub open spec fn escaped(c: char) -> Seq<char> {
    let n = c as u32;
    if c == '"' {
        seq!['\\', '"']
    } else if c == '\\' {
        seq!['\\', '\\']
    } else if n == 8 {
        seq!['\\', 'b']
    } else if n == 9 {
        seq!['\\', 't']
    } else if n == 10 {
        seq!['\\', 'n']
    } else if n == 12 {
        seq!['\\', 'f']
    } else if n == 13 {
        seq!['\\', 'r']
    } else if n < 0x20 {
        seq!['\\', 'u', '0', '0', low_hex((n / 16) as int), low_hex((n % 16) as int)]
    } else {
        seq![c]
    }
}

/// The characters of a text inside a JSON string.
pub open spec fn escaped_text(s: Seq<char>) -> Seq<char>
    decreases s.len(),
{
    if s.len() == 0 {
        Seq::empty()
    } else {
        escaped_text(s.drop_last()) + escaped(s.last())
    }
}

/// A text as a JSON string.
pub open spec fn quoted(s: Seq<char>) -> Seq<char> {
    (seq!['"'] + escaped_text(s)).push('"')
}

// ── Objects ─────────────────────────────────────────────────────────────────

/// A truth value as JSON writes it.
pub open spec fn truth(b: bool) -> Seq<char> {
    if b {
        "true"@
    } else {
        "false"@
    }
}

/// Whether a value is a text, a truth value or a whole number.
pub open spec fn scalar(j: JsonV) -> bool {
    match j {
        JsonV::Str(_) => true,
        JsonV::Bool(_) => true,
        JsonV::Num(n) => whole(n),
        _ => false,
    }
}

/// A text, a truth value or a whole number as JSON writes it.
pub open spec fn scalar_text(j: JsonV) -> Seq<char> {
    match j {
        JsonV::Str(s) => quoted(s),
        JsonV::Bool(b) => truth(b),
        JsonV::Num(n) => n.shown,
        _ => Seq::empty(),
    }
}

/// A field as JSON writes it.
pub open spec fn field_text(f: (Seq<char>, JsonV)) -> Seq<char> {
    quoted(f.0) + ":"@ + scalar_text(f.1)
}

/// The text of an object on one line, without spaces.
pub open spec fn object_text(e: Seq<(Seq<char>, JsonV)>) -> Seq<char> {
    "{"@ + joined(e.map_values(|f: (Seq<char>, JsonV)| field_text(f)), ","@) + "}"@
}

/// Writes an object's fields in their order with `serde::Serializer::collect_map` on a
/// `serde_json::Serializer`: without spaces, each name quoted, a colon behind it and commas
/// between the fields. `serde_json::from_str` reads the same object back.
#[verifier::external_body]
pub(crate) fn print_fields(e: &Vec<(String, Json)>) -> (r: String)
    requires
        names_differ(entries(e@)),
        forall|i: int| 0 <= i < e@.len() ==> scalar((#[trigger] entries(e@)[i]).1),
    ensures
        r@ == object_text(entries(e@)),
        reads_as(r@, JsonV::Obj(entries(e@))),
{
    let mut out: Vec<u8> = Vec::new();
    let fields = e.iter().map(|(k, v)| (k, to_value(v)));
    let done = serde::Serializer::collect_map(&mut serde_json::Serializer::new(&mut out), fields);
    match done {
        Ok(()) => String::from_utf8(out).unwrap_or_default(),
        Err(_) => String::new(),
    }
}

// ── Laws ────────────────────────────────────────────────────────────────────

/// Whether a character stands as it is inside a JSON string.
pub open spec fn harmless(c: char) -> bool {
    c as u32 >= 0x20
}

/// A quoted text holds no control character, so it is always one line.
pub proof fn quoted_texts_are_one_line(s: Seq<char>)
    ensures
        forall|i: int| 0 <= i < quoted(s).len() ==> harmless(#[trigger] quoted(s)[i]),
{
    escaped_text_is_harmless(s);
    let q = quoted(s);
    let e = escaped_text(s);
    assert forall|i: int| 0 <= i < q.len() implies harmless(#[trigger] q[i]) by {
        if 0 < i < q.len() - 1 {
            assert(q[i] == e[i - 1]);
        }
    }
}

proof fn escaped_text_is_harmless(s: Seq<char>)
    ensures
        forall|i: int| 0 <= i < escaped_text(s).len() ==> harmless(#[trigger] escaped_text(s)[i]),
    decreases s.len(),
{
    if s.len() > 0 {
        escaped_text_is_harmless(s.drop_last());
        let a = escaped_text(s.drop_last());
        let b = escaped(s.last());
        let e = escaped_text(s);
        let n = s.last() as u32;
        if n < 0x20 {
            assert(low_hex((n / 16) as int) as u32 >= 0x20);
            assert(low_hex((n % 16) as int) as u32 >= 0x20);
        }
        assert forall|i: int| 0 <= i < e.len() implies harmless(#[trigger] e[i]) by {
            if i < a.len() {
                assert(e[i] == a[i]);
            } else {
                assert(e[i] == b[i - a.len()]);
            }
        }
    }
}

proof fn escaping_from_the_front(s: Seq<char>)
    requires
        s.len() > 0,
    ensures
        escaped_text(s) == escaped(s[0]) + escaped_text(s.skip(1)),
    decreases s.len(),
{
    if s.len() == 1 {
        assert(s.drop_last() =~= Seq::<char>::empty());
        assert(s.skip(1) =~= Seq::<char>::empty());
        assert(escaped_text(s) =~= escaped(s[0]) + escaped_text(s.skip(1)));
    } else {
        let d = s.drop_last();
        escaping_from_the_front(d);
        assert(d.skip(1) =~= s.skip(1).drop_last());
        assert(s.skip(1).last() == s.last());
        assert(escaped_text(s) =~= escaped(s[0]) + escaped_text(s.skip(1)));
    }
}

proof fn one_hex_digit(a: int, b: int)
    requires
        0 <= a < 16,
        0 <= b < 16,
        low_hex(a) == low_hex(b),
    ensures
        a == b,
{
    assert(low_hex(a) as u32 == if a < 10 {
        '0' as u32 + a
    } else {
        'a' as u32 + a - 10
    });
    assert(low_hex(b) as u32 == if b < 10 {
        '0' as u32 + b
    } else {
        'a' as u32 + b - 10
    });
}

/// The front of what is written tells the first character.
proof fn one_first_character(c: char, d: char, x: Seq<char>, y: Seq<char>)
    requires
        escaped(c) + x == escaped(d) + y,
    ensures
        c == d,
        x == y,
{
    let p = escaped(c) + x;
    let q = escaped(d) + y;
    assert(p[0] == escaped(c)[0] && q[0] == escaped(d)[0]);
    if escaped(c).len() > 1 && escaped(d).len() > 1 {
        assert(p[1] == escaped(c)[1] && q[1] == escaped(d)[1]);
        if escaped(c).len() == 6 && escaped(d).len() == 6 {
            assert(p[4] == escaped(c)[4] && q[4] == escaped(d)[4]);
            assert(p[5] == escaped(c)[5] && q[5] == escaped(d)[5]);
            let (m, n) = (c as u32, d as u32);
            one_hex_digit((m / 16) as int, (n / 16) as int);
            one_hex_digit((m % 16) as int, (n % 16) as int);
            assert(m == n);
        }
    }
    assert(c == d);
    assert(x =~= p.skip(escaped(c).len() as int));
    assert(y =~= q.skip(escaped(d).len() as int));
}

proof fn one_escaped_text(s: Seq<char>, t: Seq<char>)
    requires
        escaped_text(s) == escaped_text(t),
    ensures
        s == t,
    decreases s.len(),
{
    if s.len() > 0 {
        escaping_from_the_front(s);
    }
    if t.len() > 0 {
        escaping_from_the_front(t);
    }
    if s.len() > 0 && t.len() > 0 {
        one_first_character(s[0], t[0], escaped_text(s.skip(1)), escaped_text(t.skip(1)));
        one_escaped_text(s.skip(1), t.skip(1));
        assert(s =~= seq![s[0]] + s.skip(1));
        assert(t =~= seq![t[0]] + t.skip(1));
    } else if s.len() > 0 {
        assert(escaped(s[0]).len() > 0);
    } else if t.len() > 0 {
        assert(escaped(t[0]).len() > 0);
    } else {
        assert(s =~= t);
    }
}

/// Two texts are never written alike: what is sent tells what was said.
pub proof fn quoting_loses_nothing(s: Seq<char>, t: Seq<char>)
    requires
        quoted(s) == quoted(t),
    ensures
        s == t,
{
    let (p, q) = (quoted(s), quoted(t));
    assert(p.len() == escaped_text(s).len() + 2);
    assert(escaped_text(s) =~= p.subrange(1, p.len() - 1));
    assert(escaped_text(t) =~= q.subrange(1, q.len() - 1));
    one_escaped_text(s, t);
}

/// Whether a character is written as it is.
pub open spec fn unmarked(c: char) -> bool {
    harmless(c) && c != '"' && c != '\\'
}

/// A text without quotation marks, backslashes and control characters is only put between
/// quotation marks.
pub proof fn unmarked_texts_stay(s: Seq<char>)
    requires
        forall|i: int| 0 <= i < s.len() ==> unmarked(#[trigger] s[i]),
    ensures
        quoted(s) == (seq!['"'] + s).push('"'),
{
    unmarked_characters_stay(s);
}

proof fn unmarked_characters_stay(s: Seq<char>)
    requires
        forall|i: int| 0 <= i < s.len() ==> unmarked(#[trigger] s[i]),
    ensures
        escaped_text(s) == s,
    decreases s.len(),
{
    if s.len() > 0 {
        assert(unmarked(s.last()));
        unmarked_characters_stay(s.drop_last());
        assert(s.drop_last() + seq![s.last()] =~= s);
    } else {
        assert(s =~= Seq::<char>::empty());
    }
}

} // verus!
