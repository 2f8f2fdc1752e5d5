//! Names that a JSON text repeats.
//!
//! A parsed object keeps one value for each name. Where it matters whether a name was there
//! twice, the text is written anew with lists in the place of its objects, so that parsing
//! it loses nothing: `{"a": 1, "a": 2}` becomes `["{", "a", 1, "a", 2]`, and a list gets
//! `"["` for its first item.
use vstd::prelude::*;
use crate::json::{entries, names_differ, parse_json, parsed, put, text_v, Json, JsonV, DEEP};
use crate::text::{chars_of, same, views};

verus! {

broadcast use {
    crate::text::views_push,
    crate::text::views_empty,
    crate::json::entries_empty,
};

// ── Objects as lists ────────────────────────────────────────────────────────

/// Where in a text reading is.
#[derive(Clone, Copy, Debug, PartialEq, Eq, Structural)]
pub struct Scan {
    /// Inside a string.
    pub inside: bool,
    /// Behind a backslash in it.
    pub escaped: bool,
    /// Behind an opening bracket, with nothing behind that yet.
    pub fresh: bool,
}

/// The start of a text.
pub open spec fn at_start() -> Scan {
    Scan { inside: false, escaped: false, fresh: false }
}

/// Whether a character is space between tokens.
pub open spec fn is_space(c: char) -> bool {
    c == ' ' || c == '\t' || c == '\n' || c == '\r'
}

/// What stands for a character outside of strings.
pub open spec fn token(c: char) -> Seq<char> {
    if c == '{' {
        "[\"{\""@
    } else if c == '[' {
        "[\"[\""@
    } else if c == '}' {
        "]"@
    } else if c == ':' {
        ","@
    } else {
        seq![c]
    }
}

/// What is written for a character, and where reading is behind it.
pub open spec fn step_v(st: Scan, c: char) -> (Seq<char>, Scan) {
    if st.inside {
        (
            seq![c],
            Scan {
                inside: st.escaped || c != '"',
                escaped: !st.escaped && c == '\\',
                fresh: false,
            },
        )
    } else if is_space(c) {
        (seq![c], st)
    } else {
        let lead = if st.fresh && c != '}' && c != ']' {
            ","@
        } else {
            Seq::empty()
        };
        (
            lead + token(c),
            Scan { inside: c == '"', escaped: false, fresh: c == '{' || c == '[' },
        )
    }
}

/// Where reading is behind the first `n` characters.
pub open spec fn scanned(s: Seq<char>, n: int) -> Scan
    decreases n,
{
    if n <= 0 {
        at_start()
    } else {
        step_v(scanned(s, n - 1), s[n - 1]).1
    }
}

/// What is written for the first `n` characters.
pub open spec fn listed_upto(s: Seq<char>, n: int) -> Seq<char>
    decreases n,
{
    if n <= 0 {
        Seq::empty()
    } else {
        listed_upto(s, n - 1) + step_v(scanned(s, n - 1), s[n - 1]).0
    }
}

/// A text with lists in the place of its objects.
pub open spec fn listed(s: Seq<char>) -> Seq<char> {
    listed_upto(s, s.len() as int)
}

fn write_token(out: &mut String, c: char)
    ensures
        final(out)@ == old(out)@ + token(c),
{
    if c == '{' {
        out.append("[\"{\"");
    } else if c == '[' {
        out.append("[\"[\"");
    } else if c == '}' {
        out.append("]");
    } else if c == ':' {
        out.append(",");
    } else {
        out.push(c);
        assert(out@ =~= old(out)@ + seq![c]);
    }
}

fn step(st: Scan, c: char, out: &mut String) -> (r: Scan)
    ensures
        final(out)@ == old(out)@ + step_v(st, c).0,
        r == step_v(st, c).1,
{
    if st.inside {
        out.push(c);
        assert(out@ =~= old(out)@ + seq![c]);
        Scan { inside: st.escaped || c != '"', escaped: !st.escaped && c == '\\', fresh: false }
    } else if c == ' ' || c == '\t' || c == '\n' || c == '\r' {
        out.push(c);
        assert(out@ =~= old(out)@ + seq![c]);
        st
    } else {
        if st.fresh && c != '}' && c != ']' {
            out.append(",");
        }
        write_token(out, c);
        assert(out@ =~= old(out)@ + step_v(st, c).0);
        Scan { inside: c == '"', escaped: false, fresh: c == '{' || c == '[' }
    }
}

fn listed_text(text: &str) -> (r: String)
    ensures
        r@ == listed(text@),
{
    let v = chars_of(text);
    let mut out = String::new();
    let mut st = Scan { inside: false, escaped: false, fresh: false };
    for i in 0..v.len()
        invariant
            v@ == text@,
            st == scanned(v@, i as int),
            out@ == listed_upto(v@, i as int),
    {
        st = step(st, v[i], &mut out);
    }
    out
}

// ── And back ────────────────────────────────────────────────────────────────

/// A name.
pub open spec fn name_v(j: JsonV) -> Seq<char> {
    match text_v(j) {
        Some(s) => s,
        None => ""@,
    }
}

/// The value that a value with lists in the place of objects stands for, names that were
/// there twice among it.
pub open spec fn unlisted(j: JsonV, d: nat) -> JsonV
    decreases d,
{
    match j {
        JsonV::Arr(a) => if d == 0 || a.len() == 0 {
            j
        } else if text_v(a[0]) == Some("{"@) {
            JsonV::Obj(
                Seq::new(
                    ((a.len() - 1) / 2) as nat,
                    |i: int| (name_v(a[1 + 2 * i]), unlisted(a[2 + 2 * i], (d - 1) as nat)),
                ),
            )
        } else {
            JsonV::Arr(
                Seq::new((a.len() - 1) as nat, |i: int| unlisted(a[1 + i], (d - 1) as nat)),
            )
        },
        _ => j,
    }
}

/// What a text says, names that it repeats among it.
pub open spec fn spelled(text: Seq<char>) -> Option<JsonV> {
    match parsed(listed(text)) {
        Some(j) => Some(unlisted(j, DEEP as nat)),
        None => None,
    }
}

fn unlist(j: &Json, d: u64) -> (r: Json)
    ensures
        r@ == unlisted(j@, d as nat),
    decreases d,
{
    let arr = match j.as_array() {
        Some(arr) => arr,
        None => {
            return j.copy();
        },
    };
    let ghost a = views(arr@);
    assert(j@ == JsonV::Arr(a));
    if d == 0 || arr.len() == 0 {
        return j.copy();
    }
    assert(a[0] == arr@[0]@);
    let object = match arr[0].as_str() {
        Some(s) => same(s, "{"),
        None => false,
    };
    if object {
        let len: usize = arr.len();
        let n: usize = (len - 1) / 2;
        let ghost want = unlisted(j@, d as nat)->Obj_0;
        let mut e: Vec<(String, Json)> = Vec::new();
        for i in 0..n
            invariant
                d > 0,
                a == views(arr@),
                len == arr@.len(),
                n == (len - 1) / 2,
                want.len() == n,
                forall|k: int|
                    0 <= k < n ==> #[trigger] want[k] == (
                        name_v(a[1 + 2 * k]),
                        unlisted(a[2 + 2 * k], (d - 1) as nat),
                    ),
                entries(e@) =~= want.take(i as int),
        {
            assert(a[1 + 2 * i as int] == arr@[1 + 2 * i as int]@);
            assert(a[2 + 2 * i as int] == arr@[2 + 2 * i as int]@);
            let name = match arr[1 + 2 * i].as_str() {
                Some(s) => s,
                None => "",
            };
            put(&mut e, name, unlist(&arr[2 + 2 * i], d - 1));
            assert(want.take(i as int).push(want[i as int]) =~= want.take(i as int + 1));
        }
        assert(want.take(n as int) =~= want);
        Json::object(e)
    } else {
        let ghost want = unlisted(j@, d as nat)->Arr_0;
        let mut v: Vec<Json> = Vec::new();
        for i in 1..arr.len()
            invariant
                d > 0,
                a == views(arr@),
                want.len() == arr@.len() - 1,
                forall|k: int|
                    0 <= k < want.len() ==> #[trigger] want[k] == unlisted(a[1 + k], (d - 1) as nat),
                views(v@) =~= want.take(i - 1),
        {
            assert(a[i as int] == arr@[i as int]@);
            v.push(unlist(&arr[i], d - 1));
            assert(want.take(i - 1).push(want[i - 1]) =~= want.take(i as int));
        }
        assert(want.take(arr@.len() - 1) =~= want);
        Json::list(v)
    }
}

/// What a text says, names that it repeats among it.
pub(crate) fn spell(text: &str) -> (r: Option<Json>)
    ensures
        r is Some <==> spelled(text@) is Some,
        r is Some ==> spelled(text@) == Some(r->0@),
{
    match parse_json(listed_text(text).as_str()) {
        Some(j) => Some(unlist(&j, DEEP)),
        None => None,
    }
}

// ── Repeated names ──────────────────────────────────────────────────────────

/// How many of the first `n` entries have a name.
pub open spec fn uses(e: Seq<(Seq<char>, JsonV)>, name: Seq<char>, n: int) -> nat
    decreases n,
{
    if n <= 0 {
        0
    } else {
        uses(e, name, n - 1) + if e[n - 1].0 == name {
            1nat
        } else {
            0nat
        }
    }
}

/// Whether a value repeats none of these names.
pub open spec fn clear_of(j: JsonV, names: Seq<Seq<char>>) -> bool {
    match j {
        JsonV::Obj(e) => forall|i: int|
            0 <= i < names.len() ==> uses(e, #[trigger] names[i], e.len() as int) <= 1,
        _ => true,
    }
}

/// Whether no object in a value repeats a name, down to the depth `d`.
pub open spec fn names_once(j: JsonV, d: nat) -> bool
    decreases d,
{
    match j {
        JsonV::Arr(a) => d > 0 ==> forall|i: int|
            0 <= i < a.len() ==> names_once(#[trigger] a[i], (d - 1) as nat),
        JsonV::Obj(e) => names_differ(e) && (d > 0 ==> forall|i: int|
            0 <= i < e.len() ==> names_once((#[trigger] e[i]).1, (d - 1) as nat)),
        _ => true,
    }
}

/// Whether a text repeats no name.
pub open spec fn repeats_nothing(text: Seq<char>) -> bool {
    spelled(text) matches Some(j) && names_once(j, DEEP as nat)
}

/// Whether a value repeats none of these names.
pub(crate) fn clear(j: &Json, names: &Vec<&str>) -> (r: bool)
    ensures
        r == clear_of(j@, views(names@)),
{
    let e = match j.as_object() {
        Some(e) => e,
        None => {
            return true;
        },
    };
    let ghost all = entries(e@);
    let ghost want = views(names@);
    for i in 0..names.len()
        invariant
            all == entries(e@),
            want == views(names@),
            j@ == JsonV::Obj(all),
            forall|k: int| 0 <= k < i ==> uses(all, #[trigger] want[k], all.len() as int) <= 1,
    {
        assert(want[i as int] == names@[i as int]@);
        let mut found: usize = 0;
        for k in 0..e.len()
            invariant
                all == entries(e@),
                found == uses(all, names@[i as int]@, k as int),
                found <= k,
                i < names@.len(),
        {
            assert(all[k as int] == (e@[k as int].0@, e@[k as int].1@));
            if same(e[k].0.as_str(), names[i]) {
                found = found + 1;
            }
        }
        assert(all.len() == e@.len());
        if found > 1 {
            assert(uses(all, want[i as int], all.len() as int) > 1);
            return false;
        }
    }
    true
}

/// Names that differ are used once each.
pub proof fn different_names_are_used_once(e: Seq<(Seq<char>, JsonV)>, name: Seq<char>, n: int)
    requires
        names_differ(e),
        0 <= n <= e.len(),
    ensures
        uses(e, name, n) <= 1,
        uses(e, name, n) == 1 ==> exists|i: int| 0 <= i < n && (#[trigger] e[i]).0 == name,
    decreases n,
{
    if n > 0 {
        different_names_are_used_once(e, name, n - 1);
        if e[n - 1].0 == name && uses(e, name, n - 1) == 1 {
            let i = choose|i: int| 0 <= i < n - 1 && (#[trigger] e[i]).0 == name;
            assert(e[i].0 != e[n - 1].0);
        }
        if e[n - 1].0 != name && uses(e, name, n) == 1 {
            let i = choose|i: int| 0 <= i < n - 1 && (#[trigger] e[i]).0 == name;
            assert(0 <= i < n && e[i].0 == name);
        }
    }
}

} // verus!
