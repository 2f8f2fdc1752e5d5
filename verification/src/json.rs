//! JSON values as the library reads and builds them.
//!
//! `serde_json` parses and prints; in between a value is a [`Json`], whose model
//! is a [`JsonV`]. A number keeps the readings that the shell takes of one: as an
//! integer, as printed, and rounded to one or two decimals.
use serde_json::Value;
use vstd::prelude::*;
use crate::decimals::{one_decimal, two_decimals};
use crate::floats::{exactly, one, over_v, Float, FloatV, Width};
use crate::repeats::repeats_nothing;
use crate::text::{cat, dec, dec_int, dec_u64, decimal, digit, same, views};

verus! {

broadcast use crate::text::views_push;

/// `serde_json::Value`, carried between the parser, the printer and [`Json`].
#[verifier::external_type_specification]
#[verifier::external_body]
pub struct ExValue(Value);

/// A number of a JSON text.
#[derive(Debug, PartialEq)]
pub struct Num {
    /// The number as an unsigned integer, where it is one.
    pub uint: Option<u64>,
    /// The number as a signed integer, where it is one.
    pub int: Option<i64>,
    /// The number as JSON prints it.
    pub shown: String,
    /// The number with one decimal.
    pub tenths: String,
    /// The number with two decimals.
    pub hundredths: String,
}

/// The model of a [`Num`].
pub struct NumV {
    pub uint: Option<u64>,
    pub int: Option<i64>,
    pub shown: Seq<char>,
    pub tenths: Seq<char>,
    pub hundredths: Seq<char>,
}

impl View for Num {
    type V = NumV;

    open spec fn view(&self) -> NumV {
        NumV {
            uint: self.uint,
            int: self.int,
            shown: self.shown@,
            tenths: self.tenths@,
            hundredths: self.hundredths@,
        }
    }
}

impl Num {
    /// A copy of the number.
    pub fn copy(&self) -> (r: Num)
        ensures
            r@ == self@,
    {
        Num {
            uint: self.uint,
            int: self.int,
            shown: self.shown.clone(),
            tenths: self.tenths.clone(),
            hundredths: self.hundredths.clone(),
        }
    }
}

/// A JSON value. An object's entries stand in the order in which they are walked.
#[derive(Debug, PartialEq)]
pub enum Json {
    Null,
    Bool(bool),
    Num(Num),
    Str(String),
    Arr(Vec<Json>),
    Obj(Vec<(String, Json)>),
}

/// The model of a [`Json`].
pub enum JsonV {
    Null,
    Bool(bool),
    Num(NumV),
    Str(Seq<char>),
    Arr(Seq<JsonV>),
    Obj(Seq<(Seq<char>, JsonV)>),
}

/// The model of a value.
pub open spec fn model(j: Json) -> JsonV
    decreases j,
{
    match j {
        Json::Null => JsonV::Null,
        Json::Bool(b) => JsonV::Bool(b),
        Json::Num(n) => JsonV::Num(n@),
        Json::Str(s) => JsonV::Str(s@),
        Json::Arr(v) => JsonV::Arr(
            Seq::new(
                v@.len(),
                |i: int|
                    if 0 <= i < v@.len() {
                        model(v@[i])
                    } else {
                        JsonV::Null
                    },
            ),
        ),
        Json::Obj(v) => JsonV::Obj(
            Seq::new(
                v@.len(),
                |i: int|
                    if 0 <= i < v@.len() {
                        (v@[i].0@, model(v@[i].1))
                    } else {
                        (Seq::empty(), JsonV::Null)
                    },
            ),
        ),
    }
}

impl View for Json {
    type V = JsonV;

    open spec fn view(&self) -> JsonV {
        model(*self)
    }
}

/// The entries of an object.
pub open spec fn entries(v: Seq<(String, Json)>) -> Seq<(Seq<char>, JsonV)> {
    Seq::new(v.len(), |i: int| (v[i].0@, v[i].1@))
}

pub proof fn arr_view(v: Vec<Json>)
    ensures
        Json::Arr(v)@ == JsonV::Arr(views(v@)),
{
    let a = Json::Arr(v)@->Arr_0;
    assert(a.len() == v@.len());
    assert forall|i: int| 0 <= i < v@.len() implies a[i] == views(v@)[i] by {
        assert(a[i] == model(v@[i]));
    }
    assert(a =~= views(v@));
}

pub proof fn obj_view(v: Vec<(String, Json)>)
    ensures
        Json::Obj(v)@ == JsonV::Obj(entries(v@)),
{
    assert(Json::Obj(v)@->Obj_0 =~= entries(v@));
}

// ── Reading ─────────────────────────────────────────────────────────────────

/// The first entry named `k`, looked for from `from` on.
pub open spec fn entry(e: Seq<(Seq<char>, JsonV)>, k: Seq<char>, from: int) -> Option<JsonV>
    decreases e.len() - from,
{
    if 0 <= from < e.len() {
        if e[from].0 == k {
            Some(e[from].1)
        } else {
            entry(e, k, from + 1)
        }
    } else {
        None
    }
}

/// The field `k` of an object; nothing of any other value.
pub open spec fn field(j: JsonV, k: Seq<char>) -> Option<JsonV> {
    match j {
        JsonV::Obj(e) => entry(e, k, 0),
        _ => None,
    }
}

pub open spec fn text_v(j: JsonV) -> Option<Seq<char>> {
    match j {
        JsonV::Str(s) => Some(s),
        _ => None,
    }
}

pub open spec fn flag_v(j: JsonV) -> Option<bool> {
    match j {
        JsonV::Bool(b) => Some(b),
        _ => None,
    }
}

pub open spec fn num_v(j: JsonV) -> Option<NumV> {
    match j {
        JsonV::Num(n) => Some(n),
        _ => None,
    }
}

pub open spec fn uint_v(j: JsonV) -> Option<u64> {
    match j {
        JsonV::Num(n) => n.uint,
        _ => None,
    }
}

pub open spec fn int_v(j: JsonV) -> Option<i64> {
    match j {
        JsonV::Num(n) => n.int,
        _ => None,
    }
}

pub open spec fn items_v(j: JsonV) -> Option<Seq<JsonV>> {
    match j {
        JsonV::Arr(a) => Some(a),
        _ => None,
    }
}

pub open spec fn entries_v(j: JsonV) -> Option<Seq<(Seq<char>, JsonV)>> {
    match j {
        JsonV::Obj(e) => Some(e),
        _ => None,
    }
}

/// The field `k` as a text.
pub open spec fn text_at(j: JsonV, k: Seq<char>) -> Option<Seq<char>> {
    match field(j, k) {
        Some(x) => text_v(x),
        None => None,
    }
}

/// The field `k` as a text, or `d`.
pub open spec fn text_or(j: JsonV, k: Seq<char>, d: Seq<char>) -> Seq<char> {
    match text_at(j, k) {
        Some(s) => s,
        None => d,
    }
}

/// The field `k` as a truth value.
pub open spec fn flag_at(j: JsonV, k: Seq<char>) -> Option<bool> {
    match field(j, k) {
        Some(x) => flag_v(x),
        None => None,
    }
}

/// Whether the field `k` is `true`.
pub open spec fn flagged(j: JsonV, k: Seq<char>) -> bool {
    flag_at(j, k) == Some(true)
}

/// The field `k` as a number.
pub open spec fn num_at(j: JsonV, k: Seq<char>) -> Option<NumV> {
    match field(j, k) {
        Some(x) => num_v(x),
        None => None,
    }
}

/// The field `k` as an unsigned integer.
pub open spec fn uint_at(j: JsonV, k: Seq<char>) -> Option<u64> {
    match field(j, k) {
        Some(x) => uint_v(x),
        None => None,
    }
}

/// The field `k` as an unsigned integer, or `d`.
pub open spec fn uint_or(j: JsonV, k: Seq<char>, d: u64) -> u64 {
    match uint_at(j, k) {
        Some(n) => n,
        None => d,
    }
}

/// The field `k` as a signed integer.
pub open spec fn int_at(j: JsonV, k: Seq<char>) -> Option<i64> {
    match field(j, k) {
        Some(x) => int_v(x),
        None => None,
    }
}

/// The field `k` as a signed integer, or `d`.
pub open spec fn int_or(j: JsonV, k: Seq<char>, d: i64) -> i64 {
    match int_at(j, k) {
        Some(n) => n,
        None => d,
    }
}

/// The field `k` as an array.
pub open spec fn items_at(j: JsonV, k: Seq<char>) -> Option<Seq<JsonV>> {
    match field(j, k) {
        Some(x) => items_v(x),
        None => None,
    }
}

/// The items of the field `k`; none where it is no array.
pub open spec fn items_or_none(j: JsonV, k: Seq<char>) -> Seq<JsonV> {
    match items_at(j, k) {
        Some(a) => a,
        None => Seq::empty(),
    }
}

/// The items of a list; none where it is no list.
pub open spec fn list_v(j: JsonV) -> Seq<JsonV> {
    match items_v(j) {
        Some(a) => a,
        None => Seq::empty(),
    }
}

/// The field `k` as a flag, or `d`.
pub open spec fn flag_or(j: JsonV, k: Seq<char>, d: bool) -> bool {
    match flag_at(j, k) {
        Some(b) => b,
        None => d,
    }
}

impl Json {
    /// The items of a list; none where it is no list.
    pub fn items(&self) -> (r: &[Json])
        ensures
            views(r@) == list_v(self@),
    {
        match self.as_array() {
            Some(v) => v.as_slice(),
            None => {
                let none: &[Json] = &[];
                assert(views(none@) =~= Seq::<JsonV>::empty());
                none
            },
        }
    }

    /// The field `key` as a flag, or `default`.
    pub fn bool_or(&self, key: &str, default: bool) -> (r: bool)
        ensures
            r == flag_or(self@, key@, default),
    {
        match self.bool_at(key) {
            Some(b) => b,
            None => default,
        }
    }

    /// The field `key` of an object.
    pub fn get(&self, key: &str) -> (r: Option<&Json>)
        ensures
            r is Some <==> field(self@, key@) is Some,
            r is Some ==> field(self@, key@) == Some(r->0@),
    {
        match self {
            Json::Obj(v) => {
                proof {
                    obj_view(*v);
                }
                for i in 0..v.len()
                    invariant
                        self@ == JsonV::Obj(entries(v@)),
                        field(self@, key@) == entry(entries(v@), key@, i as int),
                {
                    if same(v[i].0.as_str(), key) {
                        return Some(&v[i].1);
                    }
                }
                None
            },
            _ => None,
        }
    }

    pub fn as_str(&self) -> (r: Option<&str>)
        ensures
            r is Some <==> text_v(self@) is Some,
            r is Some ==> text_v(self@) == Some(r->0@),
    {
        match self {
            Json::Str(s) => Some(s.as_str()),
            _ => None,
        }
    }

    pub fn as_bool(&self) -> (r: Option<bool>)
        ensures
            r == flag_v(self@),
    {
        match self {
            Json::Bool(b) => Some(*b),
            _ => None,
        }
    }

    pub fn as_num(&self) -> (r: Option<&Num>)
        ensures
            r is Some <==> num_v(self@) is Some,
            r is Some ==> num_v(self@) == Some(r->0@),
    {
        match self {
            Json::Num(n) => Some(n),
            _ => None,
        }
    }

    pub fn as_u64(&self) -> (r: Option<u64>)
        ensures
            r == uint_v(self@),
    {
        match self {
            Json::Num(n) => n.uint,
            _ => None,
        }
    }

    pub fn as_i64(&self) -> (r: Option<i64>)
        ensures
            r == int_v(self@),
    {
        match self {
            Json::Num(n) => n.int,
            _ => None,
        }
    }

    pub fn as_array(&self) -> (r: Option<&Vec<Json>>)
        ensures
            r is Some <==> items_v(self@) is Some,
            r is Some ==> items_v(self@) == Some(views(r->0@)),
    {
        match self {
            Json::Arr(v) => {
                proof {
                    arr_view(*v);
                }
                Some(v)
            },
            _ => None,
        }
    }

    pub fn as_object(&self) -> (r: Option<&Vec<(String, Json)>>)
        ensures
            r is Some <==> entries_v(self@) is Some,
            r is Some ==> entries_v(self@) == Some(entries(r->0@)),
    {
        match self {
            Json::Obj(v) => {
                proof {
                    obj_view(*v);
                }
                Some(v)
            },
            _ => None,
        }
    }

    /// The field `key` as a text.
    pub fn str_at(&self, key: &str) -> (r: Option<&str>)
        ensures
            r is Some <==> text_at(self@, key@) is Some,
            r is Some ==> text_at(self@, key@) == Some(r->0@),
    {
        match self.get(key) {
            Some(x) => x.as_str(),
            None => None,
        }
    }

    /// The field `key` as a text, or `default`.
    pub fn str_or(&self, key: &str, default: &str) -> (r: String)
        ensures
            r@ == text_or(self@, key@, default@),
    {
        match self.str_at(key) {
            Some(s) => s.to_owned(),
            None => default.to_owned(),
        }
    }

    /// The field `key` as a truth value.
    pub fn bool_at(&self, key: &str) -> (r: Option<bool>)
        ensures
            r == flag_at(self@, key@),
    {
        match self.get(key) {
            Some(x) => x.as_bool(),
            None => None,
        }
    }

    /// The field `key` as a number.
    pub fn num_at(&self, key: &str) -> (r: Option<&Num>)
        ensures
            r is Some <==> num_at(self@, key@) is Some,
            r is Some ==> num_at(self@, key@) == Some(r->0@),
    {
        match self.get(key) {
            Some(x) => x.as_num(),
            None => None,
        }
    }

    /// The field `key` as an unsigned integer.
    pub fn u64_at(&self, key: &str) -> (r: Option<u64>)
        ensures
            r == uint_at(self@, key@),
    {
        match self.get(key) {
            Some(x) => x.as_u64(),
            None => None,
        }
    }

    /// The field `key` as an unsigned integer, or `default`.
    pub fn u64_or(&self, key: &str, default: u64) -> (r: u64)
        ensures
            r == uint_or(self@, key@, default),
    {
        match self.u64_at(key) {
            Some(n) => n,
            None => default,
        }
    }

    /// The field `key` as a signed integer.
    pub fn i64_at(&self, key: &str) -> (r: Option<i64>)
        ensures
            r == int_at(self@, key@),
    {
        match self.get(key) {
            Some(x) => x.as_i64(),
            None => None,
        }
    }

    /// The field `key` as a signed integer, or `default`.
    pub fn i64_or(&self, key: &str, default: i64) -> (r: i64)
        ensures
            r == int_or(self@, key@, default),
    {
        match self.i64_at(key) {
            Some(n) => n,
            None => default,
        }
    }

    /// The field `key` as an array.
    pub fn arr_at(&self, key: &str) -> (r: Option<&Vec<Json>>)
        ensures
            r is Some <==> items_at(self@, key@) is Some,
            r is Some ==> items_at(self@, key@) == Some(views(r->0@)),
    {
        match self.get(key) {
            Some(x) => x.as_array(),
            None => None,
        }
    }

    /// The items of the field `key`; none where it is no array.
    pub fn items_at(&self, key: &str) -> (r: &[Json])
        ensures
            views(r@) == items_or_none(self@, key@),
    {
        match self.arr_at(key) {
            Some(v) => v.as_slice(),
            None => {
                let none: &[Json] = &[];
                assert(views(none@) =~= Seq::<JsonV>::empty());
                none
            },
        }
    }

    /// A copy of the value.
    pub fn copy(&self) -> (r: Json)
        ensures
            r@ == self@,
        decreases self,
    {
        match self {
            Json::Null => Json::Null,
            Json::Bool(b) => Json::Bool(*b),
            Json::Num(n) => Json::Num(n.copy()),
            Json::Str(s) => Json::Str(s.clone()),
            Json::Arr(v) => {
                let mut out: Vec<Json> = Vec::new();
                for i in 0..v.len()
                    invariant
                        self is Arr && self->Arr_0 == *v,
                        views(out@) == views(v@).take(i as int),
                {
                    assert(decreases_to!(*v => v[i as int]));
                    out.push(v[i].copy());
                    assert(views(v@).take(i as int).push(v@[i as int]@) =~= views(v@).take(
                        i as int + 1,
                    ));
                }
                proof {
                    assert(views(v@).take(v@.len() as int) =~= views(v@));
                    arr_view(*v);
                    arr_view(out);
                }
                Json::Arr(out)
            },
            Json::Obj(v) => {
                let mut out: Vec<(String, Json)> = Vec::new();
                for i in 0..v.len()
                    invariant
                        self is Obj && self->Obj_0 == *v,
                        entries(out@) == entries(v@).take(i as int),
                {
                    assert(decreases_to!(*v => v[i as int]));
                    let k = v[i].0.clone();
                    let x = v[i].1.copy();
                    let ghost done = entries(out@);
                    out.push((k, x));
                    assert(entries(out@) =~= done.push((k@, x@)));
                    assert(done.push(entries(v@)[i as int]) =~= entries(v@).take(i as int + 1));
                }
                proof {
                    assert(entries(v@).take(v@.len() as int) =~= entries(v@));
                    obj_view(*v);
                    obj_view(out);
                }
                Json::Obj(out)
            },
        }
    }
}

// ── Building ────────────────────────────────────────────────────────────────

/// An unsigned integer as a JSON number.
pub open spec fn uint_num(n: u64) -> NumV {
    NumV {
        uint: Some(n),
        int: if n <= i64::MAX {
            Some(n as i64)
        } else {
            None
        },
        shown: dec(n as nat),
        tenths: dec(n as nat) + ".0"@,
        hundredths: dec(n as nat) + ".00"@,
    }
}

/// An unsigned integer as a JSON value.
pub open spec fn uint_json(n: u64) -> JsonV {
    JsonV::Num(uint_num(n))
}

/// The decimals of a number of thousandths: as many digits as it takes, one at least.
pub open spec fn decimals_v(f: nat) -> Seq<char> {
    if f % 100 == 0 {
        seq![digit(f / 100)]
    } else if f % 10 == 0 {
        seq![digit(f / 100), digit((f / 10) % 10)]
    } else {
        seq![digit(f / 100), digit((f / 10) % 10), digit(f % 10)]
    }
}

/// `m` over `unit`, rounded to the nearest; a tie goes to the even neighbour.
pub open spec fn rounded(m: nat, unit: nat) -> nat {
    let q = m / unit;
    let r = m % unit;
    if 2 * r > unit || (2 * r == unit && q % 2 == 1) {
        q + 1
    } else {
        q
    }
}

/// The sign of a number of thousandths.
pub open spec fn sign_v(m: int) -> Seq<char> {
    if m < 0 {
        "-"@
    } else {
        ""@
    }
}

/// The size of a number.
pub open spec fn size_v(m: int) -> nat {
    if m < 0 {
        (-m) as nat
    } else {
        m as nat
    }
}

/// The double nearest to a number of thousandths.
pub open spec fn milli_v(m: int) -> FloatV {
    over_v(
        FloatV::Fin { neg: m < 0, units: size_v(m) * one() },
        exactly(1000),
        Width::Double,
    )
}

/// A number of thousandths as JSON prints it.
pub open spec fn milli_text(m: int) -> Seq<char> {
    sign_v(m) + dec(size_v(m) / 1000) + "."@ + decimals_v(size_v(m) % 1000)
}

/// A number of thousandths as a JSON value: no integer, but a number with a point.
pub open spec fn milli_json(m: int) -> JsonV {
    JsonV::Num(
        NumV {
            uint: None,
            int: None,
            shown: milli_text(m),
            tenths: one_decimal(milli_v(m)),
            hundredths: two_decimals(milli_v(m)),
        },
    )
}

/// `m` over `unit`, rounded to the nearest; a tie goes to the even neighbour.
pub fn round_half_even(m: u128, unit: u128) -> (r: u128)
    requires
        0 < unit <= 0x1_0000_0000_0000_0000,
    ensures
        r == rounded(m as nat, unit as nat),
{
    let q: u128 = m / unit;
    let r: u128 = m % unit;
    proof {
        assert(q <= m) by (nonlinear_arith)
            requires
                q == m / unit,
                unit > 0,
        ;
        assert(q == m ==> unit == 1 || m == 0) by (nonlinear_arith)
            requires
                q == m / unit,
                unit > 0,
        ;
        assert(unit == 1 ==> r == 0) by (nonlinear_arith)
            requires
                r == m % unit,
                unit > 0,
        ;
    }
    if 2 * r > unit || (2 * r == unit && q % 2 == 1) {
        q + 1
    } else {
        q
    }
}

fn sign_of(m: i32) -> (r: &'static str)
    ensures
        r@ == sign_v(m as int),
{
    if m < 0 {
        "-"
    } else {
        ""
    }
}

fn size_of(m: i32) -> (r: u32)
    ensures
        r == size_v(m as int),
{
    if m < 0 {
        (-(m as i64)) as u32
    } else {
        m as u32
    }
}

fn decimals(f: u128) -> (r: String)
    requires
        f < 1000,
    ensures
        r@ == decimals_v(f as nat),
{
    let mut out = decimal(f / 100);
    if f % 100 != 0 {
        out.append(decimal((f / 10) % 10).as_str());
        if f % 10 != 0 {
            out.append(decimal(f % 10).as_str());
        }
    }
    assert(out@ =~= decimals_v(f as nat));
    out
}

impl Json {
    /// A number of thousandths.
    pub fn milli(m: i32) -> (r: Json)
        ensures
            r@ == milli_json(m as int),
    {
        let n: u32 = size_of(m);
        let mut shown = sign_of(m).to_owned();
        shown.append(decimal((n / 1000) as u128).as_str());
        shown.append(".");
        shown.append(decimals((n % 1000) as u128).as_str());
        let f = Float::thousandths(m < 0, n);
        Json::Num(
            Num {
                uint: None,
                int: None,
                shown,
                tenths: f.one_place(),
                hundredths: f.two_places(),
            },
        )
    }

    /// A list.
    pub fn list(v: Vec<Json>) -> (r: Json)
        ensures
            r@ == JsonV::Arr(views(v@)),
    {
        proof {
            arr_view(v);
        }
        Json::Arr(v)
    }

    /// An unsigned integer.
    pub fn uint(n: u64) -> (r: Json)
        ensures
            r@ == uint_json(n),
    {
        let shown = dec_u64(n);
        let tenths = cat(shown.as_str(), ".0");
        let hundredths = cat(shown.as_str(), ".00");
        let signed: Option<i64> = if n <= i64::MAX as u64 {
            Some(n as i64)
        } else {
            None
        };
        Json::Num(Num { uint: Some(n), int: signed, shown, tenths, hundredths })
    }

    /// An object.
    pub fn object(e: Vec<(String, Json)>) -> (r: Json)
        ensures
            r@ == JsonV::Obj(entries(e@)),
    {
        proof {
            obj_view(e);
        }
        Json::Obj(e)
    }

    /// A text.
    pub fn str(s: &str) -> (r: Json)
        ensures
            r@ == JsonV::Str(s@),
    {
        Json::Str(s.to_owned())
    }
}

pub broadcast proof fn entries_empty()
    ensures
        #[trigger] entries(Seq::<(String, Json)>::empty()) == Seq::<(Seq<char>, JsonV)>::empty(),
{
    assert(entries(Seq::<(String, Json)>::empty()) =~= Seq::<(Seq<char>, JsonV)>::empty());
}

/// Adds an entry to an object that is being built.
pub fn put(e: &mut Vec<(String, Json)>, key: &str, value: Json)
    ensures
        entries(final(e)@) == entries(old(e)@).push((key@, value@)),
{
    let ghost before = entries(e@);
    let k = key.to_owned();
    e.push((k, value));
    assert(entries(e@) =~= before.push((key@, value@)));
}

// ── Records ─────────────────────────────────────────────────────────────────

/// The object whose fields have these names and, in the same order, these values.
pub open spec fn zipped(names: Seq<Seq<char>>, a: Seq<JsonV>) -> JsonV {
    JsonV::Obj(Seq::new(a.len(), |i: int| (names[i], a[i])))
}

/// A record, which is an object or a list. A list holds the values of the record's fields
/// in their order, the first `least` of them at any rate.
pub open spec fn record_v(j: JsonV, names: Seq<Seq<char>>, least: nat) -> Option<JsonV> {
    match j {
        JsonV::Obj(_) => Some(j),
        JsonV::Arr(a) => if least <= a.len() <= names.len() {
            Some(zipped(names, a))
        } else {
            None
        },
        _ => None,
    }
}

/// The record that the items from `from` on make up.
pub(crate) fn record_from(arr: &Vec<Json>, from: usize, names: &Vec<&str>, least: usize) -> (r:
    Option<Json>)
    requires
        from <= arr@.len(),
    ensures
        r is Some <==> record_v(
            JsonV::Arr(views(arr@).skip(from as int)),
            views(names@),
            least as nat,
        ) is Some,
        r is Some ==> record_v(
            JsonV::Arr(views(arr@).skip(from as int)),
            views(names@),
            least as nat,
        ) == Some(r->0@),
{
    let ghost rest = views(arr@).skip(from as int);
    let ghost want = zipped(views(names@), rest)->Obj_0;
    let len: usize = arr.len();
    let n: usize = len - from;
    if n < least || n > names.len() {
        return None;
    }
    let mut e: Vec<(String, Json)> = Vec::new();
    for i in 0..n
        invariant
            from <= len == arr@.len(),
            n == len - from,
            n <= names@.len(),
            rest == views(arr@).skip(from as int),
            want == zipped(views(names@), rest)->Obj_0,
            entries(e@) =~= want.take(i as int),
    {
        put(&mut e, names[i], arr[from + i].copy());
        assert(rest[i as int] == arr@[from + i]@);
        assert(views(names@)[i as int] == names@[i as int]@);
        assert(want.take(i as int).push(want[i as int]) =~= want.take(i as int + 1));
    }
    assert(want.take(n as int) =~= want);
    Some(Json::object(e))
}

impl Json {
    /// The value as a record.
    pub(crate) fn record(&self, names: &Vec<&str>, least: usize) -> (r: Option<Json>)
        ensures
            r is Some <==> record_v(self@, views(names@), least as nat) is Some,
            r is Some ==> record_v(self@, views(names@), least as nat) == Some(r->0@),
    {
        match self.as_array() {
            Some(arr) => {
                assert(views(arr@).skip(0) =~= views(arr@));
                record_from(arr, 0, names, least)
            },
            None => match self.as_object() {
                Some(_) => Some(self.copy()),
                None => None,
            },
        }
    }
}

// ── Parsing and printing ────────────────────────────────────────────────────

/// What `serde_json::from_str` reads from a text: its value, or nothing where it
/// is no JSON. Of a name that an object repeats only the last value is kept.
pub uninterp spec fn parsed(text: Seq<char>) -> Option<JsonV>;

/// What `serde_json::to_string` prints of a value.
pub uninterp spec fn compact(j: JsonV) -> Seq<char>;

/// What `serde_json::to_string_pretty` prints of a value.
pub uninterp spec fn pretty(j: JsonV) -> Seq<char>;

/// Takes a parsed `serde_json::Value` apart, variant by variant.
#[verifier::external_body]
fn from_value(v: Value) -> (r: Json) {
    match v {
        Value::Null => Json::Null,
        Value::Bool(b) => Json::Bool(b),
        Value::Number(n) => Json::Num(Num {
            uint: n.as_u64(),
            int: n.as_i64(),
            shown: n.to_string(),
            tenths: n.as_f64().map(|x| format!("{x:.1}")).unwrap_or_default(),
            hundredths: n.as_f64().map(|x| format!("{x:.2}")).unwrap_or_default(),
        }),
        Value::String(s) => Json::Str(s),
        Value::Array(a) => Json::Arr(a.into_iter().map(from_value).collect()),
        Value::Object(m) => Json::Obj(m.into_iter().map(|(k, x)| (k, from_value(x))).collect()),
    }
}

/// Puts a `serde_json::Value` together, variant by variant. A number goes through
/// the text in which JSON prints it.
#[verifier::external_body]
pub(crate) fn to_value(j: &Json) -> (r: Value) {
    match j {
        Json::Null => Value::Null,
        Json::Bool(b) => Value::Bool(*b),
        Json::Num(n) => serde_json::from_str(&n.shown).unwrap_or_default(),
        Json::Str(s) => Value::String(s.clone()),
        Json::Arr(v) => Value::Array(v.iter().map(to_value).collect()),
        Json::Obj(v) => Value::Object(v.iter().map(|(k, x)| (k.clone(), to_value(x))).collect()),
    }
}

/// Parses a JSON text with `serde_json::from_str`. What comes back depends on the
/// text alone.
#[verifier::external_body]
pub(crate) fn parse_json(text: &str) -> (r: Option<Json>)
    ensures
        r is Some <==> parsed(text@) is Some,
        r is Some ==> parsed(text@) == Some(r->0@),
{
    serde_json::from_str::<Value>(text).ok().map(from_value)
}

/// How deep values may be nested to be read back.
pub const DEEP: u64 = 127;

/// Whether no two entries share a name.
pub open spec fn names_differ(e: Seq<(Seq<char>, JsonV)>) -> bool {
    forall|i: int, k: int| 0 <= i < k < e.len() ==> (#[trigger] e[i]).0 != (#[trigger] e[k]).0
}

/// Whether a number is a whole one that fits into 64 bits, printed in decimal.
pub open spec fn whole(n: NumV) -> bool {
    match (n.uint, n.int) {
        (Some(u), _) => n.int == uint_num(u).int && n.shown == dec(u as nat),
        (None, Some(i)) => i < 0 && n.shown == dec_int(i as int),
        (None, None) => false,
    }
}

/// Whether a value is no deeper than `d`, names no field twice, and holds no numbers but
/// whole ones.
pub open spec fn plain(j: JsonV, d: nat) -> bool
    decreases d,
{
    match j {
        JsonV::Num(n) => whole(n),
        JsonV::Arr(a) => d > 0 && forall|i: int|
            0 <= i < a.len() ==> plain(#[trigger] a[i], (d - 1) as nat),
        JsonV::Obj(e) => d > 0 && names_differ(e) && forall|i: int|
            0 <= i < e.len() ==> plain((#[trigger] e[i]).1, (d - 1) as nat),
        _ => true,
    }
}

/// Whether two values say the same down to the depth `d`: the order of fields aside, and
/// numbers taken as integers and by how they print.
pub open spec fn agrees(j: JsonV, k: JsonV, d: nat) -> bool
    decreases d,
{
    match (j, k) {
        (JsonV::Num(m), JsonV::Num(n)) => m.uint == n.uint && m.int == n.int && m.shown == n.shown,
        (JsonV::Arr(a), JsonV::Arr(b)) => a.len() == b.len() && (d > 0 ==> forall|i: int|
            0 <= i < a.len() ==> agrees(#[trigger] a[i], b[i], (d - 1) as nat)),
        (JsonV::Obj(a), JsonV::Obj(b)) => {
            &&& a.len() == b.len()
            &&& forall|i: int| 0 <= i < b.len() ==> entry(a, (#[trigger] b[i]).0, 0) is Some
            &&& d > 0 ==> forall|i: int|
                0 <= i < a.len() ==> {
                    &&& entry(b, (#[trigger] a[i]).0, 0) is Some
                    &&& agrees(a[i].1, entry(b, a[i].0, 0)->0, (d - 1) as nat)
                }
        },
        _ => j == k,
    }
}

/// Whether a text is read as a value that says the same as `j`.
pub open spec fn reads_as(text: Seq<char>, j: JsonV) -> bool {
    parsed(text) is Some && agrees(j, parsed(text)->0, DEEP as nat)
}

/// What `serde_json::Number::from_f64` makes of the double that a decimal text stands for.
pub uninterp spec fn double(text: Seq<char>) -> JsonV;

/// Makes a number of a decimal text: `str::parse` reads it as a double, and
/// `serde_json::Number::from_f64` takes that. What comes out depends on the text alone; how
/// many digits it prints is left unsaid.
#[verifier::external_body]
pub(crate) fn double_json(text: &str) -> (r: Json)
    ensures
        r@ == double(text@),
{
    match serde_json::Number::from_f64(text.parse().unwrap_or_default()) {
        Some(n) => from_value(Value::Number(n)),
        None => Json::Null,
    }
}

/// Prints a value on one line with `serde_json::Value::to_string`. What is printed
/// depends on the value alone. A plain value is read back by `serde_json::from_str`, with
/// its fields in another order at most, and no object in the text repeats a name: a
/// `serde_json::Map` holds each once. Of fractions this is left unsaid: `from_str` may
/// read one as the number next to what was printed.
#[verifier::external_body]
pub(crate) fn print_json(j: &Json) -> (r: String)
    ensures
        r@ == compact(j@),
        plain(j@, DEEP as nat) ==> reads_as(r@, j@) && repeats_nothing(r@),
{
    to_value(j).to_string()
}

/// A name that is found stands somewhere, and one that stands somewhere is found.
pub proof fn entry_stands(e: Seq<(Seq<char>, JsonV)>, k: Seq<char>, from: int)
    requires
        0 <= from,
    ensures
        entry(e, k, from) matches Some(v) ==> exists|i: int|
            from <= i < e.len() && (#[trigger] e[i]).0 == k && e[i].1 == v,
        entry(e, k, from) is None ==> forall|i: int|
            from <= i < e.len() ==> (#[trigger] e[i]).0 != k,
    decreases e.len() - from,
{
    if from < e.len() && e[from].0 != k {
        entry_stands(e, k, from + 1);
    }
}

/// Two objects that agree hold the same names, and agree field by field.
pub proof fn agreeing_fields(j: JsonV, v: JsonV, k: Seq<char>, d: nat)
    requires
        agrees(j, v, d),
        d > 0,
    ensures
        field(j, k) is Some <==> field(v, k) is Some,
        field(j, k) is Some ==> agrees(field(j, k)->0, field(v, k)->0, (d - 1) as nat),
{
    match (j, v) {
        (JsonV::Obj(a), JsonV::Obj(b)) => {
            entry_stands(a, k, 0);
            entry_stands(b, k, 0);
            if entry(a, k, 0) is Some {
                let i = choose|i: int|
                    0 <= i < a.len() && (#[trigger] a[i]).0 == k && a[i].1 == entry(a, k, 0)->0;
                assert(entry(b, a[i].0, 0) is Some);
            }
            if entry(b, k, 0) is Some {
                let i = choose|i: int|
                    0 <= i < b.len() && (#[trigger] b[i]).0 == k && b[i].1 == entry(b, k, 0)->0;
                assert(entry(a, b[i].0, 0) is Some);
            }
        },
        _ => {},
    }
}

/// Reads a JSON text.
pub fn read(text: &str) -> (r: Option<Json>)
    ensures
        r is Some <==> parsed(text@) is Some,
        r is Some ==> parsed(text@) == Some(r->0@),
{
    parse_json(text)
}

/// Prints a value on one line. A plain value is read back from it, with its fields in
/// another order at most, and no name is there twice.
pub fn render(j: &Json) -> (r: String)
    ensures
        r@ == compact(j@),
        plain(j@, DEEP as nat) ==> reads_as(r@, j@) && repeats_nothing(r@),
{
    print_json(j)
}

/// Prints a value over several lines with `serde_json::to_string_pretty`. What is
/// printed depends on the value alone.
#[verifier::external_body]
pub(crate) fn pretty_json(j: &Json) -> (r: String)
    ensures
        r@ == pretty(j@),
{
    serde_json::to_string_pretty(&to_value(j)).unwrap_or_default()
}

} // verus!
