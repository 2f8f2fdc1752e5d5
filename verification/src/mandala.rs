//! The mandala window: the agent's lattices of work as one indented list.
use vstd::prelude::*;
use crate::json::{
    compact, entries, field, flagged, items_at, items_or_none, print_json, text_at, text_or,
    uint_at, uint_or, uint_v, Json, JsonV,
};
use crate::notices::{next_after, wrapping_next};
use crate::reader::json_flag;
use crate::text::{cat, cat3, chars_of, copy, dec, dec_len, dec_u64, decimal, given, head, join,
    joined,
    same, take_chars, views};

verus! {

broadcast use {crate::text::views_push, crate::text::views_empty};

/// A row of the mandala window.
#[derive(Debug)]
pub struct MandalaRow {
    pub text: String,
    /// How far the row is indented.
    pub depth: i32,
    /// The state that the row is coloured by.
    pub state: String,
    /// What the row is: "mandala", "note", "gate" or "cell".
    pub kind: String,
}

/// The model of a [`MandalaRow`].
pub struct MandalaRowV {
    pub text: Seq<char>,
    pub depth: i32,
    pub state: Seq<char>,
    pub kind: Seq<char>,
}

impl View for MandalaRow {
    type V = MandalaRowV;

    open spec fn view(&self) -> MandalaRowV {
        MandalaRowV {
            text: self.text@,
            depth: self.depth,
            state: self.state@,
            kind: self.kind@,
        }
    }
}

// ── A mandala's header ──────────────────────────────────────────────────────

pub open spec fn mandala_state(m: JsonV) -> Seq<char> {
    text_or(m, "state"@, "open"@)
}

pub open spec fn epoch_note(m: JsonV) -> Seq<char> {
    match uint_at(m, "epoch"@) {
        Some(e) => " · epoch "@ + dec(e as nat),
        None => Seq::empty(),
    }
}

pub open spec fn fingerprint_note(m: JsonV) -> Seq<char> {
    match text_at(m, "fingerprint"@) {
        Some(fp) => " ("@ + fp + ")"@,
        None => Seq::empty(),
    }
}

pub open spec fn orbits_note(m: JsonV) -> Seq<char> {
    match uint_at(m, "orbits"@) {
        Some(o) => given(o > 0, " · ⚠ "@ + dec(o as nat) + " orbit(s)"@),
        None => Seq::empty(),
    }
}

/// The header line: which mandala it is, how it is laid out, how it stands.
pub open spec fn header_v(m: JsonV) -> Seq<char> {
    "☸ mandala "@ + dec(uint_or(m, "mandala"@, 0) as nat) + " · "@ + text_or(m, "lattice"@, "?"@)
        + " · "@ + mandala_state(m) + " · "@ + dec(uint_or(m, "open_cells"@, 0) as nat) + "/"@
        + dec(uint_or(m, "cells_budget"@, 64) as nat) + " open"@ + epoch_note(m)
        + fingerprint_note(m) + orbits_note(m) + given(text_at(m, "repo"@) is Some, " · code"@)
}

fn append(out: &mut String, add: String)
    ensures
        final(out)@ == old(out)@ + add@,
{
    out.append(add.as_str());
}

fn header(m: &Json) -> (r: String)
    ensures
        r@ == header_v(m@),
{
    let mut out = copy("☸ mandala ");
    append(&mut out, dec_u64(m.u64_or("mandala", 0)));
    out.append(" · ");
    append(&mut out, m.str_or("lattice", "?"));
    out.append(" · ");
    append(&mut out, m.str_or("state", "open"));
    out.append(" · ");
    append(&mut out, dec_u64(m.u64_or("open_cells", 0)));
    out.append("/");
    append(&mut out, dec_u64(m.u64_or("cells_budget", 64)));
    out.append(" open");
    let epoch = match m.u64_at("epoch") {
        Some(e) => cat(" · epoch ", dec_u64(e).as_str()),
        None => String::new(),
    };
    append(&mut out, epoch);
    let fingerprint = match m.str_at("fingerprint") {
        Some(fp) => cat3(" (", fp, ")"),
        None => String::new(),
    };
    append(&mut out, fingerprint);
    let orbits = match m.u64_at("orbits") {
        Some(o) => if o > 0 {
            cat3(" · ⚠ ", dec_u64(o).as_str(), " orbit(s)")
        } else {
            String::new()
        },
        None => String::new(),
    };
    append(&mut out, orbits);
    let code = if m.str_at("repo").is_some() {
        copy(" · code")
    } else {
        String::new()
    };
    append(&mut out, code);
    out
}

// ── Its notes ───────────────────────────────────────────────────────────────

pub open spec fn note_v(text: Seq<char>, state: Seq<char>) -> MandalaRowV {
    MandalaRowV { text, depth: 1, state, kind: "note"@ }
}

/// The first `n` entries of a census.
pub open spec fn census_v(e: Seq<(Seq<char>, JsonV)>, n: int) -> Seq<Seq<char>>
    decreases n,
{
    if n <= 0 {
        Seq::empty()
    } else {
        census_v(e, n - 1).push(e[n - 1].0 + "×"@ + compact(e[n - 1].1))
    }
}

pub open spec fn objective_row(m: JsonV) -> Seq<MandalaRowV> {
    match text_at(m, "objective"@) {
        Some(s) => seq![note_v("◦ "@ + head(s, 110), Seq::empty())],
        None => Seq::empty(),
    }
}

pub open spec fn census_row(m: JsonV) -> Seq<MandalaRowV> {
    match field(m, "census"@) {
        Some(JsonV::Obj(e)) => if e.len() == 0 {
            Seq::empty()
        } else {
            seq![
                note_v("census "@ + joined(census_v(e, e.len() as int), "  "@), Seq::empty()),
            ]
        },
        _ => Seq::empty(),
    }
}

pub open spec fn synthesis_row(m: JsonV) -> Seq<MandalaRowV> {
    match text_at(m, "orbit_synthesis"@) {
        Some(s) => seq![note_v("council: "@ + head(s, 140), "orbit"@)],
        None => Seq::empty(),
    }
}

fn push_objective(out: &mut Vec<MandalaRow>, m: &Json)
    ensures
        views(final(out)@) == views(old(out)@) + objective_row(m@),
{
    match m.str_at("objective") {
        Some(s) => {
            let row = MandalaRow {
                text: cat("◦ ", take_chars(s, 110)),
                depth: 1,
                state: String::new(),
                kind: copy("note"),
            };
            assert(views(out@).push(row@) =~= views(out@) + objective_row(m@));
            out.push(row);
        },
        None => {
            assert(views(out@) =~= views(out@) + objective_row(m@));
        },
    }
}

fn push_census(out: &mut Vec<MandalaRow>, m: &Json)
    ensures
        views(final(out)@) == views(old(out)@) + census_row(m@),
{
    let entry_list = match m.get("census") {
        Some(c) => c.as_object(),
        None => None,
    };
    match entry_list {
        Some(e) => {
            if !e.is_empty() {
                let mut parts: Vec<String> = Vec::new();
                for i in 0..e.len()
                    invariant
                        views(parts@) == census_v(entries(e@), i as int),
                {
                    assert(entries(e@)[i as int] == (e@[i as int].0@, e@[i as int].1@));
                    parts.push(cat3(e[i].0.as_str(), "×", print_json(&e[i].1).as_str()));
                }
                let row = MandalaRow {
                    text: cat("census ", join(&parts, "  ").as_str()),
                    depth: 1,
                    state: String::new(),
                    kind: copy("note"),
                };
                assert(views(out@).push(row@) =~= views(out@) + census_row(m@));
                out.push(row);
            } else {
                assert(views(out@) =~= views(out@) + census_row(m@));
            }
        },
        None => {
            assert(views(out@) =~= views(out@) + census_row(m@));
        },
    }
}

fn push_synthesis(out: &mut Vec<MandalaRow>, m: &Json)
    ensures
        views(final(out)@) == views(old(out)@) + synthesis_row(m@),
{
    match m.str_at("orbit_synthesis") {
        Some(s) => {
            let row = MandalaRow {
                text: cat("council: ", take_chars(s, 140)),
                depth: 1,
                state: copy("orbit"),
                kind: copy("note"),
            };
            assert(views(out@).push(row@) =~= views(out@) + synthesis_row(m@));
            out.push(row);
        },
        None => {
            assert(views(out@) =~= views(out@) + synthesis_row(m@));
        },
    }
}

// ── Its cells ───────────────────────────────────────────────────────────────

/// How many dots stand among the first `n` characters of an address.
pub open spec fn dots(s: Seq<char>, n: int) -> nat
    decreases n,
{
    if n <= 0 {
        0
    } else {
        dots(s, n - 1) + if s[n - 1] == '.' {
            1nat
        } else {
            0
        }
    }
}

/// A cell's depth: one more than the dots of its address.
pub open spec fn cell_depth(addr: Seq<char>) -> i32 {
    let d = dots(addr, addr.len() as int);
    if d < i32::MAX {
        (d + 1) as i32
    } else {
        i32::MAX
    }
}

fn depth_of(addr: &str) -> (d: i32)
    ensures
        d == cell_depth(addr@),
{
    let v = chars_of(addr);
    let mut n: usize = 0;
    for i in 0..v.len()
        invariant
            n == dots(v@, i as int),
            n <= i,
    {
        if v[i] == '.' {
            n = n + 1;
        }
    }
    if n < i32::MAX as usize {
        n as i32 + 1
    } else {
        i32::MAX
    }
}

/// The unsigned integers among the first `n` items.
pub open spec fn uints_v(a: Seq<JsonV>, n: int) -> Seq<Seq<char>>
    decreases n,
{
    if n <= 0 {
        Seq::empty()
    } else {
        match uint_v(a[n - 1]) {
            Some(u) => uints_v(a, n - 1).push(dec(u as nat)),
            None => uints_v(a, n - 1),
        }
    }
}

pub open spec fn worker_note(c: JsonV) -> Seq<char> {
    match uint_at(c, "worker"@) {
        Some(w) => " · w"@ + dec(w as nat),
        None => Seq::empty(),
    }
}

pub open spec fn node_note(c: JsonV) -> Seq<char> {
    match text_at(c, "node"@) {
        Some(n) => " @ "@ + n + (match text_at(c, "body"@) {
            Some(b) => " ("@ + b + ")"@,
            None => Seq::empty(),
        }),
        None => Seq::empty(),
    }
}

pub open spec fn measure_note(c: JsonV) -> Seq<char> {
    let a = items_or_none(c, "measure_history"@);
    if a.len() == 0 {
        Seq::empty()
    } else {
        " · m "@ + joined(uints_v(a, a.len() as int), "→"@)
    }
}

pub open spec fn cell_state(c: JsonV) -> Seq<char> {
    text_or(c, "state"@, "open"@)
}

pub open spec fn barrier_note(c: JsonV) -> Seq<char> {
    if flagged(c, "barrier_opened"@) {
        " · barrier open"@
    } else {
        given(
            uint_at(c, "barrier_timeout_s"@) is Some && cell_state(c) == "open"@,
            " · holding"@,
        )
    }
}

pub open spec fn reparent_note(c: JsonV) -> Seq<char> {
    match text_at(c, "reparented_to"@) {
        Some(rp) => " · ⤴ "@ + rp,
        None => Seq::empty(),
    }
}

/// The forms that gate what stands below them.
pub open spec fn gate_form(form: Seq<char>) -> bool {
    form == "gate"@ || form == "diamond"@ || form == "forge"@ || form == "mandala"@
}

/// A cell's row.
pub open spec fn cell_row(c: JsonV) -> MandalaRowV {
    let addr = text_or(c, "addr"@, "?"@);
    let form = text_or(c, "form"@, "cell"@);
    MandalaRowV {
        text: addr + " · "@ + form + " · "@ + cell_state(c) + worker_note(c) + node_note(c)
            + measure_note(c) + given(flagged(c, "voucher"@), " · voucher"@) + barrier_note(c)
            + reparent_note(c),
        depth: cell_depth(addr),
        state: cell_state(c),
        kind: if gate_form(form) {
            "gate"@
        } else {
            "cell"@
        },
    }
}

/// The rows of the first `n` cells.
pub open spec fn cell_rows(a: Seq<JsonV>, n: int) -> Seq<MandalaRowV>
    decreases n,
{
    if n <= 0 {
        Seq::empty()
    } else {
        cell_rows(a, n - 1).push(cell_row(a[n - 1]))
    }
}

fn measure(c: &Json) -> (r: String)
    ensures
        r@ == measure_note(c@),
{
    let arr = c.items_at("measure_history");
    assert(arr@.len() == views(arr@).len());
    if arr.len() == 0 {
        return String::new();
    }
    let mut parts: Vec<String> = Vec::new();
    for i in 0..arr.len()
        invariant
            views(parts@) == uints_v(views(arr@), i as int),
    {
        assert(views(arr@)[i as int] == arr@[i as int]@);
        match arr[i].as_u64() {
            Some(u) => {
                parts.push(dec_u64(u));
            },
            None => {},
        }
    }
    cat(" · m ", join(&parts, "→").as_str())
}

fn node(c: &Json) -> (r: String)
    ensures
        r@ == node_note(c@),
{
    match c.str_at("node") {
        Some(n) => {
            let mut out = cat(" @ ", n);
            let body = match c.str_at("body") {
                Some(b) => cat3(" (", b, ")"),
                None => String::new(),
            };
            append(&mut out, body);
            out
        },
        None => String::new(),
    }
}

fn cell(c: &Json) -> (r: MandalaRow)
    ensures
        r@ == cell_row(c@),
{
    let addr = c.str_or("addr", "?");
    let form = c.str_or("form", "cell");
    let state = c.str_or("state", "open");
    let mut line = copy(addr.as_str());
    line.append(" · ");
    line.append(form.as_str());
    line.append(" · ");
    line.append(state.as_str());
    let worker = match c.u64_at("worker") {
        Some(w) => cat(" · w", dec_u64(w).as_str()),
        None => String::new(),
    };
    append(&mut line, worker);
    append(&mut line, node(c));
    append(&mut line, measure(c));
    let voucher = if json_flag(c, "voucher") {
        copy(" · voucher")
    } else {
        String::new()
    };
    append(&mut line, voucher);
    let barrier = if json_flag(c, "barrier_opened") {
        copy(" · barrier open")
    } else if c.u64_at("barrier_timeout_s").is_some() && same(state.as_str(), "open") {
        copy(" · holding")
    } else {
        String::new()
    };
    append(&mut line, barrier);
    let parent = match c.str_at("reparented_to") {
        Some(rp) => cat(" · ⤴ ", rp),
        None => String::new(),
    };
    append(&mut line, parent);
    let f = form.as_str();
    let kind = if same(f, "gate") || same(f, "diamond") || same(f, "forge") || same(f, "mandala") {
        copy("gate")
    } else {
        copy("cell")
    };
    MandalaRow { text: line, depth: depth_of(addr.as_str()), state, kind }
}

// ── All of it ───────────────────────────────────────────────────────────────

/// A mandala's rows: its header, its notes, its cells.
pub open spec fn mandala_rows(m: JsonV) -> Seq<MandalaRowV> {
    let cells = items_or_none(m, "cells"@);
    seq![
        MandalaRowV { text: header_v(m), depth: 0, state: mandala_state(m), kind: "mandala"@ },
    ] + objective_row(m) + census_row(m) + synthesis_row(m) + cell_rows(cells, cells.len() as int)
}

/// The rows of the first `n` mandalas.
pub open spec fn rows_v(a: Seq<JsonV>, n: int) -> Seq<MandalaRowV>
    decreases n,
{
    if n <= 0 {
        Seq::empty()
    } else {
        rows_v(a, n - 1) + mandala_rows(a[n - 1])
    }
}

/// How many cells the first `n` mandalas hold open.
pub open spec fn open_cells(a: Seq<JsonV>, n: int) -> nat
    decreases n,
{
    if n <= 0 {
        0
    } else {
        open_cells(a, n - 1) + uint_or(a[n - 1], "open_cells"@, 0) as nat
    }
}

/// The window's meta line; empty where there is no mandala.
pub open spec fn meta_v(a: Seq<JsonV>) -> Seq<char> {
    if a.len() == 0 {
        Seq::empty()
    } else {
        dec(a.len()) + " mandala(s) · "@ + dec(open_cells(a, a.len() as int)) + " open cell(s)"@
    }
}

fn push_mandala(out: &mut Vec<MandalaRow>, m: &Json)
    ensures
        views(final(out)@) == views(old(out)@) + mandala_rows(m@),
{
    let ghost before = views(out@);
    out.push(
        MandalaRow {
            text: header(m),
            depth: 0,
            state: m.str_or("state", "open"),
            kind: copy("mandala"),
        },
    );
    push_objective(out, m);
    push_census(out, m);
    push_synthesis(out, m);
    let ghost top = views(out@);
    let cells = m.items_at("cells");
    let ghost a = views(cells@);
    assert(top + cell_rows(a, 0) =~= top);
    for i in 0..cells.len()
        invariant
            a == views(cells@),
            views(out@) == top + cell_rows(a, i as int),
    {
        assert(a[i as int] == cells@[i as int]@);
        let row = cell(&cells[i]);
        assert((top + cell_rows(a, i as int)).push(row@) =~= top + cell_rows(a, i as int + 1));
        out.push(row);
    }
    assert(views(out@) =~= before + mandala_rows(m@));
}

/// Builds the window's meta line and rows from a reading of the mandalas.
pub fn build_mandala_rows(p: &Json) -> (r: (String, Vec<MandalaRow>))
    ensures
        ({
            let a = items_or_none(p@, "mandalas"@);
            &&& r.0@ == meta_v(a)
            &&& views(r.1@) == rows_v(a, a.len() as int)
        }),
{
    let arr = p.items_at("mandalas");
    let ghost a = views(arr@);
    let mut rows: Vec<MandalaRow> = Vec::new();
    let mut total: u128 = 0;
    for i in 0..arr.len()
        invariant
            a == views(arr@),
            views(rows@) == rows_v(a, i as int),
            total == open_cells(a, i as int),
            total <= i as u128 * 0xffff_ffff_ffff_ffff,
            arr@.len() <= usize::MAX,
    {
        assert(a[i as int] == arr@[i as int]@);
        let n: u64 = arr[i].u64_or("open_cells", 0);
        assert(total + n <= (i + 1) as int * 0xffff_ffff_ffff_ffff) by (nonlinear_arith)
            requires
                total <= i as int * 0xffff_ffff_ffff_ffff,
                n <= 0xffff_ffff_ffff_ffff,
        ;
        assert((i + 1) as int * 0xffff_ffff_ffff_ffff <= u128::MAX) by (nonlinear_arith)
            requires
                i + 1 <= 0xffff_ffff_ffff_ffff,
        ;
        total = total + n as u128;
        push_mandala(&mut rows, &arr[i]);
    }
    let meta = if arr.len() == 0 {
        String::new()
    } else {
        let mut line = dec_len(arr.len());
        line.append(" mandala(s) · ");
        append(&mut line, decimal(total));
        line.append(" open cell(s)");
        line
    };
    (meta, rows)
}

// ── The window ──────────────────────────────────────────────────────────────

/// The mandala window.
#[derive(Debug)]
pub struct MandalaPane {
    pub meta: String,
    pub rows: Vec<MandalaRow>,
    pub scroll_tick: i32,
}

/// The model of a [`MandalaPane`].
pub struct MandalaPaneV {
    pub meta: Seq<char>,
    pub rows: Seq<MandalaRowV>,
    pub scroll_tick: i32,
}

impl View for MandalaPane {
    type V = MandalaPaneV;

    open spec fn view(&self) -> MandalaPaneV {
        MandalaPaneV {
            meta: self.meta@,
            rows: views(self.rows@),
            scroll_tick: self.scroll_tick,
        }
    }
}

/// The window with a new reading.
pub open spec fn charted(p: MandalaPaneV, reading: JsonV) -> MandalaPaneV {
    let a = items_or_none(reading, "mandalas"@);
    MandalaPaneV {
        meta: meta_v(a),
        rows: rows_v(a, a.len() as int),
        scroll_tick: wrapping_next(p.scroll_tick),
    }
}

impl MandalaPane {
    /// A window that has shown nothing.
    pub fn new() -> (r: MandalaPane)
        ensures
            r@ == (MandalaPaneV { meta: Seq::empty(), rows: Seq::empty(), scroll_tick: 0 }),
    {
        MandalaPane { meta: String::new(), rows: Vec::new(), scroll_tick: 0 }
    }

    /// Shows a reading.
    pub fn apply_mandala_render(&mut self, reading: &Json)
        ensures
            final(self)@ == charted(old(self)@, reading@),
    {
        let (meta, rows) = build_mandala_rows(reading);
        self.meta = meta;
        self.rows = rows;
        self.scroll_tick = next_after(self.scroll_tick);
    }
}

// ── Laws ────────────────────────────────────────────────────────────────────

proof fn cell_rows_indent(a: Seq<JsonV>, n: int)
    requires
        0 <= n <= a.len(),
    ensures
        cell_rows(a, n).len() == n,
        forall|i: int| 0 <= i < n ==> (#[trigger] cell_rows(a, n)[i]).depth >= 1,
    decreases n,
{
    if n > 0 {
        cell_rows_indent(a, n - 1);
        let before = cell_rows(a, n - 1);
        assert forall|i: int| 0 <= i < n implies (#[trigger] cell_rows(a, n)[i]).depth >= 1 by {
            if i < n - 1 {
                assert(cell_rows(a, n)[i] == before[i]);
            }
        }
    }
}

/// A mandala's header stands at the margin, and every row below it is indented. There
/// is one row for each cell, and at most three notes.
pub proof fn mandalas_are_indented(m: JsonV)
    ensures
        mandala_rows(m).len() >= 1,
        mandala_rows(m)[0].depth == 0,
        mandala_rows(m)[0].kind == "mandala"@,
        forall|i: int| 0 < i < mandala_rows(m).len() ==> (#[trigger] mandala_rows(m)[i]).depth >= 1,
        1 + items_or_none(m, "cells"@).len() <= mandala_rows(m).len() <= 4 + items_or_none(
            m,
            "cells"@,
        ).len(),
{
    let cells = items_or_none(m, "cells"@);
    cell_rows_indent(cells, cells.len() as int);
    let a = seq![
        MandalaRowV { text: header_v(m), depth: 0, state: mandala_state(m), kind: "mandala"@ },
    ];
    let b = objective_row(m);
    let c = census_row(m);
    let d = synthesis_row(m);
    let e = cell_rows(cells, cells.len() as int);
    let r = mandala_rows(m);
    assert forall|i: int| 0 < i < r.len() implies (#[trigger] r[i]).depth >= 1 by {
        let k = a.len() + b.len() + c.len() + d.len();
        if i >= k {
            assert(r[i] == e[i - k]);
        } else if i >= a.len() + b.len() + c.len() {
            assert(r[i] == d[i - a.len() - b.len() - c.len()]);
        } else if i >= a.len() + b.len() {
            assert(r[i] == c[i - a.len() - b.len()]);
        } else {
            assert(r[i] == b[i - a.len()]);
        }
    }
}

} // verus!
