//! How mandalas are charted.
use vstd::prelude::*;
use crate::json::{items_or_none, text_at, text_or, uint_or, JsonV};
use crate::mandala::{cell_row, cell_rows, mandala_rows, open_cells, rows_v, MandalaRowV};
use crate::text::head;

verus! {

proof fn cells_in_order(a: Seq<JsonV>, n: int, i: int)
    requires
        0 <= i < n <= a.len(),
    ensures
        cell_rows(a, n).len() == n,
        cell_rows(a, n)[i] == cell_row(a[i]),
    decreases n,
{
    if n == 1 {
        assert(cell_rows(a, 0).len() == 0);
    } else if i < n - 1 {
        cells_in_order(a, n - 1, i);
    } else {
        cells_in_order(a, n - 1, 0);
    }
}

/// The cells of a mandala are its last rows, in their order: each begins with its address, its
/// form and its state, and stands one step deeper for each dot of its address.
pub proof fn cells_have_their_rows(m: JsonV, i: int)
    requires
        0 <= i < items_or_none(m, "cells"@).len(),
    ensures
        ({
            let cells = items_or_none(m, "cells"@);
            let c = cells[i];
            let r = mandala_rows(m)[mandala_rows(m).len() - cells.len() + i];
            let lead = text_or(c, "addr"@, "?"@) + " · "@ + text_or(c, "form"@, "cell"@) + " · "@
                + text_or(c, "state"@, "open"@);
            let form = text_or(c, "form"@, "cell"@);
            &&& r.text.len() >= lead.len() && r.text.take(lead.len() as int) == lead
            &&& r.state == text_or(c, "state"@, "open"@)
            &&& r.depth >= 1
            &&& (form == "gate"@ || form == "diamond"@ || form == "forge"@ || form == "mandala"@)
                ==> r.kind == "gate"@
            &&& !(form == "gate"@ || form == "diamond"@ || form == "forge"@ || form
                == "mandala"@) ==> r.kind == "cell"@
        }),
{
    let cells = items_or_none(m, "cells"@);
    let c = cells[i];
    cells_in_order(cells, cells.len() as int, i);
    let lead = text_or(c, "addr"@, "?"@) + " · "@ + text_or(c, "form"@, "cell"@) + " · "@
        + text_or(c, "state"@, "open"@);
    let r = mandala_rows(m)[mandala_rows(m).len() - cells.len() + i];
    assert(r == cell_row(c));
    assert(r.text.take(lead.len() as int) =~= lead);
}

/// What a mandala is for stands right under its head line.
pub proof fn aims_are_noted(m: JsonV, aim: Seq<char>)
    requires
        text_at(m, "objective"@) == Some(aim),
    ensures
        mandala_rows(m).len() >= 2,
        mandala_rows(m)[1].text == "◦ "@ + head(aim, 110),
        mandala_rows(m)[1].kind == "note"@,
{
}

/// The rows of several mandalas are those of each, one after the other; so are their open
/// cells counted.
pub proof fn mandalas_follow_each_other(a: Seq<JsonV>, b: Seq<JsonV>)
    ensures
        rows_v(a + b, (a + b).len() as int) == rows_v(a, a.len() as int) + rows_v(
            b,
            b.len() as int,
        ),
        open_cells(a + b, (a + b).len() as int) == open_cells(a, a.len() as int) + open_cells(
            b,
            b.len() as int,
        ),
        a.len() == 1 ==> rows_v(a, 1) == mandala_rows(a[0]) && open_cells(a, 1) == uint_or(
            a[0],
            "open_cells"@,
            0,
        ),
    decreases b.len(),
{
    if a.len() == 1 {
        assert(rows_v(a, 0) =~= Seq::<MandalaRowV>::empty());
        assert(open_cells(a, 0) == 0);
        joins(Seq::<MandalaRowV>::empty(), Seq::<MandalaRowV>::empty(), mandala_rows(a[0]));
    }
    if b.len() == 0 {
        assert(a + b =~= a);
        joins(rows_v(a, a.len() as int), rows_v(b, 0), Seq::<MandalaRowV>::empty());
    } else {
        let c = b.drop_last();
        mandalas_follow_each_other(a, c);
        charts_alike(a + b, a + c, (a + c).len() as int);
        charts_alike(b, c, c.len() as int);
        joins(
            rows_v(a, a.len() as int),
            rows_v(c, c.len() as int),
            mandala_rows(b[b.len() - 1]),
        );
        assert((a + b)[(a + b).len() - 1] == b[b.len() - 1]);
    }
}

proof fn joins(a: Seq<MandalaRowV>, b: Seq<MandalaRowV>, c: Seq<MandalaRowV>)
    ensures
        (a + b) + c == a + (b + c),
        a.len() == 0 ==> a + c == c,
        b.len() == 0 ==> a + b == a,
{
    assert((a + b) + c =~= a + (b + c));
    if a.len() == 0 {
        assert(a + c =~= c);
    }
    if b.len() == 0 {
        assert(a + b =~= a);
    }
}

proof fn charts_alike(a: Seq<JsonV>, b: Seq<JsonV>, n: int)
    requires
        n <= a.len() && n <= b.len(),
        forall|i: int| 0 <= i < n ==> a[i] == b[i],
    ensures
        rows_v(a, n) == rows_v(b, n),
        open_cells(a, n) == open_cells(b, n),
    decreases n,
{
    if n > 0 {
        charts_alike(a, b, n - 1);
    }
}

} // verus!
