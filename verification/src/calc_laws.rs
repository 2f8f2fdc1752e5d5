//! What the keys of the calculator do.
use vstd::prelude::*;
use crate::calc::{key_step, keyed, CalcStep, CalcV};
use crate::text::begins;

verus! {

proof fn keys_unlike()
    ensures
        "C"@.len() == 1 && "C"@[0] == 'C',
        "="@.len() == 1 && "="@[0] == '=',
        "%"@.len() == 1 && "%"@[0] == '%',
        "."@.len() == 1 && "."@[0] == '.',
        "+"@.len() == 1 && "+"@[0] == '+',
        "-"@.len() == 1 && "-"@[0] == '-',
        "*"@.len() == 1 && "*"@[0] == '*',
        "/"@.len() == 1 && "/"@[0] == '/',
        "±"@.len() == 1 && "±"@[0] == '±',
        "0"@.len() == 1 && "0"@[0] == '0',
{
    reveal_strlit("C");
    reveal_strlit("=");
    reveal_strlit("%");
    reveal_strlit(".");
    reveal_strlit("+");
    reveal_strlit("-");
    reveal_strlit("*");
    reveal_strlit("/");
    reveal_strlit("±");
    reveal_strlit("0");
}

/// A digit goes behind those that were typed; the first one of a number stands alone, and so
/// does one behind a lone nought.
pub proof fn digits_make_numbers(c: CalcV, d: char)
    requires
        '0' <= d <= '9',
    ensures
        ({
            let t = keyed(c, seq![d]);
            &&& c.fresh || c.entry == seq!['0'] ==> t.entry == seq![d]
            &&& !c.fresh && c.entry != seq!['0'] ==> t.entry == c.entry.push(d)
            &&& !t.fresh
            &&& t.pending == c.pending
            &&& key_step(c, seq![d]) == CalcStep::Show
        }),
{
    keys_unlike();
    let k = seq![d];
    assert(k[0] == d && k.len() == 1);
    assert(c.entry == seq!['0'] ==> c.entry =~= "0"@);
    assert(c.entry == "0"@ ==> c.entry =~= seq!['0']);
    assert(c.entry + k =~= c.entry.push(d));
    assert(Seq::<char>::empty() + k =~= k);
}

/// An operator applies the one before it and waits; the sign of equality applies it and ends.
pub proof fn operators_wait(c: CalcV, op: char)
    requires
        op == '+' || op == '-' || op == '*' || op == '/',
    ensures
        keyed(c, seq![op]).pending == Some(op),
        keyed(c, seq![op]).fresh,
        keyed(c, seq![op]).entry == c.entry,
        key_step(c, seq![op]) == (CalcStep::Apply { op: c.pending, keep: false }),
        keyed(c, seq!['=']).pending is None,
        key_step(c, seq!['=']) == (CalcStep::Apply { op: c.pending, keep: true }),
{
    keys_unlike();
    let k = seq![op];
    assert(k[0] == op && k.len() == 1);
    assert(op == '+' ==> k =~= "+"@);
    assert(op == '-' ==> k =~= "-"@);
    assert(op == '*' ==> k =~= "*"@);
    assert(op == '/' ==> k =~= "/"@);
    assert(seq!['='] =~= "="@);
}

/// Changing the sign twice changes nothing.
pub proof fn signs_change_back(c: CalcV)
    requires
        c.entry.len() > 0,
        c.entry[0] == '-' ==> c.entry.len() > 1 && c.entry[1] != '-' && c.entry.skip(1) != seq![
            '0',
        ],
    ensures
        keyed(keyed(c, seq!['±']), seq!['±']).entry == c.entry,
        c.entry[0] != '-' && c.entry != seq!['0'] ==> keyed(c, seq!['±']).entry == seq!['-']
            + c.entry,
{
    keys_unlike();
    assert(seq!['±'] =~= "±"@);
    assert(seq!['-'] =~= "-"@);
    assert(seq!['0'] =~= "0"@);
    let e = c.entry;
    let f = keyed(c, seq!['±']).entry;
    if e[0] == '-' {
        assert(e.take(1) =~= "-"@);
        assert(begins(e, "-"@));
        assert(f =~= e.skip(1));
        assert(!begins(f, "-"@));
        assert("-"@ + f =~= e);
    } else if e != "0"@ {
        assert(!begins(e, "-"@));
        assert(f =~= "-"@ + e);
        assert(f.take(1) =~= "-"@);
        assert(begins(f, "-"@));
        assert(f.skip(1) =~= e);
    } else {
        assert(!begins(e, "-"@));
    }
}

} // verus!
