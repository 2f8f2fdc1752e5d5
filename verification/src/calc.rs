//! The calculator: what a key does to the number on display. The arithmetic is the
//! program's; the keys, the entry and the pending operator are kept here.
use vstd::prelude::*;
use crate::text::{
    begins, chars_of, contains, copy, same, strip_ends, strip_prefix, trim_end_matches,
};

verus! {

/// The calculator.
#[derive(Debug)]
pub struct Calc {
    /// The number that is being typed or shown.
    pub entry: String,
    /// The operator that waits for its right side.
    pub pending: Option<char>,
    /// Whether the next digit starts a new number.
    pub fresh: bool,
}

/// The model of a [`Calc`].
pub struct CalcV {
    pub entry: Seq<char>,
    pub pending: Option<char>,
    pub fresh: bool,
}

impl View for Calc {
    type V = CalcV;

    open spec fn view(&self) -> CalcV {
        CalcV { entry: self.entry@, pending: self.pending, fresh: self.fresh }
    }
}

/// What is to be done after a key.
#[derive(Debug)]
pub enum CalcStep {
    /// Show the entry.
    Show,
    /// Forget the left side, and show the entry.
    Clear,
    /// Apply the operator to the left side and the entry, or take the entry where there
    /// is none, and show what comes out. With `keep`, it becomes the entry.
    Apply { op: Option<char>, keep: bool },
    /// Divide the entry by a hundred; what comes out becomes the entry.
    Percent,
}

/// A calculator that was just turned on.
pub open spec fn blank_calc() -> CalcV {
    CalcV { entry: "0"@, pending: None, fresh: true }
}

/// Whether a key is an operator.
pub open spec fn is_operator(k: Seq<char>) -> bool {
    k == "+"@ || k == "-"@ || k == "*"@ || k == "/"@
}

/// Whether a key is a digit.
pub open spec fn is_digit_key(k: Seq<char>) -> bool {
    k.len() == 1 && '0' <= k[0] <= '9'
}

/// The entry with its sign changed. Zero has no sign.
pub open spec fn negated(e: Seq<char>) -> Seq<char> {
    if begins(e, "-"@) {
        e.skip(1)
    } else if e == "0"@ {
        e
    } else {
        "-"@ + e
    }
}

/// The entry with a point, where it has none; a new number starts with zero.
pub open spec fn pointed(c: CalcV) -> Seq<char> {
    let e = if c.fresh {
        "0"@
    } else {
        c.entry
    };
    if e.contains('.') {
        e
    } else {
        e.push('.')
    }
}

/// The entry with one more digit; a digit takes the place of a lone zero.
pub open spec fn typed(c: CalcV, k: Seq<char>) -> Seq<char> {
    let e = if c.fresh {
        Seq::empty()
    } else {
        c.entry
    };
    if e == "0"@ {
        k
    } else {
        e + k
    }
}

/// An entry that shows something.
pub open spec fn filled(e: Seq<char>) -> Seq<char> {
    if e.len() == 0 {
        "0"@
    } else {
        e
    }
}

/// The calculator after a key.
pub open spec fn keyed(c: CalcV, k: Seq<char>) -> CalcV {
    if k == "C"@ {
        blank_calc()
    } else if is_operator(k) {
        CalcV { pending: Some(k[0]), fresh: true, ..c }
    } else if k == "="@ {
        CalcV { pending: None, fresh: true, ..c }
    } else if k == "±"@ {
        CalcV { entry: filled(negated(c.entry)), ..c }
    } else if k == "%"@ {
        CalcV { fresh: false, ..c }
    } else if k == "."@ {
        CalcV { entry: pointed(c), fresh: false, ..c }
    } else if is_digit_key(k) {
        CalcV { entry: typed(c, k), fresh: false, ..c }
    } else {
        CalcV { entry: filled(c.entry), ..c }
    }
}

/// What is to be done after a key.
pub open spec fn key_step(c: CalcV, k: Seq<char>) -> CalcStep {
    if k == "C"@ {
        CalcStep::Clear
    } else if is_operator(k) {
        CalcStep::Apply { op: c.pending, keep: false }
    } else if k == "="@ {
        CalcStep::Apply { op: c.pending, keep: true }
    } else if k == "%"@ {
        CalcStep::Percent
    } else {
        CalcStep::Show
    }
}

/// A result for the display, from its digits with ten decimals: without trailing zeros,
/// without a sign on zero, and as an error where there is no number.
pub open spec fn tidy_v(finite: bool, fixed: Seq<char>) -> Seq<char> {
    let s = strip_ends(strip_ends(fixed, "0"@), "."@);
    if !finite {
        "Error"@
    } else if s.len() == 0 || s == "-0"@ {
        "0"@
    } else {
        s
    }
}

/// A result for the display.
pub fn tidy(finite: bool, fixed: &str) -> (r: String)
    ensures
        r@ == tidy_v(finite, fixed@),
{
    if !finite {
        return copy("Error");
    }
    let s = trim_end_matches(trim_end_matches(fixed, "0"), ".");
    if s.is_empty() || same(s, "-0") {
        copy("0")
    } else {
        copy(s)
    }
}

fn has_point(s: &str) -> (r: bool)
    ensures
        r == s@.contains('.'),
{
    let v = chars_of(s);
    for i in 0..v.len()
        invariant
            v@ == s@,
            forall|j: int| 0 <= j < i ==> s@[j] != '.',
    {
        if v[i] == '.' {
            assert(s@[i as int] == '.');
            return true;
        }
    }
    false
}

impl Calc {
    /// A calculator that was just turned on.
    pub fn new() -> (r: Calc)
        ensures
            r@ == blank_calc(),
    {
        Calc { entry: copy("0"), pending: None, fresh: true }
    }

    fn negate(&mut self)
        ensures
            final(self)@ == (CalcV { entry: negated(old(self)@.entry), ..old(self)@ }),
    {
        proof {
            reveal_strlit("-");
        }
        let next = match strip_prefix(self.entry.as_str(), "-") {
            Some(rest) => copy(rest),
            None => if same(self.entry.as_str(), "0") {
                copy("0")
            } else {
                let mut e = copy("-");
                e.append(self.entry.as_str());
                e
            },
        };
        self.entry = next;
    }

    /// Takes in a key; says what is to be done.
    pub fn key(&mut self, k: &str) -> (r: CalcStep)
        ensures
            final(self)@ == keyed(old(self)@, k@),
            r == key_step(old(self)@, k@),
    {
        let v = chars_of(k);
        if same(k, "C") {
            self.entry = copy("0");
            self.pending = None;
            self.fresh = true;
            return CalcStep::Clear;
        }
        if same(k, "+") || same(k, "-") || same(k, "*") || same(k, "/") {
            proof {
                reveal_strlit("+");
                reveal_strlit("-");
                reveal_strlit("*");
                reveal_strlit("/");
            }
            let op = self.pending;
            self.pending = Some(v[0]);
            self.fresh = true;
            return CalcStep::Apply { op, keep: false };
        }
        if same(k, "=") {
            let op = self.pending;
            self.pending = None;
            self.fresh = true;
            return CalcStep::Apply { op, keep: true };
        }
        if same(k, "±") {
            proof {
                reveal_strlit("±");
                reveal_strlit("%");
                assert("±"@[0] == '±' && "%"@[0] == '%');
            }
            self.negate();
        } else if same(k, "%") {
            self.fresh = false;
            return CalcStep::Percent;
        } else if same(k, ".") {
            if self.fresh {
                self.entry = copy("0");
                self.fresh = false;
            }
            if !has_point(self.entry.as_str()) {
                self.entry.push('.');
            }
            return CalcStep::Show;
        } else if v.len() == 1 && '0' <= v[0] && v[0] <= '9' {
            if self.fresh {
                self.entry = String::new();
                self.fresh = false;
            }
            if same(self.entry.as_str(), "0") {
                self.entry = copy(k);
            } else {
                self.entry.append(k);
            }
            return CalcStep::Show;
        }
        if self.entry.as_str().is_empty() {
            self.entry = copy("0");
        }
        CalcStep::Show
    }

    /// Takes in what came out of an operation that becomes the entry.
    pub fn settle(&mut self, finite: bool, fixed: &str)
        ensures
            final(self)@ == (CalcV { entry: tidy_v(finite, fixed@), ..old(self)@ }),
    {
        self.entry = tidy(finite, fixed);
    }
}

// ── Laws ────────────────────────────────────────────────────────────────────

/// The display is never empty.
pub proof fn the_display_shows_something(c: CalcV, k: Seq<char>)
    requires
        c.entry.len() > 0,
    ensures
        keyed(c, k).entry.len() > 0,
{
    reveal_strlit("0");
    reveal_strlit("-");
}

/// An entry keeps to one point, however often the key is pressed.
pub proof fn points_do_not_add_up(c: CalcV)
    ensures
        keyed(keyed(c, "."@), "."@).entry == keyed(c, "."@).entry,
{
    reveal_strlit(".");
    reveal_strlit("C");
    reveal_strlit("+");
    reveal_strlit("-");
    reveal_strlit("*");
    reveal_strlit("/");
    reveal_strlit("=");
    reveal_strlit("±");
    reveal_strlit("%");
    assert("."@[0] == '.' && "C"@[0] == 'C' && "+"@[0] == '+' && "-"@[0] == '-' && "*"@[0] == '*'
        && "/"@[0] == '/' && "="@[0] == '=' && "±"@[0] == '±' && "%"@[0] == '%');
    let d = keyed(c, "."@);
    let e = pointed(c);
    assert(d.entry == e);
    assert(e.contains('.')) by {
        let b = if c.fresh {
            "0"@
        } else {
            c.entry
        };
        if !b.contains('.') {
            assert(e[e.len() - 1] == '.');
        }
    }
}

/// Clearing forgets everything.
pub proof fn clearing_starts_over(c: CalcV)
    ensures
        keyed(c, "C"@) == blank_calc(),
{
}

} // verus!
