//! How colours are read.
use vstd::prelude::*;
use crate::colour::{
    accent_v, fallback_accent, hex_digit, hex_value, named_colour, past_hashes, six_digits, Rgb,
};
use crate::text::{byte_count, trimmed};

verus! {

/// A colour of six hexadecimal digits is read two by two: red, green and blue.
pub proof fn digits_are_colours(s: Seq<char>, d: Seq<nat>)
    requires
        s.len() == 6,
        d.len() == 6,
        byte_count(s) == 6,
        forall|i: int| 0 <= i < 6 ==> hex_digit(#[trigger] s[i]) == Some(d[i]),
    ensures
        six_digits(s) matches Some(c) && c.r == 16 * d[0] + d[1] && c.g == 16 * d[2] + d[3] && c.b
            == 16 * d[4] + d[5],
{
    assert(hex_value(s, 0) == Some(0nat));
    assert(hex_digit(s[0]) == Some(d[0]));
    assert(hex_value(s, 1) == Some(d[0]));
    assert(hex_digit(s[1]) == Some(d[1]));
    let r = d[0] * 16 + d[1];
    assert(hex_value(s, 2) == Some(r));
    assert(hex_digit(s[2]) == Some(d[2]));
    assert(hex_value(s, 3) == Some(r * 16 + d[2]));
    assert(hex_digit(s[3]) == Some(d[3]));
    let g = d[2] * 16 + d[3];
    assert(hex_value(s, 4) == Some(r * 0x100 + g));
    assert(hex_digit(s[4]) == Some(d[4]));
    assert(hex_value(s, 5) == Some((r * 0x100 + g) * 16 + d[4]));
    assert(hex_digit(s[5]) == Some(d[5]));
    let b = d[4] * 16 + d[5];
    assert(hex_value(s, 6) == Some((r * 0x100 + g) * 0x100 + b));
    assert(r < 0x100 && g < 0x100 && b < 0x100);
    parts_come_apart(r, g, b);
}

proof fn parts_come_apart(r: nat, g: nat, b: nat)
    requires
        r < 0x100 && g < 0x100 && b < 0x100,
    ensures
        ({
            let n = (r * 0x100 + g) * 0x100 + b;
            &&& n < 0x100_0000
            &&& (n / 0x10000) % 0x100 == r
            &&& (n / 0x100) % 0x100 == g
            &&& n % 0x100 == b
        }),
{
}

/// A member of a council has the colour that it names, or else one by its place.
pub proof fn members_have_their_colour(hex: Seq<char>, i: nat, j: nat)
    ensures
        accent_v(None, i) == fallback_accent(i),
        six_digits(past_hashes(hex)) matches Some(c) ==> accent_v(Some(hex), i) == c,
        six_digits(past_hashes(hex)) is None ==> accent_v(Some(hex), i) == fallback_accent(i),
        i % 6 == j % 6 ==> fallback_accent(i) == fallback_accent(j),
{
}

/// A colour may be written with hash signs and in spaces; what is no colour is off-white.
pub proof fn colours_are_found(hex: Seq<char>)
    ensures
        six_digits(past_hashes(trimmed(hex))) matches Some(c) ==> named_colour(hex) == c,
        six_digits(past_hashes(trimmed(hex))) is None ==> named_colour(hex) == (Rgb {
            r: 0xe6,
            g: 0xe6,
            b: 0xeb,
        }),
{
}

} // verus!
