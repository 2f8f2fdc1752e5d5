//! Colours, and the texts that name them.
use vstd::prelude::*;
use crate::text::{byte_count, byte_len, chars_of, leading, run, skip_chars, trim, trimmed};

verus! {

/// A colour.
#[derive(Clone, Copy, Debug, PartialEq, Eq, Structural)]
pub struct Rgb {
    pub r: u8,
    pub g: u8,
    pub b: u8,
}

/// The colour written as `0xRRGGBB`.
pub open spec fn rgb_v(hex: u32) -> Rgb {
    Rgb { r: ((hex / 0x10000) % 0x100) as u8, g: ((hex / 0x100) % 0x100) as u8, b: (hex % 0x100) as u8 }
}

/// The colour written as `0xRRGGBB`.
pub fn persona_rgb(hex: u32) -> (r: Rgb)
    ensures
        r == rgb_v(hex),
{
    Rgb { r: ((hex / 0x10000) % 0x100) as u8, g: ((hex / 0x100) % 0x100) as u8, b: (hex % 0x100) as u8 }
}

// ── Hexadecimal ─────────────────────────────────────────────────────────────

/// The value of a hexadecimal digit.
pub open spec fn hex_digit(c: char) -> Option<nat> {
    if '0' <= c <= '9' {
        Some((c as u32 - '0' as u32) as nat)
    } else if 'a' <= c <= 'f' {
        Some((c as u32 - 'a' as u32 + 10) as nat)
    } else if 'A' <= c <= 'F' {
        Some((c as u32 - 'A' as u32 + 10) as nat)
    } else {
        None
    }
}

/// The number that the first `n` digits of `s` write.
pub open spec fn hex_value(s: Seq<char>, n: int) -> Option<nat>
    decreases n,
{
    if n <= 0 {
        Some(0)
    } else {
        match (hex_value(s, n - 1), hex_digit(s[n - 1])) {
            (Some(v), Some(d)) => Some(v * 16 + d),
            _ => None,
        }
    }
}

/// The number that a text of digits writes; a plus sign may lead them.
pub open spec fn hex_number(s: Seq<char>) -> Option<nat> {
    if s.len() > 1 && s[0] == '+' {
        hex_value(s.skip(1), s.len() - 1)
    } else if s.len() == 0 {
        None
    } else {
        hex_value(s, s.len() as int)
    }
}

/// The colour that six digits write.
pub open spec fn six_digits(s: Seq<char>) -> Option<Rgb> {
    if byte_count(s) == 6 {
        match hex_number(s) {
            Some(n) => Some(rgb_v(n as u32)),
            None => None,
        }
    } else {
        None
    }
}

/// The text behind its leading number signs.
pub open spec fn past_hashes(s: Seq<char>) -> Seq<char> {
    s.skip(run(s, '#') as int)
}

fn digit_of(c: char) -> (r: Option<u32>)
    ensures
        match r {
            Some(d) => hex_digit(c) == Some(d as nat) && d < 16,
            None => hex_digit(c) is None,
        },
{
    if '0' <= c && c <= '9' {
        Some(c as u32 - '0' as u32)
    } else if 'a' <= c && c <= 'f' {
        Some(c as u32 - 'a' as u32 + 10)
    } else if 'A' <= c && c <= 'F' {
        Some(c as u32 - 'A' as u32 + 10)
    } else {
        None
    }
}

proof fn hex_value_fails(s: Seq<char>, n: int, m: int)
    requires
        0 <= n <= m,
        hex_value(s, n) is None,
    ensures
        hex_value(s, m) is None,
    decreases m - n,
{
    if n < m {
        hex_value_fails(s, n + 1, m);
    }
}

fn parse_six(h: &str) -> (r: Option<Rgb>)
    ensures
        r == six_digits(h@),
{
    if byte_len(h) != 6 {
        return None;
    }
    let v = chars_of(h);
    proof {
        crate::text::byte_count_bounds(h@);
        assert(h@.len() == 0 ==> byte_count(h@) == 0);
    }
    let from: usize = if v.len() > 1 && v[0] == '+' {
        1
    } else {
        0
    };
    let ghost digits = v@.skip(from as int);
    assert(v@.skip(0) =~= v@);
    let mut n: u32 = 0;
    for i in from..v.len()
        invariant
            v@ == h@,
            0 < v@.len() <= 6,
            byte_count(h@) == 6,
            from == if v@.len() > 1 && v@[0] == '+' {
                1int
            } else {
                0
            },
            from == 0 ==> digits == v@,
            digits == v@.skip(from as int),
            hex_value(digits, i - from) == Some(n as nat),
            i - from == 0 ==> n == 0,
            i - from == 1 ==> n < 0x10,
            i - from == 2 ==> n < 0x100,
            i - from == 3 ==> n < 0x1000,
            i - from == 4 ==> n < 0x10000,
            i - from == 5 ==> n < 0x100000,
            i - from == 6 ==> n < 0x1000000,
    {
        assert(digits[i - from] == v@[i as int]);
        match digit_of(v[i]) {
            Some(d) => {
                n = n * 16 + d;
            },
            None => {
                proof {
                    hex_value_fails(digits, i - from + 1, v@.len() - from);
                }
                return None;
            },
        }
    }
    Some(persona_rgb(n))
}

/// The colour that is used where a text names none.
pub const OFF_WHITE: u32 = 0xe6e6eb;

/// The colour that a text names, such as `#39ff14`; off-white where it names none.
pub open spec fn named_colour(hex: Seq<char>) -> Rgb {
    match six_digits(past_hashes(trimmed(hex))) {
        Some(c) => c,
        None => rgb_v(OFF_WHITE),
    }
}

/// The colour that a text names; off-white where it names none.
pub fn hex_to_color(hex: &str) -> (r: Rgb)
    ensures
        r == named_colour(hex@),
{
    let t = trim(hex);
    let h = skip_chars(t, leading(t, '#'));
    match parse_six(h) {
        Some(c) => c,
        None => persona_rgb(OFF_WHITE),
    }
}

/// The colours that council members take in turn.
pub open spec fn fallback_accent(idx: nat) -> Rgb {
    let i = idx % 6;
    rgb_v(
        if i == 0 {
            0x00d4ff
        } else if i == 1 {
            0xd77757
        } else if i == 2 {
            0xffc107
        } else if i == 3 {
            0x827dbd
        } else if i == 4 {
            0x4ade80
        } else {
            0xf472b6
        },
    )
}

/// A council member's colour: the one it names, or the next in turn.
pub open spec fn accent_v(hex: Option<Seq<char>>, idx: nat) -> Rgb {
    match hex {
        Some(h) => match six_digits(past_hashes(h)) {
            Some(c) => c,
            None => fallback_accent(idx),
        },
        None => fallback_accent(idx),
    }
}

/// A council member's colour: the one it names, or the next in turn.
pub fn council_accent(hex: Option<&str>, idx: usize) -> (r: Rgb)
    ensures
        r == accent_v(
            match hex {
                Some(h) => Some(h@),
                None => None,
            },
            idx as nat,
        ),
{
    match hex {
        Some(h) => {
            let digits = skip_chars(h, leading(h, '#'));
            match parse_six(digits) {
                Some(c) => {
                    return c;
                },
                None => {},
            }
        },
        None => {},
    }
    let i: usize = idx % 6;
    persona_rgb(
        if i == 0 {
            0x00d4ff
        } else if i == 1 {
            0xd77757
        } else if i == 2 {
            0xffc107
        } else if i == 3 {
            0x827dbd
        } else if i == 4 {
            0x4ade80
        } else {
            0xf472b6
        },
    )
}

/// The colours of the sketchpad.
pub const SKETCH_PALETTE: [&'static str; 5] = [
    "#e6e6eb",
    "#00d4ff",
    "#eab308",
    "#39ff14",
    "#ef4444",
];

/// The name of a colour of the sketchpad; a number outside takes the nearest.
pub open spec fn sketch_hex_v(idx: int) -> Seq<char> {
    if idx <= 0 {
        "#e6e6eb"@
    } else if idx == 1 {
        "#00d4ff"@
    } else if idx == 2 {
        "#eab308"@
    } else if idx == 3 {
        "#39ff14"@
    } else {
        "#ef4444"@
    }
}

/// The name of a colour of the sketchpad; a number outside takes the nearest.
pub fn sketch_hex(idx: i32) -> (r: &'static str)
    ensures
        r@ == sketch_hex_v(idx as int),
{
    if idx <= 0 {
        "#e6e6eb"
    } else if idx == 1 {
        "#00d4ff"
    } else if idx == 2 {
        "#eab308"
    } else if idx == 3 {
        "#39ff14"
    } else {
        "#ef4444"
    }
}

/// A colour of the sketchpad.
pub fn sketch_color(idx: i32) -> (r: Rgb)
    ensures
        r == named_colour(sketch_hex_v(idx as int)),
{
    hex_to_color(sketch_hex(idx))
}

} // verus!
