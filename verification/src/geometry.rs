//! Where windows stand, in pixels.
use vstd::prelude::*;
use crate::arrange::{arrange_tiles, grid_cols, tiles_v};
use crate::desktop::Tile;
use crate::floats::{
    count_v, exactly, larger_v, less_v, minus_v, over_v, plus_v, smaller_v, times_v,
    whole_numbers_are_exact, whole_shares_are_exact, zero_v, FloatV, Single, Width,
};
use crate::text::views;

verus! {

broadcast use {crate::text::views_push, crate::text::views_empty};

/// A rectangle on the desktop.
#[derive(Clone, Copy, Debug, PartialEq, Eq, Structural)]
pub struct Rect {
    pub x: Single,
    pub y: Single,
    pub w: Single,
    pub h: Single,
}

/// The model of a [`Rect`].
pub struct RectV {
    pub x: FloatV,
    pub y: FloatV,
    pub w: FloatV,
    pub h: FloatV,
}

impl View for Rect {
    type V = RectV;

    open spec fn view(&self) -> RectV {
        RectV { x: self.x@, y: self.y@, w: self.w@, h: self.h@ }
    }
}

/// The least width of a window.
pub const GEOM_MIN_W: u64 = 220;

/// The least height of a window.
pub const GEOM_MIN_H: u64 = 140;

/// The least width of a desktop that is believed.
pub const GEOM_AREA_LIVE_W: u64 = 320;

/// The least height of a desktop that is believed.
pub const GEOM_AREA_LIVE_H: u64 = 240;

/// The gap between tiles, and at the edges of the desktop.
pub const ARRANGE_GAP: u64 = 12;

/// A whole number of pixels.
pub open spec fn pixels(n: nat) -> FloatV {
    count_v(n, Width::Single)
}

/// The sum of two lengths.
pub open spec fn sum(a: FloatV, b: FloatV) -> FloatV {
    plus_v(a, b, Width::Single)
}

/// The difference of two lengths.
pub open spec fn difference(a: FloatV, b: FloatV) -> FloatV {
    minus_v(a, b, Width::Single)
}

/// The product of two numbers.
pub open spec fn product(a: FloatV, b: FloatV) -> FloatV {
    times_v(a, b, Width::Single)
}

// ── Remembered shapes ───────────────────────────────────────────────────────

/// Whether the desktop has a size that can be believed.
pub open spec fn area_live(area_w: FloatV, area_h: FloatV) -> bool {
    !less_v(area_w, pixels(GEOM_AREA_LIVE_W as nat)) && !less_v(
        area_h,
        pixels(GEOM_AREA_LIVE_H as nat),
    )
}

/// A number brought between two others.
pub open spec fn held(a: FloatV, low: FloatV, high: FloatV) -> FloatV {
    if less_v(a, low) {
        low
    } else if less_v(high, a) {
        high
    } else {
        a
    }
}

/// A side of a remembered window on a desktop that is believed.
pub open spec fn side_v(side: FloatV, least: u64, area: FloatV) -> FloatV {
    smaller_v(larger_v(side, pixels(least as nat)), area)
}

/// Whether a remembered shape has a place on the desktop at hand. It has none where a side
/// of the desktop is no number, or where both it and the window's are beyond all bounds.
pub open spec fn placeable(rec: RectV, area_w: FloatV, area_h: FloatV) -> bool {
    area_live(area_w, area_h) ==> !(difference(area_w, side_v(rec.w, GEOM_MIN_W, area_w)) is Nan)
        && !(difference(area_h, side_v(rec.h, GEOM_MIN_H, area_h)) is Nan)
}

/// A remembered shape on the desktop at hand. Its size is at least the least one. Where
/// the desktop is believed, it is at most the desktop's, and the window stands on it;
/// else only the left and the upper edge count.
pub open spec fn restored_v(rec: RectV, area_w: FloatV, area_h: FloatV) -> RectV {
    if area_live(area_w, area_h) {
        let w = side_v(rec.w, GEOM_MIN_W, area_w);
        let h = side_v(rec.h, GEOM_MIN_H, area_h);
        RectV {
            x: held(rec.x, zero_v(), difference(area_w, w)),
            y: held(rec.y, zero_v(), difference(area_h, h)),
            w,
            h,
        }
    } else {
        RectV {
            x: larger_v(rec.x, zero_v()),
            y: larger_v(rec.y, zero_v()),
            w: larger_v(rec.w, pixels(GEOM_MIN_W as nat)),
            h: larger_v(rec.h, pixels(GEOM_MIN_H as nat)),
        }
    }
}

/// Brings a number between two others.
pub(crate) fn hold(a: Single, low: Single, high: Single) -> (r: Single)
    ensures
        r@ == held(a@, low@, high@),
{
    if a.less(low) {
        low
    } else if high.less(a) {
        high
    } else {
        a
    }
}

/// Whether the desktop has a size that can be believed.
pub fn is_area_live(area_w: Single, area_h: Single) -> (r: bool)
    ensures
        r == area_live(area_w@, area_h@),
{
    !area_w.less(Single::count(GEOM_AREA_LIVE_W)) && !area_h.less(Single::count(GEOM_AREA_LIVE_H))
}

/// Whether a remembered shape has a place on the desktop at hand.
pub fn is_placeable(rec: Rect, area_w: Single, area_h: Single) -> (r: bool)
    ensures
        r == placeable(rec@, area_w@, area_h@),
{
    if !is_area_live(area_w, area_h) {
        return true;
    }
    let w = rec.w.larger(Single::count(GEOM_MIN_W)).smaller(area_w);
    let h = rec.h.larger(Single::count(GEOM_MIN_H)).smaller(area_h);
    !area_w.minus(w).is_nan() && !area_h.minus(h).is_nan()
}

/// A remembered shape on the desktop at hand.
pub fn restore_geom(rec: Rect, area_w: Single, area_h: Single) -> (r: Rect)
    requires
        placeable(rec@, area_w@, area_h@),
    ensures
        r@ == restored_v(rec@, area_w@, area_h@),
{
    let w = rec.w.larger(Single::count(GEOM_MIN_W));
    let h = rec.h.larger(Single::count(GEOM_MIN_H));
    let zero = Single::zero();
    if !is_area_live(area_w, area_h) {
        return Rect { x: rec.x.larger(zero), y: rec.y.larger(zero), w, h };
    }
    let w = w.smaller(area_w);
    let h = h.smaller(area_h);
    Rect {
        x: hold(rec.x, zero, area_w.minus(w)),
        y: hold(rec.y, zero, area_h.minus(h)),
        w,
        h,
    }
}

// ── Tiles ───────────────────────────────────────────────────────────────────

/// The gap.
pub open spec fn gap() -> FloatV {
    pixels(ARRANGE_GAP as nat)
}

/// What the gaps at the edges leave of a side of the desktop, and no less than `least`.
pub open spec fn usable(side: FloatV, least: nat) -> FloatV {
    larger_v(difference(side, product(pixels(2), gap())), pixels(least))
}

/// The usable width.
pub open spec fn usable_w(area_w: FloatV) -> FloatV {
    usable(area_w, 200)
}

/// The usable height.
pub open spec fn usable_h(area_h: FloatV) -> FloatV {
    usable(area_h, 150)
}

/// The side of one of `n` equal tiles with gaps between them.
pub open spec fn share(total: FloatV, n: nat) -> FloatV {
    over_v(
        difference(total, product(gap(), difference(pixels(n), pixels(1)))),
        pixels(n),
        Width::Single,
    )
}

/// Where the tile `i` of `n` begins.
pub open spec fn offset(total: FloatV, n: nat, i: nat) -> FloatV {
    sum(gap(), product(pixels(i), sum(share(total, n), gap())))
}

/// Sixty-two hundredths.
pub open spec fn main_part() -> FloatV {
    over_v(pixels(62), pixels(100), Width::Single)
}

/// The width of the main pane.
pub open spec fn main_width(aw: FloatV) -> FloatV {
    product(difference(aw, gap()), main_part())
}

/// The rectangle of a tile.
pub open spec fn place_v(t: Tile, area_w: FloatV, area_h: FloatV) -> RectV {
    let aw = usable_w(area_w);
    let ah = usable_h(area_h);
    let g = gap();
    match t {
        Tile::Whole => RectV { x: g, y: g, w: aw, h: ah },
        Tile::Column { at, of } => RectV {
            x: offset(aw, of as nat, at as nat),
            y: g,
            w: share(aw, of as nat),
            h: ah,
        },
        Tile::Main => RectV { x: g, y: g, w: main_width(aw), h: ah },
        Tile::Side { at, of } => RectV {
            x: sum(sum(g, main_width(aw)), g),
            y: offset(ah, of as nat, at as nat),
            w: difference(difference(aw, g), main_width(aw)),
            h: share(ah, of as nat),
        },
        Tile::Cell { col, row, cols, rows } => RectV {
            x: offset(aw, cols as nat, col as nat),
            y: offset(ah, rows as nat, row as nat),
            w: share(aw, cols as nat),
            h: share(ah, rows as nat),
        },
    }
}

fn usable_side(side: Single, least: u64) -> (r: Single)
    ensures
        r@ == usable(side@, least as nat),
{
    let edges = Single::count(2).times(Single::count(ARRANGE_GAP));
    side.minus(edges).larger(Single::count(least))
}

fn tile_side(total: Single, n: usize) -> (r: Single)
    ensures
        r@ == share(total@, n as nat),
{
    let n = Single::count(n as u64);
    let gaps = Single::count(ARRANGE_GAP).times(n.minus(Single::count(1)));
    total.minus(gaps).over(n)
}

fn tile_offset(total: Single, n: usize, i: usize) -> (r: Single)
    ensures
        r@ == offset(total@, n as nat, i as nat),
{
    let g = Single::count(ARRANGE_GAP);
    g.plus(Single::count(i as u64).times(tile_side(total, n).plus(g)))
}

/// The rectangle of a tile.
pub fn place(t: Tile, area_w: Single, area_h: Single) -> (r: Rect)
    ensures
        r@ == place_v(t, area_w@, area_h@),
{
    let aw = usable_side(area_w, 200);
    let ah = usable_side(area_h, 150);
    let g = Single::count(ARRANGE_GAP);
    let main_w = aw.minus(g).times(Single::count(62).over(Single::count(100)));
    match t {
        Tile::Whole => Rect { x: g, y: g, w: aw, h: ah },
        Tile::Column { at, of } => Rect {
            x: tile_offset(aw, of, at),
            y: g,
            w: tile_side(aw, of),
            h: ah,
        },
        Tile::Main => Rect { x: g, y: g, w: main_w, h: ah },
        Tile::Side { at, of } => Rect {
            x: g.plus(main_w).plus(g),
            y: tile_offset(ah, of, at),
            w: aw.minus(g).minus(main_w),
            h: tile_side(ah, of),
        },
        Tile::Cell { col, row, cols, rows } => Rect {
            x: tile_offset(aw, cols, col),
            y: tile_offset(ah, rows, row),
            w: tile_side(aw, cols),
            h: tile_side(ah, rows),
        },
    }
}

/// The rectangles of `n` windows in a layout, the main one first. The layout "focus" has
/// one, whatever `n` is.
pub fn arrange_rects(layout: &str, n: usize, area_w: Single, area_h: Single) -> (r: Vec<Rect>)
    ensures
        views(r@) == tiles_v(layout@, n as nat).map_values(
            |t: Tile| place_v(t, area_w@, area_h@),
        ),
{
    let tiles = arrange_tiles(layout, n);
    let ghost want = tiles@.map_values(|t: Tile| place_v(t, area_w@, area_h@));
    let mut out: Vec<Rect> = Vec::new();
    for i in 0..tiles.len()
        invariant
            want == tiles@.map_values(|t: Tile| place_v(t, area_w@, area_h@)),
            views(out@) == want.take(i as int),
    {
        out.push(place(tiles[i], area_w, area_h));
        assert(want.take(i as int).push(want[i as int]) =~= want.take(i as int + 1));
    }
    assert(want.take(tiles@.len() as int) =~= want);
    out
}

// ── Laws ────────────────────────────────────────────────────────────────────

proof fn bounds_are_exact()
    ensures
        pixels(220) == exactly(220),
        pixels(140) == exactly(140),
        pixels(320) == exactly(320),
        pixels(240) == exactly(240),
        less_v(exactly(220), exactly(320)),
        less_v(exactly(140), exactly(240)),
        zero_v() == exactly(0),
        less_v(exactly(0), exactly(140)),
        less_v(exactly(140), exactly(220)),
{
    whole_numbers_are_exact(220, 320);
    whole_numbers_are_exact(140, 240);
    whole_numbers_are_exact(320, 0);
    whole_numbers_are_exact(240, 0);
    whole_numbers_are_exact(0, 140);
    whole_numbers_are_exact(140, 220);
    assert(0 * crate::floats::one() == 0) by (nonlinear_arith);
}

/// A remembered window is never stranded: on a desktop that is believed it is no larger
/// than the desktop, begins on it, and begins no later than where its end is the
/// desktop's. So much holds of every place that is a number.
pub proof fn restored_windows_are_on_stage(rec: RectV, area_w: FloatV, area_h: FloatV)
    requires
        area_live(area_w, area_h),
        placeable(rec, area_w, area_h),
    ensures
        ({
            let r = restored_v(rec, area_w, area_h);
            &&& !less_v(area_w, r.w) && !less_v(area_h, r.h)
            &&& !less_v(r.x, zero_v()) && !less_v(difference(area_w, r.w), r.x)
            &&& !less_v(r.y, zero_v()) && !less_v(difference(area_h, r.h), r.y)
            &&& less_v(zero_v(), r.w) && less_v(zero_v(), r.h)
        }),
{
    bounds_are_exact();
    let r = restored_v(rec, area_w, area_h);
    room_is_left(area_w, r.w);
    room_is_left(area_h, r.h);
}

/// What a part leaves of the whole is not less than nothing.
proof fn room_is_left(whole: FloatV, part: FloatV)
    requires
        !less_v(whole, part),
        !(whole is Nan),
    ensures
        !less_v(difference(whole, part), zero_v()),
{
    assert(1 * (0 * crate::floats::one()) == 0 && 0 * crate::floats::one() == 0)
        by (nonlinear_arith);
    crate::floats::whole_quotients_are_exact(0, 1, 0);
}

/// A shape that already stands on the desktop, and is no smaller than the least, comes
/// back as it was.
pub proof fn fitting_shapes_are_kept(rec: RectV, area_w: FloatV, area_h: FloatV)
    requires
        area_live(area_w, area_h),
        !(rec.w is Nan) && !(rec.h is Nan),
        !less_v(rec.w, pixels(GEOM_MIN_W as nat)),
        !less_v(rec.h, pixels(GEOM_MIN_H as nat)),
        !less_v(area_w, rec.w),
        !less_v(area_h, rec.h),
        !less_v(rec.x, zero_v()),
        !less_v(rec.y, zero_v()),
        !less_v(difference(area_w, rec.w), rec.x),
        !less_v(difference(area_h, rec.h), rec.y),
    ensures
        restored_v(rec, area_w, area_h) == rec,
{
}

/// To restore a shape twice is to restore it once.
pub proof fn restoring_twice_is_once(rec: RectV, area_w: FloatV, area_h: FloatV)
    requires
        placeable(rec, area_w, area_h),
    ensures
        restored_v(restored_v(rec, area_w, area_h), area_w, area_h) == restored_v(
            rec,
            area_w,
            area_h,
        ),
{
    bounds_are_exact();
    let r = restored_v(rec, area_w, area_h);
    if area_live(area_w, area_h) {
        room_is_left(area_w, r.w);
        room_is_left(area_h, r.h);
    }
}

/// Where tiles come out as whole numbers of pixels, each begins a gap behind the end of the
/// one in front of it, the first a gap behind the edge, and the last ends with what is
/// usable.
pub proof fn whole_tiles_are_a_gap_apart(side: nat, n: nat, i: nat)
    requires
        i < n < 0x1_0000,
        n * (side + ARRANGE_GAP) < 0x100_0000,
        n * side + ARRANGE_GAP * (n - 1) < 0x100_0000,
    ensures
        ({
            let total = exactly((n * side + ARRANGE_GAP * (n - 1)) as nat);
            &&& share(total, n) == exactly(side)
            &&& offset(total, n, i) == exactly(ARRANGE_GAP as nat + i * (side + ARRANGE_GAP as nat))
            &&& i + 1 == n ==> ARRANGE_GAP + i * (side + ARRANGE_GAP) + side == ARRANGE_GAP + n * side
                + ARRANGE_GAP * (n - 1)
        }),
{
    let g = ARRANGE_GAP as nat;
    let gaps = (g * (n - 1)) as nat;
    let total = n * side + gaps;
    let step = side + g;
    assert(side < 0x100_0000 && step < 0x100_0000 && i * step <= n * step && gaps <= total
        && n * side <= total && n * step == n * side + gaps + g && i * step + step <= n * step)
        by (nonlinear_arith)
        requires
            i < n,
            n * step < 0x100_0000,
            step == side + g,
            total == n * side + gaps,
            gaps == g * (n - 1),
            n >= 1,
            g == 12,
    ;
    whole_numbers_are_exact(n, 1);
    whole_numbers_are_exact(1, 1);
    whole_numbers_are_exact(g, (n - 1) as nat);
    whole_numbers_are_exact(total, gaps);
    whole_shares_are_exact(side, n);
    whole_numbers_are_exact(side, g);
    whole_numbers_are_exact(i, step);
    whole_numbers_are_exact(g, i * step);
    if i + 1 == n {
        assert(i * step + step == n * step) by (nonlinear_arith)
            requires
                i + 1 == n,
        ;
    }
}

/// The first of several tiles begins a gap behind the edge.
proof fn first_tiles_begin_at_the_gap(total: FloatV, n: nat)
    requires
        sum(share(total, n), gap()) is Fin,
    ensures
        offset(total, n, 0) == gap(),
{
    let unit = crate::floats::one();
    let y = sum(share(total, n), gap())->Fin_units;
    vstd::arithmetic::power2::lemma_pow2_pos(1074);
    whole_numbers_are_exact(0, 0);
    whole_numbers_are_exact(12, 0);
    assert(0 * unit == 0 && 0 * y == 0 && unit * (0 * unit) == 0 && 1 * (12 * unit) == 12 * unit)
        by (nonlinear_arith);
    crate::floats::whole_quotients_are_exact(0, unit, 0);
    crate::floats::whole_quotients_are_exact(12 * unit, 1, 12);
    assert(12 * unit > 0);
}

/// Whether the step from a tile to the next is finite.
pub open spec fn steps_are_finite(t: Tile, area_w: FloatV, area_h: FloatV) -> bool {
    match t {
        Tile::Column { of, .. } => sum(share(usable_w(area_w), of as nat), gap()) is Fin,
        Tile::Side { of, .. } => sum(share(usable_h(area_h), of as nat), gap()) is Fin,
        Tile::Cell { cols, rows, .. } => sum(share(usable_w(area_w), cols as nat), gap()) is Fin
            && sum(share(usable_h(area_h), rows as nat), gap()) is Fin,
        _ => true,
    }
}

/// The main window of every layout stands in the upper left corner, on every desktop that
/// is not beyond all bounds.
pub proof fn main_window_is_top_left(layout: Seq<char>, n: usize, area_w: FloatV, area_h: FloatV)
    requires
        tiles_v(layout, n as nat).len() > 0,
        steps_are_finite(tiles_v(layout, n as nat)[0], area_w, area_h),
    ensures
        ({
            let r = place_v(tiles_v(layout, n as nat)[0], area_w, area_h);
            r.x == gap() && r.y == gap()
        }),
{
    crate::arrange::grid_has_columns(n as nat);
    let cols = grid_cols(n as nat) as int;
    if n > 1 {
        assert(0int % cols == 0 && 0int / cols == 0) by (nonlinear_arith)
            requires
                cols >= 1,
        ;
    }
    let aw = usable_w(area_w);
    let ah = usable_h(area_h);
    match tiles_v(layout, n as nat)[0] {
        Tile::Column { at, of } => {
            assert(at == 0);
            first_tiles_begin_at_the_gap(aw, of as nat);
        },
        Tile::Cell { col, row, cols, rows } => {
            assert(col == 0 && row == 0);
            first_tiles_begin_at_the_gap(aw, cols as nat);
            first_tiles_begin_at_the_gap(ah, rows as nat);
        },
        Tile::Side { .. } => {
            assert(false);
        },
        _ => {},
    }
}

} // verus!
