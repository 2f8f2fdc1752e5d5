//! The agent's drawings: what a tool call describes, stroke by stroke. Numbers stay as the
//! call wrote them; they are parts of the canvas, from none to all of it.
use vstd::prelude::*;
use crate::json::{
    field, flagged, items_or_none, num_at, num_v, text_at, text_or, Json, JsonV, Num, NumV,
};
use crate::reader::json_flag;
use crate::text::{same, views};

verus! {

broadcast use {crate::text::views_push, crate::text::views_empty};

/// A point.
#[derive(Debug, PartialEq)]
pub struct Point {
    pub x: Num,
    pub y: Num,
}

/// The model of a [`Point`].
pub struct PointV {
    pub x: NumV,
    pub y: NumV,
}

impl View for Point {
    type V = PointV;

    open spec fn view(&self) -> PointV {
        PointV { x: self.x@, y: self.y@ }
    }
}

/// A shape between two corners.
#[derive(Clone, Copy, Debug, PartialEq, Eq, Structural)]
pub enum Shape {
    Line,
    Rectangle,
    Ellipse,
    /// A shape that is not known: its second corner alone.
    Dot,
}

/// What a stroke is made of.
#[derive(Debug, PartialEq)]
pub enum StrokePath {
    /// Points in a row, one at least.
    Points(Vec<Point>),
    Shape { shape: Shape, from: Point, to: Point },
}

/// The model of a [`StrokePath`].
pub enum StrokePathV {
    Points(Seq<PointV>),
    Shape { shape: Shape, from: PointV, to: PointV },
}

impl View for StrokePath {
    type V = StrokePathV;

    open spec fn view(&self) -> StrokePathV {
        match self {
            StrokePath::Points(p) => StrokePathV::Points(views(p@)),
            StrokePath::Shape { shape, from, to } => StrokePathV::Shape {
                shape: *shape,
                from: from@,
                to: to@,
            },
        }
    }
}

/// A stroke.
#[derive(Debug, PartialEq)]
pub struct AgentStroke {
    pub color_hex: String,
    /// How wide it is, where the call says so.
    pub width: Option<Num>,
    pub path: StrokePath,
}

/// The model of an [`AgentStroke`].
pub struct AgentStrokeV {
    pub color_hex: Seq<char>,
    pub width: Option<NumV>,
    pub path: StrokePathV,
}

impl View for AgentStroke {
    type V = AgentStrokeV;

    open spec fn view(&self) -> AgentStrokeV {
        AgentStrokeV {
            color_hex: self.color_hex@,
            width: match self.width {
                Some(n) => Some(n@),
                None => None,
            },
            path: self.path@,
        }
    }
}

/// The point that a value writes: two numbers in a list, or those named `x` and `y`.
pub open spec fn point_v(j: JsonV) -> Option<PointV> {
    let (x, y) = match j {
        JsonV::Arr(a) if a.len() >= 2 => (num_v(a[0]), num_v(a[1])),
        _ => (num_at(j, "x"@), num_at(j, "y"@)),
    };
    match (x, y) {
        (Some(x), Some(y)) => Some(PointV { x, y }),
        _ => None,
    }
}

/// The points among the first `n` values; what is no point is passed over.
pub open spec fn points_v(a: Seq<JsonV>, n: int) -> Seq<PointV>
    decreases n,
{
    if n <= 0 {
        Seq::empty()
    } else {
        match point_v(a[n - 1]) {
            Some(p) => points_v(a, n - 1).push(p),
            None => points_v(a, n - 1),
        }
    }
}

/// The shape that a word names.
pub open spec fn shape_v(s: Seq<char>) -> Shape {
    if s == "line"@ {
        Shape::Line
    } else if s == "rect"@ {
        Shape::Rectangle
    } else if s == "ellipse"@ {
        Shape::Ellipse
    } else {
        Shape::Dot
    }
}

/// The point of the field `k`.
pub open spec fn point_at(j: JsonV, k: Seq<char>) -> Option<PointV> {
    match field(j, k) {
        Some(p) => point_v(p),
        None => None,
    }
}

/// What a stroke is made of: a shape where one is named, else its points. A shape without
/// both corners, and a row without a point, are nothing.
pub open spec fn path_v(j: JsonV) -> Option<StrokePathV> {
    match text_at(j, "shape"@) {
        Some(s) => match (point_at(j, "from"@), point_at(j, "to"@)) {
            (Some(from), Some(to)) => Some(StrokePathV::Shape { shape: shape_v(s), from, to }),
            _ => None,
        },
        None => {
            let a = items_or_none(j, "points"@);
            let p = points_v(a, a.len() as int);
            if p.len() == 0 {
                None
            } else {
                Some(StrokePathV::Points(p))
            }
        },
    }
}

/// The strokes among the first `n` values; one that is nothing is dropped.
pub open spec fn strokes_v(a: Seq<JsonV>, n: int) -> Seq<AgentStrokeV>
    decreases n,
{
    if n <= 0 {
        Seq::empty()
    } else {
        match path_v(a[n - 1]) {
            Some(path) => strokes_v(a, n - 1).push(
                AgentStrokeV {
                    color_hex: text_or(a[n - 1], "color"@, "#e6e6eb"@),
                    width: num_at(a[n - 1], "width"@),
                    path,
                },
            ),
            None => strokes_v(a, n - 1),
        }
    }
}

fn pair(x: Option<&Num>, y: Option<&Num>) -> (r: Option<Point>)
    ensures
        match r {
            Some(p) => x is Some && y is Some && p@ == (PointV { x: x->0@, y: y->0@ }),
            None => x is None || y is None,
        },
{
    match (x, y) {
        (Some(x), Some(y)) => Some(Point { x: x.copy(), y: y.copy() }),
        _ => None,
    }
}

/// The point that a value writes.
pub fn read_xy(j: &Json) -> (r: Option<Point>)
    ensures
        match r {
            Some(p) => point_v(j@) == Some(p@),
            None => point_v(j@) is None,
        },
{
    match j.as_array() {
        Some(a) => {
            assert(views(a@).len() == a@.len());
            if a.len() >= 2 {
                assert(views(a@)[0] == a@[0]@ && views(a@)[1] == a@[1]@);
                return pair(a[0].as_num(), a[1].as_num());
            }
        },
        None => {},
    }
    pair(j.num_at("x"), j.num_at("y"))
}

fn read_points(arr: &[Json]) -> (r: Vec<Point>)
    ensures
        views(r@) == points_v(views(arr@), arr@.len() as int),
{
    let ghost a = views(arr@);
    let mut out: Vec<Point> = Vec::new();
    for i in 0..arr.len()
        invariant
            a == views(arr@),
            views(out@) == points_v(a, i as int),
    {
        assert(a[i as int] == arr@[i as int]@);
        match read_xy(&arr[i]) {
            Some(p) => {
                out.push(p);
            },
            None => {},
        }
    }
    out
}

fn point_of(j: &Json, key: &str) -> (r: Option<Point>)
    ensures
        match r {
            Some(p) => point_at(j@, key@) == Some(p@),
            None => point_at(j@, key@) is None,
        },
{
    match j.get(key) {
        Some(p) => read_xy(p),
        None => None,
    }
}

fn read_path(j: &Json) -> (r: Option<StrokePath>)
    ensures
        match r {
            Some(p) => path_v(j@) == Some(p@),
            None => path_v(j@) is None,
        },
{
    match j.str_at("shape") {
        Some(s) => {
            let shape = if same(s, "line") {
                Shape::Line
            } else if same(s, "rect") {
                Shape::Rectangle
            } else if same(s, "ellipse") {
                Shape::Ellipse
            } else {
                Shape::Dot
            };
            match (point_of(j, "from"), point_of(j, "to")) {
                (Some(from), Some(to)) => Some(StrokePath::Shape { shape, from, to }),
                _ => None,
            }
        },
        None => {
            let arr = j.items_at("points");
            assert(views(arr@).len() == arr@.len());
            let p = read_points(arr);
            assert(views(p@).len() == p@.len());
            if p.len() == 0 {
                None
            } else {
                Some(StrokePath::Points(p))
            }
        },
    }
}

/// The strokes that a tool call describes; one that is nothing is dropped.
pub fn parse_agent_strokes(args: &Json) -> (r: Vec<AgentStroke>)
    ensures
        views(r@) == strokes_v(
            items_or_none(args@, "strokes"@),
            items_or_none(args@, "strokes"@).len() as int,
        ),
{
    let arr = args.items_at("strokes");
    let ghost a = views(arr@);
    let mut out: Vec<AgentStroke> = Vec::new();
    for i in 0..arr.len()
        invariant
            a == views(arr@),
            views(out@) == strokes_v(a, i as int),
    {
        assert(a[i as int] == arr@[i as int]@);
        let s = &arr[i];
        match read_path(s) {
            Some(path) => {
                let width = match s.num_at("width") {
                    Some(n) => Some(n.copy()),
                    None => None,
                };
                out.push(AgentStroke { color_hex: s.str_or("color", "#e6e6eb"), width, path });
            },
            None => {},
        }
    }
    assert(a.len() == arr@.len());
    out
}

/// Whether a drawing changes the canvas: it wipes it, or has a stroke.
pub open spec fn draws(args: JsonV) -> bool {
    let a = items_or_none(args, "strokes"@);
    flagged(args, "clear"@) || strokes_v(a, a.len() as int).len() > 0
}

/// What a tool call does to the canvas: whether it wipes it first, the strokes, and
/// whether that changes anything.
pub fn drawing(args: &Json) -> (r: (bool, Vec<AgentStroke>, bool))
    ensures
        r.0 == flagged(args@, "clear"@),
        views(r.1@) == strokes_v(
            items_or_none(args@, "strokes"@),
            items_or_none(args@, "strokes"@).len() as int,
        ),
        r.2 == draws(args@),
{
    let clear = json_flag(args, "clear");
    let strokes = parse_agent_strokes(args);
    assert(views(strokes@).len() == strokes@.len());
    let changed = clear || strokes.len() > 0;
    (clear, strokes, changed)
}

// ── Laws ────────────────────────────────────────────────────────────────────

/// No stroke that is kept is empty.
pub proof fn kept_strokes_have_points(a: Seq<JsonV>, n: int, i: int)
    requires
        0 <= n <= a.len(),
        0 <= i < strokes_v(a, n).len(),
    ensures
        match strokes_v(a, n)[i].path {
            StrokePathV::Points(p) => p.len() > 0,
            StrokePathV::Shape { .. } => true,
        },
    decreases n,
{
    if n > 0 {
        if i < strokes_v(a, n - 1).len() {
            kept_strokes_have_points(a, n - 1, i);
        }
    }
}

} // verus!
