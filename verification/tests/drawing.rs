//! The agent's drawings, and the readings of the machine.
use apexos_ui::json::{read, Json, Num};
use apexos_ui::readings::{load_of, thermal_points, thermal_wait};
use apexos_ui::sketch::{
    drawing, parse_agent_strokes, read_xy, AgentStroke, Point, Shape, StrokePath,
};

fn json(text: &str) -> Json {
    read(text).expect("a value")
}

fn number(n: &Num) -> f32 {
    n.shown.parse::<f64>().expect("a number") as f32
}

fn corner(p: &Point) -> (f32, f32) {
    (number(&p.x), number(&p.y))
}

/// The points of a stroke, in parts of the canvas.
fn points(s: &AgentStroke) -> Vec<(f32, f32)> {
    let all = match &s.path {
        StrokePath::Points(ps) => ps.iter().map(corner).collect(),
        StrokePath::Shape { shape, from, to } => {
            let ((ax, ay), (x, y)) = (corner(from), corner(to));
            match shape {
                Shape::Line => vec![(ax, ay), (x, y)],
                Shape::Rectangle => vec![(ax, ay), (x, ay), (x, y), (ax, y), (ax, ay)],
                Shape::Ellipse => (0..=48)
                    .map(|i| {
                        let t = (i as f32 / 48.0) * std::f32::consts::TAU;
                        let (rx, ry) = ((x - ax).abs() / 2.0, (y - ay).abs() / 2.0);
                        ((ax + x) / 2.0 + rx * t.cos(), (ay + y) / 2.0 + ry * t.sin())
                    })
                    .collect(),
                Shape::Dot => vec![(x, y)],
            }
        }
    };
    all.into_iter().map(|(x, y)| (x.clamp(0.0, 1.0), y.clamp(0.0, 1.0))).collect()
}

fn width(s: &AgentStroke) -> f32 {
    s.width.as_ref().map(number).unwrap_or(3.0).clamp(0.5, 64.0)
}

#[test]
fn agent_strokes_parse_points_and_clamp() {
    let strokes = parse_agent_strokes(&json(
        r##"{"strokes": [{ "points": [[0.1, 0.2], [1.5, -0.3]], "color": "#39ff14", "width": 4 }]}"##,
    ));
    assert_eq!(strokes.len(), 1);
    assert_eq!(strokes[0].color_hex, "#39ff14");
    assert_eq!(width(&strokes[0]), 4.0);
    assert_eq!(points(&strokes[0]), vec![(0.1, 0.2), (1.0, 0.0)]);
}

#[test]
fn agent_strokes_expand_shapes() {
    let parsed = parse_agent_strokes(&json(
        r#"{"strokes": [
            { "shape": "line", "from": [0.0, 0.0], "to": [1.0, 1.0] },
            { "shape": "rect", "from": [0.2, 0.2], "to": [0.8, 0.8] },
            { "shape": "ellipse", "from": [0.1, 0.1], "to": [0.9, 0.9] }
        ]}"#,
    ));
    assert_eq!(parsed.len(), 3);
    assert_eq!(points(&parsed[0]).len(), 2);
    assert_eq!(points(&parsed[1]).len(), 5);
    assert!(points(&parsed[2]).len() > 5);
    assert_eq!(parsed[0].color_hex, "#e6e6eb");
    assert_eq!(width(&parsed[0]), 3.0);
}

#[test]
fn agent_strokes_drop_invalid_and_accept_xy_objects() {
    let parsed = parse_agent_strokes(&json(
        r##"{"strokes": [
            { "color": "#fff" },
            { "shape": "line", "from": [0.0, 0.0] },
            { "points": [{ "x": 0.5, "y": 0.5 }, { "x": 0.6, "y": 0.7 }] }
        ]}"##,
    ));
    assert_eq!(parsed.len(), 1);
    assert_eq!(points(&parsed[0]), vec![(0.5, 0.5), (0.6, 0.7)]);
}

#[test]
fn points_are_pairs_or_objects() {
    assert!(read_xy(&json("[1, 2, 3]")).is_some());
    assert!(read_xy(&json("[1]")).is_none());
    assert!(read_xy(&json(r#"[1, "2"]"#)).is_none());
    assert!(read_xy(&json(r#"{"x": 1}"#)).is_none());
    let odd = parse_agent_strokes(&json(
        r#"{"strokes": [{"shape": "star", "from": [0, 0], "to": [1, 1], "points": [[0, 0]]}]}"#,
    ));
    assert_eq!(points(&odd[0]), vec![(1.0, 1.0)]);
}

#[test]
fn drawings_change_the_canvas_or_not() {
    let (clear, strokes, changed) = drawing(&json(r#"{"clear": true}"#));
    assert!(clear && strokes.is_empty() && changed);
    let (clear, strokes, changed) = drawing(&json(r#"{"strokes": [{}]}"#));
    assert!(!clear && strokes.is_empty() && !changed);
    assert!(drawing(&json(r#"{"strokes": [{"points": [[0, 0]]}]}"#)).2);
}

#[test]
fn loads_need_four_lines() {
    let l = load_of(&json(r#"{"ok": true, "stdout": " 41 \n7\n8\n0.5\n"}"#)).unwrap();
    assert_eq!((&*l.ram, &*l.disk, &*l.cores, &*l.tasks), ("41", "7", "8", "0.5"));
    assert!(load_of(&json(r#"{"ok": true, "stdout": "41\n7\n8"}"#)).is_none());
    assert!(load_of(&json(r#"{"ok": false, "stdout": "1\n2\n3\n4"}"#)).is_none());
    assert!(load_of(&json(r#"{"ok": true}"#)).is_none());
}

#[test]
fn frames_are_lists_of_numbers() {
    let p = thermal_points(true, &json(r#"{"frame": [20.5, "x", 21]}"#)).unwrap();
    assert_eq!(p[0].as_ref().map(number), Some(20.5));
    assert!(p[1].is_none());
    assert!(thermal_points(true, &json(r#"{"frame": []}"#)).is_none());
    assert!(thermal_points(false, &json(r#"{"frame": [1]}"#)).is_none());
    assert_eq!((thermal_wait(768), thermal_wait(767)), (2, 30));
}
