use graphspec::graph::{Graph, Line, Point};
use graphspec::plan::DrawKind;

fn pt(x: f64, y: f64) -> Point {
    Point { x: x.to_bits(), y: y.to_bits() }
}

fn bits(xs: &[f64]) -> Vec<u64> {
    xs.iter().map(|x| x.to_bits()).collect()
}

#[test]
fn empty_graph_renders_title_only() {
    let g = Graph::new("nothing to see");
    let plan = g.render_plan();
    assert_eq!(plan.title, "nothing to see");
    assert!(plan.range.is_none());
    assert_eq!(plan.draws.len(), 0);
}

#[test]
fn lines_are_drawn_before_points() {
    let mut g = Graph::new("T");
    g.line(Line { a: pt(-50.0, -50.0), b: pt(50.0, 50.0) }, "black")
        .points(&[pt(0.0, 1.0), pt(1.0, 1.4)], "red");
    let plan = g.render_plan();

    assert_eq!(plan.title, "T");
    assert_eq!(plan.draws.len(), 2);

    let line_cmd = &plan.draws[0];
    assert_eq!(line_cmd.kind, DrawKind::Lines);
    assert_eq!(line_cmd.xs, bits(&[-50.0, 50.0]));
    assert_eq!(line_cmd.ys, bits(&[-50.0, 50.0]));
    assert_eq!(line_cmd.color, "black");

    let points_cmd = &plan.draws[1];
    assert_eq!(points_cmd.kind, DrawKind::Points);
    assert_eq!(points_cmd.xs, bits(&[0.0, 1.0]));
    assert_eq!(points_cmd.ys, bits(&[1.0, 1.4]));
    assert_eq!(points_cmd.color, "red");
}

#[test]
fn lines_precede_points_whatever_the_call_order() {
    let mut g = Graph::new("layers");
    g.points(&[pt(1.0, 1.0)], "red")
        .line(Line { a: pt(0.0, 0.0), b: pt(1.0, 1.0) }, "black")
        .points(&[pt(2.0, 2.0)], "blue");
    let plan = g.render_plan();
    assert_eq!(plan.draws.len(), 3);
    assert_eq!(plan.draws[0].kind, DrawKind::Lines);
    assert_eq!(plan.draws[0].color, "black");
    assert_eq!(plan.draws[1].kind, DrawKind::Points);
    assert_eq!(plan.draws[1].color, "red");
    assert_eq!(plan.draws[2].kind, DrawKind::Points);
    assert_eq!(plan.draws[2].color, "blue");
}

#[test]
fn degenerate_segment_renders_zero_length() {
    let mut g = Graph::new("degenerate");
    g.line(Line { a: pt(5.0, 5.0), b: pt(5.0, 5.0) }, "blue");
    let plan = g.render_plan();
    assert_eq!(plan.draws.len(), 1);
    assert_eq!(plan.draws[0].kind, DrawKind::Lines);
    assert_eq!(plan.draws[0].xs, bits(&[5.0, 5.0]));
    assert_eq!(plan.draws[0].ys, bits(&[5.0, 5.0]));
    assert_eq!(plan.draws[0].color, "blue");
}

#[test]
fn empty_point_list_still_yields_a_draw_call() {
    let mut g = Graph::new("empty series");
    g.points(&[], "green");
    let plan = g.render_plan();
    assert_eq!(plan.draws.len(), 1);
    assert_eq!(plan.draws[0].kind, DrawKind::Points);
    assert!(plan.draws[0].xs.is_empty());
    assert!(plan.draws[0].ys.is_empty());
    assert_eq!(plan.draws[0].color, "green");
}

#[test]
fn range_reaches_the_plan() {
    let mut g = Graph::new("Hello");
    g.range((pt(-200.0, -200.0), pt(200.0, 200.0)));
    let plan = g.render_plan();
    assert_eq!(plan.range, Some((pt(-200.0, -200.0), pt(200.0, 200.0))));
}

#[test]
fn rendering_twice_gives_the_same_plan() {
    let mut g = Graph::new("again");
    g.points(&[pt(1.0, 2.0)], "red");
    let first = g.render_plan();
    let second = g.render_plan();
    assert_eq!(first.title, second.title);
    assert_eq!(first.draws.len(), second.draws.len());
    assert_eq!(first.draws[0].xs, second.draws[0].xs);
    assert_eq!(first.draws[0].ys, second.draws[0].ys);
    assert_eq!(first.draws[0].color, second.draws[0].color);
}
