//! The drawing commands that a finished plot description turns into.
//!
//! Rendering a [`crate::graph::Graph`] means handing the backend its title,
//! its range if one was set, and then one draw command per series: all line
//! segments first, then all point series, each group in call order. The
//! [`RenderPlan`] states exactly that command list; the surrounding program
//! replays it against the real backend.

use vstd::prelude::*;
use crate::graph::{Graph, GraphView, Line, Point};

verus! {

/// How one draw command is to be traced: as a connected line or as point
/// markers.
#[derive(Clone, Copy, PartialEq, Eq, Structural, Debug)]
pub enum DrawKind {
    Lines,
    Points,
}

/// The mathematical value of a [`DrawCmd`].
#[verifier::ext_equal]
pub struct DrawCmdView {
    pub kind: DrawKind,
    pub xs: Seq<u64>,
    pub ys: Seq<u64>,
    pub color: Seq<char>,
}

/// One backend draw call: parallel x and y coordinate lists and a color
/// token, traced as a line or as points.
pub struct DrawCmd {
    pub kind: DrawKind,
    pub xs: Vec<u64>,
    pub ys: Vec<u64>,
    pub color: String,
}

impl View for DrawCmd {
    type V = DrawCmdView;

    open spec fn view(&self) -> DrawCmdView {
        DrawCmdView { kind: self.kind, xs: self.xs@, ys: self.ys@, color: self.color@ }
    }
}

/// The mathematical value of a [`RenderPlan`].
#[verifier::ext_equal]
pub struct RenderPlanView {
    pub title: Seq<char>,
    pub range: Option<(Point, Point)>,
    pub draws: Seq<DrawCmdView>,
}

/// Everything one rendering pass tells the backend: the title (set exactly
/// once), the fixed axis range if one was set, and the draw calls in order.
pub struct RenderPlan {
    pub title: String,
    pub range: Option<(Point, Point)>,
    pub draws: Vec<DrawCmd>,
}

impl View for RenderPlan {
    type V = RenderPlanView;

    open spec fn view(&self) -> RenderPlanView {
        RenderPlanView { title: self.title@, range: self.range, draws: self.draws@.map(|i: int, d: DrawCmd| d@) }
    }
}

/// The draw command for one line segment: both endpoints' x coordinates,
/// then both y coordinates.
pub open spec fn line_draw(line: Line, color: Seq<char>) -> DrawCmdView {
    DrawCmdView { kind: DrawKind::Lines, xs: seq![line.a.x, line.b.x], ys: seq![line.a.y, line.b.y], color: color }
}

/// The draw command for one point series: its points' coordinates split into
/// an x list and a y list, in series order.
pub open spec fn points_draw(pts: Seq<Point>, color: Seq<char>) -> DrawCmdView {
    DrawCmdView {
        kind: DrawKind::Points,
        xs: pts.map(|i: int, p: Point| p.x),
        ys: pts.map(|i: int, p: Point| p.y),
        color: color,
    }
}

/// All draw commands of a plot description: its line segments in call
/// order, then its point series in call order.
pub open spec fn draws_of(g: GraphView) -> Seq<DrawCmdView> {
    g.lines.map(|i: int, s: (Line, Seq<char>)| line_draw(s.0, s.1))
        + g.points.map(|i: int, s: (Seq<Point>, Seq<char>)| points_draw(s.0, s.1))
}

/// The full plan of a plot description.
pub open spec fn plan_of(g: GraphView) -> RenderPlanView {
    RenderPlanView { title: g.title, range: g.range, draws: draws_of(g) }
}

} // verus!
