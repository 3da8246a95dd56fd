//! The plot description and its fluent builder methods.

use vstd::prelude::*;
use crate::plan::{DrawCmd, DrawKind, RenderPlan, draws_of, line_draw, plan_of, points_draw};

verus! {

/// One plot coordinate. The plotting backend works with 64-bit floating
/// point coordinates; this library never interprets a coordinate's numeric
/// value, so it carries each one as the backend float's raw bit pattern.
/// The surrounding program converts at the boundary.
#[derive(Clone, Copy, PartialEq, Eq, Structural, Debug)]
pub struct Point {
    pub x: u64,
    pub y: u64,
}

/// A single straight line segment between two endpoints. The endpoints may
/// coincide: a zero-length segment is a legal thing to draw.
#[derive(Clone, Copy, PartialEq, Eq, Structural, Debug)]
pub struct Line {
    pub a: Point,
    pub b: Point,
}

/// The mathematical value of a [`Graph`]: what the builder has accumulated.
#[verifier::ext_equal]
pub struct GraphView {
    pub title: Seq<char>,
    pub points: Seq<(Seq<Point>, Seq<char>)>,
    pub lines: Seq<(Line, Seq<char>)>,
    pub range: Option<(Point, Point)>,
}

/// An accumulating description of one plot: a title, point series and line
/// segments each labeled with a color string, and an optional fixed axis
/// range. Series only grow, in call order; the range is last-write-wins.
pub struct Graph {
    title: String,
    points: Vec<(Vec<Point>, String)>,
    lines: Vec<(Line, String)>,
    range: Option<(Point, Point)>,
}

impl View for Graph {
    type V = GraphView;

    closed spec fn view(&self) -> GraphView {
        GraphView {
            title: self.title@,
            points: self.points@.map(|i: int, s: (Vec<Point>, String)| (s.0@, s.1@)),
            lines: self.lines@.map(|i: int, s: (Line, String)| (s.0, s.1@)),
            range: self.range,
        }
    }
}

/// The value of a graph fresh from [`Graph::new`]: no series, no range.
pub open spec fn empty_graph(title: Seq<char>) -> GraphView {
    GraphView { title: title, points: Seq::empty(), lines: Seq::empty(), range: None }
}

/// The value of a graph after one [`Graph::points`] call: the new series is
/// appended, everything else is untouched.
pub open spec fn with_points(g: GraphView, pts: Seq<Point>, color: Seq<char>) -> GraphView {
    GraphView { points: g.points.push((pts, color)), ..g }
}

/// The value of a graph after one [`Graph::line`] call.
pub open spec fn with_line(g: GraphView, line: Line, color: Seq<char>) -> GraphView {
    GraphView { lines: g.lines.push((line, color)), ..g }
}

/// The value of a graph after one [`Graph::range`] call: the previous range,
/// if any, is gone.
pub open spec fn with_range(g: GraphView, range: (Point, Point)) -> GraphView {
    GraphView { range: Some(range), ..g }
}

impl Graph {
    /// Creates a plot description with the given title and nothing to draw.
    pub fn new(title: &str) -> (g: Graph)
        ensures
            g@ == empty_graph(title@),
    {
        let g = Graph { title: title.to_owned(), points: Vec::new(), lines: Vec::new(), range: None };
        proof {
            assert(g@ =~= empty_graph(title@));
        }
        g
    }

    /// Appends one point series, drawn with the given color. An empty slice
    /// is legal: the series still occupies its place in the draw order. The
    /// color is an opaque token for the backend; nothing is validated.
    pub fn points(&mut self, points: &[Point], color: &str) -> (ret: &mut Graph)
        ensures
            (*ret)@ == with_points(old(self)@, points@, color@),
            *final(self) == *final(ret),
    {
        let mut copied: Vec<Point> = Vec::new();
        let mut i: usize = 0;
        while i < points.len()
            invariant
                i <= points.len(),
                copied@ == points@.take(i as int),
            decreases points.len() - i,
        {
            copied.push(points[i]);
            i += 1;
        }
        proof {
            assert(copied@ =~= points@);
        }
        self.points.push((copied, color.to_owned()));
        proof {
            assert(self@ =~= with_points(old(self)@, points@, color@));
        }
        self
    }

    /// Appends one line segment, drawn with the given color. A degenerate
    /// segment (both endpoints equal) is legal.
    pub fn line(&mut self, line: Line, color: &str) -> (ret: &mut Graph)
        ensures
            (*ret)@ == with_line(old(self)@, line, color@),
            *final(self) == *final(ret),
    {
        self.lines.push((line, color.to_owned()));
        proof {
            assert(self@ =~= with_line(old(self)@, line, color@));
        }
        self
    }

    /// Sets the fixed axis range as two opposite corners. Nothing checks
    /// that the corners are ordered; an inverted range is passed through to
    /// the backend as given. A later call fully replaces an earlier one.
    pub fn range(&mut self, range: (Point, Point)) -> (ret: &mut Graph)
        ensures
            (*ret)@ == with_range(old(self)@, range),
            *final(self) == *final(ret),
    {
        self.range = Some(range);
        proof {
            assert(self@ =~= with_range(old(self)@, range));
        }
        self
    }

    /// The title given at construction; it never changes afterwards.
    pub fn title(&self) -> (t: &String)
        ensures
            t@ == self@.title,
    {
        &self.title
    }

    /// How many point series have been added so far.
    pub fn num_point_series(&self) -> (n: usize)
        ensures
            n == self@.points.len(),
    {
        self.points.len()
    }

    /// How many line segments have been added so far.
    pub fn num_line_series(&self) -> (n: usize)
        ensures
            n == self@.lines.len(),
    {
        self.lines.len()
    }

    /// The point series at one position of the draw order, as it was given:
    /// its points and its color.
    pub fn point_series_at(&self, i: usize) -> (s: &(Vec<Point>, String))
        requires
            i < self@.points.len(),
        ensures
            (s.0@, s.1@) == self@.points[i as int],
    {
        &self.points[i]
    }

    /// The line segment at one position of the draw order, as it was given:
    /// the segment and its color.
    pub fn line_series_at(&self, i: usize) -> (s: &(Line, String))
        requires
            i < self@.lines.len(),
        ensures
            (s.0, s.1@) == self@.lines[i as int],
    {
        &self.lines[i]
    }

    /// The fixed axis range currently in effect, if one was set; `None`
    /// leaves scaling to the backend.
    pub fn fixed_range(&self) -> (r: Option<(Point, Point)>)
        ensures
            r == self@.range,
    {
        self.range
    }

    /// Splits a point list into the parallel x and y coordinate lists that a
    /// backend draw call takes.
    pub fn extract(points: &[Point]) -> (r: (Vec<u64>, Vec<u64>))
        ensures
            r.0@ == points@.map(|i: int, p: Point| p.x),
            r.1@ == points@.map(|i: int, p: Point| p.y),
    {
        let mut xl: Vec<u64> = Vec::new();
        let mut yl: Vec<u64> = Vec::new();
        let mut i: usize = 0;
        while i < points.len()
            invariant
                i <= points.len(),
                xl@ == points@.take(i as int).map(|j: int, p: Point| p.x),
                yl@ == points@.take(i as int).map(|j: int, p: Point| p.y),
            decreases points.len() - i,
        {
            xl.push(points[i].x);
            yl.push(points[i].y);
            proof {
                assert(xl@ =~= points@.take(i + 1).map(|j: int, p: Point| p.x));
                assert(yl@ =~= points@.take(i + 1).map(|j: int, p: Point| p.y));
            }
            i += 1;
        }
        proof {
            assert(points@.take(i as int) =~= points@);
        }
        (xl, yl)
    }

    /// Lays out one rendering pass over this description: the title, the
    /// range if one was set, and the draw commands — lines first, then point
    /// series, each group in call order. Replaying the plan against a
    /// backend is the caller's business; this computation is the whole of
    /// what rendering decides.
    pub fn render_plan(&self) -> (p: RenderPlan)
        ensures
            p@ == plan_of(self@),
    {
        let mut draws: Vec<DrawCmd> = Vec::new();
        let mut i: usize = 0;
        while i < self.lines.len()
            invariant
                i <= self.lines.len(),
                draws@.len() == i,
                forall|j: int| 0 <= j < i ==> (#[trigger] draws@[j])@ == line_draw(self@.lines[j].0, self@.lines[j].1),
            decreases self.lines.len() - i,
        {
            let line = self.lines[i].0;
            let mut xs: Vec<u64> = Vec::new();
            xs.push(line.a.x);
            xs.push(line.b.x);
            let mut ys: Vec<u64> = Vec::new();
            ys.push(line.a.y);
            ys.push(line.b.y);
            let cmd = DrawCmd { kind: DrawKind::Lines, xs: xs, ys: ys, color: self.lines[i].1.clone() };
            proof {
                assert(cmd@.xs =~= line_draw(self@.lines[i as int].0, self@.lines[i as int].1).xs);
                assert(cmd@.ys =~= line_draw(self@.lines[i as int].0, self@.lines[i as int].1).ys);
                assert(cmd@ =~= line_draw(self@.lines[i as int].0, self@.lines[i as int].1));
            }
            draws.push(cmd);
            i += 1;
        }
        let line_count = self.lines.len();
        let mut k: usize = 0;
        while k < self.points.len()
            invariant
                k <= self.points.len(),
                line_count == self@.lines.len(),
                draws@.len() == line_count + k,
                forall|j: int| 0 <= j < line_count ==> (#[trigger] draws@[j])@ == line_draw(self@.lines[j].0, self@.lines[j].1),
                forall|j: int| 0 <= j < k ==> (#[trigger] draws@[line_count + j])@ == points_draw(self@.points[j].0, self@.points[j].1),
            decreases self.points.len() - k,
        {
            let (xs, ys) = Graph::extract(self.points[k].0.as_slice());
            let cmd = DrawCmd { kind: DrawKind::Points, xs: xs, ys: ys, color: self.points[k].1.clone() };
            proof {
                assert(cmd@ =~= points_draw(self@.points[k as int].0, self@.points[k as int].1));
            }
            draws.push(cmd);
            k += 1;
        }
        let p = RenderPlan { title: self.title.clone(), range: self.range, draws: draws };
        proof {
            let ld = self@.lines.map(|i: int, s: (Line, Seq<char>)| line_draw(s.0, s.1));
            let pd = self@.points.map(|i: int, s: (Seq<Point>, Seq<char>)| points_draw(s.0, s.1));
            assert forall|j: int| 0 <= j < draws@.len() implies (#[trigger] p@.draws[j]) == (ld + pd)[j] by {
                assert(p@.draws[j] == draws@[j]@);
                if j < line_count {
                    assert(draws@[j]@ == line_draw(self@.lines[j].0, self@.lines[j].1));
                    assert(ld[j] == line_draw(self@.lines[j].0, self@.lines[j].1));
                    assert((ld + pd)[j] == ld[j]);
                } else {
                    let m = j - line_count;
                    assert(draws@[line_count + m]@ == points_draw(self@.points[m].0, self@.points[m].1));
                    assert(pd[m] == points_draw(self@.points[m].0, self@.points[m].1));
                    assert((ld + pd)[j] == pd[m]);
                }
            }
            assert(p@.draws =~= draws_of(self@));
            assert(p@ =~= plan_of(self@));
        }
        p
    }
}

} // verus!
