//! Laws of the builder, stated over [`GraphView`] values.
//!
//! The builder methods' contracts each describe a single call. The proofs
//! here chain them: any sequence of series additions accumulates exactly, in
//! call order, and repeated range setting keeps only the last value.

use vstd::prelude::*;
use crate::graph::{GraphView, Line, Point, empty_graph, with_line, with_points, with_range};
use crate::plan::{DrawCmdView, draws_of, plan_of};

verus! {

/// One series-adding call on a graph: what [`crate::graph::Graph::points`]
/// or [`crate::graph::Graph::line`] was given.
pub enum GraphOp {
    AddPoints { points: Seq<Point>, color: Seq<char> },
    AddLine { line: Line, color: Seq<char> },
}

/// The graph value after one series-adding call.
pub open spec fn apply_op(g: GraphView, op: GraphOp) -> GraphView {
    match op {
        GraphOp::AddPoints { points, color } => with_points(g, points, color),
        GraphOp::AddLine { line, color } => with_line(g, line, color),
    }
}

/// The graph value after a sequence of series-adding calls, first to last.
pub open spec fn apply_ops(g: GraphView, ops: Seq<GraphOp>) -> GraphView
    decreases ops.len(),
{
    if ops.len() == 0 {
        g
    } else {
        apply_op(apply_ops(g, ops.drop_last()), ops.last())
    }
}

/// The point series that a sequence of calls contributes, in call order.
pub open spec fn points_added(ops: Seq<GraphOp>) -> Seq<(Seq<Point>, Seq<char>)>
    decreases ops.len(),
{
    if ops.len() == 0 {
        Seq::empty()
    } else {
        match ops.last() {
            GraphOp::AddPoints { points, color } => points_added(ops.drop_last()).push((points, color)),
            GraphOp::AddLine { .. } => points_added(ops.drop_last()),
        }
    }
}

/// The line series that a sequence of calls contributes, in call order.
pub open spec fn lines_added(ops: Seq<GraphOp>) -> Seq<(Line, Seq<char>)>
    decreases ops.len(),
{
    if ops.len() == 0 {
        Seq::empty()
    } else {
        match ops.last() {
            GraphOp::AddPoints { .. } => lines_added(ops.drop_last()),
            GraphOp::AddLine { line, color } => lines_added(ops.drop_last()).push((line, color)),
        }
    }
}

/// Law: series additions accumulate exactly. After any sequence of
/// `points`/`line` calls, each series list is the old list followed by the
/// series those calls contributed, in call order — so its length grew by the
/// number of such calls, indexing returns the series as they were given, and
/// neither the title nor the range moved.
pub proof fn lemma_ops_accumulate(g: GraphView, ops: Seq<GraphOp>)
    ensures
        apply_ops(g, ops).points == g.points + points_added(ops),
        apply_ops(g, ops).lines == g.lines + lines_added(ops),
        apply_ops(g, ops).title == g.title,
        apply_ops(g, ops).range == g.range,
    decreases ops.len(),
{
    if ops.len() == 0 {
        assert(apply_ops(g, ops).points =~= g.points + points_added(ops));
        assert(apply_ops(g, ops).lines =~= g.lines + lines_added(ops));
    } else {
        lemma_ops_accumulate(g, ops.drop_last());
        assert(apply_ops(g, ops).points =~= g.points + points_added(ops));
        assert(apply_ops(g, ops).lines =~= g.lines + lines_added(ops));
    }
}

/// Law: on a fresh graph the series lists are exactly what the calls
/// contributed — the list of point series is the `points` calls' arguments
/// in call order, and likewise for `line`.
pub proof fn lemma_ops_from_new(title: Seq<char>, ops: Seq<GraphOp>)
    ensures
        apply_ops(empty_graph(title), ops).points == points_added(ops),
        apply_ops(empty_graph(title), ops).lines == lines_added(ops),
        apply_ops(empty_graph(title), ops).title == title,
        apply_ops(empty_graph(title), ops).range is None,
{
    lemma_ops_accumulate(empty_graph(title), ops);
    assert(empty_graph(title).points + points_added(ops) =~= points_added(ops));
    assert(empty_graph(title).lines + lines_added(ops) =~= lines_added(ops));
}

/// The graph value after a sequence of `range` calls, first to last.
pub open spec fn apply_ranges(g: GraphView, ranges: Seq<(Point, Point)>) -> GraphView
    decreases ranges.len(),
{
    if ranges.len() == 0 {
        g
    } else {
        with_range(apply_ranges(g, ranges.drop_last()), ranges.last())
    }
}

/// Law: the range is last-write-wins. Any non-empty sequence of `range`
/// calls leaves the graph exactly as the last call alone would have.
pub proof fn lemma_range_last_write_wins(g: GraphView, ranges: Seq<(Point, Point)>)
    requires
        ranges.len() > 0,
    ensures
        apply_ranges(g, ranges) == with_range(g, ranges.last()),
    decreases ranges.len(),
{
    if ranges.len() == 1 {
    } else {
        lemma_range_last_write_wins(g, ranges.drop_last());
        assert(apply_ranges(g, ranges) =~= with_range(g, ranges.last()));
    }
}

/// Law: a fresh graph renders as an empty plot. Its plan carries the title
/// (the plan's one title field is the backend's one title-set call), no
/// range, and not a single draw command.
pub proof fn lemma_empty_graph_plan(title: Seq<char>)
    ensures
        plan_of(empty_graph(title)).draws == Seq::<DrawCmdView>::empty(),
        plan_of(empty_graph(title)).title == title,
        plan_of(empty_graph(title)).range is None,
{
    assert(draws_of(empty_graph(title)) =~= Seq::<DrawCmdView>::empty());
}

} // verus!
