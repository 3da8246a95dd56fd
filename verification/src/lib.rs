//! A fluent builder for simple 2D scatter/line plots.
//!
//! The library accumulates a plot description — a title, colored point
//! series, colored line segments, and an optional axis range — and turns it
//! into an ordered list of drawing commands for a plotting backend. The
//! backend itself (a window, a file, a gnuplot process) is a collaborator of
//! the surrounding program; this crate only decides *what* is drawn, and in
//! which order.

pub mod graph;
pub mod laws;
pub mod plan;
