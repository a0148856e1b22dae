//! A small chart-rendering engine: it turns one or more numeric data series
//! into a grid of styled character cells suitable for a terminal display.
//!
//! The engine solves three coupled problems: finding a data-space range that
//! covers all series, mapping that range onto a fixed cell grid of arbitrary
//! size, and laying out discrete marks (points or bars) across the grid
//! without overlap or out-of-bounds writes.

pub mod axis;
pub mod canvas;
pub mod cpus;
pub mod graph;
pub mod layout;
pub mod range;
pub mod raster;
pub mod scale;
pub mod series;
pub mod threads;
