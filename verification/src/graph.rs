//! The chart component: configuration, cached derived geometry, and the
//! event-driven two-phase lifecycle.
//!
//! Recomputation and redrawing are deliberately split: a data-update or
//! resize event recomputes the range and layout once and caches them in
//! `ChartState`, setting the needs-redraw flag; the higher-frequency redraw
//! event only reads the cache and drives the axis renderer and then the
//! rasterizer against the canvas. The expensive scan over all samples thus
//! happens at most once per logical data change, never once per frame.

use vstd::prelude::*;
use vstd::arithmetic::div_mod::lemma_div_is_ordered;
use vstd::arithmetic::div_mod::lemma_div_pos_is_pos;
use vstd::arithmetic::div_mod::lemma_fundamental_div_mod;
use vstd::arithmetic::div_mod::lemma_fundamental_div_mod_converse;
use vstd::arithmetic::div_mod::lemma_mod_bound;
use vstd::arithmetic::mul::lemma_mul_is_commutative;
use vstd::arithmetic::mul::lemma_mul_is_distributive_sub_other_way;
use crate::axis::{axis_at, draw_axis};
use crate::canvas::{Canvas, Cell};
use crate::layout::{Layout, compute_layout, layout_spec, lemma_layout_spec_wf};
use crate::range::{Range, compute_range, data_max, data_min, lemma_data_bounds};
use crate::raster::{ChartType, draw_data_points, paint_at, painted_or};
use crate::series::{GraphData, longest_len, longest_series_length};

verus! {

/// The cached derived geometry of the chart.
///
/// `Empty` is the initial state, before any data has arrived; `Computed`
/// holds the range and layout derived from the current data and canvas size,
/// plus the needs-redraw flag that a recompute sets and a redraw consumes.
#[derive(Clone, Copy, PartialEq, Eq, Debug)]
pub enum ChartState {
    Empty,
    Computed { range: Range, layout: Layout, needs_redraw: bool },
}

/// The state a recompute derives from the data snapshot and canvas width:
/// `Empty` for an empty collection, otherwise the freshly computed range and
/// layout with the needs-redraw flag set.
pub open spec fn state_for(data: Seq<Seq<i64>>, width: int) -> ChartState {
    if data.len() == 0 {
        ChartState::Empty
    } else {
        ChartState::Computed {
            range: (Range { min: data_min(data) as i64, max: data_max(data) as i64 }),
            layout: layout_spec(longest_len(data), width),
            needs_redraw: true,
        }
    }
}

/// The cell a redraw leaves at `(x, y)`: what the rasterizer paints there
/// if any series hits the cell, otherwise what the axis pass leaves on top
/// of the previous content `base`.
pub open spec fn render_cell(
    chart_type: ChartType,
    data: Seq<Seq<i64>>,
    markers: Seq<char>,
    range: Range,
    layout: Layout,
    x_axis: Option<char>,
    y_axis: Option<char>,
    w: int,
    h: int,
    base: Cell,
    x: int,
    y: int,
) -> Cell {
    painted_or(
        paint_at(chart_type, data, markers, range, layout, w, h, data.len() as int, x, y),
        axis_at(x_axis, y_axis, w, h, base, x, y),
    )
}

/// Redrawing is idempotent: rendering a cell from an already-rendered cell
/// yields the same content, because what the rasterizer paints and what the
/// axis pass writes depend only on the chart state, never on the previous
/// canvas contents. Drawing twice without an intervening data or resize
/// event therefore produces an identical canvas.
pub proof fn lemma_render_cell_idempotent(
    chart_type: ChartType,
    data: Seq<Seq<i64>>,
    markers: Seq<char>,
    range: Range,
    layout: Layout,
    x_axis: Option<char>,
    y_axis: Option<char>,
    w: int,
    h: int,
    base: Cell,
    x: int,
    y: int,
)
    ensures
        render_cell(
            chart_type,
            data,
            markers,
            range,
            layout,
            x_axis,
            y_axis,
            w,
            h,
            render_cell(chart_type, data, markers, range, layout, x_axis, y_axis, w, h, base, x, y),
            x,
            y,
        ) == render_cell(chart_type, data, markers, range, layout, x_axis, y_axis, w, h, base, x, y),
{
}

/// Redrawing twice produces an identical canvas: if `once` is a canvas
/// rendered from `before`, and `twice` is rendered from `once` with the
/// same chart state, then `twice` holds exactly the cells of `once`. This
/// lifts the cell-level idempotence to whole canvases, as two consecutive
/// `redraw` calls without an intervening data or resize event produce them.
pub proof fn lemma_redraw_twice_identical(
    chart_type: ChartType,
    data: Seq<Seq<i64>>,
    markers: Seq<char>,
    range: Range,
    layout: Layout,
    x_axis: Option<char>,
    y_axis: Option<char>,
    before: Canvas,
    once: Canvas,
    twice: Canvas,
)
    requires
        before.wf(),
        once.wf(),
        twice.wf(),
        once.width == before.width,
        once.height == before.height,
        twice.width == before.width,
        twice.height == before.height,
        forall|x: int, y: int|
            0 <= x < before.width && 0 <= y < before.height ==> #[trigger] once.cell_at(x, y)
                == render_cell(chart_type, data, markers, range, layout, x_axis, y_axis,
                before.width as int, before.height as int, before.cell_at(x, y), x, y),
        forall|x: int, y: int|
            0 <= x < before.width && 0 <= y < before.height ==> #[trigger] twice.cell_at(x, y)
                == render_cell(chart_type, data, markers, range, layout, x_axis, y_axis,
                before.width as int, before.height as int, once.cell_at(x, y), x, y),
    ensures
        twice.cells@ == once.cells@,
{
    let w = before.width as int;
    let h = before.height as int;
    assert forall|i: int| 0 <= i < once.cells@.len() implies twice.cells@[i] == once.cells@[i] by {
        if w > 0 && h > 0 {
            let x = i % w;
            let y = i / w;
            lemma_mod_bound(i, w);
            lemma_fundamental_div_mod(i, w);
            lemma_div_pos_is_pos(i, w);
            lemma_mul_is_commutative(w, y);
            // i < h * w bounds the row: i / w is at most (h * w - 1) / w,
            // which is h - 1.
            lemma_div_is_ordered(i, h * w - 1, w);
            lemma_mul_is_distributive_sub_other_way(w, h, 1);
            lemma_fundamental_div_mod_converse(h * w - 1, w, h - 1, w - 1);
            lemma_render_cell_idempotent(
                chart_type,
                data,
                markers,
                range,
                layout,
                x_axis,
                y_axis,
                w,
                h,
                before.cell_at(x, y),
                x,
                y,
            );
            assert(once.cells@[i] == once.cell_at(x, y));
            assert(twice.cells@[i] == twice.cell_at(x, y));
        }
    }
    assert(twice.cells@ =~= once.cells@);
}

/// An update event for the chart: a wholesale replacement of the series
/// collection.
pub enum GraphMessage {
    UpdateDataPoints(GraphData),
}

/// The series snapshot an update message carries.
pub open spec fn message_data(message: GraphMessage) -> Seq<Seq<i64>> {
    match message {
        GraphMessage::UpdateDataPoints(d) => d@,
    }
}

/// The chart component: its configuration, the current data snapshot, and
/// the cached derived geometry.
pub struct Graph {
    pub chart_type: ChartType,
    pub markers: Vec<char>,
    pub x_axis_char: Option<char>,
    pub y_axis_char: Option<char>,
    pub width: u16,
    pub height: u16,
    pub data: GraphData,
    pub state: ChartState,
}

impl Graph {
    /// The cached state is exactly the geometry derived from the current
    /// data and canvas width: `Empty` if and only if there is no data, and
    /// otherwise a range and layout that match a fresh recomputation.
    pub open spec fn wf(self) -> bool {
        match self.state {
            ChartState::Empty => self.data@.len() == 0,
            ChartState::Computed { range, layout, needs_redraw } => {
                &&& self.data@.len() > 0
                &&& range.min as int == data_min(self.data@)
                &&& range.max as int == data_max(self.data@)
                &&& layout == layout_spec(longest_len(self.data@), self.width as int)
            },
        }
    }

    /// Creates a chart with the documented defaults: a point chart with the
    /// single marker `'@'`, no axis lines, a 20 by 20 canvas, and no data.
    pub fn new() -> (g: Graph)
        ensures
            g.wf(),
            g.chart_type == ChartType::Point,
            g.markers@ =~= seq!['@'],
            g.x_axis_char is None,
            g.y_axis_char is None,
            g.width == 20,
            g.height == 20,
            g.data@.len() == 0,
            g.state == ChartState::Empty,
    {
        Graph {
            chart_type: ChartType::Point,
            markers: vec!['@'],
            x_axis_char: None,
            y_axis_char: None,
            width: 20,
            height: 20,
            data: GraphData { series: Vec::new() },
            state: ChartState::Empty,
        }
    }

    /// Recomputes the cached range and layout from the current data and
    /// canvas width, marking the chart as needing a redraw; an empty
    /// collection resets the chart to `Empty`.
    pub fn calculate_state(&mut self)
        ensures
            final(self).chart_type == old(self).chart_type,
            final(self).markers@ == old(self).markers@,
            final(self).x_axis_char == old(self).x_axis_char,
            final(self).y_axis_char == old(self).y_axis_char,
            final(self).width == old(self).width,
            final(self).height == old(self).height,
            final(self).data@ == old(self).data@,
            final(self).state == state_for(old(self).data@, old(self).width as int),
            final(self).wf(),
    {
        if self.data.series.len() == 0 {
            self.state = ChartState::Empty;
        } else {
            let range = compute_range(&self.data);
            let longest = longest_series_length(&self.data);
            let layout = compute_layout(longest, self.width);
            self.state = ChartState::Computed { range, layout, needs_redraw: true };
        }
    }

    /// Replaces the series collection wholesale and recomputes the cached
    /// geometry.
    pub fn on_data_update(&mut self, data: GraphData)
        ensures
            final(self).chart_type == old(self).chart_type,
            final(self).markers@ == old(self).markers@,
            final(self).x_axis_char == old(self).x_axis_char,
            final(self).y_axis_char == old(self).y_axis_char,
            final(self).width == old(self).width,
            final(self).height == old(self).height,
            final(self).data@ == data@,
            final(self).state == state_for(data@, old(self).width as int),
            final(self).wf(),
    {
        self.data = data;
        self.calculate_state();
    }

    /// Handles an update message by replacing the data snapshot.
    pub fn on_message(&mut self, message: GraphMessage)
        ensures
            final(self).chart_type == old(self).chart_type,
            final(self).markers@ == old(self).markers@,
            final(self).x_axis_char == old(self).x_axis_char,
            final(self).y_axis_char == old(self).y_axis_char,
            final(self).width == old(self).width,
            final(self).height == old(self).height,
            final(self).data@ == message_data(message),
            final(self).state == state_for(message_data(message), old(self).width as int),
            final(self).wf(),
    {
        match message {
            GraphMessage::UpdateDataPoints(d) => {
                self.on_data_update(d);
            },
        }
    }

    /// Adopts a new canvas size and recomputes the cached geometry from the
    /// unchanged data, so the next redraw reflects the new size without a
    /// new data update.
    pub fn on_resize(&mut self, width: u16, height: u16)
        ensures
            final(self).chart_type == old(self).chart_type,
            final(self).markers@ == old(self).markers@,
            final(self).x_axis_char == old(self).x_axis_char,
            final(self).y_axis_char == old(self).y_axis_char,
            final(self).width == width,
            final(self).height == height,
            final(self).data@ == old(self).data@,
            final(self).state == state_for(old(self).data@, width as int),
            final(self).wf(),
    {
        self.width = width;
        self.height = height;
        self.calculate_state();
    }

    /// Performs the draw path against the canvas: a no-op while `Empty`
    /// (the canvas is left untouched), otherwise the axis pass followed by
    /// the rasterizer, reading only the cached geometry and consuming the
    /// needs-redraw flag. Nothing else of the chart changes, so redrawing
    /// again without an intervening event renders the very same cells.
    pub fn redraw(&mut self, canvas: &mut Canvas)
        requires
            old(self).wf(),
            old(canvas).wf(),
            old(canvas).width == old(self).width,
            old(canvas).height == old(self).height,
        ensures
            final(self).wf(),
            final(self).chart_type == old(self).chart_type,
            final(self).markers@ == old(self).markers@,
            final(self).x_axis_char == old(self).x_axis_char,
            final(self).y_axis_char == old(self).y_axis_char,
            final(self).width == old(self).width,
            final(self).height == old(self).height,
            final(self).data@ == old(self).data@,
            final(canvas).wf(),
            final(canvas).width == old(canvas).width,
            final(canvas).height == old(canvas).height,
            (match old(self).state {
                ChartState::Empty => {
                    &&& final(self).state == ChartState::Empty
                    &&& final(canvas).cells@ == old(canvas).cells@
                },
                ChartState::Computed { range, layout, needs_redraw } => {
                    &&& final(self).state == (ChartState::Computed {
                        range,
                        layout,
                        needs_redraw: false,
                    })
                    &&& forall|x: int, y: int|
                        0 <= x < old(canvas).width && 0 <= y < old(canvas).height
                            ==> #[trigger] final(canvas).cell_at(x, y) == render_cell(
                            old(self).chart_type,
                            old(self).data@,
                            old(self).markers@,
                            range,
                            layout,
                            old(self).x_axis_char,
                            old(self).y_axis_char,
                            old(canvas).width as int,
                            old(canvas).height as int,
                            old(canvas).cell_at(x, y),
                            x,
                            y,
                        )
                },
            }),
    {
        match self.state {
            ChartState::Empty => {},
            ChartState::Computed { range, layout, needs_redraw: _ } => {
                proof {
                    lemma_data_bounds(self.data@);
                    lemma_layout_spec_wf(longest_len(self.data@), self.width as int);
                }
                self.state = ChartState::Computed { range, layout, needs_redraw: false };
                draw_axis(canvas, self.x_axis_char, self.y_axis_char);
                draw_data_points(&self.data, layout, range, canvas, self.chart_type, &self.markers);
            },
        }
    }
}

} // verus!
