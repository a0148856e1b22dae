use chartgrid::canvas::{Canvas, Cell, Color, Style};
use chartgrid::graph::{ChartState, Graph, GraphMessage};
use chartgrid::layout::Layout;
use chartgrid::range::Range;
use chartgrid::raster::ChartType;
use chartgrid::series::{GraphData, GraphSeries};

fn data_of(series: Vec<Vec<i64>>) -> GraphData {
    GraphData { series: series.into_iter().map(|points| GraphSeries { points }).collect() }
}

fn blank() -> Cell {
    Cell { glyph: ' ', style: Style { fg: None, bg: None } }
}

#[test]
fn ascending_series_on_default_canvas() {
    // Series 0..=9 on a 20x20 point chart with marker "@".
    let mut g = Graph::new();
    g.on_data_update(data_of(vec![vec![0, 1, 2, 3, 4, 5, 6, 7, 8, 9]]));
    assert_eq!(
        g.state,
        ChartState::Computed {
            range: Range { min: 0, max: 9 },
            layout: Layout { element_width: 1, gap: 1 },
            needs_redraw: true,
        }
    );
    let mut canvas = Canvas::new(20, 20);
    g.redraw(&mut canvas);
    // Sample 9 lands on the top row, at column 9 * (1 + 1).
    assert_eq!(canvas.get(18, 0).glyph, '@');
    // Sample 0 lands on the bottom row, column 0.
    assert_eq!(canvas.get(0, 19).glyph, '@');
    // Sample 5 in between: row 20 - (5 * 20) / 9 = 9, column 10.
    assert_eq!(canvas.get(10, 9).glyph, '@');
    // A cell between two marks stays blank.
    assert_eq!(canvas.get(1, 19), blank());
    // The redraw consumed the needs-redraw flag.
    assert_eq!(
        g.state,
        ChartState::Computed {
            range: Range { min: 0, max: 9 },
            layout: Layout { element_width: 1, gap: 1 },
            needs_redraw: false,
        }
    );
}

#[test]
fn layout_follows_longest_series() {
    // Two series of lengths 10 and 2 on width 20: the longer one governs,
    // so 20 / 10 = 2 leaves an element width of 1 after the gap reservation.
    let mut g = Graph::new();
    g.chart_type = ChartType::Bar;
    g.on_data_update(data_of(vec![
        vec![1, 2, 3, 4, 5, 6, 7, 8, 9, 10],
        vec![1, 2],
    ]));
    match g.state {
        ChartState::Computed { layout, .. } => {
            assert_eq!(layout.element_width, 1);
            assert_eq!(layout.gap, 1);
        }
        ChartState::Empty => panic!("state should be computed"),
    }
}

#[test]
fn empty_collection_draws_nothing() {
    let mut g = Graph::new();
    g.x_axis_char = Some('-');
    g.y_axis_char = Some('|');
    g.on_data_update(data_of(vec![]));
    assert_eq!(g.state, ChartState::Empty);
    let mut canvas = Canvas::new(20, 20);
    canvas.put(3, 4, Cell { glyph: 'x', style: Style { fg: Some(Color::Red), bg: None } });
    let before = canvas.clone();
    g.redraw(&mut canvas);
    assert_eq!(canvas, before);
}

#[test]
fn resize_recomputes_layout_without_new_data() {
    let mut g = Graph::new();
    let points: Vec<i64> = (0..10).collect();
    g.on_data_update(data_of(vec![points]));
    let mut canvas = Canvas::new(20, 20);
    g.redraw(&mut canvas);
    assert!(matches!(g.state, ChartState::Computed { needs_redraw: false, .. }));

    g.on_resize(40, 10);
    // Only range and layout were recomputed; the data is unchanged and the
    // chart needs a redraw again.
    assert_eq!(g.data.series.len(), 1);
    assert_eq!(g.data.series[0].points, (0..10).collect::<Vec<i64>>());
    assert_eq!(
        g.state,
        ChartState::Computed {
            range: Range { min: 0, max: 9 },
            layout: Layout { element_width: 3, gap: 1 },
            needs_redraw: true,
        }
    );

    // The next redraw reflects the new size: sample 9 at column 9 * 4 on the
    // top row, sample 0 on the new bottom row 9.
    let mut canvas = Canvas::new(40, 10);
    g.redraw(&mut canvas);
    assert_eq!(canvas.get(36, 0).glyph, '@');
    assert_eq!(canvas.get(0, 9).glyph, '@');
}

#[test]
fn third_series_wraps_to_first_marker() {
    // Marker set "@A" with three series: series index 2 wraps to '@'.
    let mut g = Graph::new();
    g.markers = vec!['@', 'A'];
    g.on_data_update(data_of(vec![vec![1], vec![1], vec![1]]));
    let mut canvas = Canvas::new(20, 20);
    g.redraw(&mut canvas);
    // All three series put their single sample at (0, 0); the last series
    // drawn (index 2) wins, and its marker is the first of the set.
    assert_eq!(canvas.get(0, 0).glyph, '@');
}

#[test]
fn second_series_gets_lowercased_second_marker() {
    let mut g = Graph::new();
    g.markers = vec!['@', 'A'];
    g.on_data_update(data_of(vec![vec![1], vec![1]]));
    let mut canvas = Canvas::new(20, 20);
    g.redraw(&mut canvas);
    // The last series drawn has index 1, whose marker 'A' is lowercased.
    assert_eq!(canvas.get(0, 0).glyph, 'a');
}

#[test]
fn redraw_is_idempotent() {
    let mut g = Graph::new();
    g.x_axis_char = Some('-');
    g.y_axis_char = Some('|');
    g.on_data_update(data_of(vec![vec![0, 3, 9, 2], vec![5, 5]]));
    let mut canvas = Canvas::new(20, 20);
    g.redraw(&mut canvas);
    let once = canvas.clone();
    let state_once = g.state;
    g.redraw(&mut canvas);
    assert_eq!(canvas, once);
    assert_eq!(g.state, state_once);
}

#[test]
fn redraw_is_idempotent_for_bars() {
    let mut g = Graph::new();
    g.chart_type = ChartType::Bar;
    g.on_data_update(data_of(vec![vec![4, 1, 3], vec![2, 2, 2]]));
    let mut canvas = Canvas::new(12, 8);
    g.on_resize(12, 8);
    g.redraw(&mut canvas);
    let once = canvas.clone();
    g.redraw(&mut canvas);
    assert_eq!(canvas, once);
}

#[test]
fn update_message_replaces_data() {
    let mut g = Graph::new();
    g.on_data_update(data_of(vec![vec![1, 2, 3]]));
    g.on_message(GraphMessage::UpdateDataPoints(data_of(vec![vec![7], vec![8]])));
    assert_eq!(g.data.series.len(), 2);
    assert_eq!(g.data.series[0].points, vec![7]);
    assert_eq!(g.data.series[1].points, vec![8]);
    assert!(matches!(g.state, ChartState::Computed { needs_redraw: true, .. }));
}

#[test]
fn bar_chart_fills_from_value_to_baseline() {
    // One sample of value 2 with range (0, 2) on a 4x4 canvas: the element
    // is 3 cells wide (4 / 1 - 1 for the gap), the scaled row is 0, and the
    // bar fills rows 0..3 above the baseline row 3.
    let mut g = Graph::new();
    g.chart_type = ChartType::Bar;
    g.on_resize(4, 4);
    g.on_data_update(data_of(vec![vec![2]]));
    let mut canvas = Canvas::new(4, 4);
    g.redraw(&mut canvas);
    let bar = Cell { glyph: ' ', style: Style { fg: None, bg: Some(Color::Blue) } };
    for x in 0..3 {
        for y in 0..3 {
            assert_eq!(canvas.get(x, y), bar);
        }
    }
    // The gap column and the baseline row stay untouched.
    for y in 0..4 {
        assert_eq!(canvas.get(3, y), blank());
    }
    for x in 0..3 {
        assert_eq!(canvas.get(x, 3), blank());
    }
}

#[test]
fn later_series_overdraws_earlier() {
    let mut g = Graph::new();
    g.markers = vec!['a', 'b'];
    g.on_data_update(data_of(vec![vec![5], vec![5]]));
    let mut canvas = Canvas::new(20, 20);
    g.redraw(&mut canvas);
    // Both series hit (0, 0); the second one drawn wins.
    assert_eq!(canvas.get(0, 0).glyph, 'b');
}

#[test]
fn axes_are_drawn_under_the_data() {
    let mut g = Graph::new();
    g.x_axis_char = Some('-');
    g.y_axis_char = Some('|');
    g.on_data_update(data_of(vec![vec![0, 9]]));
    let mut canvas = Canvas::new(20, 20);
    g.redraw(&mut canvas);
    // Sample 0 scales to the bottom row at column 0, over the axis corner.
    assert_eq!(canvas.get(0, 19).glyph, '@');
    // Elsewhere the axis lines show: bottom row and column zero.
    assert_eq!(canvas.get(5, 19).glyph, '-');
    assert_eq!(canvas.get(0, 5).glyph, '|');
}

#[test]
fn series_longer_than_canvas_width_is_truncated() {
    let mut g = Graph::new();
    let points: Vec<i64> = (0..100).collect();
    g.on_data_update(data_of(vec![points]));
    let mut canvas = Canvas::new(20, 20);
    // Must not write out of bounds or panic; only the first samples fit.
    g.redraw(&mut canvas);
    assert_eq!(canvas.get(0, 19).glyph, '@');
}

#[test]
fn flat_series_draws_on_baseline() {
    // All-zero samples give the flat range (0, 0); every mark lands on the
    // baseline row instead of dividing by zero.
    let mut g = Graph::new();
    g.on_data_update(data_of(vec![vec![0, 0, 0]]));
    match g.state {
        ChartState::Computed { range, .. } => assert_eq!(range, Range { min: 0, max: 0 }),
        ChartState::Empty => panic!("state should be computed"),
    }
    let mut canvas = Canvas::new(20, 20);
    g.redraw(&mut canvas);
    // Three samples, width 20: element width 5 plus a gap, so step 6.
    assert_eq!(canvas.get(0, 19).glyph, '@');
    assert_eq!(canvas.get(6, 19).glyph, '@');
    assert_eq!(canvas.get(12, 19).glyph, '@');
}

#[test]
fn zero_size_canvas_is_harmless() {
    let mut g = Graph::new();
    g.on_resize(0, 0);
    g.on_data_update(data_of(vec![vec![1, 2, 3]]));
    let mut canvas = Canvas::new(0, 0);
    g.redraw(&mut canvas);
    assert_eq!(canvas.cells.len(), 0);
}
