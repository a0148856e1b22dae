use chartgrid::axis::draw_axis;
use chartgrid::canvas::{Canvas, Cell, Color, Style};
use chartgrid::cpus::{Cpus, CpusMessage, CpusState};
use chartgrid::layout::{Layout, compute_layout};
use chartgrid::range::{Range, compute_range};
use chartgrid::raster::{ChartType, determine_marker, get_bar_colour};
use chartgrid::scale::to_cell_row;
use chartgrid::series::{GraphData, GraphSeries, get_default_data_set, longest_series_length};
use chartgrid::threads::{ThreadMessage, Threads, ThreadsState};

fn data_of(series: Vec<Vec<i64>>) -> GraphData {
    GraphData { series: series.into_iter().map(|points| GraphSeries { points }).collect() }
}

#[test]
fn layout_reserves_a_gap_when_there_is_room() {
    assert_eq!(compute_layout(10, 20), Layout { element_width: 1, gap: 1 });
    assert_eq!(compute_layout(1, 20), Layout { element_width: 19, gap: 1 });
    assert_eq!(compute_layout(20, 20), Layout { element_width: 1, gap: 0 });
}

#[test]
fn layout_element_width_never_below_one() {
    assert_eq!(compute_layout(1000, 5).element_width, 1);
    assert_eq!(compute_layout(21, 20).element_width, 1);
    assert_eq!(compute_layout(0, 20), Layout { element_width: 1, gap: 0 });
    assert_eq!(compute_layout(3, 0).element_width, 1);
}

#[test]
fn scaling_is_linear_and_inverted() {
    let r = Range { min: 0, max: 9 };
    assert_eq!(to_cell_row(9, r, 20), 0);
    assert_eq!(to_cell_row(0, r, 20), 19);
    assert_eq!(to_cell_row(5, r, 20), 9);
}

#[test]
fn scaling_clamps_out_of_range_values() {
    let r = Range { min: 0, max: 9 };
    assert_eq!(to_cell_row(1000, r, 20), 0);
    assert_eq!(to_cell_row(-5, r, 20), 19);
    assert_eq!(to_cell_row(i64::MAX, r, 20), 0);
    assert_eq!(to_cell_row(i64::MIN, r, 20), 19);
}

#[test]
fn scaling_is_monotonically_non_increasing() {
    let r = Range { min: -3, max: 14 };
    let mut previous = to_cell_row(-5, r, 20);
    for v in -4..20 {
        let row = to_cell_row(v, r, 20);
        assert!(row <= previous);
        previous = row;
    }
}

#[test]
fn scaling_handles_degenerate_inputs() {
    // A flat range maps everything to the baseline row.
    assert_eq!(to_cell_row(7, Range { min: 0, max: 0 }, 20), 19);
    assert_eq!(to_cell_row(0, Range { min: 5, max: 5 }, 8), 7);
    // A zero-height canvas yields row zero rather than underflowing.
    assert_eq!(to_cell_row(3, Range { min: 0, max: 9 }, 0), 0);
    // A one-row canvas has only the baseline.
    assert_eq!(to_cell_row(3, Range { min: 0, max: 9 }, 1), 0);
}

#[test]
fn range_is_anchored_at_zero() {
    assert_eq!(compute_range(&data_of(vec![vec![50, 60]])), Range { min: 0, max: 60 });
    assert_eq!(compute_range(&data_of(vec![vec![-5, -2]])), Range { min: -5, max: 0 });
    assert_eq!(compute_range(&data_of(vec![vec![-5, 3], vec![7]])), Range { min: -5, max: 7 });
}

#[test]
fn empty_collection_has_empty_range() {
    assert_eq!(compute_range(&data_of(vec![])), Range { min: 0, max: 0 });
    assert_eq!(compute_range(&data_of(vec![vec![], vec![]])), Range { min: 0, max: 0 });
}

#[test]
fn longest_series_governs() {
    assert_eq!(longest_series_length(&data_of(vec![vec![1, 2], vec![1, 2, 3], vec![1]])), 3);
    assert_eq!(longest_series_length(&data_of(vec![])), 0);
}

#[test]
fn default_data_set_is_zero_through_nine() {
    let d = get_default_data_set();
    assert_eq!(d.series.len(), 1);
    assert_eq!(d.series[0].points, vec![0, 1, 2, 3, 4, 5, 6, 7, 8, 9]);
}

#[test]
fn chart_type_names_fall_back_to_point() {
    assert_eq!(ChartType::from_name("bar"), ChartType::Bar);
    assert_eq!(ChartType::from_name("point"), ChartType::Point);
    assert_eq!(ChartType::from_name("Bar"), ChartType::Point);
    assert_eq!(ChartType::from_name(""), ChartType::Point);
}

#[test]
fn markers_wrap_and_lowercase() {
    let set = vec!['@', 'A'];
    assert_eq!(determine_marker(&set, 0), '@');
    assert_eq!(determine_marker(&set, 1), 'a');
    assert_eq!(determine_marker(&set, 2), '@');
    assert_eq!(determine_marker(&vec!['Z'], 7), 'z');
    assert_eq!(determine_marker(&vec![], 3), '@');
}

#[test]
fn bar_colours_cycle_over_the_palette() {
    assert_eq!(get_bar_colour(0), Color::Blue);
    assert_eq!(get_bar_colour(1), Color::Red);
    assert_eq!(get_bar_colour(2), Color::Green);
    assert_eq!(get_bar_colour(3), Color::Yellow);
    assert_eq!(get_bar_colour(4), Color::Blue);
}

#[test]
fn axes_run_full_width_and_height() {
    let mut canvas = Canvas::new(5, 4);
    draw_axis(&mut canvas, Some('-'), Some('|'));
    for x in 1..5 {
        assert_eq!(canvas.get(x, 3).glyph, '-');
    }
    for y in 0..4 {
        assert_eq!(canvas.get(0, y).glyph, '|');
    }
    assert_eq!(canvas.get(2, 1).glyph, ' ');
}

#[test]
fn absent_axes_draw_nothing() {
    let mut canvas = Canvas::new(5, 4);
    let before = canvas.clone();
    draw_axis(&mut canvas, None, None);
    assert_eq!(canvas, before);
}

#[test]
fn canvas_put_and_get_round_trip() {
    let mut canvas = Canvas::new(3, 2);
    let cell = Cell { glyph: 'x', style: Style { fg: Some(Color::Green), bg: None } };
    canvas.put(2, 1, cell);
    assert_eq!(canvas.get(2, 1), cell);
    assert_eq!(canvas.get(0, 0).glyph, ' ');
    assert_eq!(canvas.get(2, 0).glyph, ' ');
}

#[test]
fn canvas_clear_blanks_every_cell() {
    let mut canvas = Canvas::new(3, 3);
    let cell = Cell { glyph: 'x', style: Style { fg: None, bg: Some(Color::Red) } };
    canvas.put(1, 1, cell);
    canvas.clear();
    for x in 0..3 {
        for y in 0..3 {
            assert_eq!(canvas.get(x, y), Cell { glyph: ' ', style: Style { fg: None, bg: None } });
        }
    }
}

#[test]
fn cpus_store_count_and_usage() {
    let mut cpus = Cpus {};
    let mut state = CpusState { cpu_count: 0, cpu_usage: vec![] };
    cpus.on_message(CpusMessage { cpu_usage: vec![1550, 200, 9975] }, &mut state);
    assert_eq!(state.cpu_count, 3);
    assert_eq!(state.cpu_usage, vec![1550, 200, 9975]);
}

#[test]
fn threads_store_count_and_load() {
    let mut threads = Threads {};
    let mut state = ThreadsState { thread_count: 0, threads: vec![] };
    threads.on_message(ThreadMessage { thread_info: vec![100, 200] }, &mut state);
    assert_eq!(state.thread_count, 2);
    assert_eq!(state.threads, vec![100, 200]);
}
