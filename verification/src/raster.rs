//! The rasterizer: the chart-type-specific drawing algorithms that write
//! styled characters into canvas cells.
//!
//! Both algorithms place the mark for sample `j` of a series starting at
//! column `j * (element_width + gap)`; marks past the right edge of the
//! canvas are not drawn. A point chart puts one marker character per sample
//! on the sample's scaled row; a bar chart fills the whole element-wide
//! column span from the scaled row down to (not including) the baseline row
//! `height - 1` with blank cells on a coloured background. Series are drawn
//! in collection order, so a later series overdraws an earlier one where
//! they meet.
//!
//! The contracts below describe the result cell by cell: `paint_at` says
//! which cell, if any, the chart paints at a coordinate, and each drawing
//! function promises exactly that and leaves every other cell untouched.

use vstd::prelude::*;
use vstd::arithmetic::div_mod::lemma_fundamental_div_mod;
use vstd::arithmetic::div_mod::lemma_fundamental_div_mod_converse;
use vstd::arithmetic::div_mod::lemma_mod_bound;
use vstd::arithmetic::mul::lemma_mul_inequality;
use vstd::arithmetic::mul::lemma_mul_is_commutative;
use vstd::arithmetic::mul::lemma_mul_is_distributive_add_other_way;
use crate::canvas::{Canvas, Cell, Color, Style, reset_style};
use crate::layout::Layout;
use crate::range::Range;
use crate::scale::{row_for, to_cell_row};
use crate::series::{GraphData, GraphSeries};

verus! {

/// The closed set of chart kinds the rasterizer can draw.
#[derive(Clone, Copy, PartialEq, Eq, Debug)]
pub enum ChartType {
    Point,
    Bar,
}

/// Relies on `str`'s `PartialEq`: two string slices compare equal exactly
/// when their characters are equal.
pub assume_specification[ <str as PartialEq>::eq ](s: &str, other: &str) -> (res: bool)
    ensures
        res == (s@ == other@),
;

/// The chart type a configuration name selects: `"bar"` selects the bar
/// chart and every other name falls back to the default point chart.
pub open spec fn chart_type_from_name(name: Seq<char>) -> ChartType {
    if name == "bar"@ {
        ChartType::Bar
    } else {
        ChartType::Point
    }
}

impl ChartType {
    /// Resolves a configuration string to a chart type, falling back to
    /// `Point` for any unknown name.
    pub fn from_name(name: &str) -> (r: ChartType)
        ensures
            r == chart_type_from_name(name@),
    {
        if name.eq("bar") {
            ChartType::Bar
        } else {
            ChartType::Point
        }
    }
}

/// ASCII lower-casing of a single character; non-ASCII-uppercase characters
/// pass through unchanged.
pub open spec fn lower_char(c: char) -> char {
    if 65 <= c as u32 <= 90 {
        (((c as u32) + 32) as u8) as char
    } else {
        c
    }
}

/// Lower-cases one ASCII character.
fn to_ascii_lower(c: char) -> (r: char)
    ensures
        r == lower_char(c),
{
    let u = c as u32;
    if 65 <= u && u <= 90 {
        ((u + 32) as u8) as char
    } else {
        c
    }
}

/// The marker character a series draws with: its index into the marker set,
/// wrapping around when the set is shorter than the series count, and
/// case-normalized to lower case. An empty marker set falls back to the
/// default marker `'@'`.
pub open spec fn marker_spec(markers: Seq<char>, index: int) -> char {
    if markers.len() == 0 {
        '@'
    } else {
        lower_char(markers[index % (markers.len() as int)])
    }
}

/// Picks the marker for the series at `index`, wrapping the index into the
/// marker set rather than comparing against its length, so no index can
/// reach past the end.
pub fn determine_marker(markers: &Vec<char>, index: usize) -> (r: char)
    ensures
        r == marker_spec(markers@, index as int),
{
    if markers.len() == 0 {
        '@'
    } else {
        to_ascii_lower(markers[index % markers.len()])
    }
}

/// The background colour a bar series draws with: the series index modulo
/// four over the fixed four-colour palette.
pub open spec fn bar_colour_spec(index: int) -> Color {
    if index % 4 == 0 {
        Color::Blue
    } else if index % 4 == 1 {
        Color::Red
    } else if index % 4 == 2 {
        Color::Green
    } else {
        Color::Yellow
    }
}

/// Assigns a bar series its deterministic palette colour by index.
pub fn get_bar_colour(index: usize) -> (r: Color)
    ensures
        r == bar_colour_spec(index as int),
{
    match index % 4 {
        0 => Color::Blue,
        1 => Color::Red,
        2 => Color::Green,
        _ => Color::Yellow,
    }
}

/// Whether one of the first `bound` samples of a point series puts its
/// marker on cell `(x, y)` of a `w` by `h` canvas: the column must be the
/// start of the sample's element and the row the sample's scaled row.
pub open spec fn point_hit_upto(
    points: Seq<i64>,
    range: Range,
    layout: Layout,
    w: int,
    h: int,
    bound: int,
    x: int,
    y: int,
) -> bool {
    &&& 0 <= x < w
    &&& x % layout.step() == 0
    &&& x / layout.step() < bound
    &&& x / layout.step() < points.len()
    &&& y == row_for(points[x / layout.step()] as int, range.min as int, range.max as int, h)
}

/// Whether a point series puts its marker on cell `(x, y)`.
pub open spec fn point_hit(
    points: Seq<i64>,
    range: Range,
    layout: Layout,
    w: int,
    h: int,
    x: int,
    y: int,
) -> bool {
    point_hit_upto(points, range, layout, w, h, points.len() as int, x, y)
}

/// Whether one of the first `bound` samples of a bar series fills cell
/// `(x, y)`: the column must lie in the sample's element-wide span and the
/// row between the sample's scaled row and the baseline row `h - 1`.
pub open spec fn bar_hit_upto(
    points: Seq<i64>,
    range: Range,
    layout: Layout,
    w: int,
    h: int,
    bound: int,
    x: int,
    y: int,
) -> bool {
    &&& 0 <= x < w
    &&& x % layout.step() < layout.element_width
    &&& x / layout.step() < bound
    &&& x / layout.step() < points.len()
    &&& row_for(points[x / layout.step()] as int, range.min as int, range.max as int, h) <= y < h - 1
}

/// Whether a bar series fills cell `(x, y)`.
pub open spec fn bar_hit(
    points: Seq<i64>,
    range: Range,
    layout: Layout,
    w: int,
    h: int,
    x: int,
    y: int,
) -> bool {
    bar_hit_upto(points, range, layout, w, h, points.len() as int, x, y)
}

/// Whether one series of the given chart type draws on cell `(x, y)`.
pub open spec fn series_hit(
    chart_type: ChartType,
    points: Seq<i64>,
    range: Range,
    layout: Layout,
    w: int,
    h: int,
    x: int,
    y: int,
) -> bool {
    match chart_type {
        ChartType::Point => point_hit(points, range, layout, w, h, x, y),
        ChartType::Bar => bar_hit(points, range, layout, w, h, x, y),
    }
}

/// The cell the series at `index` draws with: its marker on the default
/// style for a point chart, a blank on the series' palette colour for a bar
/// chart.
pub open spec fn series_cell(chart_type: ChartType, markers: Seq<char>, index: int) -> Cell {
    match chart_type {
        ChartType::Point => Cell { glyph: marker_spec(markers, index), style: reset_style() },
        ChartType::Bar => Cell {
            glyph: ' ',
            style: Style { fg: None, bg: Some(bar_colour_spec(index)) },
        },
    }
}

/// The cell, if any, that the first `k` series paint at `(x, y)`. Series
/// are drawn in order, so of all series that hit the cell, the last one
/// wins.
pub open spec fn paint_at(
    chart_type: ChartType,
    data: Seq<Seq<i64>>,
    markers: Seq<char>,
    range: Range,
    layout: Layout,
    w: int,
    h: int,
    k: int,
    x: int,
    y: int,
) -> Option<Cell>
    decreases k,
{
    if k <= 0 {
        None
    } else if series_hit(chart_type, data[k - 1], range, layout, w, h, x, y) {
        Some(series_cell(chart_type, markers, k - 1))
    } else {
        paint_at(chart_type, data, markers, range, layout, w, h, k - 1, x, y)
    }
}

/// The painted cell where the chart paints one, the base cell elsewhere.
pub open spec fn painted_or(paint: Option<Cell>, base: Cell) -> Cell {
    match paint {
        Some(c) => c,
        None => base,
    }
}

/// A column made of `j` whole steps plus an offset shorter than a step
/// decomposes uniquely: the element index is `j` and the in-element offset
/// is the remainder.
proof fn lemma_div_mod_exact(j: int, r: int, step: int)
    requires
        0 <= j,
        0 <= r < step,
    ensures
        (j * step + r) / step == j,
        (j * step + r) % step == r,
{
    lemma_fundamental_div_mod_converse(j * step + r, step, j, r);
}

/// Draws one series as a point chart: one `marker` character per sample at
/// the start column of the sample's element, on the sample's scaled row.
/// Marks past the right canvas edge are not drawn; every cell the series
/// does not hit keeps its previous content.
pub fn draw_point_graph(
    points: &GraphSeries,
    range: Range,
    layout: Layout,
    marker: char,
    canvas: &mut Canvas,
)
    requires
        old(canvas).wf(),
        range.wf(),
        layout.wf(),
    ensures
        final(canvas).wf(),
        final(canvas).width == old(canvas).width,
        final(canvas).height == old(canvas).height,
        forall|x: int, y: int|
            0 <= x < old(canvas).width && 0 <= y < old(canvas).height ==> #[trigger] final(canvas).cell_at(
                x,
                y,
            ) == (if point_hit(points@, range, layout, old(canvas).width as int,
                old(canvas).height as int, x, y) {
                (Cell { glyph: marker, style: reset_style() })
            } else {
                old(canvas).cell_at(x, y)
            }),
{
    let w = canvas.width;
    let h = canvas.height;
    if h == 0 {
        return;
    }
    let cell = Cell { glyph: marker, style: Style::reset() };
    let step: u32 = layout.element_width as u32 + layout.gap as u32;
    let mut j: usize = 0;
    let mut x: u32 = 0;
    while j < points.points.len() && x < w as u32
        invariant
            canvas.wf(),
            canvas.width == w,
            canvas.height == h,
            old(canvas).wf(),
            old(canvas).width == w,
            old(canvas).height == h,
            h > 0,
            range.wf(),
            layout.wf(),
            step as int == layout.step(),
            j <= points@.len(),
            x as int == j * (step as int),
            cell == (Cell { glyph: marker, style: reset_style() }),
            forall|xx: int, yy: int|
                0 <= xx < w && 0 <= yy < h ==> #[trigger] canvas.cell_at(xx, yy) == (if point_hit_upto(
                    points@,
                    range,
                    layout,
                    w as int,
                    h as int,
                    j as int,
                    xx,
                    yy,
                ) {
                    cell
                } else {
                    old(canvas).cell_at(xx, yy)
                }),
        decreases points@.len() - j,
    {
        let row = to_cell_row(points.points[j], range, h);
        canvas.put(x as u16, row, cell);
        proof {
            lemma_div_mod_exact(j as int, 0, step as int);
            assert forall|xx: int, yy: int| 0 <= xx < w && 0 <= yy < h implies #[trigger] canvas.cell_at(
                xx,
                yy,
            ) == (if point_hit_upto(points@, range, layout, w as int, h as int, j + 1, xx, yy) {
                cell
            } else {
                old(canvas).cell_at(xx, yy)
            }) by {
                lemma_fundamental_div_mod(xx, step as int);
                lemma_mul_is_commutative(step as int, j as int);
            }
        }
        j += 1;
        proof {
            lemma_mul_is_distributive_add_other_way(step as int, j - 1, 1);
        }
        x += step;
    }
    proof {
        if j < points@.len() {
            assert forall|xx: int, yy: int|
                0 <= xx < w && 0 <= yy < h && point_hit(
                    points@,
                    range,
                    layout,
                    w as int,
                    h as int,
                    xx,
                    yy,
                ) implies point_hit_upto(
                points@,
                range,
                layout,
                w as int,
                h as int,
                j as int,
                xx,
                yy,
            ) by {
                lemma_fundamental_div_mod(xx, step as int);
                if j as int <= xx / (step as int) {
                    lemma_mul_inequality(j as int, xx / (step as int), step as int);
                }
            }
        }
    }
}

/// Draws one series as a bar chart: for each sample, fills the element-wide
/// column span from the sample's scaled row down to (not including) the
/// baseline row `height - 1` with blank cells in `style`. Columns past the
/// right canvas edge are not drawn; every cell the series does not fill
/// keeps its previous content.
pub fn draw_bar_graph(
    points: &GraphSeries,
    range: Range,
    layout: Layout,
    style: Style,
    canvas: &mut Canvas,
)
    requires
        old(canvas).wf(),
        range.wf(),
        layout.wf(),
    ensures
        final(canvas).wf(),
        final(canvas).width == old(canvas).width,
        final(canvas).height == old(canvas).height,
        forall|x: int, y: int|
            0 <= x < old(canvas).width && 0 <= y < old(canvas).height ==> #[trigger] final(canvas).cell_at(
                x,
                y,
            ) == (if bar_hit(points@, range, layout, old(canvas).width as int,
                old(canvas).height as int, x, y) {
                (Cell { glyph: ' ', style })
            } else {
                old(canvas).cell_at(x, y)
            }),
{
    let w = canvas.width;
    let h = canvas.height;
    if h <= 1 {
        return;
    }
    let cell = Cell { glyph: ' ', style };
    let step: u32 = layout.element_width as u32 + layout.gap as u32;
    let mut j: usize = 0;
    let mut x: u32 = 0;
    while j < points.points.len() && x < w as u32
        invariant
            canvas.wf(),
            canvas.width == w,
            canvas.height == h,
            old(canvas).wf(),
            old(canvas).width == w,
            old(canvas).height == h,
            h >= 2,
            range.wf(),
            layout.wf(),
            step as int == layout.step(),
            j <= points@.len(),
            x as int == j * (step as int),
            forall|xx: int, yy: int|
                0 <= xx < w && 0 <= yy < h ==> #[trigger] canvas.cell_at(xx, yy) == (if bar_hit_upto(
                    points@,
                    range,
                    layout,
                    w as int,
                    h as int,
                    j as int,
                    xx,
                    yy,
                ) {
                    cell
                } else {
                    old(canvas).cell_at(xx, yy)
                }),
        decreases points@.len() - j,
    {
        let row = to_cell_row(points.points[j], range, h);
        let mut c: u32 = 0;
        while c < layout.element_width as u32 && x + c < w as u32
            invariant
                canvas.wf(),
                canvas.width == w,
                canvas.height == h,
                old(canvas).wf(),
                old(canvas).width == w,
                old(canvas).height == h,
                h >= 2,
                range.wf(),
                layout.wf(),
                step as int == layout.step(),
                j < points@.len(),
                x as int == j * (step as int),
                x < w as u32,
                row as int == row_for(points@[j as int] as int, range.min as int, range.max as int,
                    h as int),
                row < h,
                c <= layout.element_width,
                x + c <= w as u32,
                forall|xx: int, yy: int|
                    0 <= xx < w && 0 <= yy < h ==> #[trigger] canvas.cell_at(xx, yy) == (if bar_hit_upto(
                        points@,
                        range,
                        layout,
                        w as int,
                        h as int,
                        j as int,
                        xx,
                        yy,
                    ) || (x <= xx < x + c && row <= yy < h - 1) {
                        cell
                    } else {
                        old(canvas).cell_at(xx, yy)
                    }),
            decreases layout.element_width - c,
        {
            let col = x + c;
            let mut yy: u16 = row;
            while yy < h - 1
                invariant
                    canvas.wf(),
                    canvas.width == w,
                    canvas.height == h,
                    old(canvas).wf(),
                    old(canvas).width == w,
                    old(canvas).height == h,
                    h >= 2,
                    range.wf(),
                    layout.wf(),
                    step as int == layout.step(),
                    j < points@.len(),
                    x as int == j * (step as int),
                    row as int == row_for(points@[j as int] as int, range.min as int, range.max as int,
                        h as int),
                    row <= yy <= h - 1,
                    c < layout.element_width,
                    col == x + c,
                    col < w as u32,
                    forall|xx: int, y2: int|
                        0 <= xx < w && 0 <= y2 < h ==> #[trigger] canvas.cell_at(xx, y2) == (if bar_hit_upto(
                            points@,
                            range,
                            layout,
                            w as int,
                            h as int,
                            j as int,
                            xx,
                            y2,
                        ) || (x <= xx < x + c && row <= y2 < h - 1) || (xx == col && row <= y2
                            < yy) {
                            cell
                        } else {
                            old(canvas).cell_at(xx, y2)
                        }),
                decreases h - 1 - yy,
            {
                canvas.put(col as u16, yy, cell);
                yy += 1;
            }
            c += 1;
        }
        proof {
            assert forall|xx: int, y2: int| 0 <= xx < w && 0 <= y2 < h implies #[trigger] canvas.cell_at(
                xx,
                y2,
            ) == (if bar_hit_upto(points@, range, layout, w as int, h as int, j + 1, xx, y2) {
                cell
            } else {
                old(canvas).cell_at(xx, y2)
            }) by {
                lemma_fundamental_div_mod(xx, step as int);
                lemma_mod_bound(xx, step as int);
                lemma_mul_is_commutative(step as int, j as int);
                if x <= xx < x + c {
                    lemma_div_mod_exact(j as int, xx - x, step as int);
                }
            }
        }
        j += 1;
        proof {
            lemma_mul_is_distributive_add_other_way(step as int, j - 1, 1);
        }
        x += step;
    }
    proof {
        if j < points@.len() {
            assert forall|xx: int, yy: int|
                0 <= xx < w && 0 <= yy < h && bar_hit(
                    points@,
                    range,
                    layout,
                    w as int,
                    h as int,
                    xx,
                    yy,
                ) implies bar_hit_upto(
                points@,
                range,
                layout,
                w as int,
                h as int,
                j as int,
                xx,
                yy,
            ) by {
                lemma_fundamental_div_mod(xx, step as int);
                lemma_mod_bound(xx, step as int);
                if j as int <= xx / (step as int) {
                    lemma_mul_inequality(j as int, xx / (step as int), step as int);
                }
            }
        }
    }
}

/// Draws every series of the collection in order, dispatching on the chart
/// type: point series get their marker from the marker set by series index,
/// bar series their palette colour. Where several series hit one cell the
/// last series drawn wins; cells no series hits keep their previous
/// content.
pub fn draw_data_points(
    data: &GraphData,
    layout: Layout,
    range: Range,
    canvas: &mut Canvas,
    chart_type: ChartType,
    markers: &Vec<char>,
)
    requires
        old(canvas).wf(),
        range.wf(),
        layout.wf(),
    ensures
        final(canvas).wf(),
        final(canvas).width == old(canvas).width,
        final(canvas).height == old(canvas).height,
        forall|x: int, y: int|
            0 <= x < old(canvas).width && 0 <= y < old(canvas).height ==> #[trigger] final(canvas).cell_at(
                x,
                y,
            ) == painted_or(
                paint_at(chart_type, data@, markers@, range, layout, old(canvas).width as int,
                    old(canvas).height as int, data@.len() as int, x, y),
                old(canvas).cell_at(x, y),
            ),
{
    let w = canvas.width;
    let h = canvas.height;
    let mut si: usize = 0;
    while si < data.series.len()
        invariant
            canvas.wf(),
            canvas.width == w,
            canvas.height == h,
            old(canvas).wf(),
            old(canvas).width == w,
            old(canvas).height == h,
            range.wf(),
            layout.wf(),
            si <= data@.len(),
            forall|x: int, y: int|
                0 <= x < w && 0 <= y < h ==> #[trigger] canvas.cell_at(x, y) == painted_or(
                    paint_at(chart_type, data@, markers@, range, layout, w as int, h as int,
                        si as int, x, y),
                    old(canvas).cell_at(x, y),
                ),
        decreases data@.len() - si,
    {
        let ghost prev = *canvas;
        match chart_type {
            ChartType::Point => {
                let marker = determine_marker(markers, si);
                draw_point_graph(&data.series[si], range, layout, marker, canvas);
            },
            ChartType::Bar => {
                let colour = get_bar_colour(si);
                draw_bar_graph(
                    &data.series[si],
                    range,
                    layout,
                    Style { fg: None, bg: Some(colour) },
                    canvas,
                );
            },
        }
        proof {
            assert forall|x: int, y: int| 0 <= x < w && 0 <= y < h implies #[trigger] canvas.cell_at(x, y)
                == painted_or(
                paint_at(chart_type, data@, markers@, range, layout, w as int, h as int,
                    si + 1, x, y),
                old(canvas).cell_at(x, y),
            ) by {
                assert(paint_at(chart_type, data@, markers@, range, layout, w as int, h as int,
                    si + 1, x, y) == (if series_hit(chart_type, data@[si as int], range, layout,
                    w as int, h as int, x, y) {
                    Some(series_cell(chart_type, markers@, si as int))
                } else {
                    paint_at(chart_type, data@, markers@, range, layout, w as int, h as int,
                        si as int, x, y)
                }));
            }
        }
        si += 1;
    }
}

} // verus!
