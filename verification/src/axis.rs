//! The axis renderer: optional cosmetic axis lines, independent of data
//! scaling.
//!
//! If present, the x-axis character runs along the full width of the bottom
//! row and the y-axis character along the full height of column zero; the
//! y axis is drawn second, so it wins the bottom-left corner. Axes are drawn
//! before the data, a fixed choice, so data marks are never obscured by an
//! axis line.

use vstd::prelude::*;
use crate::canvas::{Canvas, Cell, Style, reset_style};

verus! {

/// The cell the axis pass leaves at `(x, y)` on a `w` by `h` canvas whose
/// previous content there was `base`: the y-axis character on column zero,
/// otherwise the x-axis character on the bottom row, otherwise `base`.
pub open spec fn axis_at(
    x_axis: Option<char>,
    y_axis: Option<char>,
    w: int,
    h: int,
    base: Cell,
    x: int,
    y: int,
) -> Cell {
    match y_axis {
        Some(yc) => {
            if x == 0 {
                Cell { glyph: yc, style: reset_style() }
            } else {
                x_axis_at(x_axis, h, base, y)
            }
        },
        None => x_axis_at(x_axis, h, base, y),
    }
}

/// The cell the x-axis alone leaves at row `y`: the axis character on the
/// bottom row, otherwise `base`.
pub open spec fn x_axis_at(x_axis: Option<char>, h: int, base: Cell, y: int) -> Cell {
    match x_axis {
        Some(xc) => {
            if y == h - 1 {
                Cell { glyph: xc, style: reset_style() }
            } else {
                base
            }
        },
        None => base,
    }
}

/// Draws the horizontal axis line across the full width of the bottom row.
fn draw_x_axis(canvas: &mut Canvas, value: char)
    requires
        old(canvas).wf(),
    ensures
        final(canvas).wf(),
        final(canvas).width == old(canvas).width,
        final(canvas).height == old(canvas).height,
        forall|x: int, y: int|
            0 <= x < old(canvas).width && 0 <= y < old(canvas).height ==> #[trigger] final(canvas).cell_at(x, y) == (if y == old(canvas).height - 1 {
                (Cell { glyph: value, style: reset_style() })
            } else {
                old(canvas).cell_at(x, y)
            }),
{
    let w = canvas.width;
    let h = canvas.height;
    if h == 0 {
        return;
    }
    let cell = Cell { glyph: value, style: Style::reset() };
    let mut x: u16 = 0;
    while x < w
        invariant
            canvas.wf(),
            canvas.width == w,
            canvas.height == h,
            old(canvas).wf(),
            old(canvas).width == w,
            old(canvas).height == h,
            h > 0,
            x <= w,
            forall|xx: int, yy: int|
                0 <= xx < w && 0 <= yy < h ==> #[trigger] canvas.cell_at(xx, yy) == (if yy == h - 1
                    && xx < x {
                    cell
                } else {
                    old(canvas).cell_at(xx, yy)
                }),
        decreases w - x,
    {
        canvas.put(x, h - 1, cell);
        x += 1;
    }
}

/// Draws the vertical axis line down the full height of column zero.
fn draw_y_axis(canvas: &mut Canvas, value: char)
    requires
        old(canvas).wf(),
    ensures
        final(canvas).wf(),
        final(canvas).width == old(canvas).width,
        final(canvas).height == old(canvas).height,
        forall|x: int, y: int|
            0 <= x < old(canvas).width && 0 <= y < old(canvas).height ==> #[trigger] final(canvas).cell_at(x, y) == (if x == 0 {
                (Cell { glyph: value, style: reset_style() })
            } else {
                old(canvas).cell_at(x, y)
            }),
{
    let w = canvas.width;
    let h = canvas.height;
    if w == 0 {
        return;
    }
    let cell = Cell { glyph: value, style: Style::reset() };
    let mut y: u16 = 0;
    while y < h
        invariant
            canvas.wf(),
            canvas.width == w,
            canvas.height == h,
            old(canvas).wf(),
            old(canvas).width == w,
            old(canvas).height == h,
            w > 0,
            y <= h,
            forall|xx: int, yy: int|
                0 <= xx < w && 0 <= yy < h ==> #[trigger] canvas.cell_at(xx, yy) == (if xx == 0
                    && yy < y {
                    cell
                } else {
                    old(canvas).cell_at(xx, yy)
                }),
        decreases h - y,
    {
        canvas.put(0, y, cell);
        y += 1;
    }
}

/// Draws the configured axis lines: the x axis along the bottom row, then
/// the y axis down column zero, each only if its character is present.
pub fn draw_axis(canvas: &mut Canvas, x_axis: Option<char>, y_axis: Option<char>)
    requires
        old(canvas).wf(),
    ensures
        final(canvas).wf(),
        final(canvas).width == old(canvas).width,
        final(canvas).height == old(canvas).height,
        forall|x: int, y: int|
            0 <= x < old(canvas).width && 0 <= y < old(canvas).height ==> #[trigger] final(canvas).cell_at(x, y) == axis_at(x_axis, y_axis, old(canvas).width as int,
                old(canvas).height as int, old(canvas).cell_at(x, y), x, y),
{
    match x_axis {
        None => {},
        Some(value) => {
            draw_x_axis(canvas, value);
        },
    }
    match y_axis {
        None => {},
        Some(value) => {
            draw_y_axis(canvas, value);
        },
    }
}

} // verus!
