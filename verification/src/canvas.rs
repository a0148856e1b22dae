//! The canvas: a fixed-size two-dimensional grid of styled character cells.
//!
//! The grid is stored row-major. All drawing goes through `put`, whose
//! contract describes the write cell by cell, so callers reason about
//! coordinates and never about the flat index.

use vstd::prelude::*;
use vstd::arithmetic::mul::lemma_mul_inequality;
use vstd::arithmetic::mul::lemma_mul_is_distributive_sub_other_way;
use vstd::arithmetic::mul::lemma_mul_upper_bound;

verus! {

/// The fixed four-colour palette used for bar backgrounds.
#[derive(Clone, Copy, PartialEq, Eq, Debug)]
pub enum Color {
    Blue,
    Red,
    Green,
    Yellow,
}

/// Per-cell styling: an optional foreground and an optional background
/// colour. `None` means the terminal default.
#[derive(Clone, Copy, PartialEq, Eq, Debug)]
pub struct Style {
    pub fg: Option<Color>,
    pub bg: Option<Color>,
}

/// The style with every attribute reset to the terminal default.
pub open spec fn reset_style() -> Style {
    Style { fg: None, bg: None }
}

impl Style {
    /// Builds the default style, with no colours set.
    pub fn reset() -> (r: Style)
        ensures
            r == reset_style(),
    {
        Style { fg: None, bg: None }
    }
}

/// One canvas cell: a single display character plus its style.
#[derive(Clone, Copy, PartialEq, Eq, Debug)]
pub struct Cell {
    pub glyph: char,
    pub style: Style,
}

/// The cell an untouched canvas is filled with: a space with default style.
pub open spec fn blank_cell() -> Cell {
    Cell { glyph: ' ', style: reset_style() }
}

impl Cell {
    /// Builds the blank cell.
    pub fn blank() -> (r: Cell)
        ensures
            r == blank_cell(),
    {
        Cell { glyph: ' ', style: Style::reset() }
    }
}

/// A fixed-size grid of cells, `width` columns by `height` rows, stored
/// row-major. Row zero is the top row.
#[derive(Clone, Debug, PartialEq, Eq)]
pub struct Canvas {
    pub width: u16,
    pub height: u16,
    pub cells: Vec<Cell>,
}

/// Every coordinate pair inside `[0, w) x [0, h)` indexes a real cell of a
/// row-major grid of `h * w` cells.
proof fn lemma_grid_index_bounds(w: int, h: int, x: int, y: int)
    requires
        0 <= x < w,
        0 <= y < h,
    ensures
        0 <= y * w + x < h * w,
{
    lemma_mul_inequality(y, h - 1, w);
    lemma_mul_is_distributive_sub_other_way(w, h, 1);
}

/// Distinct in-bounds coordinate pairs have distinct row-major indices.
proof fn lemma_grid_index_injective(w: int, h: int, x1: int, y1: int, x2: int, y2: int)
    requires
        0 <= x1 < w,
        0 <= y1 < h,
        0 <= x2 < w,
        0 <= y2 < h,
        !(x1 == x2 && y1 == y2),
    ensures
        y1 * w + x1 != y2 * w + x2,
{
    assert(y1 * w + x1 != y2 * w + x2) by (nonlinear_arith)
        requires
            0 <= x1 < w,
            0 <= y1 < h,
            0 <= x2 < w,
            0 <= y2 < h,
            !(x1 == x2 && y1 == y2),
    ;
}

impl Canvas {
    /// A canvas is well formed when it holds exactly one cell per coordinate.
    pub open spec fn wf(self) -> bool {
        self.cells@.len() == self.height as int * self.width as int
    }

    /// The cell at column `x`, row `y` (row zero is the top row).
    pub open spec fn cell_at(self, x: int, y: int) -> Cell {
        self.cells@[y * self.width as int + x]
    }

    /// Creates a blank canvas of the given size.
    pub fn new(width: u16, height: u16) -> (r: Canvas)
        ensures
            r.wf(),
            r.width == width,
            r.height == height,
            forall|x: int, y: int|
                0 <= x < width && 0 <= y < height ==> r.cell_at(x, y) == blank_cell(),
    {
        proof {
            lemma_mul_upper_bound(height as int, 0xFFFF, width as int, 0xFFFF);
        }
        let n: usize = height as usize * width as usize;
        let mut cells: Vec<Cell> = Vec::new();
        while cells.len() < n
            invariant
                cells@.len() <= n,
                forall|k: int| 0 <= k < cells@.len() ==> cells@[k] == blank_cell(),
            decreases n - cells@.len(),
        {
            cells.push(Cell::blank());
        }
        let r = Canvas { width, height, cells };
        proof {
            assert forall|x: int, y: int|
                0 <= x < width && 0 <= y < height implies r.cell_at(x, y) == blank_cell() by {
                lemma_grid_index_bounds(width as int, height as int, x, y);
            }
        }
        r
    }

    /// Writes one cell at an in-bounds coordinate, leaving every other cell
    /// untouched.
    pub fn put(&mut self, x: u16, y: u16, cell: Cell)
        requires
            old(self).wf(),
            x < old(self).width,
            y < old(self).height,
        ensures
            final(self).wf(),
            final(self).width == old(self).width,
            final(self).height == old(self).height,
            forall|xx: int, yy: int|
                0 <= xx < old(self).width && 0 <= yy < old(self).height ==> final(self).cell_at(
                    xx,
                    yy,
                ) == (if xx == x && yy == y {
                    cell
                } else {
                    old(self).cell_at(xx, yy)
                }),
    {
        let _n: usize = self.cells.len();
        proof {
            lemma_grid_index_bounds(self.width as int, self.height as int, x as int, y as int);
        }
        let idx: usize = y as usize * self.width as usize + x as usize;
        self.cells.set(idx, cell);
        proof {
            assert forall|xx: int, yy: int|
                0 <= xx < self.width && 0 <= yy < self.height && !(xx == x as int && yy
                    == y as int) implies self.cell_at(xx, yy) == old(self).cell_at(xx, yy) by {
                lemma_grid_index_bounds(self.width as int, self.height as int, xx, yy);
                lemma_grid_index_injective(
                    self.width as int,
                    self.height as int,
                    xx,
                    yy,
                    x as int,
                    y as int,
                );
            }
        }
    }

    /// Reads the cell at an in-bounds coordinate.
    pub fn get(&self, x: u16, y: u16) -> (r: Cell)
        requires
            self.wf(),
            x < self.width,
            y < self.height,
        ensures
            r == self.cell_at(x as int, y as int),
    {
        let _n: usize = self.cells.len();
        proof {
            lemma_grid_index_bounds(self.width as int, self.height as int, x as int, y as int);
        }
        let idx: usize = y as usize * self.width as usize + x as usize;
        self.cells[idx]
    }

    /// Resets every cell to the blank cell.
    pub fn clear(&mut self)
        requires
            old(self).wf(),
        ensures
            final(self).wf(),
            final(self).width == old(self).width,
            final(self).height == old(self).height,
            forall|x: int, y: int|
                0 <= x < old(self).width && 0 <= y < old(self).height ==> final(self).cell_at(x, y)
                    == blank_cell(),
    {
        let mut i: usize = 0;
        while i < self.cells.len()
            invariant
                old(self).wf(),
                self.width == old(self).width,
                self.height == old(self).height,
                self.cells@.len() == old(self).cells@.len(),
                i <= self.cells@.len(),
                forall|k: int| 0 <= k < i ==> self.cells@[k] == blank_cell(),
            decreases self.cells@.len() - i,
        {
            self.cells.set(i, Cell::blank());
            i += 1;
        }
        proof {
            assert forall|x: int, y: int|
                0 <= x < old(self).width && 0 <= y < old(self).height implies self.cell_at(x, y)
                == blank_cell() by {
                lemma_grid_index_bounds(self.width as int, self.height as int, x, y);
            }
        }
    }
}

} // verus!
