//! Layout planning: how wide each drawn element (point column or bar) is and
//! how much blank space separates neighbouring elements, given the canvas
//! width and the length of the longest series.

use vstd::prelude::*;

verus! {

/// Derived geometry for placing marks across the canvas width.
///
/// Each element occupies `element_width` cells and is separated from the next
/// element by `gap` blank cells, so consecutive elements start `step()` cells
/// apart.
#[derive(Clone, Copy, PartialEq, Eq, Debug)]
pub struct Layout {
    pub element_width: u16,
    pub gap: u16,
}

impl Layout {
    /// A layout is well formed when elements are at least one cell wide, so
    /// that no mark silently vanishes to zero width.
    pub open spec fn wf(self) -> bool {
        self.element_width >= 1
    }

    /// Distance in cells between the left edges of consecutive elements.
    pub open spec fn step(self) -> int {
        self.element_width + self.gap
    }
}

/// The layout that `compute_layout` derives: `element_width` is the canvas
/// width divided by the longest series length, clamped below at one cell;
/// when that division leaves room (a quotient above one), one cell of the
/// element is given up as an inter-element gap.
pub open spec fn layout_spec(longest_series_length: int, canvas_width: int) -> Layout {
    if longest_series_length <= 0 {
        Layout { element_width: 1u16, gap: 0u16 }
    } else {
        let q = canvas_width / longest_series_length;
        if q > 1 {
            Layout { element_width: (q - 1) as u16, gap: 1u16 }
        } else {
            Layout { element_width: 1u16, gap: 0u16 }
        }
    }
}

/// Any planned layout is well formed: the element width is never below one
/// cell, for any series length and any canvas width a `u16` can hold.
pub proof fn lemma_layout_spec_wf(longest_series_length: int, canvas_width: int)
    requires
        0 <= canvas_width <= 0xFFFF,
    ensures
        layout_spec(longest_series_length, canvas_width).wf(),
{
    if longest_series_length > 0 {
        vstd::arithmetic::div_mod::lemma_div_pos_is_pos(canvas_width, longest_series_length);
        vstd::arithmetic::div_mod::lemma_div_nonincreasing(canvas_width, longest_series_length);
    }
}

/// Plans the horizontal layout for `longest_series_length` elements on a
/// canvas `canvas_width` cells wide.
///
/// A zero-length series collection yields the default single-cell layout and
/// is treated as "nothing to draw" downstream; the division can never be by
/// zero, and the element width is clamped to at least one cell before use, so
/// very long series degrade to one cell per element rather than zero.
pub fn compute_layout(longest_series_length: usize, canvas_width: u16) -> (r: Layout)
    ensures
        r == layout_spec(longest_series_length as int, canvas_width as int),
        r.wf(),
{
    if longest_series_length == 0 {
        Layout { element_width: 1, gap: 0 }
    } else {
        let q: usize = canvas_width as usize / longest_series_length;
        proof {
            vstd::arithmetic::div_mod::lemma_div_nonincreasing(
                canvas_width as int,
                longest_series_length as int,
            );
        }
        if q > 1 {
            Layout { element_width: (q - 1) as u16, gap: 1 }
        } else {
            Layout { element_width: 1, gap: 0 }
        }
    }
}

} // verus!
