//! Scaling: the linear map from a data-space value to a canvas row.
//!
//! Rows are measured from the canvas top: row zero is the top row, and larger
//! values map to smaller row numbers so that a larger datum sits higher on
//! screen. This inversion is applied here and nowhere else, so every place a
//! value becomes a row uses the same convention.

use vstd::prelude::*;
use vstd::arithmetic::div_mod::lemma_div_is_ordered;
use vstd::arithmetic::mul::lemma_mul_inequality;
use crate::range::Range;

verus! {

/// Clamps a raw row number into the canvas rows `[0, h - 1]`.
pub open spec fn clamp_row(h: int, raw: int) -> int {
    if raw < 0 {
        0
    } else if raw > h - 1 {
        h - 1
    } else {
        raw
    }
}

/// The row that `to_cell_row` computes: the linear map
/// `h - (value - min) / (max - min) * h`, rounded down and clamped into
/// `[0, h - 1]`. A value at `max` lands on row zero (the top); a value at or
/// below `min` lands on the baseline row `h - 1` (the bottom). A flat range
/// (`max == min`) maps everything to the baseline rather than dividing by
/// zero, and a zero-height canvas yields row zero.
pub open spec fn row_for(value: int, min: int, max: int, h: int) -> int {
    if h <= 0 {
        0
    } else if max <= min {
        h - 1
    } else {
        clamp_row(h, h - ((value - min) * h) / (max - min))
    }
}

/// Maps a data-space value to a canvas row using the bounds of `range`.
///
/// The result is always a real row of a canvas of height `canvas_height`,
/// even for values far outside the range: the raw row is clamped before use,
/// never after, so no caller can see an out-of-bounds row.
pub fn to_cell_row(value: i64, range: Range, canvas_height: u16) -> (row: u16)
    requires
        range.wf(),
    ensures
        row as int == row_for(value as int, range.min as int, range.max as int,
            canvas_height as int),
        canvas_height > 0 ==> row < canvas_height,
{
    if canvas_height == 0 {
        return 0;
    }
    if range.max <= range.min {
        return canvas_height - 1;
    }
    if value <= range.min {
        proof {
            let num = (value - range.min) * canvas_height;
            lemma_mul_inequality(value - range.min, 0, canvas_height as int);
            lemma_div_is_ordered(num, 0, range.max - range.min);
        }
        return canvas_height - 1;
    }
    let diff: u128 = (value as i128 - range.min as i128) as u128;
    let d: u128 = (range.max as i128 - range.min as i128) as u128;
    proof {
        lemma_mul_inequality(diff as int, u64::MAX as int, canvas_height as int);
    }
    let q: u128 = diff * (canvas_height as u128) / d;
    if q == 0 {
        canvas_height - 1
    } else if q >= canvas_height as u128 {
        0
    } else {
        canvas_height - (q as u16)
    }
}

/// The scaled row is always a real row: for any value, `row_for` lies in
/// `[0, h - 1]` on a canvas of positive height `h`.
pub proof fn lemma_row_for_in_bounds(value: int, min: int, max: int, h: int)
    requires
        h > 0,
    ensures
        0 <= row_for(value, min, max, h) < h,
{
}

/// Scaling is monotonic: a larger value never lands on a larger row number,
/// for any bounds and any canvas height.
pub proof fn lemma_to_cell_row_monotonic(v1: int, v2: int, min: int, max: int, h: int)
    requires
        v1 <= v2,
    ensures
        row_for(v2, min, max, h) <= row_for(v1, min, max, h),
{
    if h > 0 && min < max {
        lemma_mul_inequality(v1 - min, v2 - min, h);
        lemma_div_is_ordered((v1 - min) * h, (v2 - min) * h, max - min);
    }
}

} // verus!
