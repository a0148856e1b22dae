//! Range calculation: the data-space bounds used for vertical scaling.
//!
//! Both bounds start at zero and only grow: the maximum upward, the minimum
//! downward. Zero is therefore always inside the range — a deliberate,
//! documented limitation (an all-positive series far from zero keeps its
//! baseline at zero, and the range of an all-negative series still reaches up
//! to zero) that downstream code depends on for the baseline position.

use vstd::prelude::*;
use crate::series::GraphData;

verus! {

/// Data-space `(min, max)` bounds used to scale samples to cell rows.
#[derive(Clone, Copy, PartialEq, Eq, Debug)]
pub struct Range {
    pub min: i64,
    pub max: i64,
}

impl Range {
    pub open spec fn wf(self) -> bool {
        self.min <= self.max
    }
}

/// The smallest sample of one series, capped above at zero.
pub open spec fn series_min(s: Seq<i64>) -> int
    decreases s.len(),
{
    if s.len() == 0 {
        0
    } else {
        vstd::math::min(series_min(s.drop_last()), s.last() as int)
    }
}

/// The largest sample of one series, capped below at zero.
pub open spec fn series_max(s: Seq<i64>) -> int
    decreases s.len(),
{
    if s.len() == 0 {
        0
    } else {
        vstd::math::max(series_max(s.drop_last()), s.last() as int)
    }
}

/// The smallest sample of the whole collection, capped above at zero.
pub open spec fn data_min(data: Seq<Seq<i64>>) -> int
    decreases data.len(),
{
    if data.len() == 0 {
        0
    } else {
        vstd::math::min(data_min(data.drop_last()), series_min(data.last()))
    }
}

/// The largest sample of the whole collection, capped below at zero.
pub open spec fn data_max(data: Seq<Seq<i64>>) -> int
    decreases data.len(),
{
    if data.len() == 0 {
        0
    } else {
        vstd::math::max(data_max(data.drop_last()), series_max(data.last()))
    }
}

/// The bounds of one series always bracket zero, since both start there.
pub proof fn lemma_series_bounds(s: Seq<i64>)
    ensures
        series_min(s) <= 0 <= series_max(s),
    decreases s.len(),
{
    if s.len() > 0 {
        lemma_series_bounds(s.drop_last());
    }
}

/// The bounds of a collection always bracket zero, since both start there.
pub proof fn lemma_data_bounds(data: Seq<Seq<i64>>)
    ensures
        data_min(data) <= 0 <= data_max(data),
    decreases data.len(),
{
    if data.len() > 0 {
        lemma_data_bounds(data.drop_last());
    }
}

/// Scans every sample of every series and returns the data-space bounds.
///
/// An empty collection yields `Range { min: 0, max: 0 }`, which downstream
/// code treats as "nothing drawable" rather than dividing by zero.
pub fn compute_range(data: &GraphData) -> (r: Range)
    ensures
        r.min as int == data_min(data@),
        r.max as int == data_max(data@),
        r.min <= 0 <= r.max,
        r.wf(),
{
    let mut mn: i64 = 0;
    let mut mx: i64 = 0;
    let mut i: usize = 0;
    while i < data.series.len()
        invariant
            i <= data.series.len(),
            mn as int == data_min(data@.take(i as int)),
            mx as int == data_max(data@.take(i as int)),
            mn <= 0 <= mx,
        decreases data.series.len() - i,
    {
        let mut j: usize = 0;
        while j < data.series[i].points.len()
            invariant
                i < data.series.len(),
                j <= data.series[i as int].points.len(),
                mn as int == vstd::math::min(
                    data_min(data@.take(i as int)),
                    series_min(data@[i as int].take(j as int)),
                ),
                mx as int == vstd::math::max(
                    data_max(data@.take(i as int)),
                    series_max(data@[i as int].take(j as int)),
                ),
                mn <= 0 <= mx,
            decreases data.series[i as int].points.len() - j,
        {
            proof {
                assert(data@[i as int].take(j + 1).drop_last() =~= data@[i as int].take(j as int));
                assert(data@[i as int].take(j + 1).last() == data@[i as int][j as int]);
            }
            let v = data.series[i].points[j];
            if v < mn {
                mn = v;
            }
            if v > mx {
                mx = v;
            }
            j += 1;
        }
        proof {
            assert(data@[i as int].take(data@[i as int].len() as int) =~= data@[i as int]);
            assert(data@.take(i + 1).drop_last() =~= data@.take(i as int));
            assert(data@.take(i + 1).last() == data@[i as int]);
        }
        i += 1;
    }
    proof {
        assert(data@.take(data@.len() as int) =~= data@);
    }
    Range { min: mn, max: mx }
}

} // verus!
