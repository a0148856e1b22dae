//! The data model: an ordered sequence of numeric samples (a series) and an
//! ordered collection of series. A collection is a transient snapshot handed
//! to the chart wholesale on each data update; a series has no identity
//! beyond its position, which decides its draw order and its colour/marker
//! index.

use vstd::prelude::*;

verus! {

/// One ordered sequence of numeric samples to be charted.
#[derive(Clone, Debug)]
pub struct GraphSeries {
    pub points: Vec<i64>,
}

impl View for GraphSeries {
    type V = Seq<i64>;

    open spec fn view(&self) -> Seq<i64> {
        self.points@
    }
}

/// An ordered collection of series; replaced entirely on each data update.
#[derive(Clone, Debug)]
pub struct GraphData {
    pub series: Vec<GraphSeries>,
}

impl View for GraphData {
    type V = Seq<Seq<i64>>;

    open spec fn view(&self) -> Seq<Seq<i64>> {
        self.series@.map_values(|s: GraphSeries| s@)
    }
}

/// Length of the longest series in the collection; zero when the collection
/// is empty. The longest series governs the layout for all series, so that
/// elements of different series line up.
pub open spec fn longest_len(data: Seq<Seq<i64>>) -> int
    decreases data.len(),
{
    if data.len() == 0 {
        0
    } else {
        vstd::math::max(longest_len(data.drop_last()), data.last().len() as int)
    }
}

/// Scans the collection for the length of its longest series.
pub fn longest_series_length(data: &GraphData) -> (r: usize)
    ensures
        r as int == longest_len(data@),
{
    let mut longest: usize = 0;
    let mut i: usize = 0;
    while i < data.series.len()
        invariant
            i <= data.series.len(),
            longest as int == longest_len(data@.take(i as int)),
        decreases data.series.len() - i,
    {
        proof {
            assert(data@.take(i + 1).drop_last() =~= data@.take(i as int));
            assert(data@.take(i + 1).last() == data@[i as int]);
        }
        if data.series[i].points.len() > longest {
            longest = data.series[i].points.len();
        }
        i += 1;
    }
    proof {
        assert(data@.take(data@.len() as int) =~= data@);
    }
    longest
}

/// The built-in demonstration data set: a single series of the samples
/// zero through nine.
pub fn get_default_data_set() -> (r: GraphData)
    ensures
        r@ =~= seq![seq![0i64, 1i64, 2i64, 3i64, 4i64, 5i64, 6i64, 7i64, 8i64, 9i64]],
{
    let points: Vec<i64> = vec![0, 1, 2, 3, 4, 5, 6, 7, 8, 9];
    let series: Vec<GraphSeries> = vec![GraphSeries { points }];
    GraphData { series }
}

} // verus!
