use vstd::prelude::*;

use crate::forecast::{
    kept, reaches, some_reaches, CarbonIntensityPointEstimate, ForecastError, RightBoundary,
    WindowSpan, WindowedForecast,
};

verus! {

/// Two lookups give the same outcome: the same error, or windows that agree
/// on every boundary, every sample and both instants.
pub open spec fn same_outcome<V>(
    a: Result<WindowSpan<V>, ForecastError>,
    b: Result<WindowSpan<V>, ForecastError>,
) -> bool {
    match (a, b) {
        (Ok(x), Ok(y)) => {
            &&& x.left == y.left
            &&& x.samples@ == y.samples@
            &&& x.right == y.right
            &&& x.start == y.start
            &&& x.end == y.end
        },
        (Err(x), Err(y)) => x == y,
        _ => false,
    }
}

/// Looking up the same window twice on the same forecast gives the same
/// outcome: a lookup depends on the forecast and the index alone.
pub proof fn lemma_lookup_repeatable<V: Copy>(
    f: WindowedForecast<V>,
    index: usize,
    a: Result<WindowSpan<V>, ForecastError>,
    b: Result<WindowSpan<V>, ForecastError>,
)
    requires
        f.well_formed(),
        f.window_outcome(index as int, a),
        f.window_outcome(index as int, b),
    ensures
        same_outcome(a, b),
{
}

/// The first window begins exactly at the reference start: its left boundary
/// is estimated at that instant.
pub proof fn lemma_first_window_starts_at_start<V: Copy>(
    f: WindowedForecast<V>,
    r: Result<WindowSpan<V>, ForecastError>,
)
    requires
        f.well_formed(),
        f.window_outcome(0, r),
        r is Ok,
    ensures
        r->Ok_0.start == f.start(),
        r->Ok_0.left.at == f.start(),
{
}

/// When one window spans every stored sample, the last window ends exactly at
/// the last stored sample, which is taken as the right boundary unchanged.
pub proof fn lemma_exhausted_window_ends_at_last_sample<V: Copy>(
    f: WindowedForecast<V>,
    r: Result<WindowSpan<V>, ForecastError>,
)
    requires
        f.well_formed(),
        f.exhausted(),
        f.window_outcome(f.spec_len() - 1, r),
        r is Ok,
    ensures
        r->Ok_0.end == f.samples().last().timestamp,
        r->Ok_0.right == RightBoundary::SeriesEnd(f.samples().last()),
{
}

/// A forecast as built never spans every stored sample with one window: the
/// sample count is the position of a stored sample, so the right boundary of
/// each window is interpolated.
pub proof fn lemma_constructed_windows_interpolate<V: Copy>(f: WindowedForecast<V>)
    requires
        f.well_formed(),
    ensures
        !f.exhausted(),
        f.spec_len() >= 2,
{
}

/// A window longer than the data is refused: when no input sample lies within
/// one step of the window's end, no kept sample does, so construction fails
/// with `WindowExceedsData`.
pub proof fn lemma_window_beyond_data_refused<V>(
    data: Seq<CarbonIntensityPointEstimate<V>>,
    step: int,
    start: int,
    end: int,
)
    requires
        forall|i: int| 0 <= i < data.len() ==> #[trigger] data[i].timestamp + step < end,
    ensures
        !some_reaches(kept(data, start, end), step, end),
    decreases data.len(),
{
    if data.len() > 0 {
        let rest = data.drop_last();
        assert forall|i: int| 0 <= i < rest.len() implies #[trigger] rest[i].timestamp + step < end by {
            assert(rest[i] == data[i]);
        }
        lemma_window_beyond_data_refused(rest, step, start, end);
        let k = kept(data, start, end);
        assert forall|j: int| 0 <= j < k.len() implies !#[trigger] reaches(k[j], step, end) by {
            if j < kept(rest, start, end).len() {
                assert(!reaches(kept(rest, start, end)[j], step, end));
            } else {
                assert(data[data.len() - 1].timestamp + step < end);
            }
        }
    }
}

} // verus!
