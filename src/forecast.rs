use vstd::prelude::*;

use crate::instant::{is_valid_instant, valid_instant, MAX_TIMESTAMP, MIN_TIMESTAMP};

verus! {

/// One measurement: a value observed at an instant (seconds since the epoch).
#[derive(Debug, Clone, Copy)]
pub struct CarbonIntensityPointEstimate<V> {
    pub value: V,
    pub timestamp: i64,
}

impl<V: Copy> CarbonIntensityPointEstimate<V> {
    pub fn new(value: V, timestamp: i64) -> (r: Self)
        ensures
            r.value == value,
            r.timestamp == timestamp,
    {
        CarbonIntensityPointEstimate { value, timestamp }
    }

    /// The key by which estimates are ranked: the value alone, never the instant.
    pub fn value(&self) -> (r: V)
        ensures
            r == self.value,
    {
        self.value
    }
}

/// Why a forecast cannot be built, or a window cannot be produced.
#[derive(Debug, Clone, Copy, PartialEq, Eq, Structural)]
pub enum ForecastError {
    /// Fewer than two samples were given, so no step can be inferred.
    InsufficientData,
    /// The samples inside the reference window do not reach its end.
    WindowExceedsData,
    /// The window needs a sample position beyond the stored series.
    IndexOutOfRange,
    /// The window spans zero seconds.
    DegenerateWindow,
    /// A computed instant lies outside the representable range.
    TimestampConversionFailure,
}

/// A value to be estimated at `at` by the straight line through `before` and `after`.
#[derive(Debug, Clone, Copy)]
pub struct Interpolation<V> {
    pub before: CarbonIntensityPointEstimate<V>,
    pub after: CarbonIntensityPointEstimate<V>,
    pub at: i64,
}

/// How a window's right boundary is obtained.
#[derive(Debug, Clone, Copy)]
pub enum RightBoundary<V> {
    /// Interpolated between the two samples around the window's end.
    Interpolated(Interpolation<V>),
    /// The window needs every stored sample: the boundary is the last one, unchanged.
    SeriesEnd(CarbonIntensityPointEstimate<V>),
}

/// One alignment of the window: its boundaries and the raw samples between them.
///
/// The time-weighted average is the trapezoidal integral over the points
/// `left`, then `samples` in order, then `right`, divided by `end - start`.
#[derive(Debug, Clone)]
pub struct WindowSpan<V> {
    pub left: Interpolation<V>,
    pub samples: Vec<CarbonIntensityPointEstimate<V>>,
    pub right: RightBoundary<V>,
    pub start: i64,
    pub end: i64,
}

/// Whether a sample lies strictly inside the open interval `(start, end)`.
pub open spec fn inside<V>(p: CarbonIntensityPointEstimate<V>, start: int, end: int) -> bool {
    start < p.timestamp && p.timestamp < end
}

/// The samples of `s` that lie strictly inside `(start, end)`, in their order.
pub open spec fn kept<V>(s: Seq<CarbonIntensityPointEstimate<V>>, start: int, end: int) -> Seq<
    CarbonIntensityPointEstimate<V>,
>
    decreases s.len(),
{
    if s.len() == 0 {
        Seq::empty()
    } else {
        let rest = kept(s.drop_last(), start, end);
        if inside(s.last(), start, end) {
            rest.push(s.last())
        } else {
            rest
        }
    }
}

/// Whether one step after `p` reaches the instant `end`.
pub open spec fn reaches<V>(p: CarbonIntensityPointEstimate<V>, step: int, end: int) -> bool {
    p.timestamp + step >= end
}

/// Whether some sample of `s` reaches `end` one step after it.
pub open spec fn some_reaches<V>(s: Seq<CarbonIntensityPointEstimate<V>>, step: int, end: int) -> bool {
    exists|j: int| 0 <= j < s.len() && #[trigger] reaches(s[j], step, end)
}

/// `n` is the first position of `s` whose sample reaches `end` one step after it.
pub open spec fn first_reaching<V>(
    s: Seq<CarbonIntensityPointEstimate<V>>,
    step: int,
    end: int,
    n: int,
) -> bool {
    &&& 0 <= n < s.len()
    &&& reaches(s[n], step, end)
    &&& forall|j: int| 0 <= j < n ==> !#[trigger] reaches(s[j], step, end)
}

/// Seconds between the earliest and the latest representable instant.
pub open spec fn instant_range() -> int {
    MAX_TIMESTAMP - MIN_TIMESTAMP
}

/// A sliding window of fixed duration over a series of samples.
///
/// Holds the samples strictly inside the reference window `(start, end)`, the
/// step inferred from the first two input samples, and the number of samples
/// that one window spans. Every window is a shift of the reference window by a
/// whole number of steps.
#[derive(Debug)]
pub struct WindowedForecast<V> {
    data: Vec<CarbonIntensityPointEstimate<V>>,
    duration: i64,
    start: i64,
    end: i64,
    ndata: usize,
    data_stepsize: i64,
    cursor: usize,
}

impl<V: Copy> WindowedForecast<V> {
    /// The stored samples: those of the input strictly inside `(start, end)`.
    pub closed spec fn samples(&self) -> Seq<CarbonIntensityPointEstimate<V>> {
        self.data@
    }

    /// Window length in minutes, as given.
    pub closed spec fn duration(&self) -> int {
        self.duration as int
    }

    /// Start of the reference window.
    pub closed spec fn start(&self) -> int {
        self.start as int
    }

    /// End of the reference window.
    pub closed spec fn end(&self) -> int {
        self.end as int
    }

    /// Seconds between consecutive samples, inferred from the first two input samples.
    pub closed spec fn step(&self) -> int {
        self.data_stepsize as int
    }

    /// Number of stored samples that one window spans.
    pub closed spec fn sample_count(&self) -> int {
        self.ndata as int
    }

    /// Index of the next window that `next` produces.
    pub closed spec fn cursor(&self) -> int {
        self.cursor as int
    }

    /// Number of window alignments.
    pub open spec fn spec_len(&self) -> int {
        self.samples().len() - self.sample_count() + 1
    }

    /// Whether the right boundary is the last stored sample rather than interpolated.
    pub open spec fn exhausted(&self) -> bool {
        self.sample_count() == self.samples().len()
    }

    pub open spec fn well_formed(&self) -> bool {
        &&& self.samples().len() < usize::MAX
        &&& valid_instant(self.start())
        &&& valid_instant(self.end())
        &&& self.end() == self.start() + 60 * self.duration()
        &&& -instant_range() <= self.step() <= instant_range()
        &&& first_reaching(self.samples(), self.step(), self.end(), self.sample_count())
        &&& forall|j: int|
            0 <= j < self.samples().len() ==> #[trigger] inside(
                self.samples()[j],
                self.start(),
                self.end(),
            )
        &&& 0 <= self.cursor() <= self.spec_len()
    }

    /// What looking up window `index` gives: the first error that applies, or exactly this window.
    pub open spec fn window_outcome(
        &self,
        index: int,
        r: Result<WindowSpan<V>, ForecastError>,
    ) -> bool {
        let d = self.samples();
        let n = self.sample_count();
        let ws = self.start() + index * self.step();
        let we = if self.exhausted() {
            d.last().timestamp as int
        } else {
            self.end() + index * self.step()
        };
        if index + 1 >= d.len() {
            r == Err::<WindowSpan<V>, ForecastError>(ForecastError::IndexOutOfRange)
        } else if !valid_instant(ws) {
            r == Err::<WindowSpan<V>, ForecastError>(ForecastError::TimestampConversionFailure)
        } else if !self.exhausted() && (index + n < 1 || index + n >= d.len()) {
            r == Err::<WindowSpan<V>, ForecastError>(ForecastError::IndexOutOfRange)
        } else if !valid_instant(we) {
            r == Err::<WindowSpan<V>, ForecastError>(ForecastError::TimestampConversionFailure)
        } else if we == ws {
            r == Err::<WindowSpan<V>, ForecastError>(ForecastError::DegenerateWindow)
        } else {
            &&& r is Ok
            &&& r->Ok_0.left == (Interpolation { before: d[index], after: d[index + 1], at: ws as i64 })
            &&& r->Ok_0.samples@ == d.subrange(
                index,
                if index + n <= d.len() {
                    index + n
                } else {
                    d.len() as int
                },
            )
            &&& r->Ok_0.right == (if self.exhausted() {
                RightBoundary::SeriesEnd(d.last())
            } else {
                RightBoundary::Interpolated(
                    Interpolation { before: d[index + n - 1], after: d[index + n], at: we as i64 },
                )
            })
            &&& r->Ok_0.start == ws
            &&& r->Ok_0.end == we
        }
    }
    /// Builds the forecast for windows of `duration` minutes, the reference
    /// window starting at `start`.
    ///
    /// The step is the gap between the first two samples; only the samples
    /// strictly inside the reference window are kept.
    pub fn new(data: Vec<CarbonIntensityPointEstimate<V>>, duration: i64, start: i64) -> (r: Result<
        Self,
        ForecastError,
    >)
        requires
            data@.len() < usize::MAX,
            valid_instant(start as int),
            forall|i: int| 0 <= i < data@.len() ==> valid_instant(#[trigger] data@[i].timestamp as int),
        ensures
            data@.len() < 2 ==> r == Err::<Self, ForecastError>(ForecastError::InsufficientData),
            data@.len() >= 2 ==> {
                let step = data@[1].timestamp - data@[0].timestamp;
                let end = start + 60 * duration;
                let s = kept(data@, start as int, end);
                &&& !some_reaches(s, step, end) ==> r == Err::<Self, ForecastError>(
                    ForecastError::WindowExceedsData,
                )
                &&& some_reaches(s, step, end) && !valid_instant(end) ==> r == Err::<
                    Self,
                    ForecastError,
                >(ForecastError::TimestampConversionFailure)
                &&& some_reaches(s, step, end) && valid_instant(end) ==> {
                    &&& r is Ok
                    &&& r->Ok_0.well_formed()
                    &&& r->Ok_0.samples() == s
                    &&& r->Ok_0.step() == step
                    &&& r->Ok_0.start() == start
                    &&& r->Ok_0.end() == end
                    &&& r->Ok_0.duration() == duration
                    &&& r->Ok_0.cursor() == 0
                    &&& first_reaching(s, step, end, r->Ok_0.sample_count())
                }
            },
    {
        if data.len() < 2 {
            return Err(ForecastError::InsufficientData);
        }
        let step: i64 = data[1].timestamp - data[0].timestamp;
        let end: i128 = start as i128 + 60 * (duration as i128);
        let mut stored: Vec<CarbonIntensityPointEstimate<V>> = Vec::new();
        let mut i: usize = 0;
        while i < data.len()
            invariant
                0 <= i <= data@.len(),
                stored@ == kept(data@.subrange(0, i as int), start as int, end as int),
                stored@.len() <= i,
            decreases data@.len() - i,
        {
            let p = data[i];
            proof {
                assert(data@.subrange(0, i + 1).drop_last() == data@.subrange(0, i as int));
            }
            if (start as i128) < (p.timestamp as i128) && (p.timestamp as i128) < end {
                stored.push(p);
            }
            i += 1;
        }
        proof {
            assert(data@.subrange(0, data@.len() as int) == data@);
            lemma_kept_inside(data@, start as int, end as int);
        }
        let mut n: usize = 0;
        while n < stored.len() && (stored[n].timestamp as i128) + (step as i128) < end
            invariant
                0 <= n <= stored@.len(),
                forall|j: int| 0 <= j < n ==> !#[trigger] reaches(stored@[j], step as int, end as int),
            decreases stored@.len() - n,
        {
            n += 1;
        }
        if n == stored.len() {
            return Err(ForecastError::WindowExceedsData);
        }
        assert(reaches(stored@[n as int], step as int, end as int));
        if !is_valid_instant(end) {
            return Err(ForecastError::TimestampConversionFailure);
        }
        Ok(WindowedForecast {
            data: stored,
            duration,
            start,
            end: end as i64,
            ndata: n,
            data_stepsize: step,
            cursor: 0,
        })
    }
    /// The window shifted by `index` steps from the reference window.
    ///
    /// Takes time in proportion to the number of samples that one window spans.
    pub fn index(&self, index: usize) -> (r: Result<WindowSpan<V>, ForecastError>)
        requires
            self.well_formed(),
        ensures
            self.window_outcome(index as int, r),
    {
        let len = self.data.len();
        if index >= len - 1 {
            return Err(ForecastError::IndexOutOfRange);
        }
        let shift: i128 = shifted(index, self.data_stepsize);
        let ws: i128 = self.start as i128 + shift;
        if !is_valid_instant(ws) {
            return Err(ForecastError::TimestampConversionFailure);
        }
        let exhausted = self.ndata == len;
        let we: i128 = if exhausted {
            self.data[len - 1].timestamp as i128
        } else {
            if (index == 0 && self.ndata == 0) || self.ndata >= len - index {
                return Err(ForecastError::IndexOutOfRange);
            }
            self.end as i128 + shift
        };
        if !is_valid_instant(we) {
            return Err(ForecastError::TimestampConversionFailure);
        }
        if we == ws {
            return Err(ForecastError::DegenerateWindow);
        }
        let left = Interpolation { before: self.data[index], after: self.data[index + 1], at: ws as i64 };
        let right = if exhausted {
            RightBoundary::SeriesEnd(self.data[len - 1])
        } else {
            RightBoundary::Interpolated(
                Interpolation {
                    before: self.data[index + self.ndata - 1],
                    after: self.data[index + self.ndata],
                    at: we as i64,
                },
            )
        };
        let hi: usize = if self.ndata <= len - index {
            index + self.ndata
        } else {
            len
        };
        let mut samples: Vec<CarbonIntensityPointEstimate<V>> = Vec::new();
        let mut k: usize = index;
        while k < hi
            invariant
                index <= k <= hi <= len,
                len == self.data@.len(),
                samples@ == self.data@.subrange(index as int, k as int),
            decreases hi - k,
        {
            proof {
                assert(self.data@.subrange(index as int, k + 1) == self.data@.subrange(
                    index as int,
                    k as int,
                ).push(self.data@[k as int]));
            }
            samples.push(self.data[k]);
            k += 1;
        }
        Ok(WindowSpan { left, samples, right, start: ws as i64, end: we as i64 })
    }

    /// Number of window alignments: stored samples, less those one window spans, plus one.
    pub fn len(&self) -> (r: usize)
        requires
            self.well_formed(),
        ensures
            r == self.spec_len(),
    {
        self.data.len() - self.ndata + 1
    }

    /// The window at the cursor, then the cursor moves one step on; `None` once
    /// every alignment has been produced.
    pub fn next(&mut self) -> (r: Option<Result<WindowSpan<V>, ForecastError>>)
        requires
            old(self).well_formed(),
        ensures
            final(self).well_formed(),
            final(self).samples() == old(self).samples(),
            final(self).step() == old(self).step(),
            final(self).sample_count() == old(self).sample_count(),
            final(self).start() == old(self).start(),
            final(self).end() == old(self).end(),
            final(self).duration() == old(self).duration(),
            old(self).cursor() < old(self).spec_len() ==> {
                &&& final(self).cursor() == old(self).cursor() + 1
                &&& r is Some
                &&& old(self).window_outcome(old(self).cursor(), r->Some_0)
            },
            old(self).cursor() >= old(self).spec_len() ==> {
                &&& final(self).cursor() == old(self).cursor()
                &&& r is None
            },
    {
        if self.cursor < self.len() {
            let result = self.index(self.cursor);
            self.cursor = self.cursor + 1;
            Some(result)
        } else {
            None
        }
    }
}

/// `index` steps of `step` seconds, exactly.
fn shifted(index: usize, step: i64) -> (r: i128)
    requires
        -instant_range() <= step <= instant_range(),
    ensures
        r == index * step,
        -0x1_0000_0000_0000_0000_0000_0000_0000 <= r <= 0x1_0000_0000_0000_0000_0000_0000_0000,
{
    proof {
        let b: int = 0x1000_0000_0000;
        let m: int = 0x1_0000_0000_0000_0000;
        assert(-m * b <= index * step <= m * b) by (nonlinear_arith)
            requires
                0 <= index <= m,
                -b <= step <= b,
        ;
    }
    (index as i128) * (step as i128)
}

/// Every kept sample lies inside the interval, and there are no more of them than samples.
proof fn lemma_kept_inside<V>(s: Seq<CarbonIntensityPointEstimate<V>>, start: int, end: int)
    ensures
        kept(s, start, end).len() <= s.len(),
        forall|j: int|
            0 <= j < kept(s, start, end).len() ==> #[trigger] inside(kept(s, start, end)[j], start, end),
    decreases s.len(),
{
    if s.len() > 0 {
        lemma_kept_inside(s.drop_last(), start, end);
    }
}

} // verus!
