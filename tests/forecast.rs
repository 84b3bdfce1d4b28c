use chrono::{DateTime, NaiveDate, Utc};
use windowed_forecast::forecast::{
    CarbonIntensityPointEstimate, ForecastError, RightBoundary, WindowSpan, WindowedForecast,
};
use windowed_forecast::instant::{is_valid_instant, MAX_TIMESTAMP, MIN_TIMESTAMP};

fn point(value: f64, timestamp: i64) -> CarbonIntensityPointEstimate<f64> {
    CarbonIntensityPointEstimate::new(value, timestamp)
}

fn sine_series() -> Vec<CarbonIntensityPointEstimate<f64>> {
    let d = NaiveDate::from_ymd_opt(2023, 1, 1).unwrap().and_hms_opt(0, 0, 0).unwrap().and_utc();
    let ndata = 200;
    let step = std::f64::consts::PI / (ndata as f64);
    (0..ndata)
        .map(|i| point(-1.0 * f64::sin(i as f64 * step), d.timestamp() + 60 * i))
        .collect()
}

fn interpolate(i: &windowed_forecast::forecast::Interpolation<f64>) -> (f64, i64) {
    let slope = (i.after.value - i.before.value) / (i.after.timestamp - i.before.timestamp) as f64;
    (i.before.value + slope * (i.at - i.before.timestamp) as f64, i.at)
}

fn average(w: &WindowSpan<f64>) -> f64 {
    let mut points = vec![interpolate(&w.left)];
    points.extend(w.samples.iter().map(|p| (p.value, p.timestamp)));
    points.push(match &w.right {
        RightBoundary::Interpolated(i) => interpolate(i),
        RightBoundary::SeriesEnd(p) => (p.value, p.timestamp),
    });
    let area: f64 = points
        .windows(2)
        .map(|ab| 0.5 * (ab[0].0 + ab[1].0) * (ab[1].1 - ab[0].1) as f64)
        .sum();
    area / (w.end - w.start) as f64
}

/// Samples every minute from minute 1 to minute 4, reference window of three minutes from 0.
fn small_forecast() -> WindowedForecast<f64> {
    let data = vec![point(1.0, 60), point(2.0, 120), point(4.0, 180), point(8.0, 240)];
    WindowedForecast::new(data, 3, 0).unwrap()
}

#[test]
fn test_order_by_value_lt() {
    let a = point(1.0, 500);
    let b = point(0.0, 100);
    assert!(a.value() > b.value());
}

#[test]
fn test_order_by_value_gt() {
    let a = point(0.0, 100);
    let b = point(1.0, 500);
    assert!(a.value() < b.value());
}

#[test]
fn test_order_by_value_eq() {
    let a = point(0.0, 100);
    let b = point(0.0, 900);
    assert!(a.value() == b.value());
}

#[test]
fn sine_series_keeps_only_the_reference_window() {
    let data = sine_series();
    let start = data[0].timestamp;
    let wf = WindowedForecast::new(data, 160, start).unwrap();
    // minutes 1..=159 are kept, and minute 159 is the first one step short of the end
    assert_eq!(wf.len(), 2);
}

#[test]
fn sine_series_first_window_matches_integral() {
    let data = sine_series();
    let start = data[0].timestamp;
    let wf = WindowedForecast::new(data, 160, start).unwrap();
    let step = std::f64::consts::PI / 200.0;
    let expected = ((160.0 * step).cos() - 1.0) / (160.0 * step);
    let w = wf.index(0).unwrap();
    assert_eq!(w.start, start);
    assert_eq!(w.end, start + 160 * 60);
    let actual = average(&w);
    assert!((expected - actual).abs() <= 1e-8 + 0.01 * actual.abs());
}

#[test]
fn fewer_than_two_samples_is_insufficient() {
    let none: Vec<CarbonIntensityPointEstimate<f64>> = vec![];
    assert_eq!(WindowedForecast::new(none, 10, 0).unwrap_err(), ForecastError::InsufficientData);
    let one = vec![point(1.0, 60)];
    assert_eq!(WindowedForecast::new(one, 10, 0).unwrap_err(), ForecastError::InsufficientData);
}

#[test]
fn duration_beyond_the_data_is_refused() {
    let data: Vec<_> = (0..10).map(|i| point(i as f64, 60 * i)).collect();
    assert_eq!(WindowedForecast::new(data, 60, 0).unwrap_err(), ForecastError::WindowExceedsData);
}

#[test]
fn non_positive_duration_is_refused() {
    let data: Vec<_> = (0..10).map(|i| point(i as f64, 60 * i)).collect();
    assert_eq!(WindowedForecast::new(data, 0, 0).unwrap_err(), ForecastError::WindowExceedsData);
}

#[test]
fn window_end_past_the_last_instant_is_refused() {
    let data = vec![point(1.0, MAX_TIMESTAMP - 1000), point(2.0, MAX_TIMESTAMP - 10)];
    assert_eq!(
        WindowedForecast::new(data, 1, MAX_TIMESTAMP - 30).unwrap_err(),
        ForecastError::TimestampConversionFailure
    );
}

#[test]
fn first_window_is_exact() {
    let wf = small_forecast();
    assert_eq!(wf.len(), 2);
    let w = wf.index(0).unwrap();
    assert_eq!(w.start, 0);
    assert_eq!(w.end, 180);
    assert_eq!((w.left.before.timestamp, w.left.after.timestamp, w.left.at), (60, 120, 0));
    let kept: Vec<i64> = w.samples.iter().map(|p| p.timestamp).collect();
    assert_eq!(kept, vec![60]);
    match w.right {
        RightBoundary::Interpolated(i) => {
            assert_eq!((i.before.timestamp, i.after.timestamp, i.at), (60, 120, 180));
        }
        RightBoundary::SeriesEnd(_) => panic!("right boundary should be interpolated"),
    }
    // the line through (60, 1) and (120, 2) gives 0 at 0 and 3 at 180
    assert!((average(&w) - 1.5).abs() < 1e-12);
}

#[test]
fn first_window_starts_at_reference_start() {
    let data: Vec<_> = (0..20).map(|i| point(i as f64, 1000 + 30 * i)).collect();
    let wf = WindowedForecast::new(data, 5, 1010).unwrap();
    assert_eq!(wf.index(0).unwrap().start, 1010);
}

#[test]
fn lookup_is_repeatable() {
    let wf = small_forecast();
    let a = wf.index(0).unwrap();
    let b = wf.index(0).unwrap();
    assert_eq!(format!("{:?}", a), format!("{:?}", b));
    assert_eq!(average(&a).to_bits(), average(&b).to_bits());
}

#[test]
fn windows_past_the_series_are_out_of_range() {
    let wf = small_forecast();
    assert_eq!(wf.index(1).unwrap_err(), ForecastError::IndexOutOfRange);
    assert_eq!(wf.index(7).unwrap_err(), ForecastError::IndexOutOfRange);
}

#[test]
fn next_walks_every_alignment_once() {
    let mut wf = small_forecast();
    let first = wf.next().unwrap().unwrap();
    assert_eq!(first.start, 0);
    assert_eq!(wf.next().unwrap().unwrap_err(), ForecastError::IndexOutOfRange);
    assert!(wf.next().is_none());
    assert!(wf.next().is_none());
}

#[test]
fn window_spans_the_samples_before_its_end() {
    let data: Vec<_> = (1..=10).map(|i| point(i as f64, 60 * i)).collect();
    let wf = WindowedForecast::new(data, 10, 0).unwrap();
    // minutes 1..=9 kept; minute 9 is the first one step short of minute 10
    assert_eq!(wf.len(), 2);
    let data: Vec<_> = (1..=10).map(|i| point(i as f64, 60 * i)).collect();
    let wf = WindowedForecast::new(data, 4, 0).unwrap();
    assert_eq!(wf.len(), 2);
    let w = wf.index(0).unwrap();
    assert_eq!((w.start, w.end), (0, 240));
    assert_eq!(w.samples.len(), 2);
}

#[test]
fn instant_range_matches_chrono() {
    assert_eq!(DateTime::<Utc>::MAX_UTC.timestamp(), MAX_TIMESTAMP);
    assert_eq!(DateTime::<Utc>::MIN_UTC.timestamp(), MIN_TIMESTAMP);
    assert!(is_valid_instant(MAX_TIMESTAMP as i128));
    assert!(is_valid_instant(MIN_TIMESTAMP as i128));
    assert!(!is_valid_instant(MAX_TIMESTAMP as i128 + 1));
    assert!(!is_valid_instant(MIN_TIMESTAMP as i128 - 1));
    assert!(!is_valid_instant(i128::MAX));
    assert!(is_valid_instant(0));
}

#[test]
fn windows_shift_by_the_inferred_step() {
    // the first two samples are ten minutes apart, the rest one minute apart
    let mut data = vec![point(0.0, 0), point(10.0, 600)];
    data.extend((11..30).map(|i| point(i as f64, 60 * i)));
    let wf = WindowedForecast::new(data, 20, 600).unwrap();
    // minutes 11..=29 kept; minute 20 is the first within ten minutes of minute 30
    assert_eq!(wf.len(), 11);
    let w = wf.index(1).unwrap();
    assert_eq!((w.start, w.end), (1200, 2400));
    assert_eq!((w.left.before.timestamp, w.left.after.timestamp), (720, 780));
    assert_eq!(w.samples.len(), 9);
    assert_eq!(w.samples[0].timestamp, 720);
    match w.right {
        RightBoundary::Interpolated(i) => {
            assert_eq!((i.before.timestamp, i.after.timestamp, i.at), (1200, 1260, 2400));
        }
        RightBoundary::SeriesEnd(_) => panic!("right boundary should be interpolated"),
    }
    assert_eq!(wf.index(9).unwrap().start, 600 + 9 * 600);
    assert_eq!(wf.index(10).unwrap_err(), ForecastError::IndexOutOfRange);
}
