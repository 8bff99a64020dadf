use std::time::Duration;

use dbg_rs::metrics::StopPathMetrics;

#[test]
fn a_hundred_latencies_have_their_percentiles() {
    let mut metrics = StopPathMetrics::default();
    for latency_us in 1..=100 {
        metrics.record_micros(latency_us, 2);
    }
    let snap = metrics.snapshot();
    assert_eq!(snap.samples, 100);
    assert_eq!(snap.min_us, 1);
    assert_eq!(snap.p50_us, 50);
    assert_eq!(snap.p95_us, 95);
    assert_eq!(snap.p99_us, 99);
    assert_eq!(snap.max_us, 100);
    assert!((f64::from_bits(snap.mean_us_bits) - 50.5).abs() < 1e-9);
    assert_eq!(snap.total_ptrace_calls, 200);
}

#[test]
fn nothing_recorded_is_all_zero() {
    let snap = StopPathMetrics::default().snapshot();
    assert_eq!(snap.samples, 0);
    assert_eq!((snap.min_us, snap.p50_us, snap.p95_us), (0, 0, 0));
    assert_eq!((snap.p99_us, snap.max_us, snap.mean_us_bits), (0, 0, 0));
    assert_eq!(snap.total_ptrace_calls, 0);
}

#[test]
fn a_latency_below_a_microsecond_counts_as_one() {
    let mut metrics = StopPathMetrics::default();
    metrics.record_micros(0, 1);
    let snap = metrics.snapshot();
    assert_eq!((snap.samples, snap.min_us, snap.max_us), (1, 1, 1));
    assert_eq!(f64::from_bits(snap.mean_us_bits), 1.0);
}

#[test]
fn large_latencies_keep_three_digits() {
    let mut metrics = StopPathMetrics::default();
    metrics.record_micros(5001, 0);
    let snap = metrics.snapshot();
    assert_eq!(snap.min_us, 5000);
    assert_eq!(snap.p50_us, 5003);
    assert_eq!(snap.max_us, 5003);
    metrics.record_micros(2047, 0);
    assert_eq!(metrics.snapshot().min_us, 2047);
}

#[test]
fn a_latency_beyond_the_histogram_is_not_counted() {
    let mut metrics = StopPathMetrics::default();
    metrics.record_micros(67_108_864, 5);
    metrics.record_micros(u128::MAX, 5);
    assert_eq!(metrics.snapshot().samples, 0);
    assert_eq!(metrics.snapshot().total_ptrace_calls, 0);
    metrics.record_micros(67_108_863, 5);
    assert_eq!(metrics.snapshot().samples, 1);
    assert_eq!(metrics.snapshot().max_us, 67_108_863);
    metrics.record_micros(60_000_000, 1);
    assert_eq!(metrics.snapshot().samples, 2);
    assert_eq!(metrics.snapshot().total_ptrace_calls, 6);
}

#[test]
fn ptrace_calls_do_not_overflow() {
    let mut metrics = StopPathMetrics::default();
    metrics.record_micros(10, u64::MAX - 1);
    metrics.record_micros(10, 7);
    assert_eq!(metrics.snapshot().total_ptrace_calls, u64::MAX);
}

#[test]
fn a_duration_counts_in_whole_microseconds() {
    let mut metrics = StopPathMetrics::default();
    metrics.record(Duration::from_nanos(1_234_999), 3);
    let snap = metrics.snapshot();
    assert_eq!((snap.samples, snap.min_us, snap.max_us), (1, 1234, 1234));
    assert_eq!(f64::from_bits(snap.mean_us_bits), 1234.0);
    assert_eq!(snap.total_ptrace_calls, 3);
    metrics.record(Duration::from_nanos(999), 0);
    assert_eq!(metrics.snapshot().min_us, 1);
    metrics.record(Duration::MAX, 9);
    assert_eq!(metrics.snapshot().samples, 2);
    assert_eq!(metrics.snapshot().total_ptrace_calls, 3);
}
