use spiel::state::{DownloadPerfSample, PerfSample, PerfState};
use spiel::stats::{max_of, mean_of, p50_of, p95_of, sort_u64, sum_of};

fn sample(total: u64, outcome: &str) -> PerfSample {
    PerfSample {
        wall_time_ms: 0,
        capture_ms: total / 4,
        transcribe_ms: total / 2,
        insert_ms: total / 8,
        total_ms: total,
        audio_samples: 16_000,
        text_chars: 10,
        outcome: outcome.to_string(),
    }
}

#[test]
fn order_statistics_on_known_values() {
    let v = [50, 10, 40, 20, 30];
    assert_eq!(sort_u64(&v), vec![10, 20, 30, 40, 50]);
    assert_eq!(sum_of(&v), 150);
    assert_eq!(mean_of(&v), 30);
    assert_eq!(max_of(&v), 50);
    assert_eq!(p50_of(&v), 30);
    // ceil(5 * 0.95) - 1 = 4
    assert_eq!(p95_of(&v), 50);
    assert_eq!(mean_of(&[]), 0);
    assert_eq!(p95_of(&[]), 0);
    assert_eq!(max_of(&[]), 0);
}

#[test]
fn p95_index_of_twenty_samples() {
    let v: Vec<u64> = (1..=20).collect();
    // ceil(20 * 0.95) - 1 = 18
    assert_eq!(p95_of(&v), 19);
    assert_eq!(p50_of(&v), 10);
}

#[test]
fn mean_does_not_overflow() {
    let v = [u64::MAX, u64::MAX];
    assert_eq!(mean_of(&v), u64::MAX);
}

#[test]
fn profiling_switch_and_budget() {
    let p = PerfState::new(Some(" yes "), Some("100"));
    let s = p.perf_snapshot();
    assert!(s.enabled);
    assert_eq!(s.budget_ms, 500);
    let p = PerfState::new(Some("no"), None);
    let s = p.perf_snapshot();
    assert!(!s.enabled);
    assert_eq!(s.budget_ms, 8_000);
    let p = PerfState::new(None, Some("999999"));
    assert_eq!(p.perf_snapshot().budget_ms, 120_000);
}

#[test]
fn disabled_profiling_keeps_nothing() {
    let mut p = PerfState::new(None, None);
    assert!(!p.record_perf_sample_at(sample(100_000, "pasted"), 5));
    assert_eq!(p.perf_snapshot().sample_count, 0);
}

#[test]
fn snapshot_aggregates_samples() {
    let mut p = PerfState::new(Some("1"), Some("1000"));
    assert!(!p.record_perf_sample_at(sample(400, "pasted"), 7));
    assert!(p.record_perf_sample_at(sample(1600, "clipboard_only"), 8));
    assert!(!p.record_perf_sample_at(sample(800, "insert_error"), 9));
    p.record_download_sample_at(
        DownloadPerfSample {
            wall_time_ms: 3,
            total_ms: 2000,
            downloaded_bytes: 10,
            expected_bytes: Some(10),
            outcome: "ok".into(),
        },
        11,
    );
    let s = p.perf_snapshot();
    assert_eq!(s.sample_count, 3);
    assert_eq!(s.average_total_ms, 933);
    assert_eq!(s.p50_total_ms, 800);
    assert_eq!(s.p95_total_ms, 1600);
    assert_eq!(s.max_total_ms, 1600);
    assert_eq!(s.over_budget_count, 1);
    assert_eq!(s.average_capture_ms, (100 + 400 + 200) / 3);
    assert_eq!(s.pasted_count, 1);
    assert_eq!(s.clipboard_only_count, 1);
    assert_eq!(s.insert_error_count, 1);
    assert_eq!(s.download_sample_count, 1);
    assert_eq!(s.average_download_ms, 2000);
    assert_eq!(s.p95_download_ms, 2000);
    assert_eq!(s.max_download_ms, 2000);
    let last = s.last.unwrap();
    assert_eq!(last.total_ms, 800);
    assert_eq!(last.wall_time_ms, 9);
    assert_eq!(s.last_download.unwrap().wall_time_ms, 3);
}

#[test]
fn sample_window_keeps_the_newest_128() {
    let mut p = PerfState::new(Some("TRUE"), None);
    for i in 0..130u64 {
        p.record_perf_sample_at(sample(i + 1, "pasted"), 1);
    }
    let s = p.perf_snapshot();
    assert_eq!(s.sample_count, 128);
    assert_eq!(s.last.unwrap().total_ms, 130);
    // the two oldest (1 and 2) left the window
    assert_eq!(s.p50_total_ms, 3 + 63);
    p.clear_perf_samples();
    let s = p.perf_snapshot();
    assert_eq!(s.sample_count, 0);
    assert!(s.last.is_none());
    assert!(s.enabled);
}
