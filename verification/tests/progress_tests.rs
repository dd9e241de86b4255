use hutao_installer::progress::{
    ProgressCounter, StreamProgress, Throttle, SEGMENT_INTERVAL_MS, SINGLE_STREAM_INTERVAL_MS,
};

#[test]
fn intervals_match_the_two_paths() {
    assert_eq!(SINGLE_STREAM_INTERVAL_MS, 20);
    assert_eq!(SEGMENT_INTERVAL_MS, 100);
}

#[test]
fn counter_accumulates() {
    let mut c = ProgressCounter::new();
    c.record(10);
    c.record(0);
    c.record(32);
    assert_eq!(c.total, 42);
}

#[test]
fn throttle_fires_only_after_interval() {
    let mut t = Throttle::new(100, 1000);
    assert!(!t.poll(1050));
    assert!(t.poll(1100));
    assert!(!t.poll(1150));
    assert!(t.poll(1200));
}

#[test]
fn throttle_ignores_a_clock_running_backwards() {
    let mut t = Throttle::new(100, 1000);
    assert!(!t.poll(900));
    assert!(t.poll(1100));
}

#[test]
fn observed_progress_is_non_decreasing() {
    let mut p = StreamProgress::new(100, 0);
    let mut observed: Vec<u64> = Vec::new();
    let chunks = [5u64, 10, 1, 0, 7, 100, 3];
    let mut now = 0u64;
    for (i, &n) in chunks.iter().enumerate() {
        now += if i % 2 == 0 { 60 } else { 160 };
        if let Some(v) = p.on_chunk(n, now) {
            observed.push(v);
        }
    }
    observed.push(p.finish());
    for w in observed.windows(2) {
        assert!(w[0] <= w[1]);
    }
    let total: u64 = chunks.iter().sum();
    assert_eq!(*observed.last().unwrap(), total);
}

#[test]
fn terminal_progress_is_always_reported() {
    let mut p = StreamProgress::new(1000, 0);
    assert_eq!(p.on_chunk(123, 1), None);
    assert_eq!(p.finish(), 123);
}

#[test]
fn due_chunk_reports_running_total() {
    let mut p = StreamProgress::new(10, 0);
    assert_eq!(p.on_chunk(50, 20), Some(50));
    assert_eq!(p.on_chunk(25, 21), None);
    assert_eq!(p.on_chunk(25, 40), Some(100));
}
