use netstrat::scheduler::{LoadError, PageScheduler, SamplingInterval, TimeWindow};

const MINUTE: i64 = 60_000;
const DAY: i64 = 86_400_000;

fn build(start: i64, end: i64, interval: SamplingInterval, limit: usize) -> PageScheduler {
    PageScheduler::new(TimeWindow { start, end }, interval, limit).expect("valid load")
}

#[test]
fn empty_window_is_rejected() {
    let w = TimeWindow { start: 5_000, end: 5_000 };
    let r = PageScheduler::new(w, SamplingInterval::Minute, 100);
    assert_eq!(r, Err(LoadError::InvalidWindow));
}

#[test]
fn reversed_window_is_rejected() {
    let w = TimeWindow { start: 10_000, end: 5_000 };
    let r = PageScheduler::new(w, SamplingInterval::Hour, 100);
    assert_eq!(r, Err(LoadError::InvalidWindow));
}

#[test]
fn zero_limit_is_rejected() {
    let w = TimeWindow { start: 0, end: MINUTE };
    let r = PageScheduler::new(w, SamplingInterval::Minute, 0);
    assert_eq!(r, Err(LoadError::InvalidWindow));
}

#[test]
fn window_of_exactly_one_full_page() {
    // 100 minutes at one sample per minute, 100 samples per page.
    let mut s = build(0, 100 * MINUTE, SamplingInterval::Minute, 100);
    assert_eq!(s.total_samples, 100);
    assert_eq!(s.total_pages, 1);
    assert_eq!(s.last_page_limit, 100);
    assert!(s.is_last_page());
    assert_eq!(s.current_page_limit(), 100);
    // Progress jumps straight from none to all.
    let before = s.progress();
    assert_eq!((before.pages_received, before.pages_total), (0, 1));
    assert!(!s.is_finished());
    s.advance();
    let after = s.progress();
    assert_eq!((after.pages_received, after.pages_total), (1, 1));
    assert!(s.is_finished());
}

#[test]
fn partial_last_page_has_the_remainder() {
    // 250 samples at 100 per page: three pages of 100, 100 and 50.
    let mut s = build(0, 250 * MINUTE, SamplingInterval::Minute, 100);
    assert_eq!(s.total_samples, 250);
    assert_eq!(s.total_pages, 3);
    assert_eq!(s.last_page_limit, 50);
    let mut fetched = 0;
    let mut page_limits = Vec::new();
    while !s.is_finished() {
        page_limits.push(s.current_page_limit());
        fetched += s.current_page_limit();
        s.advance();
    }
    assert_eq!(page_limits, vec![100, 100, 50]);
    // The per-page limits cover the window's sample count exactly.
    assert_eq!(fetched, s.total_samples);
}

#[test]
fn left_edge_walks_the_window_in_order() {
    // 5 samples, 2 per page: pages start at 0, 2 and 4 sampling steps.
    let start = 1_000;
    let mut s = build(start, start + 5 * MINUTE, SamplingInterval::Minute, 2);
    assert_eq!(s.total_samples, 5);
    assert_eq!(s.total_pages, 3);
    assert_eq!(s.last_page_limit, 1);
    let mut edges = Vec::new();
    while !s.is_finished() {
        edges.push(s.left_edge());
        s.advance();
    }
    assert_eq!(edges, vec![start, start + 2 * MINUTE, start + 4 * MINUTE]);
    // Strictly increasing, within the window.
    for pair in edges.windows(2) {
        assert!(pair[0] < pair[1]);
    }
    assert!(edges.iter().all(|e| *e >= start && *e < start + 5 * MINUTE));
}

#[test]
fn narrow_window_still_needs_one_sample() {
    let s = build(0, 1, SamplingInterval::Day, 10);
    assert_eq!(s.total_samples, 1);
    assert_eq!(s.total_pages, 1);
    assert_eq!(s.last_page_limit, 1);
}

#[test]
fn day_interval_rounds_up() {
    // Two and a half days at one sample per day: three samples.
    let s = build(0, 2 * DAY + DAY / 2, SamplingInterval::Day, 2);
    assert_eq!(s.total_samples, 3);
    assert_eq!(s.total_pages, 2);
    assert_eq!(s.last_page_limit, 1);
}

#[test]
fn hour_interval_counts_hours() {
    let s = build(0, 48 * 3_600_000, SamplingInterval::Hour, 500);
    assert_eq!(s.total_samples, 48);
    assert_eq!(s.total_pages, 1);
    assert_eq!(s.last_page_limit, 48);
}
