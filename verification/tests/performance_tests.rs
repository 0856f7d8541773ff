use meeting_summarizer::performance::PerformanceTracker;
use meeting_summarizer::utils::LlmUtils;
use meeting_summarizer::LlmConfig;

#[test]
fn test_performance_tracker() {
    let mut tracker = PerformanceTracker::new(0);

    // A chunk that ran from 0 ms to 10 ms and covered 1000 characters.
    let start = tracker.start_chunk(0);
    tracker.end_chunk(start, 10, 1000);

    // An endpoint call that ran from 10 ms to 15 ms and succeeded.
    let start = tracker.start_api_call(10);
    tracker.end_api_call(start, 15, true);

    let metrics = tracker.get_metrics(15);
    assert_eq!(metrics.chunk_count, 1);
    assert_eq!(metrics.api_calls, 1);
    assert_eq!(metrics.failed_api_calls, 0);
    assert_eq!(metrics.total_characters_processed, 1000);
    assert!(metrics.total_duration_ms >= 15);
}

#[test]
fn test_failed_api_call() {
    let mut tracker = PerformanceTracker::new(0);

    let start = tracker.start_api_call(0);
    tracker.end_api_call(start, 0, false);

    let metrics = tracker.get_metrics(0);
    assert_eq!(metrics.failed_api_calls, 1);
}

#[test]
fn test_custom_metrics() {
    let mut tracker = PerformanceTracker::new(0);
    tracker.record_metric("test_operation", 100);

    assert!(tracker.get_metric("test_operation").is_some());
    assert_eq!(tracker.get_metric("test_operation"), Some(100));
}

#[test]
fn test_metric_overwrite_keeps_other_keys() {
    let mut tracker = PerformanceTracker::new(0);
    tracker.record_metric("alpha", 1);
    tracker.record_metric("beta", 2);
    tracker.record_metric("alpha", 3);
    assert_eq!(tracker.get_metric("alpha"), Some(3));
    assert_eq!(tracker.get_metric("beta"), Some(2));
    assert_eq!(tracker.get_metric("gamma"), None);
}

#[test]
fn test_metrics_extremes_and_average() {
    let mut tracker = PerformanceTracker::new(0);
    tracker.end_chunk(0, 10, 5);
    tracker.end_chunk(10, 40, 5);
    tracker.end_chunk(40, 60, 5);
    let metrics = tracker.get_metrics(100);
    assert_eq!(metrics.fastest_chunk_ms, 10);
    assert_eq!(metrics.slowest_chunk_ms, 30);
    assert_eq!(metrics.average_chunk_time_ms, 20);
    assert_eq!(metrics.characters_per_second, 150);
}

#[test]
fn test_estimate_chunks() {
    assert_eq!(LlmUtils::estimate_chunks("", 1000), 0);
    assert_eq!(LlmUtils::estimate_chunks("short", 1000), 1);

    let long_text = "a".repeat(5000);
    let chunks = LlmUtils::estimate_chunks(&long_text, 1000);
    assert!(chunks >= 5 && chunks <= 6); // Should be around 5-6 chunks
}

#[test]
fn test_estimate_processing_time() {
    let config = LlmConfig::default();
    let short_text = "short text";
    let time = LlmUtils::estimate_processing_time(short_text, &config);

    // Should be base time for 1 chunk + final summary
    assert!(time >= 90); // 30 + 60 seconds minimum
}

#[test]
fn test_estimate_memory_usage() {
    let config = LlmConfig::default();
    let text = "test";
    let usage = LlmUtils::estimate_memory_usage(text, &config);

    assert!(usage > 50 * 1024 * 1024); // Should be more than base memory
}
