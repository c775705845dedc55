use brain_coordinator::companion::default_observation_config;
use brain_coordinator::observation_loop::ObservationLoop;
use brain_coordinator::meminfo::parse_mem_value;
use brain_coordinator::sources::{time_bucket_of, ChangeDetector, DesktopSource, SystemSource, TimeSource};

#[test]
fn test_change_detector_rejects_duplicates() {
    let mut detector = ChangeDetector::new();
    assert!(detector.is_changed("test", "hello"));
    assert!(!detector.is_changed("test", "hello"));
    assert!(detector.is_changed("test", "world"));
    assert_eq!(detector.skipped_count(), 1);
}

#[test]
fn test_change_detector_per_source_separate() {
    let mut detector = ChangeDetector::new();
    assert!(detector.is_changed("a", "same"));
    assert!(detector.is_changed("b", "same"));
    assert!(!detector.is_changed("a", "same"));
    assert!(!detector.is_changed("b", "same"));
}

#[test]
fn reset_skipped_clears_count() {
    let mut detector = ChangeDetector::new();
    detector.is_changed("x", "1");
    detector.is_changed("x", "1");
    assert_eq!(detector.skipped_count(), 1);
    detector.reset_skipped();
    assert_eq!(detector.skipped_count(), 0);
}

#[test]
fn time_bucket_of_epoch_offsets() {
    assert_eq!(time_bucket_of(0), (0, 0));
    assert_eq!(time_bucket_of(86_400 + 3 * 3600 + 5), (1, 3));
}

#[test]
fn time_source_reports_bucket_changes_only() {
    let mut t = TimeSource::new();
    assert!(t.observe_bucket(1, 9).is_some());
    assert!(t.observe_bucket(1, 9).is_none());
    assert!(t.observe_bucket(1, 10).is_some());
}

#[test]
fn desktop_source_reports_new_summaries() {
    let mut d = DesktopSource::new();
    assert_eq!(d.observe_summary("a".to_string()), Some("a".to_string()));
    assert_eq!(d.observe_summary("a".to_string()), None);
    assert_eq!(d.observe_summary("b".to_string()), Some("b".to_string()));
}

#[test]
fn system_source_first_reading_reports() {
    let mut s = SystemSource::new();
    assert!(s.observe_keys(10, 20));
    assert!(!s.observe_keys(10, 20));
}

#[test]
fn parse_mem_value_reads_second_word() {
    let data = "MemTotal:       16384000 kB\nMemFree:         1024 kB\nMemAvailable:    8192000 kB\n";
    assert_eq!(parse_mem_value(data, "MemTotal:"), Some(16384000));
    assert_eq!(parse_mem_value(data, "MemAvailable:"), Some(8192000));
    assert_eq!(parse_mem_value(data, "SwapTotal:"), None);
}

#[test]
fn parse_mem_value_first_matching_line_decides() {
    assert_eq!(parse_mem_value("Mem: x kB\nMem: 5 kB", "Mem:"), None);
    assert_eq!(parse_mem_value("Mem:\nMem: 5", "Mem:"), None);
    assert_eq!(parse_mem_value("Other: 1\r\nMem: +7 kB\r\n", "Mem:"), Some(7));
}

#[test]
fn parse_mem_value_rejects_out_of_range() {
    assert_eq!(parse_mem_value("Big: 18446744073709551616", "Big:"), None);
    assert_eq!(parse_mem_value("Big: 18446744073709551615", "Big:"), Some(u64::MAX));
    assert_eq!(parse_mem_value("", ""), None);
}

#[test]
fn observation_loop_filters_repeats_per_source() {
    let mut l = ObservationLoop::new(default_observation_config(30));
    l.register("time");
    l.register("system");
    assert_eq!(l.process_observation("time", "morning".to_string()), Some("morning".to_string()));
    assert_eq!(l.process_observation("system", "load 1".to_string()), Some("load 1".to_string()));
    assert_eq!(l.process_observation("time", "morning".to_string()), None);
    assert_eq!(l.process_observation("system", "load 1".to_string()), None);
    let info = l.debug_info();
    assert_eq!(info.total_observations, 2);
    assert_eq!(info.total_skipped, 2);
    assert_eq!(info.history.len(), 4);
}
