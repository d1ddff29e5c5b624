use active_window_watcher::accumulator::MinuteAccumulator;
use active_window_watcher::key::normalize_exec_name;
use active_window_watcher::key::normalize_title;
use active_window_watcher::key::window_key;
use active_window_watcher::watcher::Sample;

fn sample(title: &str, exec_name: &str) -> Sample {
    Sample { title: title.to_string(), executable_name: exec_name.to_string() }
}

#[test]
fn key_for_empty_title_and_exec_uses_both_sentinels() {
    assert_eq!(window_key("", ""), "<untitled>-<unknown-exec>");
}

#[test]
fn key_for_empty_exec_keeps_title() {
    assert_eq!(window_key("Editor", ""), "Editor-<unknown-exec>");
}

#[test]
fn key_for_empty_title_keeps_exec() {
    assert_eq!(window_key("", "code.exe"), "<untitled>-code.exe");
}

#[test]
fn key_joins_nonempty_fields_with_hyphen() {
    assert_eq!(window_key("Editor", "code.exe"), "Editor-code.exe");
}

#[test]
fn normalization_substitutes_sentinels_only_when_empty() {
    assert_eq!(normalize_title(""), "<untitled>");
    assert_eq!(normalize_title("Editor"), "Editor");
    assert_eq!(normalize_exec_name(""), "<unknown-exec>");
    assert_eq!(normalize_exec_name("code.exe"), "code.exe");
}

#[test]
fn identical_samples_aggregate_under_one_key() {
    let mut acc = MinuteAccumulator::new();
    let n = 7;
    for _ in 0..n {
        let events = acc.tick(Some(sample("Editor", "code.exe")), 0);
        assert!(events.window_active.is_some());
        assert!(events.minute_summary.is_none());
    }
    assert_eq!(acc.seconds_for("Editor", "code.exe"), n);
    assert_eq!(acc.total_secs_so_far(), n);
    assert_eq!(acc.window_count(), 1);
}

#[test]
fn failed_ticks_are_skipped() {
    let mut acc = MinuteAccumulator::new();
    // 10 ticks, 4 of them fail.
    for i in 0..10 {
        if i % 5 == 1 || i % 5 == 3 {
            acc.tick(None, 0);
        } else {
            acc.tick(Some(sample("Editor", "code.exe")), 0);
        }
    }
    assert_eq!(acc.total_secs_so_far(), 6);
    let summary = acc.flush();
    assert_eq!(summary.total_secs, 6);
    let count_sum: u64 = summary.by_title_app.iter().map(|p| p.1).sum();
    assert_eq!(count_sum, 6);
}

#[test]
fn failure_tick_emits_nothing_and_keeps_totals() {
    let mut acc = MinuteAccumulator::new();
    acc.tick(Some(sample("Editor", "code.exe")), 0);
    let before = acc.total_secs_so_far();
    let events = acc.tick(None, 0);
    assert!(events.window_active.is_none());
    assert!(events.minute_summary.is_none());
    assert_eq!(acc.total_secs_so_far(), before);
    assert_eq!(acc.seconds_for("Editor", "code.exe"), 1);
}

#[test]
fn minute_flush_reports_state_before_reset() {
    let mut acc = MinuteAccumulator::new();
    for _ in 0..3 {
        acc.tick(Some(sample("Editor", "code.exe")), 10);
    }
    acc.tick(Some(sample("Browser", "firefox")), 30);
    // 60 elapsed seconds reached: this tick both records and flushes.
    let events = acc.tick(Some(sample("Browser", "firefox")), 60);
    let summary = events.minute_summary.expect("flush expected at 60s");
    assert_eq!(summary.total_secs, 5);
    let mut entries = summary.by_title_app.clone();
    entries.sort();
    assert_eq!(
        entries,
        vec![
            ("Browser-firefox".to_string(), 2),
            ("Editor-code.exe".to_string(), 3),
        ]
    );
    // The accumulator is observably empty for the next tick.
    assert_eq!(acc.total_secs_so_far(), 0);
    assert_eq!(acc.window_count(), 0);
    assert_eq!(acc.seconds_for("Editor", "code.exe"), 0);
}

#[test]
fn no_flush_strictly_before_sixty_seconds() {
    let mut acc = MinuteAccumulator::new();
    let events = acc.tick(Some(sample("Editor", "code.exe")), 59);
    assert!(events.minute_summary.is_none());
    assert_eq!(acc.total_secs_so_far(), 1);
}

#[test]
fn flush_fires_on_failure_tick_too() {
    let mut acc = MinuteAccumulator::new();
    acc.tick(Some(sample("Editor", "code.exe")), 0);
    let events = acc.tick(None, 72);
    let summary = events.minute_summary.expect("flush expected past 60s");
    assert_eq!(summary.total_secs, 1);
    assert_eq!(summary.by_title_app, vec![("Editor-code.exe".to_string(), 1)]);
    assert_eq!(acc.total_secs_so_far(), 0);
    assert_eq!(acc.window_count(), 0);
}

#[test]
fn payload_keeps_raw_title_but_normalizes_exec_name() {
    let mut acc = MinuteAccumulator::new();
    let events = acc.tick(Some(sample("My App", "")), 0);
    let payload = events.window_active.expect("successful sample emits an event");
    assert_eq!(payload.title, "My App");
    assert_eq!(payload.app_name, Some("<unknown-exec>".to_string()));
}

#[test]
fn payload_title_is_raw_even_when_empty() {
    let mut acc = MinuteAccumulator::new();
    let events = acc.tick(Some(sample("", "code.exe")), 0);
    let payload = events.window_active.expect("successful sample emits an event");
    assert_eq!(payload.title, "");
    assert_eq!(payload.app_name, Some("code.exe".to_string()));
    // The counter, by contrast, is keyed by the normalized title.
    assert_eq!(acc.seconds_for("", "code.exe"), 1);
}

#[test]
fn distinct_windows_get_distinct_counters() {
    let mut acc = MinuteAccumulator::new();
    acc.tick(Some(sample("Editor", "code.exe")), 0);
    acc.tick(Some(sample("Editor", "")), 0);
    acc.tick(Some(sample("", "")), 0);
    assert_eq!(acc.window_count(), 3);
    assert_eq!(acc.seconds_for("Editor", "code.exe"), 1);
    assert_eq!(acc.seconds_for("Editor", ""), 1);
    assert_eq!(acc.seconds_for("", ""), 1);
    assert_eq!(acc.seconds_for("Browser", "firefox"), 0);
    assert_eq!(acc.total_secs_so_far(), 3);
}

#[test]
fn fresh_accumulator_is_empty() {
    let acc = MinuteAccumulator::new();
    assert_eq!(acc.total_secs_so_far(), 0);
    assert_eq!(acc.window_count(), 0);
    assert_eq!(acc.seconds_for("", ""), 0);
}
