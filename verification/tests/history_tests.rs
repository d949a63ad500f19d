use monkeytype_tui::history::{push_capped, time_ago, HISTORY_LIMIT};
use std::time::{SystemTime, UNIX_EPOCH};

fn now() -> u64 {
    SystemTime::now().duration_since(UNIX_EPOCH).unwrap_or_default().as_secs()
}

fn ago(secs: u64) -> String {
    let n = now();
    time_ago(n.saturating_sub(secs), n)
}

#[test]
fn just_now() {
    assert_eq!(ago(30), "just now");
}

#[test]
fn minutes_ago() {
    assert_eq!(ago(120), "2m ago");
}

#[test]
fn hours_ago() {
    assert_eq!(ago(7200), "2h ago");
}

#[test]
fn days_ago() {
    assert_eq!(ago(86400 * 2), "2d ago");
}

#[test]
fn weeks_ago() {
    assert_eq!(ago(86400 * 14), "2w ago");
}

#[test]
fn months_ago() {
    assert_eq!(ago(86400 * 60), "2mo ago");
}

#[test]
fn years_ago() {
    assert_eq!(ago(86400 * 365 * 2), "2y ago");
}

#[test]
fn a_timestamp_in_the_future_is_just_now() {
    assert_eq!(time_ago(1_000, 10), "just now");
    assert_eq!(time_ago(0, 59), "just now");
    assert_eq!(time_ago(0, 60), "1m ago");
    assert_eq!(time_ago(0, 86400 * 365 * 123), "123y ago");
}

#[test]
fn push_capped_puts_newest_first() {
    let mut history = vec![1u32];
    push_capped(&mut history, 99);
    assert_eq!(history.len(), 2);
    assert_eq!(history[0], 99);
}

#[test]
fn push_capped_caps_at_history_limit() {
    let mut history: Vec<u32> = (0..HISTORY_LIMIT as u32).collect();
    push_capped(&mut history, 1000);
    assert_eq!(history.len(), HISTORY_LIMIT);
    assert_eq!(history[0], 1000);
    assert_eq!(history[HISTORY_LIMIT - 1], HISTORY_LIMIT as u32 - 2, "the oldest entry drops off");
}
