use client_balance::infrastructure::inbound::http::logs::{cleanup_of, tail_start, LogCleanup};

#[test]
fn tail_begins_count_lines_before_the_end() {
    assert_eq!(tail_start(10, 3), 7);
    assert_eq!(tail_start(10, 10), 0);
    assert_eq!(tail_start(10, 11), 0);
    assert_eq!(tail_start(0, 5), 0);
    assert_eq!(tail_start(5, 0), 5);
    assert_eq!(tail_start(usize::MAX, 1), usize::MAX - 1);
}

#[test]
fn only_the_log_of_today_is_emptied() {
    let today = "app.log.2026-10-27".to_string();
    assert_eq!(cleanup_of(&"app.log.2026-10-27".to_string(), &today), LogCleanup::Truncate);
    assert_eq!(cleanup_of(&"app.log.2026-10-26".to_string(), &today), LogCleanup::Delete);
    assert_eq!(cleanup_of(&String::new(), &today), LogCleanup::Delete);
}
