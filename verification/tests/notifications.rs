use app_tui::bridge::{PendingTask, TaskSlot};
use app_tui::display::notification_area;
use app_tui::notifications::{Color, Notification, NotificationHandler};
use app_tui::ui::{brand, danger, orange, secondary, text};
use app_tui::utils::{run_or_notify, ERROR_TTL};

fn white_on_danger() -> (Color, Color) {
    (Color::White, danger())
}

#[test]
fn poll_returns_what_is_within_its_time() {
    let mut queue = NotificationHandler::new();
    queue.push("first".to_string(), None, white_on_danger(), 1000, 100);
    let seen = queue.poll(600);
    assert_eq!(seen.len(), 1);
    assert_eq!(seen[0].title, "first");
    assert_eq!(seen[0].text, None);
    assert_eq!(seen[0].color, (Color::White, Color::Rgb(255, 73, 110)));
    assert_eq!(seen[0].duration, 1000);
    assert_eq!(seen[0].added_time, 100);
}

#[test]
fn poll_keeps_a_notification_at_the_very_end_of_its_time() {
    let mut queue = NotificationHandler::new();
    queue.push("edge".to_string(), None, white_on_danger(), 1000, 100);
    assert_eq!(queue.poll(1100).len(), 1);
    assert_eq!(queue.poll(1101).len(), 0);
}

#[test]
fn poll_drops_what_has_expired_for_good() {
    let mut queue = NotificationHandler::new();
    queue.push("gone".to_string(), None, white_on_danger(), 10, 0);
    assert_eq!(queue.len(), 1);
    assert!(queue.poll(11).is_empty());
    assert_eq!(queue.len(), 0);
    assert!(queue.poll(12).is_empty());
    assert!(queue.poll(5).is_empty());
}

#[test]
fn poll_keeps_the_order_of_pushes() {
    let mut queue = NotificationHandler::new();
    queue.push("a".to_string(), None, white_on_danger(), 100, 0);
    queue.push("b".to_string(), None, white_on_danger(), 10, 1);
    queue.push("c".to_string(), None, white_on_danger(), 100, 2);
    let titles: Vec<String> = queue.poll(50).into_iter().map(|n| n.title).collect();
    assert_eq!(titles, vec!["a".to_string(), "c".to_string()]);
    let titles: Vec<String> = queue.poll(60).into_iter().map(|n| n.title).collect();
    assert_eq!(titles, vec!["a".to_string(), "c".to_string()]);
}

#[test]
fn push_does_not_evict() {
    let mut queue = NotificationHandler::new();
    queue.push("old".to_string(), None, white_on_danger(), 1, 0);
    queue.push("new".to_string(), None, white_on_danger(), 1, 100);
    assert_eq!(queue.len(), 2);
    assert_eq!(queue.poll(100).len(), 1);
    assert_eq!(queue.len(), 1);
}

#[test]
fn push_wraps_the_body_at_forty_columns() {
    let mut queue = NotificationHandler::new();
    let body = "aaaaaaaaaa bbbbbbbbbb cccccccccc dddddddddd eeeeeeeeee".to_string();
    queue.push("t".to_string(), Some(body), white_on_danger(), 10, 0);
    let seen = queue.poll(0);
    assert_eq!(
        seen[0].text,
        Some("aaaaaaaaaa bbbbbbbbbb cccccccccc\ndddddddddd eeeeeeeeee".to_string())
    );
}

#[test]
fn a_clock_that_reads_earlier_hides_nothing() {
    let n = Notification::new("t".to_string(), None, white_on_danger(), 0, 500);
    assert!(!n.is_hidden(400));
    assert!(!n.is_hidden(500));
    assert!(n.is_hidden(501));
}

#[test]
fn duplicate_copies_every_field() {
    let n = Notification::new(
        "t".to_string(),
        Some("b".to_string()),
        (Color::Black, Color::Indexed(3)),
        7,
        9,
    );
    assert_eq!(n.duplicate(), n);
}

#[test]
fn run_or_notify_hands_a_success_on() {
    let mut queue = NotificationHandler::new();
    let outcome: Result<u32, String> = Ok(7);
    let value = run_or_notify(&mut queue, outcome, |e: &String| e.clone(), 5);
    assert_eq!(value, Some(7));
    assert_eq!(queue.len(), 0);
}

#[test]
fn run_or_notify_reports_a_failure_once() {
    let mut queue = NotificationHandler::new();
    let outcome: Result<u32, u8> = Err(4);
    let value = run_or_notify(&mut queue, outcome, |e: &u8| format!("code {}", e), 5);
    assert_eq!(value, None);
    let seen = queue.poll(5);
    assert_eq!(seen.len(), 1);
    assert_eq!(seen[0].title, "Error Occurred");
    assert_eq!(seen[0].text, Some("code 4".to_string()));
    assert_eq!(seen[0].color, (Color::White, Color::Rgb(255, 73, 110)));
    assert_eq!(seen[0].duration, 5000);
    assert_eq!(ERROR_TTL, 5000);
    assert_eq!(seen[0].added_time, 5);
    assert_eq!(queue.poll(5005).len(), 1);
    assert_eq!(queue.poll(5006).len(), 0);
}

#[test]
fn palette_holds_its_colours() {
    assert_eq!(brand(), Color::Rgb(27, 217, 106));
    assert_eq!(orange(), Color::Rgb(255, 163, 71));
    assert_eq!(danger(), Color::Rgb(255, 73, 110));
    assert_eq!(text(), Color::Rgb(176, 186, 197));
    assert_eq!(secondary(), Color::Rgb(150, 162, 176));
}

#[test]
fn notification_area_of_nothing_is_the_least_width() {
    assert_eq!(notification_area(&Vec::new()), (32, 0));
}

#[test]
fn notification_area_grows_with_titles_and_body_lines() {
    let mut queue = NotificationHandler::new();
    queue.push("short".to_string(), None, white_on_danger(), 10, 0);
    assert_eq!(notification_area(&queue.poll(0)), (32, 3));
    let body = format!("{} tails!", "x".repeat(35));
    queue.push("Error Occurred".to_string(), Some(body), white_on_danger(), 10, 0);
    assert_eq!(notification_area(&queue.poll(0)), (37, 8));
    queue.push("t".repeat(50), None, white_on_danger(), 10, 0);
    assert_eq!(notification_area(&queue.poll(0)), (52, 11));
}

#[test]
fn slot_follows_one_task_from_start_to_read() {
    let mut slot: TaskSlot<u32> = TaskSlot::new();
    assert!(!slot.outstanding());
    assert!(!slot.is_finished());
    assert!(slot.start());
    assert!(slot.outstanding());
    assert!(!slot.is_finished());
    assert_eq!(slot.task, Some(PendingTask::Running));
    assert_eq!(slot.take(), None);
    assert!(slot.outstanding());
    assert_eq!(slot.complete(5), None);
    assert!(slot.is_finished());
    assert_eq!(slot.take(), Some(5));
    assert!(!slot.outstanding());
    assert_eq!(slot.take(), None);
}

#[test]
fn slot_refuses_a_second_task() {
    let mut slot: TaskSlot<u32> = TaskSlot::new();
    assert!(slot.start());
    assert!(!slot.start());
    assert_eq!(slot.task, Some(PendingTask::Running));
    assert_eq!(slot.complete(1), None);
    assert!(!slot.start());
    assert_eq!(slot.task, Some(PendingTask::Finished(1)));
}

#[test]
fn slot_hands_back_a_result_that_nothing_waits_for() {
    let mut slot: TaskSlot<u32> = TaskSlot::new();
    assert_eq!(slot.complete(3), Some(3));
    assert!(!slot.outstanding());
    assert!(slot.start());
    assert_eq!(slot.complete(4), None);
    assert_eq!(slot.complete(5), Some(5));
    assert_eq!(slot.take(), Some(4));
}

#[test]
fn slot_can_be_cleared() {
    let mut slot: TaskSlot<u32> = TaskSlot::new();
    assert!(slot.start());
    slot.clear();
    assert!(!slot.outstanding());
}
