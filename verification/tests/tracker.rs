use std::cell::RefCell;

use primer::tracker::{quota_level, quota_message, LimitTracker, Messenger, QuotaLevel};

struct MockMessenger {
    sent_messages: RefCell<Vec<String>>,
}

impl MockMessenger {
    fn new() -> MockMessenger {
        MockMessenger { sent_messages: RefCell::new(vec![]) }
    }
}

impl Messenger for MockMessenger {
    fn send(&self, message: &str) {
        self.sent_messages.borrow_mut().push(String::from(message));
    }
}

#[test]
fn it_sends_an_over_75_percent_warning_message() {
    let mock_messenger = MockMessenger::new();
    let mut limit_tracker = LimitTracker::new(&mock_messenger, 100);

    limit_tracker.set_value(80);

    assert_eq!(mock_messenger.sent_messages.borrow().len(), 1);
}

#[test]
fn the_message_names_the_threshold() {
    let mock_messenger = MockMessenger::new();
    let mut limit_tracker = LimitTracker::new(&mock_messenger, 100);

    limit_tracker.set_value(80);

    assert_eq!(
        mock_messenger.sent_messages.borrow()[0],
        "Warning: You've used up over 75% of your quota!"
    );
}

#[test]
fn low_usage_stays_quiet() {
    let mock_messenger = MockMessenger::new();
    let mut limit_tracker = LimitTracker::new(&mock_messenger, 100);

    limit_tracker.set_value(50);

    assert_eq!(mock_messenger.sent_messages.borrow().len(), 0);
}

#[test]
fn quota_levels_at_the_boundaries() {
    assert_eq!(quota_level(74, 100), QuotaLevel::Quiet);
    assert_eq!(quota_level(75, 100), QuotaLevel::Warning);
    assert_eq!(quota_level(89, 100), QuotaLevel::Warning);
    assert_eq!(quota_level(90, 100), QuotaLevel::Urgent);
    assert_eq!(quota_level(99, 100), QuotaLevel::Urgent);
    assert_eq!(quota_level(100, 100), QuotaLevel::Over);
    assert_eq!(quota_level(101, 100), QuotaLevel::Over);
}

#[test]
fn a_zero_quota_is_quiet_only_at_zero() {
    assert_eq!(quota_level(0, 0), QuotaLevel::Quiet);
    assert_eq!(quota_level(1, 0), QuotaLevel::Over);
}

#[test]
fn each_level_has_its_own_message() {
    assert_eq!(quota_message(QuotaLevel::Quiet), None);
    assert_eq!(
        quota_message(QuotaLevel::Warning),
        Some("Warning: You've used up over 75% of your quota!")
    );
    assert_eq!(
        quota_message(QuotaLevel::Urgent),
        Some("Urgent warning: You've used up over 90% of your quota!")
    );
    assert_eq!(
        quota_message(QuotaLevel::Over),
        Some("Error: You are over your quota!")
    );
}

#[test]
fn an_over_quota_value_sends_the_error() {
    let mock_messenger = MockMessenger::new();
    let mut limit_tracker = LimitTracker::new(&mock_messenger, 100);

    limit_tracker.set_value(101);

    assert_eq!(
        *mock_messenger.sent_messages.borrow(),
        vec![String::from("Error: You are over your quota!")]
    );
}
