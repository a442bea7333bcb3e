use cosmos::poll::{is_not_found, FinalityPoll, PollAction};

#[test]
fn poll_retries_not_found_until_budget_is_spent() {
    let (mut poll, first) = FinalityPoll::begin(3);
    assert_eq!(first, PollAction::Query);
    assert_eq!(poll.on_error(true, ""), PollAction::SleepThenQuery);
    assert_eq!(poll.on_error(false, "tx (ABC) not found"), PollAction::SleepThenQuery);
    assert_eq!(poll.on_error(true, "x"), PollAction::TimedOut { attempts: 3 });
    assert_eq!(poll.made, 3);
}

#[test]
fn poll_fails_on_other_errors() {
    let (mut poll, _) = FinalityPoll::begin(30);
    assert_eq!(poll.on_error(false, "permission denied"), PollAction::Fail);
    assert_eq!(poll.made, 1);
}

#[test]
fn poll_with_no_budget_times_out() {
    let (_, first) = FinalityPoll::begin(0);
    assert_eq!(first, PollAction::TimedOut { attempts: 0 });
}

#[test]
fn not_found_detection() {
    assert!(is_not_found(true, "anything"));
    assert!(is_not_found(false, "tx not found: ABC"));
    assert!(!is_not_found(false, "Not Found"));
    assert!(!is_not_found(false, ""));
}
