use copy2ai::poller::{ClipboardPoller, ClipboardRead, PollerAction};

fn text(s: &str) -> ClipboardRead {
    ClipboardRead::Text(s.to_string())
}

#[test]
fn new_text_is_captured_once() {
    let mut poller = ClipboardPoller::new();
    match poller.on_tick(text("hello")) {
        PollerAction::CaptureText(t) => assert_eq!(t, "hello"),
        _ => panic!("first sighting should be captured"),
    }
    // the same text on the next tick is de-duplicated
    assert!(matches!(poller.on_tick(text("hello")), PollerAction::Idle));
    // a different text is captured again
    assert!(matches!(
        poller.on_tick(text("world")),
        PollerAction::CaptureText(t) if t == "world"
    ));
    // and the earlier text counts as new again
    assert!(matches!(
        poller.on_tick(text("hello")),
        PollerAction::CaptureText(t) if t == "hello"
    ));
}

#[test]
fn empty_text_is_ignored() {
    let mut poller = ClipboardPoller::new();
    assert!(matches!(poller.on_tick(text("")), PollerAction::Idle));
    assert!(matches!(
        poller.on_tick(ClipboardRead::EmptyOrUnavailable),
        PollerAction::Idle
    ));
}

#[test]
fn pause_resume_toggle() {
    let mut poller = ClipboardPoller::new();
    assert!(poller.status());
    assert!(!poller.pause());
    assert!(!poller.status());
    // a paused poller does nothing with a fresh text
    assert!(matches!(poller.on_tick(text("hidden")), PollerAction::Idle));
    assert!(poller.resume());
    assert!(poller.status());
    assert!(!poller.toggle());
    assert!(poller.toggle());
    // after resuming, the text missed while paused is still new
    assert!(matches!(
        poller.on_tick(text("hidden")),
        PollerAction::CaptureText(t) if t == "hidden"
    ));
}

#[test]
fn ten_failures_trigger_handle_recreation() {
    let mut poller = ClipboardPoller::new();
    for _ in 0..9 {
        assert!(matches!(poller.on_tick(ClipboardRead::Failure), PollerAction::Idle));
    }
    assert!(matches!(
        poller.on_tick(ClipboardRead::Failure),
        PollerAction::RecreateHandle
    ));
    // a successful recreation clears the counter
    assert!(poller.on_handle_recreated(true));
    for _ in 0..9 {
        assert!(matches!(poller.on_tick(ClipboardRead::Failure), PollerAction::Idle));
    }
    // a failed recreation ends the polling loop
    assert!(matches!(
        poller.on_tick(ClipboardRead::Failure),
        PollerAction::RecreateHandle
    ));
    assert!(!poller.on_handle_recreated(false));
}

#[test]
fn successful_read_resets_failure_count() {
    let mut poller = ClipboardPoller::new();
    for _ in 0..9 {
        poller.on_tick(ClipboardRead::Failure);
    }
    poller.on_tick(text("recovered"));
    for _ in 0..9 {
        assert!(matches!(poller.on_tick(ClipboardRead::Failure), PollerAction::Idle));
    }
}

#[test]
fn empty_clipboard_logging_is_rate_limited() {
    let mut poller = ClipboardPoller::new();
    poller.on_tick(ClipboardRead::EmptyOrUnavailable);
    assert!(poller.should_log_empty());
    poller.on_tick(ClipboardRead::EmptyOrUnavailable);
    assert!(!poller.should_log_empty());
    for _ in 0..98 {
        poller.on_tick(ClipboardRead::EmptyOrUnavailable);
    }
    assert!(poller.should_log_empty());
}
