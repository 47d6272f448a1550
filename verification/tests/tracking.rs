use window_tracker::event::{
    hook_request, EVENT_OBJECT_LOCATIONCHANGE, EVENT_OBJECT_NAMECHANGE, WM_QUIT,
};
use window_tracker::{
    EnumerationResult, EventOutcome, Observation, Phase, QuitSignal, Rect, StartupError,
    Timestamp, WinEvent, WindowInfo, WindowTracker,
};

const A: isize = 0x1001;
const B: isize = 0x2002;
const HOOK: isize = 0x77;
const THREAD: u32 = 4242;

fn at(secs: i64) -> Timestamp {
    Timestamp::new(secs, 0)
}

fn visible(rect: Option<Rect>, title: Option<&str>) -> Observation {
    Observation::Visible { rect, title: title.map(|t| t.to_string()) }
}

fn location_change(hwnd: isize) -> WinEvent {
    WinEvent::new(EVENT_OBJECT_LOCATIONCHANGE, hwnd, 0, 0)
}

fn name_change(hwnd: isize) -> WinEvent {
    WinEvent::new(EVENT_OBJECT_NAMECHANGE, hwnd, 0, 0)
}

fn sorted(mut entries: Vec<(isize, WindowInfo)>) -> Vec<(isize, WindowInfo)> {
    entries.sort_by_key(|e| e.0);
    entries
}

fn running_tracker() -> WindowTracker {
    let mut tracker = WindowTracker::new();
    assert_eq!(tracker.hook_installed(HOOK, THREAD), Ok(()));
    tracker
}

#[test]
fn scenario_seed_move_and_hide() {
    let mut tracker = WindowTracker::new();
    let alpha = Rect::new(0, 0, 100, 50);
    assert_eq!(
        tracker.seed_window_at(A, visible(Some(alpha), Some("Alpha")), at(10)),
        EnumerationResult::ContinueEnumeration
    );
    assert_eq!(
        tracker.seed_window_at(B, Observation::Hidden, at(11)),
        EnumerationResult::ContinueEnumeration
    );
    assert_eq!(tracker.hook_installed(HOOK, THREAD), Ok(()));
    assert_eq!(
        tracker.windows(),
        vec![(A, WindowInfo::new(Some(alpha), Some("Alpha".to_string()), at(10)))]
    );

    let moved = Rect::new(10, 10, 110, 60);
    assert_eq!(
        tracker.handle_event_at(&location_change(A), visible(Some(moved), Some("Alpha")), at(20)),
        EventOutcome::Updated
    );
    assert_eq!(
        tracker.windows(),
        vec![(A, WindowInfo::new(Some(moved), Some("Alpha".to_string()), at(20)))]
    );

    assert_eq!(
        tracker.handle_event_at(&location_change(A), Observation::Hidden, at(30)),
        EventOutcome::Removed
    );
    assert_eq!(tracker.windows(), vec![]);
    assert_eq!(tracker.window_count(), 0);
}

#[test]
fn new_tracker_is_seeding_and_empty() {
    let tracker = WindowTracker::new();
    assert_eq!(tracker.phase(), Phase::Seeding);
    assert!(tracker.is_seeding());
    assert!(!tracker.accepts_events());
    assert_eq!(tracker.thread_id(), None);
    assert_eq!(tracker.windows(), vec![]);
    assert_eq!(tracker.window_count(), 0);
}

#[test]
fn snapshot_follows_the_latest_event_of_each_window() {
    let mut tracker = running_tracker();
    let r1 = Rect::new(1, 2, 3, 4);
    let r2 = Rect::new(5, 6, 7, 8);
    tracker.handle_event_at(&location_change(A), visible(Some(r1), Some("a")), at(1));
    tracker.handle_event_at(&location_change(B), visible(Some(r1), Some("b")), at(2));
    tracker.handle_event_at(&name_change(A), Observation::Hidden, at(3));
    tracker.handle_event_at(&name_change(B), visible(Some(r2), None), at(4));
    tracker.handle_event_at(&location_change(A), visible(None, Some("a2")), at(5));
    tracker.handle_event_at(&location_change(B), Observation::Hidden, at(6));
    tracker.handle_event_at(&location_change(0x3003), Observation::Hidden, at(7));
    assert_eq!(
        tracker.windows(),
        vec![(A, WindowInfo::new(None, Some("a2".to_string()), at(5)))]
    );
    assert_eq!(tracker.window(B), None);
    assert_eq!(tracker.window(0x3003), None);
}

#[test]
fn snapshot_has_one_entry_per_visible_window() {
    let mut tracker = running_tracker();
    for round in 0..3 {
        for hwnd in 1..=5isize {
            tracker.handle_event_at(
                &location_change(hwnd),
                visible(Some(Rect::new(round, 0, 1, 1)), None),
                at(round as i64),
            );
        }
    }
    tracker.handle_event_at(&location_change(3), Observation::Hidden, at(9));
    let entries = sorted(tracker.windows());
    let handles: Vec<isize> = entries.iter().map(|e| e.0).collect();
    assert_eq!(handles, vec![1, 2, 4, 5]);
    assert_eq!(tracker.window_count(), 4);
    for (_, info) in entries {
        assert_eq!(info, WindowInfo::new(Some(Rect::new(2, 0, 1, 1)), None, at(2)));
    }
}

#[test]
fn repeated_event_keeps_content_and_moves_time_forward() {
    let mut tracker = running_tracker();
    let r = Rect::new(0, 0, 100, 50);
    tracker.handle_event_at(&location_change(B), visible(None, Some("other")), at(1));
    tracker.handle_event_at(&location_change(A), visible(Some(r), Some("T")), at(5));
    let once = sorted(tracker.windows());
    tracker.handle_event_at(&location_change(A), visible(Some(r), Some("T")), at(8));
    let twice = sorted(tracker.windows());
    assert_eq!(once.len(), twice.len());
    for (before, after) in once.iter().zip(twice.iter()) {
        assert_eq!(before.0, after.0);
        assert_eq!(before.1.rect, after.1.rect);
        assert_eq!(before.1.title, after.1.title);
        assert!(before.1.timestamp.is_at_or_before(&after.1.timestamp));
    }
    assert_eq!(tracker.window(A), Some(WindowInfo::new(Some(r), Some("T".to_string()), at(8))));
    assert_ne!(once, twice);
}

#[test]
fn repeated_event_at_the_same_instant_changes_nothing() {
    let mut tracker = running_tracker();
    let r = Rect::new(0, 0, 100, 50);
    tracker.handle_event_at(&location_change(A), visible(Some(r), Some("T")), at(5));
    let once = tracker.windows();
    tracker.handle_event_at(&location_change(A), visible(Some(r), Some("T")), at(5));
    assert_eq!(tracker.windows(), once);
}

#[test]
fn ready_tracker_is_seeded() {
    let mut tracker = WindowTracker::new();
    tracker.seed_window_at(A, visible(None, None), at(1));
    assert_eq!(tracker.hook_installed(HOOK, THREAD), Ok(()));
    assert_eq!(tracker.phase(), Phase::Running { hook: HOOK, thread_id: THREAD });
    assert!(!tracker.windows().is_empty());
    assert_eq!(tracker.window(A), Some(WindowInfo::new(None, None, at(1))));
}

#[test]
fn seeding_keeps_windows_with_failed_queries() {
    let mut tracker = WindowTracker::new();
    tracker.seed_window_at(1, visible(None, Some("only title")), at(1));
    tracker.seed_window_at(2, visible(Some(Rect::new(1, 1, 2, 2)), None), at(2));
    tracker.seed_window_at(3, visible(None, None), at(3));
    tracker.seed_window_at(4, Observation::Hidden, at(4));
    assert_eq!(
        sorted(tracker.windows()),
        vec![
            (1, WindowInfo::new(None, Some("only title".to_string()), at(1))),
            (2, WindowInfo::new(Some(Rect::new(1, 1, 2, 2)), None, at(2))),
            (3, WindowInfo::new(None, None, at(3))),
        ]
    );
}

#[test]
fn seeding_does_not_forget_a_window_seen_hidden_later() {
    let mut tracker = WindowTracker::new();
    tracker.seed_window_at(A, visible(None, Some("x")), at(1));
    tracker.seed_window_at(A, Observation::Hidden, at(2));
    assert_eq!(tracker.window(A), Some(WindowInfo::new(None, Some("x".to_string()), at(1))));
}

#[test]
fn seeding_after_the_start_records_nothing() {
    let mut tracker = running_tracker();
    assert_eq!(
        tracker.seed_window_at(A, visible(None, None), at(1)),
        EnumerationResult::ContinueEnumeration
    );
    assert_eq!(tracker.windows(), vec![]);
}

#[test]
fn events_before_the_start_are_ignored() {
    let mut tracker = WindowTracker::new();
    assert!(!tracker.wants(&location_change(A)));
    assert_eq!(
        tracker.handle_event_at(&location_change(A), visible(None, None), at(1)),
        EventOutcome::Ignored
    );
    assert_eq!(tracker.windows(), vec![]);
}

#[test]
fn invalid_hook_fails_the_start() {
    for hook in [0isize, -1] {
        let mut tracker = WindowTracker::new();
        tracker.seed_window_at(A, visible(None, None), at(1));
        assert_eq!(tracker.hook_installed(hook, THREAD), Err(StartupError::HookInstallFailed));
        assert_eq!(tracker.phase(), Phase::Failed);
        assert_eq!(tracker.thread_id(), None);
        assert_eq!(tracker.stop(), None);
        assert_eq!(tracker.pump_exited(), None);
        assert_eq!(
            tracker.handle_event_at(&location_change(A), Observation::Hidden, at(2)),
            EventOutcome::Ignored
        );
        assert_eq!(tracker.window_count(), 1);
    }
}

#[test]
fn second_hook_report_is_refused() {
    let mut tracker = running_tracker();
    assert_eq!(tracker.hook_installed(0x99, 7), Err(StartupError::AlreadyStarted));
    assert_eq!(tracker.phase(), Phase::Running { hook: HOOK, thread_id: THREAD });
    assert_eq!(tracker.hook_installed(0, 7), Err(StartupError::AlreadyStarted));
    assert_eq!(tracker.phase(), Phase::Running { hook: HOOK, thread_id: THREAD });
}

#[test]
fn stop_is_idempotent() {
    let mut tracker = running_tracker();
    assert_eq!(tracker.thread_id(), Some(THREAD));
    assert_eq!(tracker.stop(), Some(QuitSignal { thread_id: THREAD, message: WM_QUIT }));
    assert_eq!(tracker.phase(), Phase::Stopping { hook: HOOK, thread_id: THREAD });
    assert_eq!(tracker.stop(), None);
    assert_eq!(tracker.phase(), Phase::Stopping { hook: HOOK, thread_id: THREAD });
    assert_eq!(tracker.pump_exited(), Some(HOOK));
    assert_eq!(tracker.phase(), Phase::Stopped);
    assert_eq!(tracker.stop(), None);
    assert_eq!(tracker.pump_exited(), None);
    assert_eq!(tracker.phase(), Phase::Stopped);
}

#[test]
fn quit_message_is_wm_quit() {
    assert_eq!(WM_QUIT, 0x12);
}

#[test]
fn stop_on_a_tracker_that_never_ran_does_nothing() {
    let mut tracker = WindowTracker::new();
    assert_eq!(tracker.stop(), None);
    assert_eq!(tracker.pump_exited(), None);
    assert_eq!(tracker.phase(), Phase::Seeding);
}

#[test]
fn events_are_applied_until_the_pump_ends() {
    let mut tracker = running_tracker();
    tracker.stop();
    assert!(tracker.accepts_events());
    assert_eq!(
        tracker.handle_event_at(&location_change(A), visible(None, None), at(1)),
        EventOutcome::Updated
    );
    assert_eq!(tracker.window_count(), 1);
}

#[test]
fn pump_that_ends_unasked_releases_the_hook() {
    let mut tracker = running_tracker();
    assert_eq!(tracker.pump_exited(), Some(HOOK));
    assert_eq!(tracker.phase(), Phase::Stopped);
    assert_eq!(tracker.stop(), None);
}

#[test]
fn no_mutation_after_stop() {
    let mut tracker = running_tracker();
    tracker.handle_event_at(&location_change(A), visible(None, Some("kept")), at(1));
    tracker.stop();
    tracker.pump_exited();
    let before = tracker.windows();
    assert_eq!(
        tracker.handle_event_at(&location_change(A), Observation::Hidden, at(2)),
        EventOutcome::Ignored
    );
    assert_eq!(
        tracker.handle_event_at(&name_change(B), visible(None, Some("late")), at(3)),
        EventOutcome::Ignored
    );
    assert_eq!(tracker.handle_event(&location_change(B), visible(None, None)), EventOutcome::Ignored);
    tracker.seed_window_at(B, visible(None, None), at(4));
    assert_eq!(tracker.windows(), before);
    assert_eq!(before.len(), 1);
}

#[test]
fn malformed_events_never_mutate() {
    let mut tracker = running_tracker();
    tracker.handle_event_at(&location_change(A), visible(None, Some("kept")), at(1));
    let before = tracker.windows();
    let malformed = [
        WinEvent::new(EVENT_OBJECT_LOCATIONCHANGE, 0, 0, 0),
        WinEvent::new(EVENT_OBJECT_NAMECHANGE, 0, 0, 0),
        WinEvent::new(EVENT_OBJECT_LOCATIONCHANGE, A, 1, 0),
        WinEvent::new(EVENT_OBJECT_LOCATIONCHANGE, A, 0, 1),
        WinEvent::new(EVENT_OBJECT_LOCATIONCHANGE, A, -4, 0),
        WinEvent::new(EVENT_OBJECT_NAMECHANGE, A, 0, -1),
        WinEvent::new(EVENT_OBJECT_NAMECHANGE, B, 7, 7),
        WinEvent::new(0x800A, A, 0, 0),
        WinEvent::new(0x800D, A, 0, 0),
        WinEvent::new(0, B, 0, 0),
    ];
    for event in malformed.iter() {
        assert!(!event.is_window_change());
        assert!(!tracker.wants(event));
        assert_eq!(
            tracker.handle_event_at(event, Observation::Hidden, at(2)),
            EventOutcome::Ignored
        );
        assert_eq!(
            tracker.handle_event_at(event, visible(None, Some("changed")), at(3)),
            EventOutcome::Ignored
        );
    }
    assert_eq!(tracker.windows(), before);
}

#[test]
fn well_formed_events_are_wanted() {
    let tracker = running_tracker();
    assert!(location_change(A).is_window_change());
    assert!(name_change(A).is_window_change());
    assert!(name_change(-5).is_window_change());
    assert!(tracker.wants(&location_change(A)));
    assert!(tracker.wants(&name_change(B)));
}

#[test]
fn hidden_window_that_reappears_is_new() {
    let mut tracker = running_tracker();
    tracker.handle_event_at(&location_change(A), visible(Some(Rect::new(1, 1, 2, 2)), Some("old")), at(1));
    tracker.handle_event_at(&location_change(A), Observation::Hidden, at(2));
    tracker.handle_event_at(&name_change(A), visible(None, None), at(3));
    assert_eq!(tracker.window(A), Some(WindowInfo::new(None, None, at(3))));
}

#[test]
fn hook_request_subscribes_to_the_two_classes() {
    let request = hook_request();
    assert_eq!(request.event_min, 0x800B);
    assert_eq!(request.event_max, 0x800C);
    assert_eq!(request.flags, 2);
    assert_eq!(EVENT_OBJECT_LOCATIONCHANGE, 0x800B);
    assert_eq!(EVENT_OBJECT_NAMECHANGE, 0x800C);
}

#[test]
fn clock_stamps_seeded_windows() {
    let mut tracker = WindowTracker::new();
    assert_eq!(
        tracker.seed_window(A, visible(None, Some("now"))),
        EnumerationResult::ContinueEnumeration
    );
    let info = tracker.window(A).unwrap();
    assert_eq!(info.title, Some("now".to_string()));
    assert!(info.timestamp.secs > 1_600_000_000);
    assert!(info.timestamp.nanos < 2_000_000_000);
}

#[test]
fn clock_stamps_handled_events() {
    let mut tracker = running_tracker();
    assert_eq!(tracker.handle_event(&location_change(A), visible(None, None)), EventOutcome::Updated);
    let first = tracker.window(A).unwrap().timestamp;
    assert!(first.secs > 1_600_000_000);
    assert_eq!(tracker.handle_event(&location_change(A), Observation::Hidden), EventOutcome::Removed);
    assert_eq!(tracker.window(A), None);
}

#[test]
fn enumeration_result_as_truth_value() {
    assert_eq!(i32::from(EnumerationResult::ContinueEnumeration), 1);
    assert_eq!(i32::from(EnumerationResult::StopEnumeration), 0);
}
