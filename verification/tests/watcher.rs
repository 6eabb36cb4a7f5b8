use focus_watch::focus::FocusConfidenceLevel;
use focus_watch::focus::FocusContextSnapshot;
use focus_watch::focus::FocusEventSource;
use focus_watch::focus::FocusedApplication;
use focus_watch::focus::FocusedBrowserTab;
use focus_watch::focus::FocusedWindow;
use focus_watch::watcher::DEBOUNCE_WINDOW_MS;
use focus_watch::watcher::FocusWatcherHandle;
use focus_watch::watcher::FocusWatcherState;
use focus_watch::watcher::POLL_INTERVAL_MS;
use focus_watch::watcher::build_focus_semantic_key;

fn snap(app: Option<&str>, window: Option<&str>, tab: Option<(Option<&str>, Option<&str>)>, captured_at: &str) -> FocusContextSnapshot {
    FocusContextSnapshot {
        focused_application: app.map(|name| FocusedApplication {
            display_name: String::from(name),
            bundle_id: None,
            process_path: None,
        }),
        focused_window: window.map(|title| FocusedWindow { title: String::from(title) }),
        focused_browser_tab: tab.map(|(title, url)| FocusedBrowserTab {
            title: title.map(String::from),
            url: url.map(String::from),
            browser: app.map(String::from),
        }),
        event_source: FocusEventSource::Polling,
        confidence_level: FocusConfidenceLevel::High,
        privacy_filtered: true,
        captured_at: String::from(captured_at),
    }
}

#[test]
fn equal_observed_fields_give_equal_keys() {
    // the capture time is not an observed field: it may differ
    let a = snap(Some("chrome"), Some("W"), Some((Some("T"), None)), "2026-01-01T00:00:00+00:00");
    let b = snap(Some("chrome"), Some("W"), Some((Some("T"), None)), "2026-01-01T00:00:01+00:00");
    assert!(build_focus_semantic_key(&a).equals(&build_focus_semantic_key(&b)));
}

#[test]
fn changing_any_observed_field_changes_the_key() {
    let base = snap(Some("chrome"), Some("W"), Some((Some("T"), Some("u"))), "t");
    let k = build_focus_semantic_key(&base);

    let other_app = snap(Some("edge"), Some("W"), Some((Some("T"), Some("u"))), "t");
    assert!(!k.equals(&build_focus_semantic_key(&other_app)));

    let other_window = snap(Some("chrome"), Some("X"), Some((Some("T"), Some("u"))), "t");
    assert!(!k.equals(&build_focus_semantic_key(&other_window)));

    let other_tab_title = snap(Some("chrome"), Some("W"), Some((Some("U"), Some("u"))), "t");
    assert!(!k.equals(&build_focus_semantic_key(&other_tab_title)));

    let other_tab_url = snap(Some("chrome"), Some("W"), Some((Some("T"), Some("v"))), "t");
    assert!(!k.equals(&build_focus_semantic_key(&other_tab_url)));

    let mut other_confidence = base.duplicate();
    other_confidence.confidence_level = FocusConfidenceLevel::Low;
    assert!(!k.equals(&build_focus_semantic_key(&other_confidence)));
}

#[test]
fn absent_field_differs_from_empty_field() {
    // a structural key cannot collide an absent application with an empty name
    let absent = snap(None, Some("W"), None, "t");
    let empty = snap(Some(""), Some("W"), None, "t");
    assert!(!build_focus_semantic_key(&absent).equals(&build_focus_semantic_key(&empty)));
}

#[test]
fn key_extracts_the_observed_fields() {
    let s = snap(Some("app"), Some("win"), Some((Some("tab"), None)), "t");
    let k = build_focus_semantic_key(&s);
    assert_eq!(k.application.as_deref(), Some("app"));
    assert_eq!(k.window.as_deref(), Some("win"));
    assert_eq!(k.tab_title.as_deref(), Some("tab"));
    assert_eq!(k.tab_url, None);
    assert!(matches!(k.confidence, FocusConfidenceLevel::High));
}

#[test]
fn single_change_emits_exactly_once_within_debounce_plus_poll() {
    let mut w = FocusWatcherState::new(0);
    let first = snap(Some("chrome"), Some("W"), None, "t0");
    let again = snap(Some("chrome"), Some("W"), None, "t1");

    // the change is staged, not yet delivered
    assert!(w.poll_cycle(&first, 0, true).is_none());
    // one poll interval later the key has stabilized: exactly one delivery
    let emitted = w.poll_cycle(&again, POLL_INTERVAL_MS, true).expect("one emission is owed");
    // what is delivered is the first staged snapshot
    assert_eq!(emitted.captured_at, "t0");
    // the same key never re-emits
    assert!(w.poll_cycle(&again, 2 * POLL_INTERVAL_MS, true).is_none());
    assert!(w.poll_cycle(&first, 3 * POLL_INTERVAL_MS, true).is_none());
}

#[test]
fn oscillating_key_never_emits() {
    let mut w = FocusWatcherState::new(0);
    let a = snap(Some("chrome"), Some("A"), None, "t");
    let b = snap(Some("chrome"), Some("B"), None, "t");
    let mut now = 0u64;
    for _ in 0..20 {
        assert!(w.poll_cycle(&a, now, true).is_none());
        now += 10;
        assert!(w.poll_cycle(&b, now, true).is_none());
        now += 10;
    }
}

#[test]
fn no_emission_before_the_debounce_window_elapses() {
    let mut w = FocusWatcherState::new(0);
    let a = snap(Some("app"), None, None, "t");
    assert!(w.poll_cycle(&a, 0, true).is_none());
    assert!(w.poll_cycle(&a, DEBOUNCE_WINDOW_MS - 1, true).is_none());
    assert!(w.poll_cycle(&a, DEBOUNCE_WINDOW_MS, true).is_some());
}

#[test]
fn failed_delivery_is_dropped_then_retriggered_by_the_still_changed_key() {
    let mut w = FocusWatcherState::new(0);
    let a = snap(Some("app"), None, None, "t");
    assert!(w.poll_cycle(&a, 0, true).is_none());
    // the sink rejects: the attempt is handed out but not recorded
    assert!(w.poll_cycle(&a, 300, false).is_some());
    // the key still differs from the last emitted one, so it is staged anew
    assert!(w.poll_cycle(&a, 600, true).is_none());
    assert!(w.poll_cycle(&a, 900, true).is_some());
    // after a recorded delivery it stays quiet
    assert!(w.poll_cycle(&a, 1200, true).is_none());
}

#[test]
fn flicker_back_to_the_emitted_key_cancels_the_staged_snapshot() {
    let mut w = FocusWatcherState::new(0);
    let a = snap(Some("a"), None, None, "t");
    let b = snap(Some("b"), None, None, "t");
    assert!(w.poll_cycle(&a, 0, true).is_none());
    assert!(w.poll_cycle(&a, 250, true).is_some());
    // a one-poll flicker to b, back to a before b's window elapses
    assert!(w.poll_cycle(&b, 500, true).is_none());
    assert!(w.poll_cycle(&a, 510, true).is_none());
    // a's key is the one last emitted: nothing further is delivered
    assert!(w.poll_cycle(&a, 800, true).is_none());
}

#[test]
fn stop_is_idempotent_and_shared_across_clones() {
    let handle = FocusWatcherHandle::new();
    assert!(!handle.should_stop());
    let clone = handle.clone();
    handle.stop();
    assert!(handle.should_stop());
    assert!(clone.should_stop());
    handle.stop();
    clone.stop();
    assert!(handle.should_stop());
}

#[test]
fn fresh_handles_are_independent() {
    let one = FocusWatcherHandle::new();
    let two = FocusWatcherHandle::new();
    one.stop();
    assert!(one.should_stop());
    assert!(!two.should_stop());
}
