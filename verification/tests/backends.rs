use focus_watch::focus::FocusConfidenceLevel;
use focus_watch::focus::FocusContextSnapshot;
use focus_watch::focus::FocusEventSource;
use focus_watch::focus::FocusTrackingCapabilities;
use focus_watch::focus::get_current_focus_context;
use focus_watch::focus::get_focus_capabilities;
use focus_watch::macos;
use focus_watch::macos::FrontmostApplication;
use focus_watch::timestamp::is_valid_rfc3339_utc;
use focus_watch::windows;

/// RFC 3339 in UTC: year (4+ digits, sign allowed past four), `-MM-DDThh:mm:ss`,
/// an optional `.` fraction, and the offset `+00:00`.
fn looks_like_rfc3339_utc(s: &str) -> bool {
    let chars: Vec<char> = s.chars().collect();
    let t = match chars.iter().position(|&c| c == 'T') {
        Some(t) => t,
        None => return false,
    };
    if t < 10 || chars.len() < t + 15 {
        return false;
    }
    let year = &chars[..t - 6];
    let year_ok = year.iter().all(|c| c.is_ascii_digit()) || (year.len() >= 5
        && (year[0] == '+' || year[0] == '-')
        && year[1..].iter().all(|c| c.is_ascii_digit()));
    let body_ok = chars[t - 6] == '-'
        && chars[t - 5..t - 3].iter().all(|c| c.is_ascii_digit())
        && chars[t - 3] == '-'
        && chars[t - 2..t].iter().all(|c| c.is_ascii_digit())
        && chars[t + 1..t + 3].iter().all(|c| c.is_ascii_digit())
        && chars[t + 3] == ':'
        && chars[t + 4..t + 6].iter().all(|c| c.is_ascii_digit())
        && chars[t + 6] == ':'
        && chars[t + 7..t + 9].iter().all(|c| c.is_ascii_digit());
    let frac = &chars[t + 9..chars.len() - 6];
    let frac_ok = frac.is_empty()
        || (frac.len() >= 2 && frac[0] == '.' && frac[1..].iter().all(|c| c.is_ascii_digit()));
    let offset_ok = chars[chars.len() - 6..] == ['+', '0', '0', ':', '0', '0'];
    year_ok && body_ok && frac_ok && offset_ok
}

fn assert_respects(s: &FocusContextSnapshot, caps: &FocusTrackingCapabilities) {
    if !caps.supports_focused_application_detection {
        assert!(s.focused_application.is_none());
    }
    if !caps.supports_focused_window_detection {
        assert!(s.focused_window.is_none());
    }
    if !caps.supports_focused_browser_tab_detection {
        assert!(s.focused_browser_tab.is_none());
    }
}

#[test]
fn every_backend_timestamp_passes_the_verified_checker() {
    // would fail if the clock wrapper returned anything but RFC 3339 UTC text
    assert!(is_valid_rfc3339_utc(&get_current_focus_context().captured_at));
    assert!(is_valid_rfc3339_utc(
        &macos::focus_context_from_frontmost(None).captured_at
    ));
    assert!(is_valid_rfc3339_utc(
        &windows::focus_context_from_window_query(false, None, None).captured_at
    ));
}

#[test]
fn verified_checker_accepts_well_formed_texts() {
    assert!(is_valid_rfc3339_utc("2018-01-26T18:30:09.453+00:00"));
    assert!(is_valid_rfc3339_utc("2018-01-26T18:30:09+00:00"));
    assert!(is_valid_rfc3339_utc("+12018-01-26T18:30:09.453829+00:00"));
}

#[test]
fn verified_checker_rejects_malformed_texts() {
    assert!(!is_valid_rfc3339_utc(""));
    assert!(!is_valid_rfc3339_utc("2018-01-26 18:30:09+00:00"));
    assert!(!is_valid_rfc3339_utc("2018-01-26T18:30:09Z"));
    assert!(!is_valid_rfc3339_utc("2018-01-26T18:30:09-08:00"));
    assert!(!is_valid_rfc3339_utc("18-01-26T18:30:09+00:00"));
    assert!(!is_valid_rfc3339_utc("2018-01-26T18:30:09.+00:00"));
    assert!(!is_valid_rfc3339_utc("2018-13-26T18:30:0x+00:00"));
}

#[test]
fn fallback_query_degrades_every_field() {
    let s = get_current_focus_context();
    assert!(s.focused_application.is_none());
    assert!(s.focused_window.is_none());
    assert!(s.focused_browser_tab.is_none());
    assert!(matches!(s.event_source, FocusEventSource::Unknown));
    assert!(matches!(s.confidence_level, FocusConfidenceLevel::Low));
    assert!(s.privacy_filtered);
    assert!(looks_like_rfc3339_utc(&s.captured_at), "bad timestamp: {}", s.captured_at);
}

#[test]
fn fallback_capabilities_are_all_false() {
    let c = get_focus_capabilities();
    assert!(!c.supports_focused_application_detection);
    assert!(!c.supports_focused_window_detection);
    assert!(!c.supports_focused_browser_tab_detection);
    assert!(!c.supports_realtime_event_streaming);
    assert!(!c.supports_private_browsing_detection);
}

#[test]
fn fallback_respects_capabilities() {
    assert_respects(&get_current_focus_context(), &get_focus_capabilities());
}

#[test]
fn macos_capabilities() {
    let c = macos::get_focus_capabilities();
    assert!(c.supports_focused_application_detection);
    assert!(!c.supports_focused_window_detection);
    assert!(!c.supports_focused_browser_tab_detection);
    assert!(c.supports_realtime_event_streaming);
    assert!(!c.supports_private_browsing_detection);
}

#[test]
fn macos_snapshot_from_resolved_application() {
    let s = macos::focus_context_from_frontmost(Some(FrontmostApplication {
        display_name: Some(String::from("Safari")),
        bundle_id: Some(String::from("com.apple.Safari")),
    }));
    let app = s.focused_application.expect("application should be populated");
    assert_eq!(app.display_name, "Safari");
    assert_eq!(app.bundle_id.as_deref(), Some("com.apple.Safari"));
    assert_eq!(app.process_path, None);
    assert!(s.focused_window.is_none());
    assert!(s.focused_browser_tab.is_none());
    assert!(matches!(s.event_source, FocusEventSource::Polling));
    assert!(matches!(s.confidence_level, FocusConfidenceLevel::Low));
    assert!(s.privacy_filtered);
    assert!(looks_like_rfc3339_utc(&s.captured_at));
}

#[test]
fn macos_unnamed_application_shows_unknown() {
    let s = macos::focus_context_from_frontmost(Some(FrontmostApplication {
        display_name: None,
        bundle_id: None,
    }));
    assert_eq!(s.focused_application.unwrap().display_name, "Unknown");
}

#[test]
fn macos_failed_query_degrades_to_absent() {
    let s = macos::focus_context_from_frontmost(None);
    assert!(s.focused_application.is_none());
    assert!(matches!(s.confidence_level, FocusConfidenceLevel::Low));
}

#[test]
fn macos_respects_capabilities() {
    let s = macos::focus_context_from_frontmost(Some(FrontmostApplication {
        display_name: Some(String::from("Finder")),
        bundle_id: None,
    }));
    assert_respects(&s, &macos::get_focus_capabilities());
}

#[test]
fn windows_capabilities() {
    let c = windows::get_focus_capabilities();
    assert!(c.supports_focused_application_detection);
    assert!(c.supports_focused_window_detection);
    assert!(c.supports_focused_browser_tab_detection);
    assert!(c.supports_realtime_event_streaming);
    assert!(!c.supports_private_browsing_detection);
}

#[test]
fn windows_snapshot_with_window_title_and_path() {
    let s = windows::focus_context_from_window_query(
        true,
        Some(String::from("Example Page - Google Chrome")),
        Some(String::from("C:\\Program Files\\Google\\Chrome\\Application\\chrome.exe")),
    );
    let app = s.focused_application.expect("application should be populated");
    assert_eq!(app.display_name, "chrome");
    assert_eq!(app.bundle_id, None);
    assert_eq!(
        app.process_path.as_deref(),
        Some("C:\\Program Files\\Google\\Chrome\\Application\\chrome.exe")
    );
    assert_eq!(s.focused_window.unwrap().title, "Example Page - Google Chrome");
    let tab = s.focused_browser_tab.expect("tab should be inferred");
    assert_eq!(tab.title.as_deref(), Some("Example Page"));
    assert_eq!(tab.url, None);
    assert_eq!(tab.browser.as_deref(), Some("chrome"));
    assert!(matches!(s.event_source, FocusEventSource::Polling));
    assert!(matches!(s.confidence_level, FocusConfidenceLevel::High));
    assert!(looks_like_rfc3339_utc(&s.captured_at));
}

#[test]
fn windows_snapshot_without_window_is_all_absent_and_low() {
    let s = windows::focus_context_from_window_query(
        false,
        Some(String::from("ignored")),
        Some(String::from("ignored")),
    );
    assert!(s.focused_application.is_none());
    assert!(s.focused_window.is_none());
    assert!(s.focused_browser_tab.is_none());
    assert!(matches!(s.confidence_level, FocusConfidenceLevel::Low));
}

#[test]
fn windows_snapshot_with_window_but_no_process_path() {
    let s = windows::focus_context_from_window_query(
        true,
        Some(String::from("Some Window")),
        None,
    );
    assert!(s.focused_application.is_none());
    assert_eq!(s.focused_window.unwrap().title, "Some Window");
    assert!(s.focused_browser_tab.is_none());
    // an absent application always means low confidence
    assert!(matches!(s.confidence_level, FocusConfidenceLevel::Low));
}

#[test]
fn windows_snapshot_with_application_but_no_title_is_medium() {
    let s = windows::focus_context_from_window_query(
        true,
        None,
        Some(String::from("C:\\Windows\\notepad.exe")),
    );
    assert_eq!(s.focused_application.unwrap().display_name, "notepad");
    assert!(s.focused_window.is_none());
    assert!(s.focused_browser_tab.is_none());
    // the application resolved but the window title did not
    assert!(matches!(s.confidence_level, FocusConfidenceLevel::Medium));
}

#[test]
fn empty_window_title_degrades_to_absent() {
    assert_eq!(windows::window_title_from_text(String::new()), None);
    assert_eq!(
        windows::window_title_from_text(String::from("Editor")).as_deref(),
        Some("Editor")
    );
}

#[test]
fn windows_non_browser_window_has_no_tab() {
    let s = windows::focus_context_from_window_query(
        true,
        Some(String::from("readme.txt - Notepad")),
        Some(String::from("C:\\Windows\\notepad.exe")),
    );
    assert_eq!(s.focused_application.unwrap().display_name, "notepad");
    assert!(s.focused_browser_tab.is_none());
}
