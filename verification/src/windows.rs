//! The Windows-style backend: the embedding program resolves the foreground
//! window's title and owning process path; this module holds the verified
//! composition of those results into a snapshot — display-name extraction
//! and browser-tab inference included — and the backend's capability
//! descriptor.

use vstd::prelude::*;

use crate::focus::FocusConfidenceLevel;
use crate::focus::FocusContextSnapshot;
use crate::focus::FocusEventSource;
use crate::focus::FocusTrackingCapabilities;
use crate::focus::FocusedApplication;
use crate::focus::FocusedWindow;
use crate::focus::respects_capabilities;
use crate::heuristic::get_application_display_name;
use crate::heuristic::infer_browser_tab;
use crate::heuristic::spec_display_name;
use crate::heuristic::spec_infer_browser_tab;
use crate::heuristic::view_opt_tab;
use crate::timestamp::is_rfc3339_utc;
use crate::timestamp::now_rfc3339;

verus! {

/// Capabilities of the Windows-style backend: everything but
/// private-browsing detection.
pub open spec fn spec_windows_capabilities() -> FocusTrackingCapabilities {
    FocusTrackingCapabilities {
        supports_focused_application_detection: true,
        supports_focused_window_detection: true,
        supports_focused_browser_tab_detection: true,
        supports_realtime_event_streaming: true,
        supports_private_browsing_detection: false,
    }
}

/// Confidence of a snapshot of this backend, following the data-model
/// invariant: high only when both the window title and the owning
/// application were resolved, low whenever the application is absent,
/// medium in the remaining case.
pub open spec fn spec_windows_confidence(
    window_found: bool,
    window_title: Option<String>,
    process_path: Option<String>,
) -> FocusConfidenceLevel {
    if !window_found || process_path is None {
        FocusConfidenceLevel::Low
    } else if window_title is Some {
        FocusConfidenceLevel::High
    } else {
        FocusConfidenceLevel::Medium
    }
}

/// The window-title rule at the query edge: a reported title is carried
/// over as it stands, and an empty one degrades to absent.
pub fn window_title_from_text(title: String) -> (r: Option<String>)
    ensures
        r == (if title@.len() == 0 {
            None::<String>
        } else {
            Some(title)
        }),
{
    if title.as_str().is_empty() {
        None
    } else {
        Some(title)
    }
}

/// Shape of every snapshot this backend produces.
pub open spec fn windows_snapshot_shape(s: FocusContextSnapshot) -> bool {
    &&& s.event_source == FocusEventSource::Polling
    &&& s.privacy_filtered
    &&& is_rfc3339_utc(s.captured_at@)
}

/// Compose a snapshot from the foreground-window query's outcome: whether a
/// window handle was obtained, its title if any, and the owning process's
/// path if it could be read. Every absent input degrades the matching field
/// to absent; confidence reflects how much was resolved — high only with
/// both a window title and an owning application, low without an
/// application.
pub fn focus_context_from_window_query(
    window_found: bool,
    window_title: Option<String>,
    process_path: Option<String>,
) -> (s: FocusContextSnapshot)
    ensures
        windows_snapshot_shape(s),
        s.confidence_level == spec_windows_confidence(window_found, window_title, process_path),
        !window_found ==> s.focused_application is None && s.focused_window is None
            && s.focused_browser_tab is None,
        window_found ==> match process_path {
            Some(p) => s.focused_application matches Some(a) && a.display_name@
                == spec_display_name(p@) && a.bundle_id is None && a.process_path == Some(p),
            None => s.focused_application is None,
        },
        window_found ==> s.focused_window == (match window_title {
            Some(t) => Some(FocusedWindow { title: t }),
            None => None,
        }),
        window_found ==> match (window_title, process_path) {
            (Some(t), Some(p)) => view_opt_tab(s.focused_browser_tab) == spec_infer_browser_tab(
                t@,
                spec_display_name(p@),
            ),
            _ => s.focused_browser_tab is None,
        },
{
    if !window_found {
        return FocusContextSnapshot {
            focused_application: None,
            focused_window: None,
            focused_browser_tab: None,
            event_source: FocusEventSource::Polling,
            confidence_level: FocusConfidenceLevel::Low,
            privacy_filtered: true,
            captured_at: now_rfc3339(),
        };
    }
    let confidence_level = if process_path.is_none() {
        FocusConfidenceLevel::Low
    } else if window_title.is_some() {
        FocusConfidenceLevel::High
    } else {
        FocusConfidenceLevel::Medium
    };
    let focused_application = match &process_path {
        Some(p) => Some(
            FocusedApplication {
                display_name: get_application_display_name(p.as_str()),
                bundle_id: None,
                process_path: Some(p.clone()),
            },
        ),
        None => None,
    };
    let focused_window = match &window_title {
        Some(t) => Some(FocusedWindow { title: t.clone() }),
        None => None,
    };
    let focused_browser_tab = if let Some(t) = &window_title {
        if let Some(a) = &focused_application {
            infer_browser_tab(t.as_str(), a.display_name.as_str())
        } else {
            None
        }
    } else {
        None
    };
    FocusContextSnapshot {
        focused_application,
        focused_window,
        focused_browser_tab,
        event_source: FocusEventSource::Polling,
        confidence_level,
        privacy_filtered: true,
        captured_at: now_rfc3339(),
    }
}

/// The capability descriptor of the Windows-style backend.
pub fn get_focus_capabilities() -> (c: FocusTrackingCapabilities)
    ensures
        c == spec_windows_capabilities(),
{
    FocusTrackingCapabilities {
        supports_focused_application_detection: true,
        supports_focused_window_detection: true,
        supports_focused_browser_tab_detection: true,
        supports_realtime_event_streaming: true,
        supports_private_browsing_detection: false,
    }
}

/// Law: the Windows-style backend never populates a field whose capability
/// flag is false; with every detection capability present this holds of any
/// snapshot at all.
pub proof fn lemma_windows_respects_capabilities(s: FocusContextSnapshot)
    ensures
        respects_capabilities(s, spec_windows_capabilities()),
{
}

} // verus!
