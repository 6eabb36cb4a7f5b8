//! The macOS-style backend: only the frontmost application can be resolved,
//! through a workspace-level query made by the embedding program; this module
//! holds the verified composition of its result into a snapshot, and the
//! backend's capability descriptor.

use vstd::prelude::*;
use vstd::string::StringExecFns;

use crate::focus::AppModel;
use crate::focus::FocusConfidenceLevel;
use crate::focus::FocusContextSnapshot;
use crate::focus::FocusEventSource;
use crate::focus::FocusTrackingCapabilities;
use crate::focus::FocusedApplication;
use crate::focus::respects_capabilities;
use crate::focus::view_opt_string;
use crate::timestamp::is_rfc3339_utc;
use crate::timestamp::now_rfc3339;

verus! {

/// What the workspace-level query could resolve about the frontmost
/// application: its localized name and bundle identifier, either of which
/// the OS may fail to report.
pub struct FrontmostApplication {
    pub display_name: Option<String>,
    pub bundle_id: Option<String>,
}

/// Capabilities of the macOS-style backend: applications and realtime
/// streaming only.
pub open spec fn spec_macos_capabilities() -> FocusTrackingCapabilities {
    FocusTrackingCapabilities {
        supports_focused_application_detection: true,
        supports_focused_window_detection: false,
        supports_focused_browser_tab_detection: false,
        supports_realtime_event_streaming: true,
        supports_private_browsing_detection: false,
    }
}

/// Shape of every snapshot this backend produces: no window or tab detail,
/// polling source, conservative low confidence, and a well-formed capture
/// time.
pub open spec fn macos_snapshot_shape(s: FocusContextSnapshot) -> bool {
    &&& s.focused_window is None
    &&& s.focused_browser_tab is None
    &&& s.event_source == FocusEventSource::Polling
    &&& s.confidence_level == FocusConfidenceLevel::Low
    &&& s.privacy_filtered
    &&& is_rfc3339_utc(s.captured_at@)
}

/// Compose a snapshot from the frontmost-application query's outcome. An
/// application without a reported name is shown as `Unknown`; a failed query
/// degrades the whole field to absent.
pub fn focus_context_from_frontmost(frontmost: Option<FrontmostApplication>) -> (s:
    FocusContextSnapshot)
    ensures
        macos_snapshot_shape(s),
        match frontmost {
            Some(f) => s@.application == Some(
                AppModel {
                    display_name: match f.display_name {
                        Some(n) => n@,
                        None => "Unknown"@,
                    },
                    bundle_id: view_opt_string(f.bundle_id),
                    process_path: None,
                },
            ),
            None => s.focused_application is None,
        },
{
    let focused_application = match frontmost {
        Some(f) => {
            let display_name = match f.display_name {
                Some(n) => n,
                None => String::from_str("Unknown"),
            };
            Some(
                FocusedApplication {
                    display_name,
                    bundle_id: f.bundle_id,
                    process_path: None,
                },
            )
        },
        None => None,
    };
    FocusContextSnapshot {
        focused_application,
        focused_window: None,
        focused_browser_tab: None,
        event_source: FocusEventSource::Polling,
        confidence_level: FocusConfidenceLevel::Low,
        privacy_filtered: true,
        captured_at: now_rfc3339(),
    }
}

/// The capability descriptor of the macOS-style backend.
pub fn get_focus_capabilities() -> (c: FocusTrackingCapabilities)
    ensures
        c == spec_macos_capabilities(),
{
    FocusTrackingCapabilities {
        supports_focused_application_detection: true,
        supports_focused_window_detection: false,
        supports_focused_browser_tab_detection: false,
        supports_realtime_event_streaming: true,
        supports_private_browsing_detection: false,
    }
}

/// Law: the macOS-style backend never populates a field whose capability
/// flag is false.
pub proof fn lemma_macos_respects_capabilities(s: FocusContextSnapshot)
    requires
        macos_snapshot_shape(s),
    ensures
        respects_capabilities(s, spec_macos_capabilities()),
{
}

} // verus!
