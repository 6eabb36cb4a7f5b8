//! The uniform focus-snapshot model shared by every backend: which
//! application, window and browser tab hold OS input focus, how the
//! information was obtained, and how much of it could be resolved.

use vstd::prelude::*;

use crate::timestamp::is_rfc3339_utc;
use crate::timestamp::now_rfc3339;

verus! {

/// How a snapshot was obtained.
#[derive(Debug, Clone, Copy, PartialEq, Eq, Structural)]
pub enum FocusEventSource {
    Polling,
    Accessibility,
    Uia,
    Unknown,
}

/// Qualitative reliability of a snapshot: `High` only when both window and
/// application were resolved, `Low` when the application is absent.
#[derive(Debug, Clone, Copy, PartialEq, Eq, Structural)]
pub enum FocusConfidenceLevel {
    High,
    Medium,
    Low,
}

/// The application that currently holds input focus.
#[derive(Debug, Clone, PartialEq, Eq)]
pub struct FocusedApplication {
    pub display_name: String,
    pub bundle_id: Option<String>,
    pub process_path: Option<String>,
}

/// The window that currently holds input focus.
#[derive(Debug, Clone, PartialEq, Eq)]
pub struct FocusedWindow {
    pub title: String,
}

/// A probable browser tab, inferred from the window title; `url` is never
/// resolved from a title alone and stays absent.
#[derive(Debug, Clone, PartialEq, Eq)]
pub struct FocusedBrowserTab {
    pub title: Option<String>,
    pub url: Option<String>,
    pub browser: Option<String>,
}

/// One total, never-failing observation of the current focus state.
/// Every field a backend cannot resolve degrades to absent.
#[derive(Debug, Clone, PartialEq, Eq)]
pub struct FocusContextSnapshot {
    pub focused_application: Option<FocusedApplication>,
    pub focused_window: Option<FocusedWindow>,
    pub focused_browser_tab: Option<FocusedBrowserTab>,
    pub event_source: FocusEventSource,
    pub confidence_level: FocusConfidenceLevel,
    pub privacy_filtered: bool,
    pub captured_at: String,
}

/// Static declaration of which focus-detail categories a backend can populate.
#[derive(Debug, Clone, Copy, PartialEq, Eq, Structural)]
pub struct FocusTrackingCapabilities {
    pub supports_focused_application_detection: bool,
    pub supports_focused_window_detection: bool,
    pub supports_focused_browser_tab_detection: bool,
    pub supports_realtime_event_streaming: bool,
    pub supports_private_browsing_detection: bool,
}

/// Mathematical model of an optional string: the character sequence, if any.
pub open spec fn view_opt_string(o: Option<String>) -> Option<Seq<char>> {
    match o {
        Some(s) => Some(s@),
        None => None,
    }
}

#[verifier::ext_equal]
pub struct AppModel {
    pub display_name: Seq<char>,
    pub bundle_id: Option<Seq<char>>,
    pub process_path: Option<Seq<char>>,
}

#[verifier::ext_equal]
pub struct WindowModel {
    pub title: Seq<char>,
}

#[verifier::ext_equal]
pub struct TabModel {
    pub title: Option<Seq<char>>,
    pub url: Option<Seq<char>>,
    pub browser: Option<Seq<char>>,
}

#[verifier::ext_equal]
pub struct SnapshotModel {
    pub application: Option<AppModel>,
    pub window: Option<WindowModel>,
    pub tab: Option<TabModel>,
    pub event_source: FocusEventSource,
    pub confidence_level: FocusConfidenceLevel,
    pub privacy_filtered: bool,
    pub captured_at: Seq<char>,
}

impl View for FocusedApplication {
    type V = AppModel;

    open spec fn view(&self) -> AppModel {
        AppModel {
            display_name: self.display_name@,
            bundle_id: view_opt_string(self.bundle_id),
            process_path: view_opt_string(self.process_path),
        }
    }
}

impl View for FocusedWindow {
    type V = WindowModel;

    open spec fn view(&self) -> WindowModel {
        WindowModel { title: self.title@ }
    }
}

impl View for FocusedBrowserTab {
    type V = TabModel;

    open spec fn view(&self) -> TabModel {
        TabModel {
            title: view_opt_string(self.title),
            url: view_opt_string(self.url),
            browser: view_opt_string(self.browser),
        }
    }
}

impl View for FocusContextSnapshot {
    type V = SnapshotModel;

    open spec fn view(&self) -> SnapshotModel {
        SnapshotModel {
            application: match self.focused_application {
                Some(a) => Some(a@),
                None => None,
            },
            window: match self.focused_window {
                Some(w) => Some(w@),
                None => None,
            },
            tab: match self.focused_browser_tab {
                Some(t) => Some(t@),
                None => None,
            },
            event_source: self.event_source,
            confidence_level: self.confidence_level,
            privacy_filtered: self.privacy_filtered,
            captured_at: self.captured_at@,
        }
    }
}

/// A snapshot respects a capability descriptor when no field is populated
/// whose capability flag is false.
pub open spec fn respects_capabilities(
    s: FocusContextSnapshot,
    caps: FocusTrackingCapabilities,
) -> bool {
    &&& !caps.supports_focused_application_detection ==> s.focused_application is None
    &&& !caps.supports_focused_window_detection ==> s.focused_window is None
    &&& !caps.supports_focused_browser_tab_detection ==> s.focused_browser_tab is None
}

/// Capabilities of the fallback backend used on unsupported platforms:
/// nothing can be detected.
pub open spec fn spec_unsupported_capabilities() -> FocusTrackingCapabilities {
    FocusTrackingCapabilities {
        supports_focused_application_detection: false,
        supports_focused_window_detection: false,
        supports_focused_browser_tab_detection: false,
        supports_realtime_event_streaming: false,
        supports_private_browsing_detection: false,
    }
}

/// Shape of every snapshot the fallback backend produces: all fields absent,
/// an unknown source, low confidence, and a well-formed capture time.
pub open spec fn unsupported_snapshot_shape(s: FocusContextSnapshot) -> bool {
    &&& s.focused_application is None
    &&& s.focused_window is None
    &&& s.focused_browser_tab is None
    &&& s.event_source == FocusEventSource::Unknown
    &&& s.confidence_level == FocusConfidenceLevel::Low
    &&& s.privacy_filtered
    &&& is_rfc3339_utc(s.captured_at@)
}

/// The fallback focus query for platforms without a native backend: total,
/// never failing, every field degraded to absent.
pub fn get_current_focus_context() -> (s: FocusContextSnapshot)
    ensures
        unsupported_snapshot_shape(s),
{
    FocusContextSnapshot {
        focused_application: None,
        focused_window: None,
        focused_browser_tab: None,
        event_source: FocusEventSource::Unknown,
        confidence_level: FocusConfidenceLevel::Low,
        privacy_filtered: true,
        captured_at: now_rfc3339(),
    }
}

/// The capability descriptor of the fallback backend.
pub fn get_focus_capabilities() -> (c: FocusTrackingCapabilities)
    ensures
        c == spec_unsupported_capabilities(),
{
    FocusTrackingCapabilities {
        supports_focused_application_detection: false,
        supports_focused_window_detection: false,
        supports_focused_browser_tab_detection: false,
        supports_realtime_event_streaming: false,
        supports_private_browsing_detection: false,
    }
}

/// Law: the fallback backend never populates a field whose capability flag
/// is false.
pub proof fn lemma_unsupported_respects_capabilities(s: FocusContextSnapshot)
    requires
        unsupported_snapshot_shape(s),
    ensures
        respects_capabilities(s, spec_unsupported_capabilities()),
{
}

/// Copy an optional string, keeping the exact value.
pub fn clone_opt_string(o: &Option<String>) -> (r: Option<String>)
    ensures
        r == *o,
{
    match o {
        Some(s) => Some(s.clone()),
        None => None,
    }
}

impl FocusedApplication {
    /// An exact copy; unlike a derived clone, its contract pins the value.
    pub fn duplicate(&self) -> (r: Self)
        ensures
            r == *self,
    {
        FocusedApplication {
            display_name: self.display_name.clone(),
            bundle_id: clone_opt_string(&self.bundle_id),
            process_path: clone_opt_string(&self.process_path),
        }
    }
}

impl FocusedWindow {
    /// An exact copy; unlike a derived clone, its contract pins the value.
    pub fn duplicate(&self) -> (r: Self)
        ensures
            r == *self,
    {
        FocusedWindow { title: self.title.clone() }
    }
}

impl FocusedBrowserTab {
    /// An exact copy; unlike a derived clone, its contract pins the value.
    pub fn duplicate(&self) -> (r: Self)
        ensures
            r == *self,
    {
        FocusedBrowserTab {
            title: clone_opt_string(&self.title),
            url: clone_opt_string(&self.url),
            browser: clone_opt_string(&self.browser),
        }
    }
}

impl FocusContextSnapshot {
    /// An exact copy; unlike a derived clone, its contract pins the value.
    pub fn duplicate(&self) -> (r: Self)
        ensures
            r == *self,
    {
        FocusContextSnapshot {
            focused_application: match &self.focused_application {
                Some(a) => Some(a.duplicate()),
                None => None,
            },
            focused_window: match &self.focused_window {
                Some(w) => Some(w.duplicate()),
                None => None,
            },
            focused_browser_tab: match &self.focused_browser_tab {
                Some(t) => Some(t.duplicate()),
                None => None,
            },
            event_source: self.event_source,
            confidence_level: self.confidence_level,
            privacy_filtered: self.privacy_filtered,
            captured_at: self.captured_at.clone(),
        }
    }
}

} // verus!
