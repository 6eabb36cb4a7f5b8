//! Cross-platform focus tracking: a uniform snapshot of which
//! application/window/browser tab holds OS input focus, per-platform
//! capability descriptors, a pure browser-tab heuristic, and a
//! polling/debounce watcher state machine that turns noisy periodic
//! samples into rate-limited change notifications.

pub mod audio;
pub mod focus;
pub mod heuristic;
pub mod macos;
pub mod text;
pub mod timestamp;
pub mod watcher;
pub mod windows;
