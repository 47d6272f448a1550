//! A cache of the visible top-level windows of a desktop.
//!
//! The tracker keeps, for every window it believes to be visible, the last
//! rectangle, title and observation time. It is seeded by one full scan and
//! kept current by change notifications. The library holds the state and
//! every decision; the operating system calls are made by its caller.

pub mod clock;
pub mod event;
pub mod geometry;
pub mod laws;
pub mod registry;
pub mod render;
pub mod taskbar;
pub mod title;
pub mod tracker;
pub mod window_info;

pub use clock::Timestamp;
pub use event::{EnumerationResult, HookRequest, Observation, WinEvent};
pub use geometry::Rect;
pub use registry::Registry;
pub use tracker::{EventOutcome, Phase, QuitSignal, StartupError, WindowTracker};
pub use window_info::WindowInfo;
