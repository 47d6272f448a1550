//! The tracker: the registry together with the life cycle of its monitor.
//!
//! A tracker is seeded by one scan, then subscribes to change
//! notifications, applies them for as long as its event pump runs, and is
//! stopped by a quit signal to that pump. Each of these steps is a method
//! here. The caller makes the calls into the window system between them: it
//! enumerates, installs the hook, pumps, posts the signal and joins.

use crate::clock::{wall_clock_now, Timestamp};
use crate::event::{
    EnumerationResult, Observation, ObservationView, WinEvent, WM_QUIT,
};
use crate::registry::{entries_view, is_snapshot_of, Registry};
use crate::window_info::{WindowInfo, WindowInfoView};
use vstd::prelude::*;

verus! {

/// Where a tracker stands in its life.
#[derive(Clone, Copy, Debug, PartialEq, Eq, Structural)]
pub enum Phase {
    /// The first scan is under way; no hook is installed yet.
    Seeding,
    /// Seeded and subscribed: notifications are applied. The hook is held
    /// by the thread `thread_id`, which pumps the events.
    Running { hook: isize, thread_id: u32 },
    /// A quit signal was asked for; the pump has not ended yet.
    Stopping { hook: isize, thread_id: u32 },
    /// The pump has ended and the hook is released.
    Stopped,
    /// The hook could not be installed; the tracker never ran.
    Failed,
}

/// Why a tracker did not start.
#[derive(Clone, Copy, Debug, PartialEq, Eq, Structural)]
pub enum StartupError {
    /// The window system refused the hook.
    HookInstallFailed,
    /// The outcome of a hook installation was reported to a tracker that is
    /// past its seeding.
    AlreadyStarted,
}

/// What became of one notification.
#[derive(Clone, Copy, Debug, PartialEq, Eq, Structural)]
pub enum EventOutcome {
    /// The registry was left as it was.
    Ignored,
    /// The window was reported hidden and is forgotten.
    Removed,
    /// The window was reported visible and its state is recorded.
    Updated,
}

/// The message to post to end the pump of the monitor.
#[derive(Clone, Copy, Debug, PartialEq, Eq, Structural)]
pub struct QuitSignal {
    /// The thread whose queue the message goes to.
    pub thread_id: u32,
    /// The message.
    pub message: u32,
}

/// Whether a hook token names no hook.
pub open spec fn hook_is_invalid(hook: isize) -> bool {
    hook == 0 || hook == -1
}

/// The mathematical state of a tracker.
pub struct TrackerView {
    pub phase: Phase,
    pub windows: Map<isize, WindowInfoView>,
}

impl TrackerView {
    /// The state of a new tracker.
    pub open spec fn initial() -> TrackerView {
        TrackerView { phase: Phase::Seeding, windows: Map::empty() }
    }

    /// The scan reports one window: a visible one is recorded, a hidden one
    /// is passed over. Outside the seeding phase nothing is recorded.
    pub open spec fn seed(self, handle: isize, seen: ObservationView, at: Timestamp) -> TrackerView {
        if self.phase == Phase::Seeding && seen is Visible {
            TrackerView { windows: self.windows.insert(handle, seen.info_at(at)), ..self }
        } else {
            self
        }
    }

    /// The outcome of the hook installation is reported: with a valid hook
    /// a seeding tracker runs, with an invalid one it has failed.
    pub open spec fn hook_installed(self, hook: isize, thread_id: u32) -> TrackerView {
        if self.phase != Phase::Seeding {
            self
        } else if hook_is_invalid(hook) {
            TrackerView { phase: Phase::Failed, ..self }
        } else {
            TrackerView { phase: Phase::Running { hook, thread_id }, ..self }
        }
    }

    /// Notifications are applied while the pump runs.
    pub open spec fn accepts_events(self) -> bool {
        self.phase is Running || self.phase is Stopping
    }

    /// The hook that is installed, while one is.
    pub open spec fn hook(self) -> Option<isize> {
        match self.phase {
            Phase::Running { hook, .. } => Some(hook),
            Phase::Stopping { hook, .. } => Some(hook),
            _ => None,
        }
    }

    /// The thread that pumps the events, while one does.
    pub open spec fn thread_id(self) -> Option<u32> {
        match self.phase {
            Phase::Running { thread_id, .. } => Some(thread_id),
            Phase::Stopping { thread_id, .. } => Some(thread_id),
            _ => None,
        }
    }

    /// Whether a notification changes anything at all.
    pub open spec fn acts_on(self, event: WinEvent) -> bool {
        self.accepts_events() && event.concerns_window()
    }

    /// One notification arrives, with what the window system says of the
    /// window at that moment: a hidden window is forgotten, a visible one
    /// is recorded anew.
    pub open spec fn notify(self, event: WinEvent, seen: ObservationView, at: Timestamp) -> TrackerView {
        if !self.acts_on(event) {
            self
        } else if seen is Visible {
            TrackerView { windows: self.windows.insert(event.hwnd, seen.info_at(at)), ..self }
        } else {
            TrackerView { windows: self.windows.remove(event.hwnd), ..self }
        }
    }

    /// A stop is asked for.
    pub open spec fn stop(self) -> TrackerView {
        match self.phase {
            Phase::Running { hook, thread_id } => TrackerView {
                phase: Phase::Stopping { hook, thread_id },
                ..self
            },
            _ => self,
        }
    }

    /// The pump has ended.
    pub open spec fn pump_exited(self) -> TrackerView {
        if self.accepts_events() {
            TrackerView { phase: Phase::Stopped, ..self }
        } else {
            self
        }
    }

    /// What holds of every state that a tracker passes through: finitely
    /// many windows are tracked, and a hook that is held is a valid one.
    pub open spec fn well_formed(self) -> bool {
        &&& self.windows.dom().finite()
        &&& self.hook() matches Some(h) ==> !hook_is_invalid(h)
    }
}

/// Tracks the visible top-level windows of a desktop.
pub struct WindowTracker {
    registry: Registry,
    phase: Phase,
}

impl View for WindowTracker {
    type V = TrackerView;

    closed spec fn view(&self) -> TrackerView {
        TrackerView { phase: self.phase, windows: self.registry@ }
    }
}

impl WindowTracker {
    /// A tracker that is yet to be seeded.
    pub fn new() -> (tracker: WindowTracker)
        ensures
            tracker@ == TrackerView::initial(),
    {
        WindowTracker { registry: Registry::new(), phase: Phase::Seeding }
    }

    /// The phase the tracker is in.
    pub fn phase(&self) -> (phase: Phase)
        ensures
            phase == self@.phase,
    {
        self.phase
    }

    /// The thread that pumps the events, while one does.
    pub fn thread_id(&self) -> (id: Option<u32>)
        ensures
            id == self@.thread_id(),
    {
        match self.phase {
            Phase::Running { thread_id, .. } => Some(thread_id),
            Phase::Stopping { thread_id, .. } => Some(thread_id),
            _ => None,
        }
    }

    /// Whether the pump runs, so that notifications are applied.
    pub fn accepts_events(&self) -> (b: bool)
        ensures
            b == self@.accepts_events(),
    {
        match self.phase {
            Phase::Running { .. } => true,
            Phase::Stopping { .. } => true,
            _ => false,
        }
    }

    /// Whether the phase is the first one.
    pub fn is_seeding(&self) -> (b: bool)
        ensures
            b == (self@.phase == Phase::Seeding),
    {
        match self.phase {
            Phase::Seeding => true,
            _ => false,
        }
    }

    /// A copy of the state of every tracked window, one entry per window.
    pub fn windows(&self) -> (entries: Vec<(isize, WindowInfo)>)
        ensures
            is_snapshot_of(entries_view(entries@), self@.windows),
            self@.windows.dom().finite(),
            entries@.len() == self@.windows.dom().len(),
    {
        self.registry.snapshot()
    }

    /// The number of tracked windows.
    pub fn window_count(&self) -> (n: usize)
        ensures
            self@.windows.dom().finite(),
            n == self@.windows.dom().len(),
    {
        self.registry.len()
    }

    /// A copy of the state of one window, if it is tracked.
    pub fn window(&self, handle: isize) -> (found: Option<WindowInfo>)
        ensures
            match found {
                Some(info) => self@.windows.contains_key(handle) && info@ == self@.windows[handle],
                None => !self@.windows.contains_key(handle),
            },
    {
        self.registry.get(handle)
    }

    /// Takes one window of the first scan, observed at `at`. The scan always
    /// goes on.
    pub fn seed_window_at(&mut self, handle: isize, seen: Observation, at: Timestamp) -> (next:
        EnumerationResult)
        ensures
            final(self)@ == old(self)@.seed(handle, seen@, at),
            next == EnumerationResult::ContinueEnumeration,
    {
        if self.is_seeding() {
            if let Some(info) = seen.into_info(at) {
                self.registry.upsert(handle, info);
            }
        }
        EnumerationResult::ContinueEnumeration
    }

    /// Takes one window of the first scan, observed now.
    pub fn seed_window(&mut self, handle: isize, seen: Observation) -> (next: EnumerationResult)
        ensures
            exists|at: Timestamp| final(self)@ == old(self)@.seed(handle, seen@, at),
            next == EnumerationResult::ContinueEnumeration,
    {
        let at = wall_clock_now();
        self.seed_window_at(handle, seen, at)
    }

    /// Takes the outcome of the hook installation, made after the scan, on
    /// the thread `thread_id`. On `Ok` the tracker is ready: seeded and
    /// subscribed.
    pub fn hook_installed(&mut self, hook: isize, thread_id: u32) -> (started: Result<
        (),
        StartupError,
    >)
        ensures
            final(self)@ == old(self)@.hook_installed(hook, thread_id),
            started == if old(self)@.phase != Phase::Seeding {
                Err::<(), StartupError>(StartupError::AlreadyStarted)
            } else if hook_is_invalid(hook) {
                Err(StartupError::HookInstallFailed)
            } else {
                Ok(())
            },
    {
        if !self.is_seeding() {
            return Err(StartupError::AlreadyStarted);
        }
        if hook == 0 || hook == -1 {
            self.phase = Phase::Failed;
            return Err(StartupError::HookInstallFailed);
        }
        self.phase = Phase::Running { hook, thread_id };
        Ok(())
    }

    /// Whether a notification would be acted on. Where it would not, the
    /// window need not be queried.
    pub fn wants(&self, event: &WinEvent) -> (b: bool)
        ensures
            b == self@.acts_on(*event),
    {
        self.accepts_events() && event.is_window_change()
    }

    /// Applies one notification, with what the window system said of the
    /// window at `at`.
    pub fn handle_event_at(&mut self, event: &WinEvent, seen: Observation, at: Timestamp) -> (outcome:
        EventOutcome)
        ensures
            final(self)@ == old(self)@.notify(*event, seen@, at),
            outcome == if !old(self)@.acts_on(*event) {
                EventOutcome::Ignored
            } else if seen@ is Visible {
                EventOutcome::Updated
            } else {
                EventOutcome::Removed
            },
    {
        if !self.wants(event) {
            return EventOutcome::Ignored;
        }
        match seen.into_info(at) {
            Some(info) => {
                self.registry.upsert(event.hwnd, info);
                EventOutcome::Updated
            },
            None => {
                self.registry.remove(event.hwnd);
                EventOutcome::Removed
            },
        }
    }

    /// Applies one notification, with what the window system says of the
    /// window now.
    pub fn handle_event(&mut self, event: &WinEvent, seen: Observation) -> (outcome: EventOutcome)
        ensures
            exists|at: Timestamp| final(self)@ == old(self)@.notify(*event, seen@, at),
            outcome == if !old(self)@.acts_on(*event) {
                EventOutcome::Ignored
            } else if seen@ is Visible {
                EventOutcome::Updated
            } else {
                EventOutcome::Removed
            },
    {
        let at = wall_clock_now();
        self.handle_event_at(event, seen, at)
    }

    /// Asks the tracker to stop. The first call on a running tracker yields
    /// the signal to post to the pumping thread; any other call changes
    /// nothing and yields `None`.
    pub fn stop(&mut self) -> (signal: Option<QuitSignal>)
        ensures
            final(self)@ == old(self)@.stop(),
            signal == match old(self)@.phase {
                Phase::Running { thread_id, .. } => Some(
                    QuitSignal { thread_id, message: WM_QUIT },
                ),
                _ => None::<QuitSignal>,
            },
    {
        match self.phase {
            Phase::Running { hook, thread_id } => {
                self.phase = Phase::Stopping { hook, thread_id };
                Some(QuitSignal { thread_id, message: WM_QUIT })
            },
            _ => None,
        }
    }

    /// Tells the tracker that its pump has ended. Yields the hook to
    /// release, once.
    pub fn pump_exited(&mut self) -> (hook: Option<isize>)
        ensures
            final(self)@ == old(self)@.pump_exited(),
            hook == old(self)@.hook(),
    {
        match self.phase {
            Phase::Running { hook, .. } => {
                self.phase = Phase::Stopped;
                Some(hook)
            },
            Phase::Stopping { hook, .. } => {
                self.phase = Phase::Stopped;
                Some(hook)
            },
            _ => None,
        }
    }
}

} // verus!
