//! Change notifications and what the window system reports of a window.

use crate::geometry::Rect;
use crate::window_info::{title_view, WindowInfo, WindowInfoView};
use crate::clock::Timestamp;
use vstd::prelude::*;
use vstd::std_specs::convert::FromSpecImpl;

verus! {

/// Event class: a window was moved or resized.
pub const EVENT_OBJECT_LOCATIONCHANGE: u32 = 0x800B;

/// Event class: the title of a window changed.
pub const EVENT_OBJECT_NAMECHANGE: u32 = 0x800C;

/// Hook flag: the callback runs in the subscriber's own context.
pub const WINEVENT_OUTOFCONTEXT: u32 = 0;

/// Hook flag: events raised by the subscriber's own process are left out.
pub const WINEVENT_SKIPOWNPROCESS: u32 = 2;

/// The message that ends an event pump.
pub const WM_QUIT: u32 = 0x0012;

/// The handle that names no window.
pub const NULL_HANDLE: isize = 0;

/// One change notification, as the hook delivers it.
#[derive(Clone, Copy, Debug, PartialEq, Eq, Structural)]
pub struct WinEvent {
    /// The event class.
    pub event: u32,
    /// The window concerned.
    pub hwnd: isize,
    /// Zero when the event is about the window itself.
    pub id_object: i32,
    /// Zero when the event is about the object itself, not a part of it.
    pub id_child: i32,
}

impl WinEvent {
    /// The event tells of a change to a top-level window as a whole: the
    /// handle names a window, neither id points below the window, and the
    /// class is one of the two subscribed.
    pub open spec fn concerns_window(self) -> bool {
        &&& self.hwnd != NULL_HANDLE
        &&& self.id_object == 0
        &&& self.id_child == 0
        &&& (self.event == EVENT_OBJECT_LOCATIONCHANGE || self.event == EVENT_OBJECT_NAMECHANGE)
    }

    pub fn new(event: u32, hwnd: isize, id_object: i32, id_child: i32) -> (e: WinEvent)
        ensures
            e == (WinEvent { event, hwnd, id_object, id_child }),
    {
        WinEvent { event, hwnd, id_object, id_child }
    }

    /// Whether the event is to be acted on.
    pub fn is_window_change(&self) -> (b: bool)
        ensures
            b == self.concerns_window(),
    {
        if self.hwnd == NULL_HANDLE || self.id_object != 0 || self.id_child != 0 {
            return false;
        }
        self.event == EVENT_OBJECT_LOCATIONCHANGE || self.event == EVENT_OBJECT_NAMECHANGE
    }
}

/// What the window system says of a window at one moment.
#[derive(Debug)]
pub enum Observation {
    /// The window is not visible.
    Hidden,
    /// The window is visible. A field is `None` where its query failed.
    Visible { rect: Option<Rect>, title: Option<String> },
}

/// The mathematical value of an [`Observation`].
pub enum ObservationView {
    Hidden,
    Visible { rect: Option<Rect>, title: Option<Seq<char>> },
}

impl View for Observation {
    type V = ObservationView;

    open spec fn view(&self) -> ObservationView {
        match *self {
            Observation::Hidden => ObservationView::Hidden,
            Observation::Visible { rect, title } => ObservationView::Visible {
                rect,
                title: title_view(title),
            },
        }
    }
}

impl ObservationView {
    /// The state to record when a visible window is observed at `at`.
    pub open spec fn info_at(self, at: Timestamp) -> WindowInfoView
        recommends
            self is Visible,
    {
        WindowInfoView { rect: self->rect, title: self->title, timestamp: at }
    }
}

impl Observation {
    /// Whether the window was seen.
    pub fn is_visible(&self) -> (b: bool)
        ensures
            b == (self@ is Visible),
    {
        match self {
            Observation::Hidden => false,
            Observation::Visible { .. } => true,
        }
    }

    /// The state to record for a window observed at `at`, if it was seen.
    pub fn into_info(self, at: Timestamp) -> (info: Option<WindowInfo>)
        ensures
            match info {
                Some(i) => self@ is Visible && i@ == self@.info_at(at),
                None => self@ is Hidden,
            },
    {
        match self {
            Observation::Hidden => None,
            Observation::Visible { rect, title } => Some(WindowInfo { rect, title, timestamp: at }),
        }
    }
}

/// What the callback of a window enumeration answers.
#[derive(Clone, Copy, Debug, PartialEq, Eq, Structural)]
pub enum EnumerationResult {
    ContinueEnumeration,
    StopEnumeration,
}

impl From<EnumerationResult> for i32 {
    /// The truth value that the enumeration reads: non-zero to go on.
    fn from(result: EnumerationResult) -> (flag: i32) {
        match result {
            EnumerationResult::ContinueEnumeration => 1,
            EnumerationResult::StopEnumeration => 0,
        }
    }
}

impl FromSpecImpl<EnumerationResult> for i32 {
    open spec fn obeys_from_spec() -> bool {
        true
    }

    open spec fn from_spec(result: EnumerationResult) -> i32 {
        match result {
            EnumerationResult::ContinueEnumeration => 1i32,
            EnumerationResult::StopEnumeration => 0i32,
        }
    }
}

/// The subscription that the monitor asks of the window system.
#[derive(Clone, Copy, Debug, PartialEq, Eq, Structural)]
pub struct HookRequest {
    /// Lowest event class of the range subscribed.
    pub event_min: u32,
    /// Highest event class of the range subscribed.
    pub event_max: u32,
    /// Delivery flags.
    pub flags: u32,
}

impl HookRequest {
    /// Whether events of class `event` are delivered under this request.
    pub open spec fn covers(self, event: u32) -> bool {
        self.event_min <= event <= self.event_max
    }
}

/// The subscription of the monitor: exactly the two classes "location
/// changed" and "name changed", delivered out of context, without the
/// events of the monitor's own process.
pub fn hook_request() -> (req: HookRequest)
    ensures
        req == (HookRequest {
            event_min: EVENT_OBJECT_LOCATIONCHANGE,
            event_max: EVENT_OBJECT_NAMECHANGE,
            flags: WINEVENT_OUTOFCONTEXT | WINEVENT_SKIPOWNPROCESS,
        }),
        req.flags == 2,
        forall|event: u32|
            req.covers(event) <==> (event == EVENT_OBJECT_LOCATIONCHANGE || event
                == EVENT_OBJECT_NAMECHANGE),
{
    assert(0u32 | 2u32 == 2u32) by (bit_vector);
    HookRequest {
        event_min: EVENT_OBJECT_LOCATIONCHANGE,
        event_max: EVENT_OBJECT_NAMECHANGE,
        flags: WINEVENT_OUTOFCONTEXT | WINEVENT_SKIPOWNPROCESS,
    }
}

} // verus!
