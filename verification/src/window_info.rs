//! What is remembered of one window.

use crate::clock::Timestamp;
use crate::geometry::Rect;
use vstd::prelude::*;
use vstd::std_specs::cmp::PartialEqSpecImpl;

verus! {

/// The last rectangle, title and observation time of a window. A field is
/// `None` where the window system could not tell it.
#[derive(Debug)]
pub struct WindowInfo {
    pub rect: Option<Rect>,
    pub title: Option<String>,
    pub timestamp: Timestamp,
}

/// The mathematical value of a [`WindowInfo`]: the title as a sequence of
/// characters.
pub struct WindowInfoView {
    pub rect: Option<Rect>,
    pub title: Option<Seq<char>>,
    pub timestamp: Timestamp,
}

/// The title of a window as a sequence of characters, or `None`.
pub open spec fn title_view(title: Option<String>) -> Option<Seq<char>> {
    match title {
        Some(s) => Some(s@),
        None => None,
    }
}

impl View for WindowInfo {
    type V = WindowInfoView;

    open spec fn view(&self) -> WindowInfoView {
        WindowInfoView {
            rect: self.rect,
            title: title_view(self.title),
            timestamp: self.timestamp,
        }
    }
}

impl WindowInfoView {
    /// Equal in rectangle and title; the observation times may differ.
    pub open spec fn same_content(self, other: WindowInfoView) -> bool {
        self.rect == other.rect && self.title == other.title
    }
}

/// A copy of an optional title.
pub fn clone_title(title: &Option<String>) -> (copy: Option<String>)
    ensures
        title_view(copy) == title_view(*title),
{
    match title {
        Some(s) => Some(s.clone()),
        None => None,
    }
}

/// Whether two optional titles hold the same characters.
pub fn titles_equal(a: &Option<String>, b: &Option<String>) -> (same: bool)
    ensures
        same == (title_view(*a) == title_view(*b)),
{
    match (a, b) {
        (Some(x), Some(y)) => *x == *y,
        (None, None) => true,
        _ => false,
    }
}

impl WindowInfo {
    pub fn new(rect: Option<Rect>, title: Option<String>, timestamp: Timestamp) -> (info: WindowInfo)
        ensures
            info@ == (WindowInfoView { rect, title: title_view(title), timestamp }),
    {
        WindowInfo { rect, title, timestamp }
    }
}

impl Clone for WindowInfo {
    fn clone(&self) -> (copy: WindowInfo)
        ensures
            copy@ == self@,
    {
        WindowInfo {
            rect: self.rect,
            title: clone_title(&self.title),
            timestamp: self.timestamp,
        }
    }
}

impl PartialEq for WindowInfo {
    fn eq(&self, other: &WindowInfo) -> (same: bool) {
        self.rect == other.rect && titles_equal(&self.title, &other.title)
            && self.timestamp == other.timestamp
    }
}

impl PartialEqSpecImpl for WindowInfo {
    open spec fn obeys_eq_spec() -> bool {
        true
    }

    open spec fn eq_spec(&self, other: &WindowInfo) -> bool {
        self@ == other@
    }
}

impl Eq for WindowInfo {}

} // verus!
