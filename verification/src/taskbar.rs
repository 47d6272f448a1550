//! Taskbars as they are found on the desktop and as they are sent to the
//! shared store.

use crate::geometry::Rect;
use vstd::prelude::*;
use vstd::std_specs::convert::FromSpecImpl;

verus! {

/// A taskbar as found on the desktop.
#[derive(Debug)]
pub struct WindowsTaskbar {
    pub id: u32,
    pub rect: Rect,
    pub is_secondary: bool,
    pub apps: Vec<String>,
}

/// A taskbar as a row of the shared store: its corner and its size.
#[derive(Debug)]
pub struct Taskbar {
    pub id: u32,
    pub is_secondary: bool,
    pub x: i32,
    pub y: i32,
    pub width: u32,
    pub height: u32,
    pub apps: Vec<String>,
}

/// The taskbar number `index` of a scan, as it is found: its rectangle and
/// the texts of its buttons.
pub open spec fn found_taskbar(
    index: int,
    found: (Rect, Vec<String>),
    is_secondary: bool,
) -> WindowsTaskbar {
    WindowsTaskbar { id: index as u32, rect: found.0, is_secondary, apps: found.1 }
}

/// The taskbars of a scan: the primary ones first, then the secondary
/// ones, numbered from zero in that order.
pub fn get_taskbars(
    primary: Vec<(Rect, Vec<String>)>,
    secondary: Vec<(Rect, Vec<String>)>,
) -> (taskbars: Vec<WindowsTaskbar>)
    requires
        primary@.len() + secondary@.len() <= u32::MAX,
    ensures
        taskbars@.len() == primary@.len() + secondary@.len(),
        forall|i: int|
            0 <= i < primary@.len() ==> #[trigger] taskbars@[i] == found_taskbar(
                i,
                primary@[i],
                false,
            ),
        forall|j: int|
            0 <= j < secondary@.len() ==> #[trigger] taskbars@[primary@.len() + j]
                == found_taskbar(primary@.len() + j, secondary@[j], true),
{
    let mut taskbars: Vec<WindowsTaskbar> = Vec::new();
    let ghost first = primary@;
    let ghost second = secondary@;
    for found in it: primary
        invariant
            it.seq() == first,
            first.len() + second.len() <= u32::MAX,
            taskbars@.len() == it.index(),
            forall|i: int|
                0 <= i < taskbars@.len() ==> #[trigger] taskbars@[i] == found_taskbar(
                    i,
                    first[i],
                    false,
                ),
    {
        let id = taskbars.len() as u32;
        taskbars.push(WindowsTaskbar { id, rect: found.0, is_secondary: false, apps: found.1 });
    }
    for found in it: secondary
        invariant
            it.seq() == second,
            first.len() + second.len() <= u32::MAX,
            taskbars@.len() == first.len() + it.index(),
            forall|i: int|
                0 <= i < first.len() ==> #[trigger] taskbars@[i] == found_taskbar(
                    i,
                    first[i],
                    false,
                ),
            forall|j: int|
                0 <= j < it.index() ==> #[trigger] taskbars@[first.len() + j] == found_taskbar(
                    first.len() + j,
                    second[j],
                    true,
                ),
    {
        let id = taskbars.len() as u32;
        taskbars.push(WindowsTaskbar { id, rect: found.0, is_secondary: true, apps: found.1 });
    }
    taskbars
}

/// The distance from `low` to `high` as an unsigned 32-bit number: exact
/// where `low <= high`, and wrapped round where the edges are out of order.
pub open spec fn extent(low: i32, high: i32) -> u32 {
    if high >= low {
        (high - low) as u32
    } else {
        (high - low + 0x1_0000_0000) as u32
    }
}

/// The distance from `low` to `high`.
pub fn edge_distance(low: i32, high: i32) -> (d: u32)
    ensures
        d == extent(low, high),
{
    let diff: i64 = high as i64 - low as i64;
    if diff >= 0 {
        diff as u32
    } else {
        (diff + 0x1_0000_0000) as u32
    }
}

/// The row of a taskbar: its top left corner, its width and its height,
/// and the rest as it is.
pub open spec fn row_of(value: WindowsTaskbar) -> Taskbar {
    Taskbar {
        id: value.id,
        is_secondary: value.is_secondary,
        x: value.rect.left,
        y: value.rect.top,
        width: extent(value.rect.left, value.rect.right),
        height: extent(value.rect.top, value.rect.bottom),
        apps: value.apps,
    }
}

impl From<WindowsTaskbar> for Taskbar {
    fn from(value: WindowsTaskbar) -> (row: Taskbar) {
        Taskbar {
            id: value.id,
            is_secondary: value.is_secondary,
            x: value.rect.left,
            y: value.rect.top,
            width: edge_distance(value.rect.left, value.rect.right),
            height: edge_distance(value.rect.top, value.rect.bottom),
            apps: value.apps,
        }
    }
}

impl FromSpecImpl<WindowsTaskbar> for Taskbar {
    open spec fn obeys_from_spec() -> bool {
        true
    }

    open spec fn from_spec(value: WindowsTaskbar) -> Taskbar {
        row_of(value)
    }
}

/// The rows to send for the taskbars found: one for each, in order.
pub fn sync_taskbars(taskbars: Vec<WindowsTaskbar>) -> (rows: Vec<Taskbar>)
    ensures
        rows@.len() == taskbars@.len(),
        forall|i: int|
            0 <= i < rows@.len() ==> #[trigger] rows@[i] == row_of(taskbars@[i]),
{
    let mut rows: Vec<Taskbar> = Vec::new();
    for taskbar in it: taskbars
        invariant
            rows@.len() == it.index(),
            forall|i: int|
                0 <= i < rows@.len() ==> #[trigger] rows@[i] == row_of(it.seq()[i]),
    {
        rows.push(Taskbar::from(taskbar));
    }
    rows
}

/// The queries that a client subscribes to: all rows of the taskbar table.
pub fn subscribe_to_tables() -> (queries: Vec<&'static str>)
    ensures
        queries@.len() == 1,
        queries@[0]@ == "SELECT * FROM taskbar"@,
{
    let mut queries: Vec<&'static str> = Vec::new();
    queries.push("SELECT * FROM taskbar");
    queries
}

} // verus!
