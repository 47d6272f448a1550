//! The listing of the tracked windows as text, for diagnostics.

use crate::geometry::Rect;
use crate::registry::{entries_view, is_snapshot_of};
use crate::tracker::WindowTracker;
use crate::window_info::{title_view, WindowInfo, WindowInfoView};
use vstd::prelude::*;
use vstd::string::StringExecFns;

verus! {

/// The text that the `Debug` form of a `bevy_math::IRect` with the corners
/// `(left, top)` and `(right, bottom)` amounts to.
pub uninterp spec fn irect_debug_text(left: int, top: int, right: int, bottom: int) -> Seq<char>;

/// The text that the `Debug` form of an optional string amounts to.
pub uninterp spec fn title_debug_text(title: Option<Seq<char>>) -> Seq<char>;

/// Formats a rectangle as `bevy_math` does in `Debug`: the rectangle is
/// handed over as an `IRect` whose `min` is `(left, top)` and whose `max` is
/// `(right, bottom)`, the corners kept as they are. The result is named,
/// not spelled out.
#[verifier::external_body]
fn irect_debug(rect: &Rect) -> (text: String)
    ensures
        text@ == irect_debug_text(
            rect.left as int,
            rect.top as int,
            rect.right as int,
            rect.bottom as int,
        ),
{
    let min = bevy_math::prelude::IVec2::new(rect.left, rect.top);
    let max = bevy_math::prelude::IVec2::new(rect.right, rect.bottom);
    format!("{:?}", bevy_math::prelude::IRect { min, max })
}

/// Formats an optional title as std does in `Debug`: `None`, or `Some` of
/// the title in quotes with its escapes. The result is named, not spelled
/// out.
#[verifier::external_body]
fn title_debug(title: &Option<String>) -> (text: String)
    ensures
        text@ == title_debug_text(title_view(*title)),
{
    format!("{:?}", title)
}

/// The upper-case hexadecimal digit of a value below sixteen.
pub open spec fn hex_digit(d: int) -> char
    recommends
        0 <= d < 16,
{
    if d == 0 {
        '0'
    } else if d == 1 {
        '1'
    } else if d == 2 {
        '2'
    } else if d == 3 {
        '3'
    } else if d == 4 {
        '4'
    } else if d == 5 {
        '5'
    } else if d == 6 {
        '6'
    } else if d == 7 {
        '7'
    } else if d == 8 {
        '8'
    } else if d == 9 {
        '9'
    } else if d == 10 {
        'A'
    } else if d == 11 {
        'B'
    } else if d == 12 {
        'C'
    } else if d == 13 {
        'D'
    } else if d == 14 {
        'E'
    } else {
        'F'
    }
}

/// A number in upper-case hexadecimal, without leading zeros.
pub open spec fn hex_digits(n: nat) -> Seq<char>
    decreases n,
{
    if n < 16 {
        seq![hex_digit(n as int)]
    } else {
        hex_digits(n / 16).push(hex_digit((n % 16) as int))
    }
}

/// The bit pattern of a handle, read as an unsigned number: a negative
/// handle stands for its two's complement in the width of the machine.
pub open spec fn handle_bits(handle: isize) -> nat {
    if handle >= 0 {
        handle as nat
    } else {
        (handle + 2 * (isize::MAX + 1)) as nat
    }
}

/// A handle in upper-case hexadecimal.
pub open spec fn handle_hex(handle: isize) -> Seq<char> {
    hex_digits(handle_bits(handle))
}

/// The position column of a line: the rectangle in parentheses, or
/// `unknown`.
pub open spec fn position_text(rect: Option<Rect>) -> Seq<char> {
    match rect {
        Some(r) => "("@ + irect_debug_text(
            r.left as int,
            r.top as int,
            r.right as int,
            r.bottom as int,
        ) + ")"@,
        None => "unknown"@,
    }
}

/// A line of the listing from its three columns.
pub open spec fn line_of(handle_hex: Seq<char>, position: Seq<char>, title: Seq<char>) -> Seq<char> {
    "HWND: 0x"@ + handle_hex + ", Pos: "@ + position + ", Title: "@ + title + "\n"@
}

/// The line of one window.
pub open spec fn entry_line(handle: isize, info: WindowInfoView) -> Seq<char> {
    line_of(handle_hex(handle), position_text(info.rect), title_debug_text(info.title))
}

/// The heading of the listing.
pub open spec fn heading() -> Seq<char> {
    "-- Window List --\n"@
}

/// The listing: the heading, then one line for each entry, in order.
pub open spec fn listing(entries: Seq<(isize, WindowInfoView)>) -> Seq<char>
    decreases entries.len(),
{
    if entries.len() == 0 {
        heading()
    } else {
        listing(entries.drop_last()) + entry_line(entries.last().0, entries.last().1)
    }
}

fn hex_digit_text(d: usize) -> (text: &'static str)
    requires
        d < 16,
    ensures
        text@ == seq![hex_digit(d as int)],
{
    proof {
        reveal_strlit("0");
        reveal_strlit("1");
        reveal_strlit("2");
        reveal_strlit("3");
        reveal_strlit("4");
        reveal_strlit("5");
        reveal_strlit("6");
        reveal_strlit("7");
        reveal_strlit("8");
        reveal_strlit("9");
        reveal_strlit("A");
        reveal_strlit("B");
        reveal_strlit("C");
        reveal_strlit("D");
        reveal_strlit("E");
        reveal_strlit("F");
    }
    let text = match d {
        0 => "0",
        1 => "1",
        2 => "2",
        3 => "3",
        4 => "4",
        5 => "5",
        6 => "6",
        7 => "7",
        8 => "8",
        9 => "9",
        10 => "A",
        11 => "B",
        12 => "C",
        13 => "D",
        14 => "E",
        _ => "F",
    };
    assert(text@ =~= seq![hex_digit(d as int)]);
    text
}

/// A number in upper-case hexadecimal, without leading zeros.
pub fn to_upper_hex(n: usize) -> (text: String)
    ensures
        text@ == hex_digits(n as nat),
    decreases n,
{
    if n < 16 {
        String::from_str(hex_digit_text(n))
    } else {
        let mut text = to_upper_hex(n / 16);
        text.append(hex_digit_text(n % 16));
        text
    }
}

/// A handle in upper-case hexadecimal, a negative one as its two's
/// complement.
pub fn handle_to_hex(handle: isize) -> (text: String)
    ensures
        text@ == handle_hex(handle),
{
    let bits: usize = if handle >= 0 {
        handle as usize
    } else {
        (handle - isize::MIN) as usize + (isize::MAX as usize) + 1
    };
    to_upper_hex(bits)
}

/// The position column for a rectangle already formatted, or for none.
pub fn format_position(rect_text: Option<&str>) -> (text: String)
    ensures
        text@ == match rect_text {
            Some(t) => "("@ + t@ + ")"@,
            None => "unknown"@,
        },
{
    match rect_text {
        Some(t) => {
            let mut text = String::from_str("(");
            text.append(t);
            text.append(")");
            text
        },
        None => String::from_str("unknown"),
    }
}

/// A line of the listing from its three columns.
pub fn format_line(handle_hex: &str, position: &str, title: &str) -> (line: String)
    ensures
        line@ == line_of(handle_hex@, position@, title@),
{
    let mut line = String::from_str("HWND: 0x");
    line.append(handle_hex);
    line.append(", Pos: ");
    line.append(position);
    line.append(", Title: ");
    line.append(title);
    line.append("\n");
    line
}

/// The line of one window.
pub fn render_entry(handle: isize, info: &WindowInfo) -> (line: String)
    ensures
        line@ == entry_line(handle, info@),
{
    let hex = handle_to_hex(handle);
    let position = match &info.rect {
        Some(r) => {
            let debug = irect_debug(r);
            format_position(Some(debug.as_str()))
        },
        None => format_position(None),
    };
    let title = title_debug(&info.title);
    format_line(hex.as_str(), position.as_str(), title.as_str())
}

/// The listing of `entries`: the heading, then a line for each entry, in
/// order.
pub fn render_entries(entries: &Vec<(isize, WindowInfo)>) -> (text: String)
    ensures
        text@ == listing(entries_view(entries@)),
{
    let mut text = String::from_str("-- Window List --\n");
    let ghost shown = entries_view(entries@);
    assert(shown.take(0) =~= Seq::<(isize, WindowInfoView)>::empty());
    let mut i: usize = 0;
    while i < entries.len()
        invariant
            0 <= i <= entries.len(),
            shown == entries_view(entries@),
            text@ == listing(shown.take(i as int)),
        decreases entries.len() - i,
    {
        let line = render_entry(entries[i].0, &entries[i].1);
        text.append(line.as_str());
        proof {
            let next = shown.take(i + 1);
            assert(next.drop_last() =~= shown.take(i as int));
            assert(next.last() == shown[i as int]);
        }
        i += 1;
    }
    assert(shown.take(i as int) =~= shown);
    text
}

impl WindowTracker {
    /// The listing of the tracked windows: the heading, then one line for
    /// each window, in the order of a snapshot.
    pub fn render(&self) -> (text: String)
        ensures
            exists|entries: Seq<(isize, WindowInfoView)>|
                is_snapshot_of(entries, self@.windows) && text@ == listing(entries),
    {
        let entries = self.windows();
        render_entries(&entries)
    }
}

} // verus!
